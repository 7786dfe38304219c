//! Process handles and the outcome of a launch.

use vstd::prelude::*;

verus! {

/// Stands for exactly one OS process that the host has created.
///
/// The supervisor never looks inside a handle: it stores it, compares it and
/// hands it back in the actions that concern the process.
#[derive(Clone, Copy, Debug, PartialEq, Eq, Structural)]
pub struct ProcessHandle {
    pub id: u64,
}

/// Why a process could not be created.
#[derive(Clone, Copy, Debug, PartialEq, Eq, Structural)]
pub enum LaunchError {
    /// The configured executable does not exist.
    ExecutableNotFound,
    /// The configured working directory is not a usable directory.
    InvalidWorkingDirectory,
    /// The operating system refused to create the process.
    SpawnRefused,
}

/// What the host found out while trying to create the process.
#[derive(Clone, Copy, Debug, PartialEq, Eq, Structural)]
pub struct LaunchReport {
    /// The executable was found.
    pub executable_found: bool,
    /// The working directory exists and is a directory.
    pub working_dir_valid: bool,
    /// Identifier of the created process, if the operating system created one.
    pub spawned: Option<u64>,
}

/// The result of a launch as a function of what the host observed: a handle
/// when a process exists, otherwise the first reason in the order executable,
/// working directory, operating system.
pub open spec fn launch_result(report: LaunchReport) -> Result<ProcessHandle, LaunchError> {
    match report.spawned {
        Some(id) => Ok(ProcessHandle { id }),
        None => if !report.executable_found {
            Err(LaunchError::ExecutableNotFound)
        } else if !report.working_dir_valid {
            Err(LaunchError::InvalidWorkingDirectory)
        } else {
            Err(LaunchError::SpawnRefused)
        },
    }
}

/// Turns the host's observations of a launch into a handle or a launch error.
///
/// A process that exists is always handed out, so that it cannot be left
/// without an owner.
pub fn launch_outcome(report: LaunchReport) -> (result: Result<ProcessHandle, LaunchError>)
    ensures
        result == launch_result(report),
        result is Ok <==> report.spawned is Some,
{
    match report.spawned {
        Some(id) => Ok(ProcessHandle { id }),
        None => {
            if !report.executable_found {
                Err(LaunchError::ExecutableNotFound)
            } else if !report.working_dir_valid {
                Err(LaunchError::InvalidWorkingDirectory)
            } else {
                Err(LaunchError::SpawnRefused)
            }
        },
    }
}

} // verus!
