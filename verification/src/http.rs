//! The bytes of the readiness check: the request that is sent and the
//! judgement of what comes back.

use vstd::prelude::*;
use vstd::string::StringSliceAdditionalSpecFns;
use vstd::utf8::encode_utf8;
use crate::config::Config;

verus! {

/// The decimal digits of `n`, most significant first, as ASCII.
pub open spec fn decimal(n: nat) -> Seq<u8>
    decreases n,
{
    if n < 10 {
        seq![(48 + n) as u8]
    } else {
        decimal(n / 10).push((48 + n % 10) as u8)
    }
}

/// The path as it is requested: with a leading slash put before it where it
/// has none.
pub open spec fn request_target(path: Seq<u8>) -> Seq<u8> {
    if path.len() > 0 && path[0] == 47 {
        path
    } else {
        seq![47u8] + path
    }
}

/// The readiness request: one `GET` of the path, with the host and port named
/// and the connection closed after the answer.
pub open spec fn request_bytes(host: Seq<u8>, port: u16, path: Seq<u8>) -> Seq<u8> {
    "GET ".spec_bytes() + request_target(path) + " HTTP/1.1\r\nHost: ".spec_bytes() + host
        + seq![58u8] + decimal(port as nat) + "\r\nConnection: close\r\n\r\n".spec_bytes()
}

/// Appends the decimal digits of `n`.
fn push_decimal(out: &mut Vec<u8>, n: u16)
    ensures
        final(out)@ == old(out)@ + decimal(n as nat),
    decreases n,
{
    if n < 10 {
        out.push(48 + n as u8);
        assert(out@ == old(out)@ + decimal(n as nat));
    } else {
        push_decimal(out, n / 10);
        out.push(48 + (n % 10) as u8);
        assert(out@ == old(out)@ + decimal(n as nat));
    }
}

/// Builds the readiness request for `host:port` and `path`.
pub fn readiness_request(host: &str, port: u16, path: &str) -> (request: Vec<u8>)
    ensures
        request@ == request_bytes(host.spec_bytes(), port, path.spec_bytes()),
{
    let mut out: Vec<u8> = Vec::new();
    out.extend_from_slice("GET ".as_bytes());
    let path_bytes = path.as_bytes();
    if !(path_bytes.len() > 0 && path_bytes[0] == 47) {
        out.push(47);
    }
    out.extend_from_slice(path_bytes);
    out.extend_from_slice(" HTTP/1.1\r\nHost: ".as_bytes());
    out.extend_from_slice(host.as_bytes());
    out.push(58);
    push_decimal(&mut out, port);
    out.extend_from_slice("\r\nConnection: close\r\n\r\n".as_bytes());
    out
}

/// The readiness request of a configuration: for its host, port and
/// readiness path, each as UTF-8.
pub open spec fn request_of(config: Config) -> Seq<u8> {
    request_bytes(encode_utf8(config.host@), config.port, encode_utf8(config.readiness_path@))
}

/// Builds the request that probes the backend described by `config`.
pub fn request_for(config: &Config) -> (request: Vec<u8>)
    ensures
        request@ == request_of(*config),
{
    readiness_request(config.host.as_str(), config.port, config.readiness_path.as_str())
}

/// Whether `byte` is an ASCII digit.
pub open spec fn is_digit(byte: u8) -> bool {
    48 <= byte <= 57
}

/// The status code of an HTTP response: the three digits that follow
/// `HTTP/x.y` and one space at its very beginning. `None` where the bytes do
/// not begin in that way.
pub open spec fn status_code(response: Seq<u8>) -> Option<nat> {
    if response.len() >= 12 && response.subrange(0, 5) == "HTTP/".spec_bytes() && is_digit(
        response[5],
    ) && response[6] == 46 && is_digit(response[7]) && response[8] == 32 && is_digit(response[9])
        && is_digit(response[10]) && is_digit(response[11]) {
        Some(((response[9] - 48) * 100 + (response[10] - 48) * 10 + (response[11] - 48)) as nat)
    } else {
        None
    }
}

/// Whether a response counts as a successful probe: it has a status code
/// from 200 to 299.
pub open spec fn is_success(response: Seq<u8>) -> bool {
    status_code(response) matches Some(code) && 200 <= code < 300
}

fn digit(byte: u8) -> (yes: bool)
    ensures
        yes == is_digit(byte),
{
    48 <= byte && byte <= 57
}

/// Reads the status code off the beginning of an HTTP response.
pub fn response_status(response: &[u8]) -> (code: Option<u16>)
    ensures
        code is Some <==> status_code(response@) is Some,
        code matches Some(c) ==> status_code(response@) == Some(c as nat),
{
    proof {
        reveal_strlit("HTTP/");
        vstd::string::is_ascii_spec_bytes("HTTP/");
    }
    if response.len() < 12 {
        return None;
    }
    let framed = response[0] == 72 && response[1] == 84 && response[2] == 84 && response[3] == 80
        && response[4] == 47 && digit(response[5]) && response[6] == 46 && digit(response[7])
        && response[8] == 32 && digit(response[9]) && digit(response[10]) && digit(response[11]);
    proof {
        let head = response@.subrange(0, 5);
        let want = "HTTP/".spec_bytes();
        assert(want.len() == 5);
        assert(want[0] == 72 && want[1] == 84 && want[2] == 84 && want[3] == 80 && want[4] == 47);
        if head == want {
            assert(head[0] == want[0] && head[1] == want[1] && head[2] == want[2] && head[3]
                == want[3] && head[4] == want[4]);
        }
        if response[0] == 72 && response[1] == 84 && response[2] == 84 && response[3] == 80
            && response[4] == 47 {
            assert(head =~= want);
        }
    }
    if !framed {
        return None;
    }
    let hundreds: u16 = (response[9] - 48) as u16;
    let tens: u16 = (response[10] - 48) as u16;
    let ones: u16 = (response[11] - 48) as u16;
    Some(hundreds * 100 + tens * 10 + ones)
}

/// Judges the answer to a readiness or health probe.
pub fn probe_succeeded(response: &[u8]) -> (success: bool)
    ensures
        success == is_success(response@),
{
    match response_status(response) {
        Some(code) => 200 <= code && code < 300,
        None => false,
    }
}

} // verus!
