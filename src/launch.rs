//! The decisions the viewer's launcher takes before any I/O: where the data comes
//! from, whether the requested ports collide, and which exit code a run ends with.
use vstd::prelude::*;
use vstd::string::StringSliceAdditionalSpecFns;

verus! {

/// The port of the websocket server that a web viewer talks to.
pub const DEFAULT_WS_SERVER_PORT: u16 = 9877;

/// The version of the Python interpreter that started the viewer.
#[derive(Clone, Debug, PartialEq, Eq)]
pub struct PythonVersion {
    pub major: u8,
    pub minor: u8,
    pub patch: u8,
    /// Such as `a1` or `rc2`, or empty.
    pub suffix: String,
}

/// Where the launcher was called from.
#[derive(Clone, Debug, PartialEq, Eq)]
pub enum CallSource {
    /// From the command line.
    Cli,
    /// From the Python SDK.
    Python(PythonVersion),
}

impl CallSource {
    pub fn is_python(&self) -> (r: bool)
        ensures
            r == (*self is Python),
    {
        match self {
            CallSource::Python(_) => true,
            CallSource::Cli => false,
        }
    }
}

/// Where the viewer reads its data from.
#[derive(Clone, Copy, Debug, PartialEq, Eq, Structural)]
pub enum DataSource {
    /// A recording file on disk.
    RecordingFile,
    /// A websocket server at the given address; `add_scheme` when the address names
    /// no scheme and the websocket one has to be put in front of it.
    WebSocket { add_scheme: bool },
    /// No address was given: host a server that SDKs can connect to.
    HostedServer,
}

pub open spec fn has_rrd_extension(b: Seq<u8>) -> bool {
    b.len() >= 4 && b.subrange(b.len() - 4, b.len() as int) == seq![46u8, 114u8, 114u8, 100u8]
}

pub open spec fn has_scheme_separator(b: Seq<u8>) -> bool {
    exists|i: int| 0 <= i && i + 3 <= b.len() && #[trigger] b[i] == 58u8 && b[i + 1] == 47u8 && b[i + 2] == 47u8
}

pub open spec fn data_source_for(url_or_path: Option<Seq<u8>>, path_exists: bool) -> DataSource {
    match url_or_path {
        None => DataSource::HostedServer,
        Some(b) => if path_exists || has_rrd_extension(b) {
            DataSource::RecordingFile
        } else {
            DataSource::WebSocket { add_scheme: !has_scheme_separator(b) }
        },
    }
}

fn ends_with_rrd(b: &[u8]) -> (r: bool)
    ensures
        r == has_rrd_extension(b@),
{
    let n = b.len();
    if n < 4 {
        return false;
    }
    let r = b[n - 4] == 46u8 && b[n - 3] == 114u8 && b[n - 2] == 114u8 && b[n - 1] == 100u8;
    proof {
        let tail = b@.subrange(n - 4, n as int);
        if r {
            assert(tail =~= seq![46u8, 114u8, 114u8, 100u8]);
        } else if tail == seq![46u8, 114u8, 114u8, 100u8] {
            assert(tail[0] == b@[n - 4] && tail[1] == b@[n - 3] && tail[2] == b@[n - 2] && tail[3] == b@[n - 1]);
        }
    }
    r
}

fn contains_scheme_separator(b: &[u8]) -> (r: bool)
    ensures
        r == has_scheme_separator(b@),
{
    let n = b.len();
    let mut i: usize = 0;
    while n >= 3 && i <= n - 3
        invariant
            n == b@.len(),
            i <= n,
            forall|j: int| 0 <= j < i && j + 3 <= n ==> !(#[trigger] b@[j] == 58u8 && b@[j + 1] == 47u8 && b@[j + 2] == 47u8),
        decreases n - i,
    {
        if b[i] == 58u8 && b[i + 1] == 47u8 && b[i + 2] == 47u8 {
            return true;
        }
        i = i + 1;
    }
    false
}

/// Decides where the data comes from: a recording file when the path exists on
/// disk (as the caller found) or ends in `.rrd`, otherwise a websocket server at
/// that address; with no address, a hosted server.
pub fn plan_data_source(url_or_path: Option<&str>, path_exists: bool) -> (r: DataSource)
    ensures
        r == data_source_for(
            match url_or_path {
                None => None,
                Some(s) => Some(s.spec_bytes()),
            },
            path_exists,
        ),
{
    match url_or_path {
        None => DataSource::HostedServer,
        Some(s) => {
            let b = s.as_bytes();
            if path_exists || ends_with_rrd(b) {
                DataSource::RecordingFile
            } else {
                DataSource::WebSocket { add_scheme: !contains_scheme_separator(b) }
            }
        },
    }
}

/// A web viewer started without an address hosts its own server, on the port of
/// the websocket server it would then also need: the two collide.
pub fn ws_port_conflict(has_url_or_path: bool, port: u16) -> (r: bool)
    ensures
        r == (!has_url_or_path && port == DEFAULT_WS_SERVER_PORT),
{
    !has_url_or_path && port == DEFAULT_WS_SERVER_PORT
}

/// How a run ended.
#[derive(Clone, Copy, Debug, PartialEq, Eq, Structural)]
pub enum RunOutcome {
    Success,
    /// The address was in use: another viewer is probably running.
    AddressInUse,
    Failure,
}

/// The exit code of a run: 0 on success, 1 when another instance holds the
/// address; any other failure is handed back to the caller as an error.
pub fn exit_code(outcome: RunOutcome) -> (r: Option<u8>)
    ensures
        outcome == RunOutcome::Success ==> r == Some(0u8),
        outcome == RunOutcome::AddressInUse ==> r == Some(1u8),
        outcome == RunOutcome::Failure ==> r is None,
{
    match outcome {
        RunOutcome::Success => Some(0),
        RunOutcome::AddressInUse => Some(1),
        RunOutcome::Failure => None,
    }
}

} // verus!
