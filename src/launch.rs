//! Whether to start the backend, and with what.
use vstd::prelude::*;
use crate::locate::{Candidate, Resolution};

verus! {

/// The address on which the backend listens.
pub const BACKEND_HOST: &'static str = "127.0.0.1";

/// The port on which the backend listens.
pub const BACKEND_PORT: u16 = 9123;

/// The file that receives the backend's standard output.
pub const STDOUT_LOG: &'static str = "backend-stdout.log";

/// The file that receives the backend's standard error.
pub const STDERR_LOG: &'static str = "backend-stderr.log";

/// How the shell was built.
#[derive(Clone, Copy, Debug, PartialEq, Eq, Structural)]
pub enum BuildMode {
    Development,
    Installed,
}

/// The directory that receives the backend's log files.
#[derive(Clone, Copy, Debug, PartialEq, Eq, Structural)]
pub enum LogDir {
    /// The project directory of the development tree.
    Project,
    /// The application's log directory, which the host locates.
    AppLog,
}

/// What to do at application start.
#[derive(Clone, Copy, Debug, PartialEq, Eq, Structural)]
pub enum Startup {
    /// No executable was found: run without a backend.
    NoExecutable,
    /// Something already listens on the backend port: start nothing.
    AlreadyRunning,
    /// Start the executable at this place.
    Launch(Candidate),
}

/// The arguments handed to the backend.
pub open spec fn spec_launch_args() -> Seq<Seq<char>> {
    seq!["--host"@, BACKEND_HOST@, "--port"@, "9123"@]
}

/// The arguments handed to the backend: the address and port to listen on.
pub fn launch_args() -> (r: Vec<&'static str>)
    ensures
        r@.map_values(|s: &'static str| s@) == spec_launch_args(),
{
    let r = vec!["--host", BACKEND_HOST, "--port", "9123"];
    assert(r@.map_values(|s: &'static str| s@) =~= spec_launch_args());
    r
}

/// Where the backend's logs go for a build mode.
pub fn log_dir(mode: BuildMode) -> (r: LogDir)
    ensures
        r == (match mode {
            BuildMode::Development => LogDir::Project,
            BuildMode::Installed => LogDir::AppLog,
        }),
{
    match mode {
        BuildMode::Development => LogDir::Project,
        BuildMode::Installed => LogDir::AppLog,
    }
}

/// Decides what to do at start from the search for the executable and from
/// whether the backend port already accepts connections. The port matters
/// only once an executable was found.
pub fn plan_startup(found: Resolution, port_in_use: bool) -> (r: Startup)
    ensures
        found is NotFound ==> r is NoExecutable,
        found is Found && port_in_use ==> r is AlreadyRunning,
        found is Found && !port_in_use ==> r == Startup::Launch(found->0),
{
    match found {
        Resolution::NotFound => Startup::NoExecutable,
        Resolution::Found(c) => {
            if port_in_use {
                Startup::AlreadyRunning
            } else {
                Startup::Launch(c)
            }
        },
    }
}

} // verus!
