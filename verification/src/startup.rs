//! The setup routine's side of supervision: what to spawn, what to do with the
//! result of the spawn, and what to say once the readiness wait is over.

use vstd::prelude::*;
use crate::prober::{ProbeAction, Prober};
use crate::slot::{HandleSlot, SlotState};

verus! {

/// The longest that setup waits for the server: 30 s, in nanoseconds.
pub const READY_TIMEOUT_NANOS: u128 = 30_000_000_000;

/// The address that the readiness prober connects to: port 3000 on the local
/// host.
pub fn server_address() -> (address: &'static str)
    ensures
        address@ == "127.0.0.1:3000"@,
{
    "127.0.0.1:3000"
}

/// The command line that starts the server.
pub struct ServerCommand {
    /// The program to run.
    pub program: String,
    /// Its arguments, in order.
    pub args: Vec<String>,
    /// The directory to run it in.
    pub working_dir: String,
}

/// The command that starts the development server: `npm run dev`, run in the
/// parent of the application's own directory `app_dir`.
pub fn server_command(app_dir: &str) -> (command: ServerCommand)
    ensures
        command.program@ == "npm"@,
        command.args@.len() == 2,
        command.args@[0]@ == "run"@,
        command.args@[1]@ == "dev"@,
        command.working_dir@ == app_dir@ + "/.."@,
{
    let mut args: Vec<String> = Vec::new();
    args.push("run".to_owned());
    args.push("dev".to_owned());
    let mut working_dir = app_dir.to_owned();
    working_dir.append("/..");
    ServerCommand { program: "npm".to_owned(), args, working_dir }
}

/// Why setup cannot go on. No window may be shown.
#[derive(Clone, Copy, Debug, PartialEq, Eq, Structural)]
pub enum StartupError {
    /// The operating system could not create the server process.
    SpawnFailed,
}

impl StartupError {
    /// The text to report the failure with.
    pub fn message(&self) -> (text: &'static str)
        ensures
            text@ == "Failed to start Next.js dev server"@,
    {
        match self {
            StartupError::SpawnFailed => "Failed to start Next.js dev server",
        }
    }
}

/// Takes in the result of the spawn: `Some` with the child's handle, `None`
/// if the process could not be created.
///
/// A handle is registered in a slot of its own before anything else happens,
/// and the slot comes back together with the prober for the readiness wait. A
/// failed spawn is fatal: there is nothing to supervise and nothing to wait
/// for.
pub fn accept_spawn<H>(spawned: Option<H>) -> (outcome: Result<
    (HandleSlot<H>, Prober),
    StartupError,
>)
    ensures
        match spawned {
            Some(handle) => {
                &&& outcome matches Ok((slot, prober))
                &&& slot@ == SlotState::Holding(handle)
                &&& prober@.timeout == READY_TIMEOUT_NANOS
                &&& prober@.pending == ProbeAction::ReadClock
            },
            None => outcome == Err::<(HandleSlot<H>, Prober), StartupError>(
                StartupError::SpawnFailed,
            ),
        },
{
    match spawned {
        Some(handle) => {
            let mut slot = HandleSlot::new();
            let _ = slot.register(handle);
            Ok((slot, Prober::new(READY_TIMEOUT_NANOS)))
        },
        None => Err(StartupError::SpawnFailed),
    }
}

/// How a notice is to be logged.
#[derive(Clone, Copy, Debug, PartialEq, Eq, Structural)]
pub enum Severity {
    /// Progress, on standard output.
    Info,
    /// A problem that does not stop startup, on standard error.
    Warning,
}

/// A line for the console.
pub struct Notice {
    pub severity: Severity,
    pub text: &'static str,
}

/// The notice that opens the readiness wait.
pub fn waiting_notice() -> (notice: Notice)
    ensures
        notice.severity == Severity::Info,
        notice.text@ == "Waiting for Next.js server..."@,
{
    Notice { severity: Severity::Info, text: "Waiting for Next.js server..." }
}

/// The notice that closes the readiness wait. A server that did not answer
/// in time is worth a warning and no more: setup goes on and the window is
/// shown either way.
pub fn readiness_notice(ready: bool) -> (notice: Notice)
    ensures
        ready ==> notice.severity == Severity::Info && notice.text@
            == "Next.js server is ready!"@,
        !ready ==> notice.severity == Severity::Warning && notice.text@
            == "Warning: Next.js server did not respond within 30s"@,
{
    if ready {
        Notice { severity: Severity::Info, text: "Next.js server is ready!" }
    } else {
        Notice {
            severity: Severity::Warning,
            text: "Warning: Next.js server did not respond within 30s",
        }
    }
}

} // verus!
