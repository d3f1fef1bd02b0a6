//! The lifecycle state of a managed process and the snapshot record that
//! callers receive when they poll one.

use vstd::prelude::*;

verus! {

/// The state of one managed process. The variants are mutually exclusive and
/// each id holds exactly one of them at any instant.
///
/// `Finished` and `Error` are terminal: once reached, the entry keeps that
/// status until a new start replaces it.
#[derive(Debug, PartialEq)]
pub enum CommandStatus {
    /// Never started, or fully reset.
    Idle,
    /// A spawn was requested; the OS process is not yet confirmed alive.
    Starting,
    /// The OS process is believed alive.
    Running,
    /// A graceful-stop signal was sent; exit is pending.
    Stopping,
    /// A forceful-kill signal was sent; exit is pending.
    Killing,
    /// The OS process exited. `success` means a zero exit status; `code` is
    /// the platform exit code, `None` when the process was terminated by a
    /// signal and no code is available.
    Finished { code: Option<i32>, success: bool },
    /// A spawn or signal failure, described for the poller.
    Error { message: String },
}

impl CommandStatus {
    /// Terminal states: the entry stays there until a new start overwrites it.
    pub open spec fn spec_is_terminal(&self) -> bool {
        match self {
            CommandStatus::Finished { .. } => true,
            CommandStatus::Error { .. } => true,
            _ => false,
        }
    }

    /// States in which a run is underway: a spawn was requested and no
    /// terminal state has been recorded yet.
    pub open spec fn spec_is_active(&self) -> bool {
        match self {
            CommandStatus::Starting => true,
            CommandStatus::Running => true,
            CommandStatus::Stopping => true,
            CommandStatus::Killing => true,
            _ => false,
        }
    }

    #[verifier::when_used_as_spec(spec_is_terminal)]
    pub fn is_terminal(&self) -> (r: bool)
        ensures
            r == self.spec_is_terminal(),
    {
        match self {
            CommandStatus::Finished { .. } => true,
            CommandStatus::Error { .. } => true,
            _ => false,
        }
    }

    #[verifier::when_used_as_spec(spec_is_active)]
    pub fn is_active(&self) -> (r: bool)
        ensures
            r == self.spec_is_active(),
    {
        match self {
            CommandStatus::Starting => true,
            CommandStatus::Running => true,
            CommandStatus::Stopping => true,
            CommandStatus::Killing => true,
            _ => false,
        }
    }
}

impl Clone for CommandStatus {
    fn clone(&self) -> (r: Self)
        ensures
            r == *self,
    {
        match self {
            CommandStatus::Idle => CommandStatus::Idle,
            CommandStatus::Starting => CommandStatus::Starting,
            CommandStatus::Running => CommandStatus::Running,
            CommandStatus::Stopping => CommandStatus::Stopping,
            CommandStatus::Killing => CommandStatus::Killing,
            CommandStatus::Finished { code, success } => CommandStatus::Finished {
                code: *code,
                success: *success,
            },
            CommandStatus::Error { message } => CommandStatus::Error { message: message.clone() },
        }
    }
}

/// The caller-facing snapshot of one managed process: its id, status, and the
/// advisory fields pollers render.
///
/// `is_running` mirrors `status.spec_is_active()` and `process_id` is the
/// native id of the spawned OS process while one is believed alive.
#[derive(Debug)]
pub struct CommandInfo {
    pub id: String,
    pub status: CommandStatus,
    pub is_running: bool,
    pub has_error: bool,
    pub process_id: Option<u32>,
    pub port: Option<u16>,
}

impl CommandInfo {
    /// The `is_running` flag is kept consistent with the status.
    pub open spec fn wf(&self) -> bool {
        self.is_running == self.status.spec_is_active()
    }

    /// The snapshot reported for an id that has no registry entry.
    pub fn idle(id: String) -> (r: CommandInfo)
        ensures
            r == (CommandInfo {
                id: id,
                status: CommandStatus::Idle,
                is_running: false,
                has_error: false,
                process_id: None,
                port: None,
            }),
            r.wf(),
    {
        CommandInfo {
            id,
            status: CommandStatus::Idle,
            is_running: false,
            has_error: false,
            process_id: None,
            port: None,
        }
    }
}

impl Clone for CommandInfo {
    fn clone(&self) -> (r: Self)
        ensures
            r == *self,
    {
        CommandInfo {
            id: self.id.clone(),
            status: self.status.clone(),
            is_running: self.is_running,
            has_error: self.has_error,
            process_id: self.process_id,
            port: self.port,
        }
    }
}

} // verus!
