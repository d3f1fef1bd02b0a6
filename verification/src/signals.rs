//! Delivery of POSIX termination signals to a managed OS process.
//!
//! Signal delivery is the one effect of the supervisor that the verifier
//! cannot see through: it is performed by the `nix` crate and its outcome
//! depends on the state of the machine, so the wrapper promises nothing about
//! which way the result goes.

use vstd::prelude::*;

verus! {

/// The two termination requests the supervisor sends: the graceful one a
/// process may honor by exiting cleanly, and the forceful one the OS
/// enforces.
#[derive(Clone, Copy, Debug, PartialEq, Eq, Structural)]
pub enum SignalKind {
    /// SIGTERM: a request the process may catch and honor.
    Term,
    /// SIGKILL: unconditional termination.
    Kill,
}

/// Relies on nix::sys::signal::kill: delivers SIGTERM or SIGKILL to the
/// process with the given native id, returning `Ok` when the OS accepted the
/// signal and the error's description otherwise. Whether delivery succeeds
/// depends on the machine, so nothing is promised of the outcome. The pid
/// must fit in a signed 32-bit value: a wrapped-around negative pid would
/// address a process group instead.
#[verifier::external_body]
pub(crate) fn deliver_signal(pid: u32, kind: SignalKind) -> (r: Result<(), String>)
    requires
        pid <= 0x7fff_ffff,
{
    let signal = match kind {
        SignalKind::Term => nix::sys::signal::Signal::SIGTERM,
        SignalKind::Kill => nix::sys::signal::Signal::SIGKILL,
    };
    match nix::sys::signal::kill(nix::unistd::Pid::from_raw(pid as i32), signal) {
        Ok(()) => Ok(()),
        Err(e) => Err(format!("{}", e)),
    }
}

} // verus!
