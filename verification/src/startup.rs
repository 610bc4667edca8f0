//! Startup checks and notification failure policy.
//!
//! The process is handed its listening socket by its supervisor; anything
//! but exactly one descriptor is a fatal misconfiguration, reported with
//! the actual count. The two supervisor notifications carry deliberately
//! different failure policies: a failed ready notification aborts startup,
//! a failed stopping notification never fails the shutdown path.

use vstd::prelude::*;
use crate::digits::{dec_digits_of, u64_to_decimal};

verus! {

/// The message reported when the supervisor handed over `n` sockets
/// instead of one.
pub open spec fn socket_count_message(n: nat) -> Seq<char> {
    "want 1 activated socket, but got "@ + dec_digits_of(n) + " socket(s)"@
}

/// Checks the activation handover: exactly one pre-bound socket must have
/// been passed in. Any other count is a fatal startup error carrying the
/// actual count.
pub fn check_socket_count(count: u64) -> (r: Result<(), String>)
    ensures
        r is Ok <==> count == 1,
        r matches Err(m) ==> m@ == socket_count_message(count as nat),
{
    if count == 1 {
        Ok(())
    } else {
        let mut m = String::from_str("want 1 activated socket, but got ");
        let digits = u64_to_decimal(count);
        m.append(digits.as_str());
        m.append(" socket(s)");
        Err(m)
    }
}

/// How a supervisor notification went: it was sent, or there is no
/// supervisor to notify (a valid, silent no-op), or the send itself failed.
#[derive(Clone, Copy, PartialEq, Eq, Structural, Debug)]
pub enum NotifyOutcome {
    Sent,
    NoSupervisor,
    SendFailed,
}

/// Whether the outcome of the ready notification aborts startup: only an
/// actual send failure is fatal; running unsupervised is not.
pub fn ready_notify_fatal(outcome: NotifyOutcome) -> (r: bool)
    ensures
        r <==> outcome == NotifyOutcome::SendFailed,
{
    match outcome {
        NotifyOutcome::SendFailed => true,
        _ => false,
    }
}

/// Whether the outcome of the stopping notification fails the shutdown
/// path: never — the process is already exiting, so a send failure is
/// logged and ignored.
pub fn stopping_notify_fatal(outcome: NotifyOutcome) -> (r: bool)
    ensures
        r == false,
{
    match outcome {
        NotifyOutcome::Sent => false,
        NotifyOutcome::NoSupervisor => false,
        NotifyOutcome::SendFailed => false,
    }
}

} // verus!
