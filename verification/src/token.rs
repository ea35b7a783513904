//! The two tokens of the exception protocol.
//!
//! A thread that talks to the native interface is in one of two states:
//! no exception is pending, or one is. A [`Capability`] stands for the
//! first state and an [`Exception`] for the second. Every operation that
//! is unsafe under a pending exception asks for a `Capability`; an
//! operation that can raise takes it by value and gives back a fresh one
//! only when it succeeded.
//!
//! Both tokens are zero-sized. What tells one token from another exists
//! only for the verifier: a [`Stamp`] that names the environment which
//! issued the token and the serial number it was issued under.

use vstd::prelude::*;

verus! {

/// Which of the two tokens a call chain holds.
#[derive(Clone, Copy, Debug, PartialEq, Eq, Structural)]
pub enum TokenState {
    /// No exception is pending.
    HasCapability,
    /// An exception is pending.
    HasException,
}

/// The identity of a token.
pub enum Stamp {
    /// Made out of nothing: no environment issued this token.
    Unbound,
    /// Issued by the environment at address `env` as its token number `serial`.
    Issued { env: usize, serial: nat },
}

/// Proof that no exception is pending.
pub struct Capability {
    stamp: Ghost<Stamp>,
}

/// Proof that an exception is pending.
pub struct Exception {
    stamp: Ghost<Stamp>,
}

/// What an operation that can raise returns: its result together with a
/// fresh capability, or the token of the exception it raised.
pub type JniResult<T> = Result<(T, Capability), Exception>;

impl View for Capability {
    type V = Stamp;

    closed spec fn view(&self) -> Stamp {
        self.stamp@
    }
}

impl View for Exception {
    type V = Stamp;

    closed spec fn view(&self) -> Stamp {
        self.stamp@
    }
}

impl Capability {
    /// A capability that no environment issued. No environment accepts it.
    pub fn new() -> (cap: Capability)
        ensures
            cap@ == Stamp::Unbound,
    {
        Capability { stamp: Ghost(Stamp::Unbound) }
    }

    /// The capability that `env` issues under `serial`.
    pub(crate) fn issue(Ghost(env): Ghost<usize>, Ghost(serial): Ghost<nat>) -> (cap: Capability)
        ensures
            cap@ == (Stamp::Issued { env, serial }),
    {
        Capability { stamp: Ghost(Stamp::Issued { env, serial }) }
    }
}

impl Exception {
    /// An exception token that no environment issued. No environment accepts it.
    pub fn new() -> (exn: Exception)
        ensures
            exn@ == Stamp::Unbound,
    {
        Exception { stamp: Ghost(Stamp::Unbound) }
    }

    /// The exception token that `env` issues under `serial`.
    pub(crate) fn issue(Ghost(env): Ghost<usize>, Ghost(serial): Ghost<nat>) -> (exn: Exception)
        ensures
            exn@ == (Stamp::Issued { env, serial }),
    {
        Exception { stamp: Ghost(Stamp::Issued { env, serial }) }
    }
}

} // verus!
