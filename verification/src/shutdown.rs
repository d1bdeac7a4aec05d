//! The shutdown signal of one generation and the subscriptions to it.
//!
//! The signal is one flag for the whole generation. A subscription is what
//! one handler knows of that flag. The handler looks at the signal when it
//! checks, and it waits for the signal while it copies; either way, what
//! it has once seen it never forgets.

use vstd::prelude::*;

verus! {

/// The shutdown signal: one per generation.
///
/// It starts untriggered, is triggered at most once in effect, and never
/// goes back.
#[derive(Debug, PartialEq, Eq)]
pub struct ShutdownSignal {
    pub triggered: bool,
}

/// One subscription to the shutdown signal, held by a connection handler.
///
/// `shutdown` records whether this subscriber has seen the signal. A
/// subscription that is taken out after the signal fired is born with the
/// flag set, so that a late subscriber never waits for an event that is
/// already over.
#[derive(Debug, PartialEq, Eq)]
pub struct Shutdown {
    pub shutdown: bool,
}

/// An operation on the signal.
pub enum SignalOp {
    /// Fire it.
    Trigger,
    /// Ask whether it has fired.
    Check,
    /// Take out a subscription.
    Subscribe,
}

/// An operation that a subscriber can perform on its subscription.
pub enum ShutdownOp {
    /// Look at the signal, which has fired or has not.
    Observe(bool),
    /// Ask whether the signal was seen.
    Check,
    /// Wait for the signal and come back.
    Wait,
}

/// The signal after one operation: firing sets it, nothing clears it.
pub open spec fn signal_after(signal: ShutdownSignal, op: SignalOp) -> ShutdownSignal {
    match op {
        SignalOp::Trigger => ShutdownSignal { triggered: true },
        SignalOp::Check => signal,
        SignalOp::Subscribe => signal,
    }
}

/// The signal after a sequence of operations, applied first to last.
pub open spec fn signal_after_all(signal: ShutdownSignal, ops: Seq<SignalOp>) -> ShutdownSignal
    decreases ops.len(),
{
    if ops.len() == 0 {
        signal
    } else {
        signal_after(signal_after_all(signal, ops.drop_last()), ops.last())
    }
}

/// The subscription after one operation. A look at a signal that has
/// fired sets the flag, and so does a wait that has come back; a look at
/// a signal that has not fired changes nothing, nor does a check.
pub open spec fn shutdown_after(s: Shutdown, op: ShutdownOp) -> Shutdown {
    match op {
        ShutdownOp::Observe(fired) => Shutdown { shutdown: s.shutdown || fired },
        ShutdownOp::Check => s,
        ShutdownOp::Wait => Shutdown { shutdown: true },
    }
}

/// The subscription after a sequence of operations, applied first to last.
pub open spec fn shutdown_after_all(s: Shutdown, ops: Seq<ShutdownOp>) -> Shutdown
    decreases ops.len(),
{
    if ops.len() == 0 {
        s
    } else {
        shutdown_after(shutdown_after_all(s, ops.drop_last()), ops.last())
    }
}

impl ShutdownSignal {
    /// A signal that has not fired.
    pub fn new() -> (signal: ShutdownSignal)
        ensures
            !signal.triggered,
    {
        ShutdownSignal { triggered: false }
    }

    /// Fires the signal. Firing it again changes nothing.
    pub fn trigger(&mut self)
        ensures
            *final(self) == signal_after(*old(self), SignalOp::Trigger),
            final(self).triggered,
    {
        self.triggered = true;
    }

    /// Whether the signal has fired.
    pub fn is_triggered(&self) -> (fired: bool)
        ensures
            fired == self.triggered,
    {
        self.triggered
    }

    /// A fresh subscription. It has seen the signal exactly if the signal
    /// has already fired.
    pub fn subscribe(&self) -> (subscription: Shutdown)
        ensures
            subscription == (Shutdown { shutdown: self.triggered }),
    {
        Shutdown { shutdown: self.triggered }
    }
}

impl Shutdown {
    /// A subscription that has seen the signal exactly if `triggered`.
    pub fn new(triggered: bool) -> (subscription: Shutdown)
        ensures
            subscription.shutdown == triggered,
    {
        Shutdown { shutdown: triggered }
    }

    /// Looks at the signal. If it has fired, the subscriber has seen it
    /// from now on. What the subscriber saw before stays seen, also where
    /// the driver shows it an older state of the signal.
    pub fn observe(&mut self, signal: &ShutdownSignal)
        ensures
            *final(self) == shutdown_after(*old(self), ShutdownOp::Observe(signal.triggered)),
    {
        if signal.triggered {
            self.shutdown = true;
        }
    }

    /// Whether this subscriber has seen the shutdown signal.
    pub fn is_shutdown(&self) -> (seen: bool)
        ensures
            seen == self.shutdown,
    {
        self.shutdown
    }

    /// Records that a wait has come back: the signal fired, or its channel
    /// was closed, or the flag was already set. From now on the subscriber
    /// has seen the signal.
    pub fn recv(&mut self)
        ensures
            *final(self) == shutdown_after(*old(self), ShutdownOp::Wait),
            final(self).shutdown,
    {
        self.shutdown = true;
    }
}

/// The signal never goes back. Once it has fired, no sequence of
/// operations on it, however long, makes it report anything else.
pub proof fn lemma_signal_is_sticky(signal: ShutdownSignal, ops: Seq<SignalOp>)
    requires
        signal.triggered,
    ensures
        signal_after_all(signal, ops).triggered,
    decreases ops.len(),
{
    if ops.len() > 0 {
        lemma_signal_is_sticky(signal, ops.drop_last());
    }
}

/// Once a subscriber has seen the signal it keeps seeing it: no sequence
/// of looks, checks and waits, however long, clears the flag.
pub proof fn lemma_shutdown_is_sticky(s: Shutdown, ops: Seq<ShutdownOp>)
    requires
        s.shutdown,
    ensures
        shutdown_after_all(s, ops).shutdown,
    decreases ops.len(),
{
    if ops.len() > 0 {
        lemma_shutdown_is_sticky(s, ops.drop_last());
    }
}

/// A check changes nothing: after any number of checks the subscription
/// is the one that was there before.
pub proof fn lemma_checks_change_nothing(s: Shutdown, ops: Seq<ShutdownOp>)
    requires
        forall|i: int| 0 <= i < ops.len() ==> ops[i] == ShutdownOp::Check,
    ensures
        shutdown_after_all(s, ops) == s,
    decreases ops.len(),
{
    if ops.len() > 0 {
        lemma_checks_change_nothing(s, ops.drop_last());
    }
}

/// The check after the signal has fired reports the shutdown, always.
/// Take any subscriber, whatever it knew before. If the signal has fired
/// and the subscriber looks at it, or was born from it, its check reports
/// the shutdown then and after every further look, check or wait.
pub proof fn lemma_check_after_trigger(signal: ShutdownSignal, s: Shutdown, ops: Seq<ShutdownOp>)
    requires
        signal.triggered,
    ensures
        shutdown_after(s, ShutdownOp::Observe(signal.triggered)).shutdown,
        shutdown_after_all(shutdown_after(s, ShutdownOp::Observe(signal.triggered)), ops).shutdown,
        shutdown_after_all((Shutdown { shutdown: signal.triggered }), ops).shutdown,
{
    lemma_shutdown_is_sticky(shutdown_after(s, ShutdownOp::Observe(signal.triggered)), ops);
    lemma_shutdown_is_sticky((Shutdown { shutdown: signal.triggered }), ops);
}

} // verus!
