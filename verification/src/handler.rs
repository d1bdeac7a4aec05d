//! The connection handler: what becomes of one pair.

use vstd::prelude::*;
use crate::connections::SocketPair;
use crate::shutdown::shutdown_after;
use crate::shutdown::Shutdown;
use crate::shutdown::ShutdownOp;
use crate::shutdown::ShutdownSignal;

verus! {

/// The number of admission permits that one handler holds while it lives.
pub const PERMITS_PER_HANDLER: usize = 1;

/// The state of one connection handler: its subscription to the shutdown
/// signal. The pair that it proxies is passed to `run`.
#[derive(Debug, PartialEq, Eq)]
pub struct Handler {
    pub shutdown: Shutdown,
}

/// How the race between the copy and the shutdown signal ended.
#[derive(Debug, PartialEq, Eq, Clone, Copy)]
pub enum HandlerEvent {
    /// The copying ended because a stream reached its end.
    Copied,
    /// The copying ended in an I/O error.
    CopyFailed,
    /// The shutdown signal came first, or had fired before the copying
    /// began.
    Shutdown,
}

/// What a handler leaves behind when it ends.
#[derive(Debug, PartialEq, Eq)]
pub struct HandlerExit<S> {
    /// The pair, both streams open, if it goes to the next generation.
    /// `None` if the session is over and the streams are closed.
    pub handover: Option<SocketPair<S>>,
    /// The admission permits that go back to the pool.
    pub permits: usize,
}

/// Whether the handler gives its pair to the next generation: it does
/// exactly if the shutdown signal decided the race.
pub open spec fn hands_over(event: HandlerEvent) -> bool {
    event == HandlerEvent::Shutdown
}

/// What the handler leaves behind: the untouched pair if it hands over,
/// nothing if the session ended, and its one permit either way.
pub open spec fn handler_exit<S>(socket_pair: SocketPair<S>, event: HandlerEvent) -> HandlerExit<S> {
    HandlerExit {
        handover: if hands_over(event) {
            Some(socket_pair)
        } else {
            None
        },
        permits: PERMITS_PER_HANDLER,
    }
}

impl Handler {
    /// A handler with the given subscription.
    pub fn new(shutdown: Shutdown) -> (handler: Handler)
        ensures
            handler.shutdown == shutdown,
    {
        Handler { shutdown }
    }

    /// The check at the top of the proxy loop: what is known before any
    /// waiting. The handler looks at the signal. If the signal has fired,
    /// now or at an earlier look, the handler must not start to copy: for
    /// it the race is decided, and `poll` says so. Otherwise the driver
    /// runs the race.
    pub fn poll(&mut self, signal: &ShutdownSignal) -> (known: Option<HandlerEvent>)
        ensures
            final(self).shutdown == shutdown_after(
                old(self).shutdown,
                ShutdownOp::Observe(signal.triggered),
            ),
            known == if final(self).shutdown.shutdown {
                Some(HandlerEvent::Shutdown)
            } else {
                None::<HandlerEvent>
            },
    {
        self.shutdown.observe(signal);
        if self.shutdown.is_shutdown() {
            Some(HandlerEvent::Shutdown)
        } else {
            None
        }
    }

    /// Ends the handler on the outcome of the race.
    ///
    /// If the shutdown signal won, the pair comes back untouched for the
    /// handover sink: neither stream is closed. If the copying ended, at
    /// the end of a stream or in an error, the session is over and the
    /// pair is dropped, which closes both streams: a connection that is
    /// finished or broken is not handed over. On every path the handler
    /// gives back its one permit.
    pub fn run<S>(self, socket_pair: SocketPair<S>, event: HandlerEvent) -> (exit: HandlerExit<S>)
        ensures
            exit == handler_exit(socket_pair, event),
    {
        let handover = match event {
            HandlerEvent::Shutdown => Some(socket_pair),
            HandlerEvent::Copied | HandlerEvent::CopyFailed => None,
        };
        HandlerExit { handover, permits: PERMITS_PER_HANDLER }
    }
}

} // verus!
