//! The listener: the accept loop of one generation as a state machine.
//!
//! The driver owns the sockets' I/O and the pool of permits. It performs
//! the action that `Listener::run` returns and reports what came of it as
//! the next event:
//!
//! | action          | the driver                                   | then reports                  |
//! |-----------------|----------------------------------------------|-------------------------------|
//! | `AcquirePermit` | waits for one permit                         | `PermitAcquired`              |
//! | `Accept`        | accepts on `listener`                        | `Accepted` or `AcceptFailed`  |
//! | `Sleep`         | sleeps that many seconds                     | `Slept`                       |
//! | `Connect`       | dials `upstream`                             | `Connected` or `ConnectFailed`|
//! | `Spawn`         | starts the handler, then waits for a permit  | `PermitAcquired`              |
//! | `Release`       | returns one permit, then waits for a permit  | `PermitAcquired`              |
//! | `Park`          | waits for the shutdown of the generation     | `Shutdown`                    |
//! | `Stop`          | returns the permits named, passes the signal | nothing                       |
//! |                 | on to the handlers, ends the loop            |                               |
//! | `Fail`          | returns the permits named, ends the loop     | nothing                       |
//!
//! `Shutdown` may be reported in place of any other event.

use vstd::prelude::*;
use vstd::arithmetic::power2::lemma2_to64;
use vstd::arithmetic::power2::lemma_pow2_unfold;
use vstd::arithmetic::power2::pow2;
use crate::connections::SocketPair;
use crate::handler::Handler;
use crate::ipc::Socket;
use crate::shutdown::Shutdown;
use crate::shutdown::ShutdownSignal;

verus! {

/// The delay, in seconds, before the first retry of a failed accept.
pub const BACKOFF_START: u64 = 1;

/// The longest delay, in seconds, that the accept loop will wait. A
/// failure that would need a longer one is fatal.
pub const BACKOFF_LIMIT: u64 = 64;

/// Where the accept loop stands.
#[derive(Debug, PartialEq, Eq)]
pub enum ListenerPhase<S> {
    /// Not started.
    Idle,
    /// Waiting for a permit. The listener holds none.
    AwaitingPermit,
    /// Accepting, with one permit in hand.
    Accepting,
    /// Backing off after a failed accept, with one permit in hand.
    Sleeping,
    /// Dialing the upstream for the client that was accepted, with one
    /// permit in hand.
    Dialing(S),
    /// Nothing to accept on: waiting for the shutdown.
    Parked,
    /// Ended by the shutdown.
    Stopped,
    /// Ended by an accept error that no retry is left for.
    Failed,
}

/// The accept loop of one generation.
#[derive(Debug, PartialEq, Eq)]
pub struct Listener<S, L> {
    /// The listening socket, while this generation owns one.
    pub listener: Option<L>,
    /// The address of the upstream that every client is paired with.
    pub upstream: String,
    /// The shutdown signal of this generation. Every handler that the
    /// listener starts holds a subscription to it.
    pub notify_shutdown: ShutdownSignal,
    /// The delay of the next retry, in seconds.
    pub backoff: u64,
    pub phase: ListenerPhase<S>,
}

/// What the driver reports to the listener.
#[derive(Debug, PartialEq, Eq)]
pub enum ListenerEvent<S> {
    /// The loop is to begin.
    Start,
    /// One permit was taken from the pool for the listener.
    PermitAcquired,
    /// A client connected.
    Accepted(S),
    /// Accepting failed.
    AcceptFailed,
    /// The delay is over.
    Slept,
    /// The upstream answered.
    Connected(S),
    /// The upstream could not be reached.
    ConnectFailed,
    /// The generation shuts down.
    Shutdown,
}

/// A handler to start, with the pair that it is to proxy.
#[derive(Debug, PartialEq, Eq)]
pub struct Spawn<S> {
    pub handler: Handler,
    pub socket_pair: SocketPair<S>,
}

/// What the listener asks of the driver.
#[derive(Debug, PartialEq, Eq)]
pub enum ListenerAction<S> {
    /// Wait for one permit.
    AcquirePermit,
    /// Accept the next client.
    Accept,
    /// Sleep for this many seconds.
    Sleep(u64),
    /// Dial the upstream.
    Connect,
    /// Start this handler. The listener's permit goes with it. Then wait
    /// for a new permit.
    Spawn(Spawn<S>),
    /// Return the listener's permit to the pool: the client that it was
    /// taken for got no upstream and is closed. Then wait for a new one.
    Release,
    /// Wait for the shutdown: there is no socket to accept on.
    Park,
    /// The loop ended by the shutdown. Pass the signal on to the handlers
    /// and return `permits` permits to the pool.
    Stop { permits: usize },
    /// The loop ended by a fatal accept error. Return `permits` permits
    /// to the pool. The handlers that run are not touched.
    Fail { permits: usize },
}

/// How one attempt to accept went on.
#[derive(Debug, PartialEq, Eq)]
pub enum AcceptStep<S> {
    /// A client is there.
    Accepted(S),
    /// Wait this many seconds, then try again.
    Retry(u64),
    /// Give up: the next delay would be longer than the limit.
    Fatal,
}

/// The rule of the backoff. A client ends the round and leaves the delay
/// alone. A failure is answered with the current delay, which then
/// doubles; once the delay has grown past the limit the failure is fatal.
pub open spec fn accept_next<S>(backoff: u64, outcome: Option<S>) -> (u64, AcceptStep<S>) {
    match outcome {
        Some(client) => (backoff, AcceptStep::Accepted(client)),
        None => if backoff > BACKOFF_LIMIT {
            (backoff, AcceptStep::Fatal)
        } else {
            ((backoff * 2) as u64, AcceptStep::Retry(backoff))
        },
    }
}

/// The delay that the listener holds after `failures` failed accepts in
/// a row, counted from the start of a round.
pub open spec fn backoff_after(failures: nat) -> u64
    decreases failures,
{
    if failures == 0 {
        BACKOFF_START
    } else {
        accept_next::<()>(backoff_after((failures - 1) as nat), None).0
    }
}

/// The answer to the failure that follows `failures` earlier ones.
pub open spec fn retry_after(failures: nat) -> AcceptStep<()> {
    accept_next::<()>(backoff_after(failures), None).1
}

/// Whether the listener has a permit in hand in this phase.
pub open spec fn holds_permit<S>(phase: ListenerPhase<S>) -> bool {
    phase is Accepting || phase is Sleeping || phase is Dialing
}

/// The number of permits that the listener has in hand.
pub open spec fn permits_held<S>(phase: ListenerPhase<S>) -> usize {
    if holds_permit(phase) {
        1
    } else {
        0
    }
}

/// Whether the accept loop is over.
pub open spec fn is_over<S>(phase: ListenerPhase<S>) -> bool {
    phase is Stopped || phase is Failed
}

/// The handler that the listener starts for a pair: one with a fresh
/// subscription to the listener's signal.
pub open spec fn spawn_of<S>(signal: ShutdownSignal, socket_pair: SocketPair<S>) -> Spawn<S> {
    Spawn { handler: Handler { shutdown: Shutdown { shutdown: signal.triggered } }, socket_pair }
}

/// Where an accepting listener goes on the answer of the backoff: to the
/// dialing of the upstream with the client, to sleep, or to its end.
pub open spec fn after_accept<S, L>(l: Listener<S, L>, answer: (u64, AcceptStep<S>)) -> (
    Listener<S, L>,
    Result<ListenerAction<S>, ListenerEvent<S>>,
) {
    match answer.1 {
        AcceptStep::Accepted(client) => (
            Listener { phase: ListenerPhase::Dialing(client), backoff: answer.0, ..l },
            Ok(ListenerAction::Connect),
        ),
        AcceptStep::Retry(delay) => (
            Listener { phase: ListenerPhase::Sleeping, backoff: answer.0, ..l },
            Ok(ListenerAction::Sleep(delay)),
        ),
        AcceptStep::Fatal => (
            Listener { phase: ListenerPhase::Failed, backoff: answer.0, ..l },
            Ok(ListenerAction::Fail { permits: 1 }),
        ),
    }
}

/// The transition of the listener: its next state, and the action that it
/// asks for or, where the event does not belong to the phase, the event
/// itself with the state unchanged.
pub open spec fn listener_step<S, L>(l: Listener<S, L>, event: ListenerEvent<S>) -> (
    Listener<S, L>,
    Result<ListenerAction<S>, ListenerEvent<S>>,
) {
    if is_over(l.phase) {
        (l, Err(event))
    } else {
        match (l.phase, event) {
            (_, ListenerEvent::Shutdown) => (
                Listener {
                    phase: ListenerPhase::Stopped,
                    notify_shutdown: ShutdownSignal { triggered: true },
                    ..l
                },
                Ok(ListenerAction::Stop { permits: permits_held(l.phase) }),
            ),
            (ListenerPhase::Idle, ListenerEvent::Start) => if l.listener is Some {
                (
                    Listener { phase: ListenerPhase::AwaitingPermit, ..l },
                    Ok(ListenerAction::AcquirePermit),
                )
            } else {
                (Listener { phase: ListenerPhase::Parked, ..l }, Ok(ListenerAction::Park))
            },
            (ListenerPhase::AwaitingPermit, ListenerEvent::PermitAcquired) => (
                Listener { phase: ListenerPhase::Accepting, backoff: BACKOFF_START, ..l },
                Ok(ListenerAction::Accept),
            ),
            (ListenerPhase::Accepting, ListenerEvent::Accepted(client)) => after_accept(
                l,
                accept_next(l.backoff, Some(client)),
            ),
            (ListenerPhase::Accepting, ListenerEvent::AcceptFailed) => after_accept(
                l,
                accept_next(l.backoff, None),
            ),
            (ListenerPhase::Sleeping, ListenerEvent::Slept) => (
                Listener { phase: ListenerPhase::Accepting, ..l },
                Ok(ListenerAction::Accept),
            ),
            (ListenerPhase::Dialing(client), ListenerEvent::Connected(upstream)) => (
                Listener { phase: ListenerPhase::AwaitingPermit, ..l },
                Ok(
                    ListenerAction::Spawn(
                        spawn_of(l.notify_shutdown, SocketPair { client, upstream }),
                    ),
                ),
            ),
            (ListenerPhase::Dialing(_), ListenerEvent::ConnectFailed) => (
                Listener { phase: ListenerPhase::AwaitingPermit, ..l },
                Ok(ListenerAction::Release),
            ),
            (_, other) => (l, Err(other)),
        }
    }
}

/// A listener that has not started: on the given listening socket if
/// there is one, with a signal that has not fired.
pub open spec fn new_listener<S, L>(listener: Option<L>, upstream: String) -> Listener<S, L> {
    Listener {
        listener,
        upstream,
        notify_shutdown: ShutdownSignal { triggered: false },
        backoff: BACKOFF_START,
        phase: ListenerPhase::Idle,
    }
}

/// The handlers that resume inherited pairs: one for each pair, in the
/// order of the pairs.
pub open spec fn resumed<S>(signal: ShutdownSignal, socket_pairs: Seq<SocketPair<S>>) -> Seq<
    Spawn<S>,
> {
    Seq::new(socket_pairs.len(), |i: int| spawn_of(signal, socket_pairs[i]))
}

impl<S, L> Listener<S, L> {
    /// A listener that has not started, on the given listening socket if
    /// there is one, with a signal that has not fired.
    pub fn new(listener: Option<L>, upstream: String) -> (l: Listener<S, L>)
        ensures
            l == new_listener::<S, L>(listener, upstream),
    {
        Listener {
            listener,
            upstream,
            notify_shutdown: ShutdownSignal::new(),
            backoff: BACKOFF_START,
            phase: ListenerPhase::Idle,
        }
    }

    /// Takes the outcome of one attempt to accept, a client or a failure,
    /// and applies the backoff.
    ///
    /// A failure is retried after 1 second, then 2, 4 and so on, each
    /// delay twice the one before. The failure that finds the delay
    /// grown past 64 seconds is fatal. Only `backoff` changes.
    pub fn accept(&mut self, outcome: Option<S>) -> (step: AcceptStep<S>)
        ensures
            (final(self).backoff, step) == accept_next(old(self).backoff, outcome),
            *final(self) == (Listener { backoff: final(self).backoff, ..*old(self) }),
    {
        match outcome {
            Some(client) => AcceptStep::Accepted(client),
            None => {
                if self.backoff > BACKOFF_LIMIT {
                    AcceptStep::Fatal
                } else {
                    let delay: u64 = self.backoff;
                    self.backoff = delay * 2;
                    AcceptStep::Retry(delay)
                }
            },
        }
    }

    /// Moves an accepting listener on after the backoff has answered.
    fn go_on(&mut self, step: AcceptStep<S>) -> (action: ListenerAction<S>)
        ensures
            (*final(self), Ok::<ListenerAction<S>, ListenerEvent<S>>(action)) == after_accept(
                *old(self),
                (old(self).backoff, step),
            ),
    {
        match step {
            AcceptStep::Accepted(client) => {
                self.phase = ListenerPhase::Dialing(client);
                ListenerAction::Connect
            },
            AcceptStep::Retry(delay) => {
                self.phase = ListenerPhase::Sleeping;
                ListenerAction::Sleep(delay)
            },
            AcceptStep::Fatal => {
                self.phase = ListenerPhase::Failed;
                ListenerAction::Fail { permits: 1 }
            },
        }
    }

    /// Advances the accept loop by one event.
    ///
    /// The loop takes a permit before it accepts, accepts with backoff,
    /// dials the upstream once for each client and hands the pair to a
    /// new handler together with the permit. A client whose upstream
    /// cannot be reached is dropped and its permit returned; the loop
    /// goes on. The shutdown ends the loop in any phase, fires the signal
    /// for the handlers and gives back the permit that the listener may
    /// hold. An event that does not belong to the phase comes back as
    /// `Err` and changes nothing; so does every event once the loop is
    /// over.
    pub fn run(&mut self, event: ListenerEvent<S>) -> (res: Result<
        ListenerAction<S>,
        ListenerEvent<S>,
    >)
        ensures
            (*final(self), res) == listener_step(*old(self), event),
    {
        let mut phase = ListenerPhase::Idle;
        core::mem::swap(&mut self.phase, &mut phase);
        match (phase, event) {
            (ListenerPhase::Stopped, event) => {
                self.phase = ListenerPhase::Stopped;
                Err(event)
            },
            (ListenerPhase::Failed, event) => {
                self.phase = ListenerPhase::Failed;
                Err(event)
            },
            (phase, ListenerEvent::Shutdown) => {
                let permits: usize = match phase {
                    ListenerPhase::Accepting | ListenerPhase::Sleeping | ListenerPhase::Dialing(_) => 1,
                    _ => 0,
                };
                self.notify_shutdown.trigger();
                self.phase = ListenerPhase::Stopped;
                Ok(ListenerAction::Stop { permits })
            },
            (ListenerPhase::Idle, ListenerEvent::Start) => {
                if self.listener.is_some() {
                    self.phase = ListenerPhase::AwaitingPermit;
                    Ok(ListenerAction::AcquirePermit)
                } else {
                    self.phase = ListenerPhase::Parked;
                    Ok(ListenerAction::Park)
                }
            },
            (ListenerPhase::AwaitingPermit, ListenerEvent::PermitAcquired) => {
                self.backoff = BACKOFF_START;
                self.phase = ListenerPhase::Accepting;
                Ok(ListenerAction::Accept)
            },
            (ListenerPhase::Accepting, ListenerEvent::Accepted(client)) => {
                let step = self.accept(Some(client));
                Ok(self.go_on(step))
            },
            (ListenerPhase::Accepting, ListenerEvent::AcceptFailed) => {
                let step = self.accept(None);
                Ok(self.go_on(step))
            },
            (ListenerPhase::Sleeping, ListenerEvent::Slept) => {
                self.phase = ListenerPhase::Accepting;
                Ok(ListenerAction::Accept)
            },
            (ListenerPhase::Dialing(client), ListenerEvent::Connected(upstream)) => {
                let handler = Handler::new(self.notify_shutdown.subscribe());
                self.phase = ListenerPhase::AwaitingPermit;
                Ok(ListenerAction::Spawn(Spawn { handler, socket_pair: SocketPair { client, upstream } }))
            },
            (ListenerPhase::Dialing(_), ListenerEvent::ConnectFailed) => {
                self.phase = ListenerPhase::AwaitingPermit;
                Ok(ListenerAction::Release)
            },
            (phase, event) => {
                self.phase = phase;
                Err(event)
            },
        }
    }

    /// Resumes the pairs that an older generation handed over: one
    /// handler for each, in their order, each with a fresh subscription
    /// to this listener's signal. Nothing is accepted or dialed for them.
    /// The driver takes one permit for each handler before it starts it.
    /// The listener itself does not change.
    pub fn handover_run(&mut self, socket_pairs: Vec<SocketPair<S>>) -> (spawns: Vec<Spawn<S>>)
        ensures
            *final(self) == *old(self),
            spawns@ == resumed(old(self).notify_shutdown, socket_pairs@),
    {
        let mut spawns: Vec<Spawn<S>> = Vec::new();
        let ghost all = socket_pairs@;
        let ghost signal = self.notify_shutdown;
        for socket_pair in it: socket_pairs
            invariant
                it.seq() == all,
                *self == *old(self),
                signal == self.notify_shutdown,
                spawns@ == resumed(signal, all.take(it.index() as int)),
        {
            let handler = Handler::new(self.notify_shutdown.subscribe());
            spawns.push(Spawn { handler, socket_pair });
            proof {
                let i = it.index() as int;
                assert(spawns@ =~= resumed(signal, all.take(i + 1)));
            }
        }
        proof {
            assert(all.take(all.len() as int) =~= all);
        }
        spawns
    }

    /// Gives up the listening socket once the accept loop is over, so
    /// that the next generation can go on accepting on it. While the loop
    /// runs, and where there is no listening socket, nothing is given.
    pub fn surrender(&mut self) -> (socket: Option<Socket<S, L>>)
        ensures
            socket == if is_over(old(self).phase) && old(self).listener is Some {
                Some(Socket::<S, L>::Listener(old(self).listener->0))
            } else {
                None::<Socket<S, L>>
            },
            *final(self) == if is_over(old(self).phase) {
                Listener { listener: None, ..*old(self) }
            } else {
                *old(self)
            },
    {
        let over = match &self.phase {
            ListenerPhase::Stopped | ListenerPhase::Failed => true,
            _ => false,
        };
        if over {
            match self.listener.take() {
                Some(listener) => Some(Socket::Listener(listener)),
                None => None,
            }
        } else {
            None
        }
    }
}

/// The schedule of the backoff. In a round in which every accept fails,
/// the failure that follows `failures` earlier ones is retried after
/// two to the power of `failures` seconds, that is after 1, 2, 4, 8, 16,
/// 32 and 64 seconds, and the failure after those seven retries is fatal.
/// It stays fatal however often it is asked again.
pub proof fn lemma_backoff_schedule(failures: nat)
    ensures
        failures < 7 ==> retry_after(failures) == AcceptStep::<()>::Retry(pow2(failures) as u64),
        failures < 7 ==> pow2(failures) <= BACKOFF_LIMIT,
        failures >= 7 ==> retry_after(failures) == AcceptStep::<()>::Fatal,
        failures <= 7 ==> backoff_after(failures) == pow2(failures),
        failures >= 7 ==> backoff_after(failures) == 2 * BACKOFF_LIMIT,
    decreases failures,
{
    lemma2_to64();
    if failures > 0 {
        lemma_backoff_schedule((failures - 1) as nat);
        if failures <= 7 {
            lemma_pow2_unfold(failures);
        }
    }
}

/// The shutdown signal never goes back. Whatever is reported to a
/// listener whose signal has fired, the signal has fired afterwards too;
/// and a listener that was told of the shutdown has fired it.
pub proof fn lemma_signal_stays_fired<S, L>(l: Listener<S, L>, event: ListenerEvent<S>)
    ensures
        l.notify_shutdown.triggered ==> listener_step(l, event).0.notify_shutdown.triggered,
        listener_step(l, event).1 matches Ok(ListenerAction::Stop { .. }) ==> listener_step(
            l,
            event,
        ).0.notify_shutdown.triggered,
        listener_step(l, event).0.upstream == l.upstream,
{
}

/// The listener neither gains nor swaps its listening socket: whatever
/// is reported to it, it has the socket that it had.
pub proof fn lemma_listener_keeps_socket<S, L>(l: Listener<S, L>, event: ListenerEvent<S>)
    ensures
        listener_step(l, event).0.listener == l.listener,
{
}

/// Nothing is accepted without a permit. Whenever the listener asks the
/// driver to accept, to sleep between two attempts or to dial, it has a
/// permit in hand; and the handler that it starts gets the permit that
/// the listener held for it.
pub proof fn lemma_permit_in_hand<S, L>(l: Listener<S, L>, event: ListenerEvent<S>)
    ensures
        ({
            let (next, answer) = listener_step(l, event);
            &&& answer matches Ok(ListenerAction::Accept) ==> holds_permit(next.phase)
            &&& answer matches Ok(ListenerAction::Sleep(_)) ==> holds_permit(next.phase)
            &&& answer matches Ok(ListenerAction::Connect) ==> holds_permit(next.phase)
            &&& answer matches Ok(ListenerAction::Spawn(_)) ==> holds_permit(l.phase)
                && !holds_permit(next.phase)
            &&& answer matches Ok(ListenerAction::Release) ==> holds_permit(l.phase)
                && !holds_permit(next.phase)
            &&& answer matches Ok(ListenerAction::Stop { permits }) ==> permits == permits_held(
                l.phase,
            ) && !holds_permit(next.phase)
            &&& answer matches Ok(ListenerAction::Fail { permits }) ==> permits == permits_held(
                l.phase,
            ) && !holds_permit(next.phase)
        }),
{
}

/// The listener after `failures` failed accepts in a row, each followed
/// by the sleep that it was answered with.
pub open spec fn after_failures<S, L>(l: Listener<S, L>, failures: nat) -> Listener<S, L>
    decreases failures,
{
    if failures == 0 {
        l
    } else {
        listener_step(
            listener_step(after_failures(l, (failures - 1) as nat), ListenerEvent::AcceptFailed).0,
            ListenerEvent::Slept,
        ).0
    }
}

/// A round of failures, as the accept loop goes through it. A listener
/// that starts to accept and meets nothing but failures sleeps 1, 2, 4,
/// 8, 16, 32 and 64 seconds, one delay after each failure, and is back at
/// accepting after each. The next failure ends the loop for good, with
/// the permit given back.
pub proof fn lemma_round_of_failures<S, L>(l: Listener<S, L>, failures: nat)
    requires
        l.phase is Accepting,
        l.backoff == BACKOFF_START,
        failures <= 7,
    ensures
        after_failures(l, failures) == (Listener { backoff: pow2(failures) as u64, ..l }),
        listener_step(after_failures(l, failures), ListenerEvent::AcceptFailed).1 == if failures
            < 7 {
            Ok::<ListenerAction<S>, ListenerEvent<S>>(ListenerAction::Sleep(pow2(failures) as u64))
        } else {
            Ok::<ListenerAction<S>, ListenerEvent<S>>(ListenerAction::Fail { permits: 1 })
        },
        failures == 7 ==> listener_step(
            after_failures(l, failures),
            ListenerEvent::AcceptFailed,
        ).0.phase is Failed,
    decreases failures,
{
    lemma2_to64();
    if failures > 0 {
        lemma_round_of_failures(l, (failures - 1) as nat);
        lemma_pow2_unfold(failures);
    }
}

} // verus!
