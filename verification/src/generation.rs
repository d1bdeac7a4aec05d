//! One generation as a whole: the pool of permits, the listener, the
//! handlers that run and the handover sink, and what holds of them at
//! every moment.
//!
//! Nothing here runs. The state and its transition are put together from
//! the contracts of the listener, the handler, the pool and the collector,
//! and the lemmas say what follows for every course of events.

use vstd::prelude::*;
use vstd::multiset::Multiset;
use crate::admission::AdmissionView;
use crate::connections::SocketPair;
use crate::handler::handler_exit;
use crate::handler::Handler;
use crate::handler::HandlerEvent;
use crate::handler::HandlerExit;
use crate::ipc::bundled_listeners;
use crate::ipc::bundled_pairs;
use crate::ipc::to_ipc;
use crate::ipc::IPCSocketPair;
use crate::ipc::Resources;
use crate::ipc::Socket;
use crate::listener::is_over;
use crate::listener::lemma_listener_keeps_socket;
use crate::listener::lemma_signal_stays_fired;
use crate::listener::listener_step;
use crate::listener::permits_held;
use crate::listener::spawn_of;
use crate::listener::Listener;
use crate::listener::ListenerAction;
use crate::listener::ListenerEvent;
use crate::listener::Spawn;
use crate::server::resumption_of;
use crate::server::Resumption;
use crate::shutdown::shutdown_after;
use crate::shutdown::ShutdownOp;

verus! {

/// The state of one generation.
pub struct Generation<S, L> {
    /// The pool of permits.
    pub pool: AdmissionView,
    /// The accept loop.
    pub listener: Listener<S, L>,
    /// The handlers that run, each with its pair.
    pub handlers: Seq<Spawn<S>>,
    /// What was surrendered so far, in the order in which it came.
    pub sink: Seq<Socket<S, L>>,
}

/// What can happen in a generation.
pub enum GenerationEvent<S> {
    /// The driver reports this event to the listener.
    Listener(ListenerEvent<S>),
    /// The handler at this place among those that run looks at the
    /// signal.
    Poll(int),
    /// The handler at this place among those that run ends on this
    /// outcome of its race.
    Handler(int, HandlerEvent),
    /// A pair that was inherited is resumed: a permit is taken and a
    /// handler started for it.
    Resume(SocketPair<S>),
    /// The listener gives up its listening socket.
    Surrender,
}

/// A generation at its start: a pool with every permit in, a listener
/// that has not begun, no handler and an empty sink.
pub open spec fn is_fresh<S, L>(g: Generation<S, L>) -> bool {
    &&& g.pool.outstanding == 0
    &&& g.listener.phase is Idle
    &&& !g.listener.notify_shutdown.triggered
    &&& g.handlers.len() == 0
    &&& g.sink.len() == 0
}

/// What the end of a handler changes: its pair goes to the sink if it
/// hands over, and its permits go back.
pub open spec fn after_exit<S, L>(g: Generation<S, L>, at: int, exit: HandlerExit<S>) -> Generation<
    S,
    L,
> {
    Generation {
        pool: g.pool.release(exit.permits as nat),
        handlers: g.handlers.remove(at),
        sink: match exit.handover {
            Some(socket_pair) => g.sink.push(Socket::SocketPair(socket_pair)),
            None => g.sink,
        },
        ..g
    }
}

/// The handler at this place after a look at the signal of the
/// generation.
pub open spec fn after_poll<S, L>(g: Generation<S, L>, at: int) -> Spawn<S> {
    Spawn {
        handler: Handler {
            shutdown: shutdown_after(
                g.handlers[at].handler.shutdown,
                ShutdownOp::Observe(g.listener.notify_shutdown.triggered),
            ),
        },
        ..g.handlers[at]
    }
}

/// Whether the handler at this place can end on the shutdown signal: the
/// signal has fired, or the handler has seen it fire.
pub open spec fn can_see_shutdown<S, L>(g: Generation<S, L>, at: int) -> bool {
    g.listener.notify_shutdown.triggered || g.handlers[at].handler.shutdown.shutdown
}

/// What an action of the listener changes besides the listener itself.
pub open spec fn after_action<S, L>(
    g: Generation<S, L>,
    listener: Listener<S, L>,
    action: ListenerAction<S>,
) -> Generation<S, L> {
    match action {
        ListenerAction::Spawn(spawn) => Generation {
            listener,
            handlers: g.handlers.push(spawn),
            ..g
        },
        ListenerAction::Release => Generation { listener, pool: g.pool.release(1), ..g },
        ListenerAction::Stop { permits } => Generation {
            listener,
            pool: g.pool.release(permits as nat),
            ..g
        },
        ListenerAction::Fail { permits } => Generation {
            listener,
            pool: g.pool.release(permits as nat),
            ..g
        },
        _ => Generation { listener, ..g },
    }
}

/// The generation after one event.
///
/// An event that cannot happen leaves the state as it is: one that the
/// listener turns down, a permit taken from an empty pool, a look or the
/// end of a handler that does not run, or a handler that ends on a
/// shutdown signal which has not fired and which it has not seen.
pub open spec fn generation_step<S, L>(g: Generation<S, L>, event: GenerationEvent<S>) -> Generation<
    S,
    L,
> {
    match event {
        GenerationEvent::Listener(e) => {
            let (listener, answer) = listener_step(g.listener, e);
            match answer {
                Err(_) => g,
                Ok(action) => if e is PermitAcquired {
                    if g.pool.outstanding < g.pool.capacity {
                        Generation { listener, pool: g.pool.acquire(), ..g }
                    } else {
                        g
                    }
                } else {
                    after_action(g, listener, action)
                },
            }
        },
        GenerationEvent::Poll(at) => {
            if 0 <= at < g.handlers.len() {
                Generation { handlers: g.handlers.update(at, after_poll(g, at)), ..g }
            } else {
                g
            }
        },
        GenerationEvent::Handler(at, e) => {
            if 0 <= at < g.handlers.len() && (e == HandlerEvent::Shutdown ==> can_see_shutdown(g, at)) {
                after_exit(g, at, handler_exit(g.handlers[at].socket_pair, e))
            } else {
                g
            }
        },
        GenerationEvent::Resume(socket_pair) => {
            if g.pool.outstanding < g.pool.capacity {
                Generation {
                    pool: g.pool.acquire(),
                    handlers: g.handlers.push(spawn_of(g.listener.notify_shutdown, socket_pair)),
                    ..g
                }
            } else {
                g
            }
        },
        GenerationEvent::Surrender => {
            if is_over(g.listener.phase) && g.listener.listener is Some {
                Generation {
                    listener: Listener { listener: None, ..g.listener },
                    sink: g.sink.push(Socket::Listener(g.listener.listener->0)),
                    ..g
                }
            } else {
                g
            }
        },
    }
}

/// The generation after a sequence of events, first to last.
pub open spec fn generation_after<S, L>(g: Generation<S, L>, events: Seq<GenerationEvent<S>>) -> Generation<
    S,
    L,
>
    decreases events.len(),
{
    if events.len() == 0 {
        g
    } else {
        generation_step(generation_after(g, events.drop_last()), events.last())
    }
}

/// Every permit that is out is accounted for: one for each handler that
/// runs, and one more while the listener has one in hand. So no more are
/// out than the pool has.
pub open spec fn permits_accounted<S, L>(g: Generation<S, L>) -> bool {
    &&& g.pool.outstanding == g.handlers.len() + permits_held(g.listener.phase)
    &&& g.pool.outstanding <= g.pool.capacity
}

/// One event keeps the account of the permits and the size of the pool.
pub proof fn lemma_step_keeps_account<S, L>(g: Generation<S, L>, event: GenerationEvent<S>)
    requires
        permits_accounted(g),
    ensures
        permits_accounted(generation_step(g, event)),
        generation_step(g, event).pool.capacity == g.pool.capacity,
{
}

/// Permits are conserved. Whatever happens in a generation, in whatever
/// order (clients accepted, upstreams reached or not, sessions that end
/// well or in an error, pairs handed over), the number of permits that
/// are out never exceeds the size of the pool, which stays what it was.
/// Once no handler runs and the listener has no permit in hand, every
/// permit is back.
pub proof fn lemma_permits_conserved<S, L>(g: Generation<S, L>, events: Seq<GenerationEvent<S>>)
    requires
        permits_accounted(g),
    ensures
        permits_accounted(generation_after(g, events)),
        generation_after(g, events).pool.capacity == g.pool.capacity,
        generation_after(g, events).pool.outstanding <= g.pool.capacity,
        generation_after(g, events).handlers.len() == 0 && permits_held(
            generation_after(g, events).listener.phase,
        ) == 0 ==> generation_after(g, events).pool.is_full(),
    decreases events.len(),
{
    if events.len() > 0 {
        lemma_permits_conserved(g, events.drop_last());
        lemma_step_keeps_account(generation_after(g, events.drop_last()), events.last());
    }
}

/// A fresh generation has its permits accounted for, whatever the size
/// of its pool.
pub proof fn lemma_fresh_is_accounted<S, L>(g: Generation<S, L>)
    requires
        is_fresh(g),
    ensures
        permits_accounted(g),
{
}

/// The pairs that the running handlers hold, each in its transferable
/// form, in the order of the handlers.
pub open spec fn running_pairs<S>(handlers: Seq<Spawn<S>>) -> Seq<IPCSocketPair<S>> {
    Seq::new(handlers.len(), |i: int| to_ipc(handlers[i].socket_pair))
}

/// The pairs that the generation answers for: those that the bundle
/// built from its sink would hold, and those that its handlers still
/// proxy. Each pair counts as often as it is there.
pub open spec fn pairs_in_care<S, L>(g: Generation<S, L>) -> Multiset<IPCSocketPair<S>> {
    bundled_pairs(g.sink).to_multiset().add(running_pairs(g.handlers).to_multiset())
}

/// Whether the event belongs to the shutdown of the generation: a
/// handler that looks at the signal or ends on it, or the listener giving
/// up its socket.
pub open spec fn is_shutdown_event<S>(event: GenerationEvent<S>) -> bool {
    match event {
        GenerationEvent::Poll(_) => true,
        GenerationEvent::Handler(_, e) => e == HandlerEvent::Shutdown,
        GenerationEvent::Surrender => true,
        _ => false,
    }
}

/// One more item in the sink adds its pair to the bundle, if it is one,
/// and leaves the pairs of the bundle alone if it is a listening socket.
pub proof fn lemma_bundle_grows<S, L>(sink: Seq<Socket<S, L>>, item: Socket<S, L>)
    ensures
        bundled_pairs(sink.push(item)) == match item {
            Socket::SocketPair(socket_pair) => bundled_pairs(sink).push(to_ipc(socket_pair)),
            Socket::Listener(_) => bundled_pairs(sink),
        },
        bundled_listeners(sink.push(item)) == match item {
            Socket::SocketPair(_) => bundled_listeners(sink),
            Socket::Listener(listener) => bundled_listeners(sink).push(listener),
        },
{
    assert(sink.push(item).drop_last() =~= sink);
}

/// A step of the shutdown loses no pair and makes none up: what the
/// handler gives away is in the sink afterwards, untouched.
pub proof fn lemma_shutdown_step_keeps_pairs<S, L>(g: Generation<S, L>, event: GenerationEvent<S>)
    requires
        is_shutdown_event(event),
    ensures
        pairs_in_care(generation_step(g, event)) == pairs_in_care(g),
        bundled_pairs(generation_step(g, event).sink).len() + generation_step(
            g,
            event,
        ).handlers.len() == bundled_pairs(g.sink).len() + g.handlers.len(),
        generation_step(g, event).handlers.len() <= g.handlers.len(),
{
    broadcast use vstd::seq_lib::group_to_multiset_ensures;

    let after = generation_step(g, event);
    match event {
        GenerationEvent::Poll(at) => {
            if 0 <= at < g.handlers.len() {
                assert(running_pairs(after.handlers) =~= running_pairs(g.handlers));
            }
        },
        GenerationEvent::Handler(at, e) => {
            if 0 <= at < g.handlers.len() && can_see_shutdown(g, at) {
                let spawn = g.handlers[at];
                let pair = to_ipc(spawn.socket_pair);
                let running = running_pairs(g.handlers);
                lemma_bundle_grows(g.sink, Socket::SocketPair(spawn.socket_pair));
                assert(running_pairs(g.handlers.remove(at)) =~= running.remove(at));
                assert(running[at] == pair);
                assert(running.to_multiset().count(pair) > 0);
                assert(pairs_in_care(after) =~= pairs_in_care(g));
            }
        },
        GenerationEvent::Surrender => {
            if is_over(g.listener.phase) && g.listener.listener is Some {
                lemma_bundle_grows(g.sink, Socket::<S, L>::Listener(g.listener.listener->0));
            }
        },
        _ => {},
    }
}

/// No connection is lost under shutdown. Take a generation at the moment
/// at which its shutdown is triggered, and let its handlers end on the
/// signal, in any order, while the listener gives up its socket at any
/// point among them. Then every pair that was in its care at that moment
/// still is. Once the last handler has ended, the bundle built from the
/// sink holds exactly those pairs, each as often as it was there: for `N`
/// handlers and a sink that was empty, `N` pairs.
pub proof fn lemma_shutdown_loses_no_pair<S, L>(
    g: Generation<S, L>,
    events: Seq<GenerationEvent<S>>,
)
    requires
        forall|i: int| 0 <= i < events.len() ==> is_shutdown_event(#[trigger] events[i]),
    ensures
        pairs_in_care(generation_after(g, events)) == pairs_in_care(g),
        bundled_pairs(generation_after(g, events).sink).len() + generation_after(
            g,
            events,
        ).handlers.len() == bundled_pairs(g.sink).len() + g.handlers.len(),
        generation_after(g, events).handlers.len() == 0 ==> bundled_pairs(
            generation_after(g, events).sink,
        ).to_multiset() == pairs_in_care(g),
    decreases events.len(),
{
    broadcast use vstd::seq_lib::group_to_multiset_ensures;

    if events.len() > 0 {
        let before = generation_after(g, events.drop_last());
        lemma_shutdown_loses_no_pair(g, events.drop_last());
        lemma_shutdown_step_keeps_pairs(before, events.last());
    }
    let after = generation_after(g, events);
    if after.handlers.len() == 0 {
        assert(running_pairs(after.handlers) =~= Seq::<IPCSocketPair<S>>::empty());
        assert(running_pairs(after.handlers).to_multiset() =~= Multiset::<IPCSocketPair<S>>::empty());
        assert(pairs_in_care(after) =~= bundled_pairs(after.sink).to_multiset());
    }
}

/// The number of listening sockets that the generation owns: the one of
/// its listener, if it has one, and those in the sink.
pub open spec fn listening_sockets<S, L>(g: Generation<S, L>) -> nat {
    bundled_listeners(g.sink).len() + if g.listener.listener is Some {
        1nat
    } else {
        0nat
    }
}

/// The listening socket is never doubled. No event adds a listening
/// socket to a generation; the surrender moves the one of the listener
/// into the sink. So a generation that started with at most one has at
/// most one in its bundle.
pub proof fn lemma_at_most_one_listener<S, L>(g: Generation<S, L>, events: Seq<GenerationEvent<S>>)
    ensures
        listening_sockets(generation_after(g, events)) == listening_sockets(g),
        g.sink.len() == 0 ==> bundled_listeners(generation_after(g, events).sink).len() <= 1,
    decreases events.len(),
{
    if events.len() > 0 {
        let before = generation_after(g, events.drop_last());
        lemma_at_most_one_listener(g, events.drop_last());
        match events.last() {
            GenerationEvent::Handler(at, e) => {
                if 0 <= at < before.handlers.len() {
                    let spawn = before.handlers[at];
                    lemma_bundle_grows(before.sink, Socket::<S, L>::SocketPair(spawn.socket_pair));
                }
            },
            GenerationEvent::Surrender => {
                if before.listener.listener is Some {
                    lemma_bundle_grows(before.sink, Socket::<S, L>::Listener(before.listener.listener->0));
                }
            },
            _ => {},
        }
    }
}

/// Nothing has been handed over and no handler has seen the signal.
pub open spec fn is_undisturbed<S, L>(g: Generation<S, L>) -> bool {
    &&& bundled_pairs(g.sink).len() == 0
    &&& forall|i: int| 0 <= i < g.handlers.len() ==> !(#[trigger] g.handlers[i]).handler.shutdown.shutdown
}

/// No pair leaves a generation that was not shut down. As long as the
/// shutdown signal has not fired, whatever else happened, the sink holds
/// no pair and no handler has seen the signal: every session that ended
/// did so by its own end.
pub proof fn lemma_no_handover_before_shutdown<S, L>(
    g: Generation<S, L>,
    events: Seq<GenerationEvent<S>>,
)
    requires
        is_undisturbed(g),
    ensures
        !generation_after(g, events).listener.notify_shutdown.triggered ==> is_undisturbed(
            generation_after(g, events),
        ),
        g.listener.notify_shutdown.triggered ==> generation_after(
            g,
            events,
        ).listener.notify_shutdown.triggered,
    decreases events.len(),
{
    if events.len() > 0 {
        let before = generation_after(g, events.drop_last());
        let after = generation_step(before, events.last());
        lemma_no_handover_before_shutdown(g, events.drop_last());
        match events.last() {
            GenerationEvent::Listener(e) => {
                lemma_signal_stays_fired(before.listener, e);
            },
            _ => {},
        }
        if !after.listener.notify_shutdown.triggered {
            assert(!before.listener.notify_shutdown.triggered);
            match events.last() {
                GenerationEvent::Surrender => {
                    if is_over(before.listener.phase) && before.listener.listener is Some {
                        lemma_bundle_grows(
                            before.sink,
                            Socket::<S, L>::Listener(before.listener.listener->0),
                        );
                    }
                },
                _ => {},
            }
            assert(is_undisturbed(after));
        }
    }
}

/// Whatever happens, the listening socket in the sink of a generation
/// that started with an empty sink is the one that its listener owned.
pub proof fn lemma_listener_in_sink_is_own<S, L>(g: Generation<S, L>, events: Seq<GenerationEvent<S>>)
    requires
        g.sink.len() == 0,
    ensures
        generation_after(g, events).listener.listener is None
            || generation_after(g, events).listener.listener == g.listener.listener,
        bundled_listeners(generation_after(g, events).sink).len() > 0 ==> g.listener.listener
            == Some(bundled_listeners(generation_after(g, events).sink)[0]),
    decreases events.len(),
{
    if events.len() > 0 {
        let before = generation_after(g, events.drop_last());
        lemma_listener_in_sink_is_own(g, events.drop_last());
        lemma_at_most_one_listener(g, events.drop_last());
        match events.last() {
            GenerationEvent::Listener(e) => {
                lemma_listener_keeps_socket(before.listener, e);
            },
            GenerationEvent::Handler(at, e) => {
                if 0 <= at < before.handlers.len() {
                    let spawn = before.handlers[at];
                    lemma_bundle_grows(before.sink, Socket::<S, L>::SocketPair(spawn.socket_pair));
                }
            },
            GenerationEvent::Surrender => {
                if before.listener.listener is Some {
                    lemma_bundle_grows(before.sink, Socket::<S, L>::Listener(before.listener.listener->0));
                }
            },
            _ => {},
        }
    } else {
        assert(bundled_listeners(g.sink).len() == 0);
    }
}

/// A takeover keeps every connection. Let a generation shut down as in
/// `lemma_shutdown_loses_no_pair` until its last handler has ended, let
/// the bundle be built from its sink, and let the next generation resume
/// that bundle. Then the handlers of the next generation proxy exactly
/// the pairs that were in the care of the first when it shut down: the
/// same streams, each pair as often as it was there. If the sink of the
/// first generation was empty when its shutdown began and the bundle
/// holds a listening socket, that socket is the one of its listener: the
/// next generation accepts on it, and no listening socket is left over.
pub proof fn lemma_takeover_keeps_every_pair<S, L>(
    g: Generation<S, L>,
    events: Seq<GenerationEvent<S>>,
    resources: Resources<S, L>,
    upstream: String,
    resumption: Resumption<S, L>,
)
    requires
        forall|i: int| 0 <= i < events.len() ==> is_shutdown_event(#[trigger] events[i]),
        generation_after(g, events).handlers.len() == 0,
        resources.socket_pairs@ == bundled_pairs(generation_after(g, events).sink),
        resources.listeners@ == bundled_listeners(generation_after(g, events).sink),
        resumption_of(upstream, resources, resumption),
    ensures
        running_pairs(resumption.spawns@).to_multiset() == pairs_in_care(g),
        resumption.spawns@.len() == bundled_pairs(g.sink).len() + g.handlers.len(),
        g.sink.len() == 0 && resources.listeners@.len() > 0 ==> resumption.listener.listener
            == g.listener.listener && resumption.surplus@.len() == 0,
{
    let after = generation_after(g, events);
    lemma_shutdown_loses_no_pair(g, events);
    lemma_at_most_one_listener(g, events);
    assert(running_pairs(resumption.spawns@) =~= resources.socket_pairs@);
    if g.sink.len() == 0 {
        lemma_listener_in_sink_is_own(g, events);
    }
}

} // verus!
