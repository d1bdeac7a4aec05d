//! The server: how a generation comes up, fresh or by taking over from
//! the one that runs.
//!
//! The driver performs the action that `Server::run` returns and reports
//! what came of it:
//!
//! | action     | the driver                                              | then reports |
//! |------------|---------------------------------------------------------|--------------|
//! | `Bind`     | binds `LISTEN_ADDRESS`, with address reuse              | `Bound`      |
//! | `Connect`  | connects to `CONTROL_SOCKET`                            | `Connected`  |
//! | `Receive`  | waits for a message of the older generation             | `Received`   |
//! | `Takeover` | keeps the sender, sends the message on it and waits     | `Received`   |
//! | `Resume`   | starts each handler, after taking one permit for it     | `Resumed`    |
//! | `Release`  | sends the message on the sender, then drives the        | nothing      |
//! |            | listener that came with `Resume`                        |              |
//! | `Serve`    | drives this listener                                    | nothing      |
//! | `Fail`     | exits with the error                                    | nothing      |
//!
//! A step of the driver that fails (the address cannot be bound, the
//! control channel breaks) is fatal at startup and is not reported.

use vstd::prelude::*;
use crate::connections::SocketPair;
use crate::control::control_step;
use crate::control::ControlAction;
use crate::control::ControlEvent;
use crate::control::ControlPhase;
use crate::control::Predecessor;
use crate::ipc::from_ipc;
use crate::ipc::inherited_pairs;
use crate::ipc::kind_of;
use crate::ipc::sender_in;
use crate::ipc::unix_socket_listen;
use crate::ipc::HandoverError;
use crate::ipc::Message;
use crate::ipc::Resources;
use crate::listener::new_listener;
use crate::listener::resumed;
use crate::listener::Listener;
use crate::listener::Spawn;
use crate::shutdown::ShutdownSignal;

verus! {

/// Where clients connect.
pub const LISTEN_ADDRESS: &'static str = "127.0.0.1:8080";

/// How far the server has come up.
#[derive(Debug, PartialEq, Eq, Clone, Copy)]
pub enum ServerPhase {
    /// Made, not started.
    Created,
    /// A fresh start: the listening address is being bound.
    Binding,
    /// A takeover: the control channel is being connected.
    Connecting,
    /// A takeover: the opening message of the older generation is
    /// awaited.
    AwaitingSender,
    /// A takeover: it was asked for, and the bundle is awaited.
    AwaitingResources,
    /// A takeover: the inherited pairs are being resumed.
    Resuming,
    /// The server is up. What follows is the listener's business.
    Serving,
    /// The older generation broke the protocol.
    Failed,
}

/// The configuration of a generation and the state of its startup.
#[derive(Debug, PartialEq, Eq)]
pub struct Server {
    /// The address of the upstream, as `host:port`.
    pub upstream: String,
    /// Whether this generation takes over from one that runs.
    pub takeover: bool,
    pub phase: ServerPhase,
}

/// What the driver reports to the server.
#[derive(Debug, PartialEq, Eq)]
pub enum ServerEvent<T, S, L> {
    /// The server is to come up, by a takeover if the flag is set.
    Start(bool),
    /// The listening address is bound: this is the socket.
    Bound(L),
    /// The control channel is connected.
    Connected,
    /// The older generation sent this message.
    Received(Message<T, S, L>),
    /// Every inherited handler runs.
    Resumed,
}

/// What a takeover brings: the listener of the new generation, on the
/// inherited listening socket if there is one, and a handler for each
/// inherited pair.
#[derive(Debug, PartialEq, Eq)]
pub struct Resumption<S, L> {
    pub listener: Listener<S, L>,
    /// The handlers to start, in the order of the bundle.
    pub spawns: Vec<Spawn<S>>,
    /// The listening sockets of the bundle beyond the first. A generation
    /// surrenders at most one, so this is empty unless the bundle was put
    /// together otherwise.
    pub surplus: Vec<L>,
}

/// What the server asks of the driver.
#[derive(Debug, PartialEq, Eq)]
pub enum ServerAction<T, S, L> {
    /// Bind the listening address.
    Bind,
    /// Connect to the control channel of the older generation.
    Connect,
    /// Wait for the next message of the older generation.
    Receive,
    /// Keep this sender. Send the message on it, then wait for the
    /// answer.
    Takeover(T, Message<T, S, L>),
    /// Start these handlers.
    Resume(Resumption<S, L>),
    /// Send the message to the older generation, which lets it exit. Then
    /// drive the listener.
    Release(Message<T, S, L>),
    /// Drive this listener.
    Serve(Listener<S, L>),
    /// Give up with this error.
    Fail(HandoverError),
}

/// Whether `resumption` is what the bundle brings to a server with this
/// upstream: a listener on the first listening socket of the bundle, or
/// on none if the bundle has none; a handler for each pair, in the order
/// of the bundle; and the other listening sockets set aside.
pub open spec fn resumption_of<S, L>(
    upstream: String,
    resources: Resources<S, L>,
    resumption: Resumption<S, L>,
) -> bool {
    &&& resumption.listener == new_listener::<S, L>(
        if resources.listeners@.len() > 0 {
            Some(resources.listeners@[0])
        } else {
            None
        },
        upstream,
    )
    &&& resumption.spawns@ == resumed(
        ShutdownSignal { triggered: false },
        inherited_pairs(resources.socket_pairs@),
    )
    &&& resumption.surplus@ == if resources.listeners@.len() > 0 {
        resources.listeners@.skip(1)
    } else {
        resources.listeners@
    }
}

/// The transition of the server: whether `next` and `res` are the state
/// and the answer that follow from `s` and `event`. For every `s` and
/// `event` they are determined: `next` wholly, `res` up to the identity of
/// the vectors in a resumption, whose contents are determined.
pub open spec fn server_step<T, S, L>(
    s: Server,
    event: ServerEvent<T, S, L>,
    next: Server,
    res: Result<ServerAction<T, S, L>, ServerEvent<T, S, L>>,
) -> bool {
    match (s.phase, event) {
        (ServerPhase::Created, ServerEvent::Start(takeover)) => if takeover {
            &&& next == (Server { takeover, phase: ServerPhase::Connecting, ..s })
            &&& res == Ok::<ServerAction<T, S, L>, ServerEvent<T, S, L>>(ServerAction::Connect)
        } else {
            &&& next == (Server { takeover, phase: ServerPhase::Binding, ..s })
            &&& res == Ok::<ServerAction<T, S, L>, ServerEvent<T, S, L>>(ServerAction::Bind)
        },
        (ServerPhase::Binding, ServerEvent::Bound(listener)) => {
            &&& next == (Server { phase: ServerPhase::Serving, ..s })
            &&& res == Ok::<ServerAction<T, S, L>, ServerEvent<T, S, L>>(
                ServerAction::Serve(new_listener(Some(listener), s.upstream)),
            )
        },
        (ServerPhase::Connecting, ServerEvent::Connected) => {
            &&& next == (Server { phase: ServerPhase::AwaitingSender, ..s })
            &&& res == Ok::<ServerAction<T, S, L>, ServerEvent<T, S, L>>(ServerAction::Receive)
        },
        (ServerPhase::AwaitingSender, ServerEvent::Received(message)) => match sender_in(message) {
            Ok(sender) => {
                &&& next == (Server { phase: ServerPhase::AwaitingResources, ..s })
                &&& res == Ok::<ServerAction<T, S, L>, ServerEvent<T, S, L>>(
                    ServerAction::Takeover(sender, Message::Takeover()),
                )
            },
            Err(error) => {
                &&& next == (Server { phase: ServerPhase::Failed, ..s })
                &&& res == Ok::<ServerAction<T, S, L>, ServerEvent<T, S, L>>(
                    ServerAction::Fail(error),
                )
            },
        },
        (ServerPhase::AwaitingResources, ServerEvent::Received(message)) => match message {
            Message::Resources(resources) => {
                &&& next == (Server { phase: ServerPhase::Resuming, ..s })
                &&& res is Ok
                &&& res->Ok_0 is Resume
                &&& resumption_of(s.upstream, resources, res->Ok_0->Resume_0)
            },
            other => {
                &&& next == (Server { phase: ServerPhase::Failed, ..s })
                &&& res == Ok::<ServerAction<T, S, L>, ServerEvent<T, S, L>>(
                    ServerAction::Fail(HandoverError::ExpectedResources(kind_of(other))),
                )
            },
        },
        (ServerPhase::Resuming, ServerEvent::Resumed) => {
            &&& next == (Server { phase: ServerPhase::Serving, ..s })
            &&& res == Ok::<ServerAction<T, S, L>, ServerEvent<T, S, L>>(
                ServerAction::Release(Message::Shutdown()),
            )
        },
        (_, other) => {
            &&& next == s
            &&& res == Err::<ServerAction<T, S, L>, ServerEvent<T, S, L>>(other)
        },
    }
}

impl Server {
    /// A server for the given upstream that has not started.
    pub fn new(upstream: String) -> (server: Server)
        ensures
            server == (Server { upstream, takeover: false, phase: ServerPhase::Created }),
    {
        Server { upstream, takeover: false, phase: ServerPhase::Created }
    }

    /// Takes the answer to `Takeover` apart. The answer has to be
    /// `Resources`: then its pairs come back as live pairs, every one of
    /// them and in the order of the bundle, with the listening sockets of
    /// the bundle beside them. Anything else is a violation of the
    /// protocol.
    pub fn get_resources<T, S, L>(reply: Message<T, S, L>) -> (res: Result<
        (Vec<SocketPair<S>>, Vec<L>),
        HandoverError,
    >)
        ensures
            match reply {
                Message::Resources(resources) => {
                    &&& res is Ok
                    &&& res->Ok_0.0@ == inherited_pairs(resources.socket_pairs@)
                    &&& res->Ok_0.1 == resources.listeners
                },
                other => res == Err::<(Vec<SocketPair<S>>, Vec<L>), HandoverError>(
                    HandoverError::ExpectedResources(kind_of(other)),
                ),
            },
    {
        let resources = match reply {
            Message::Resources(resources) => resources,
            other => {
                return Err(HandoverError::ExpectedResources(other.kind()));
            },
        };
        let Resources { socket_pairs: inherited, listeners } = resources;
        let mut socket_pairs: Vec<SocketPair<S>> = Vec::new();
        let ghost all = inherited@;
        for socket_pair in it: inherited
            invariant
                it.seq() == all,
                socket_pairs@ == inherited_pairs(all.take(it.index() as int)),
        {
            socket_pairs.push(socket_pair.into_socket_pair());
            proof {
                let i = it.index() as int;
                assert(socket_pairs@ =~= inherited_pairs(all.take(i + 1)));
            }
        }
        proof {
            assert(all.take(all.len() as int) =~= all);
        }
        Ok((socket_pairs, listeners))
    }

    /// Brings the server up by one event.
    ///
    /// A fresh start binds the listening address and serves on it. A
    /// takeover connects to the older generation, expects its sender,
    /// asks for the takeover, expects the resources, resumes every pair
    /// of the bundle, adopts the listening socket of the bundle in place
    /// of a bind, and only then lets the older generation go. A message
    /// other than the one expected is fatal. An event that does not
    /// belong to the phase comes back as `Err` and changes nothing.
    pub fn run<T, S, L>(&mut self, event: ServerEvent<T, S, L>) -> (res: Result<
        ServerAction<T, S, L>,
        ServerEvent<T, S, L>,
    >)
        ensures
            server_step(*old(self), event, *final(self), res),
    {
        match (self.phase, event) {
            (ServerPhase::Created, ServerEvent::Start(takeover)) => {
                self.takeover = takeover;
                if takeover {
                    self.phase = ServerPhase::Connecting;
                    Ok(ServerAction::Connect)
                } else {
                    self.phase = ServerPhase::Binding;
                    Ok(ServerAction::Bind)
                }
            },
            (ServerPhase::Binding, ServerEvent::Bound(listener)) => {
                self.phase = ServerPhase::Serving;
                Ok(ServerAction::Serve(Listener::new(Some(listener), self.upstream.clone())))
            },
            (ServerPhase::Connecting, ServerEvent::Connected) => {
                self.phase = ServerPhase::AwaitingSender;
                Ok(ServerAction::Receive)
            },
            (ServerPhase::AwaitingSender, ServerEvent::Received(message)) => {
                match unix_socket_listen(message) {
                    Ok(sender) => {
                        self.phase = ServerPhase::AwaitingResources;
                        Ok(ServerAction::Takeover(sender, Message::Takeover()))
                    },
                    Err(error) => {
                        self.phase = ServerPhase::Failed;
                        Ok(ServerAction::Fail(error))
                    },
                }
            },
            (ServerPhase::AwaitingResources, ServerEvent::Received(message)) => {
                match Server::get_resources(message) {
                    Ok((socket_pairs, listeners)) => {
                        let mut surplus = listeners;
                        let adopted = if surplus.len() > 0 {
                            Some(surplus.remove(0))
                        } else {
                            None
                        };
                        let mut listener = Listener::new(adopted, self.upstream.clone());
                        let spawns = listener.handover_run(socket_pairs);
                        self.phase = ServerPhase::Resuming;
                        Ok(ServerAction::Resume(Resumption { listener, spawns, surplus }))
                    },
                    Err(error) => {
                        self.phase = ServerPhase::Failed;
                        Ok(ServerAction::Fail(error))
                    },
                }
            },
            (ServerPhase::Resuming, ServerEvent::Resumed) => {
                self.phase = ServerPhase::Serving;
                Ok(ServerAction::Release(Message::Shutdown()))
            },
            (_, other) => Err(other),
        }
    }
}

/// The transition of the server is determined. Two outcomes of the same
/// event in the same state have the same next state and the same answer;
/// where the answer is a resumption, the two have the same listener and
/// their vectors hold the same things in the same order.
pub proof fn lemma_server_step_determined<T, S, L>(
    s: Server,
    event: ServerEvent<T, S, L>,
    next_a: Server,
    res_a: Result<ServerAction<T, S, L>, ServerEvent<T, S, L>>,
    next_b: Server,
    res_b: Result<ServerAction<T, S, L>, ServerEvent<T, S, L>>,
)
    requires
        server_step(s, event, next_a, res_a),
        server_step(s, event, next_b, res_b),
    ensures
        next_a == next_b,
        res_a matches Ok(ServerAction::Resume(_)) || res_a == res_b,
        res_a matches Ok(ServerAction::Resume(a)) ==> res_b is Ok && res_b->Ok_0 is Resume && a.listener
            == res_b->Ok_0->Resume_0.listener && a.spawns@ == res_b->Ok_0->Resume_0.spawns@
            && a.surplus@ == res_b->Ok_0->Resume_0.surplus@,
{
}

/// The two generations speak the same protocol. What the older one
/// opens with is what the newer one expects first, and gives it the
/// sender. What the newer one then sends is what the older one expects,
/// and makes it collect. The bundle that the older one sends is what the
/// newer one expects next, and is resumed whole: one handler for each
/// pair of the bundle, in its order, on the very streams of the bundle.
/// In a handover between the two no step is a violation.
pub proof fn lemma_generations_agree<T, S, L>(
    sender: T,
    resources: Resources<S, L>,
    newer: Server,
    next: Server,
    res: Result<ServerAction<T, S, L>, ServerEvent<T, S, L>>,
)
    requires
        newer.phase is AwaitingResources,
        server_step(newer, ServerEvent::Received(Message::Resources(resources)), next, res),
    ensures
        sender_in(Message::<T, S, L>::GiveSender(sender)) == Ok::<T, HandoverError>(sender),
        control_step::<T, S, L>(
            (Predecessor { phase: ControlPhase::AwaitingRequest }),
            ControlEvent::Received(Message::Takeover()),
        ) == ((Predecessor { phase: ControlPhase::Collecting }), Ok::<
            ControlAction<T, S, L>,
            ControlEvent<T, S, L>,
        >(ControlAction::Collect)),
        control_step::<T, S, L>(
            (Predecessor { phase: ControlPhase::Collecting }),
            ControlEvent::Collected(resources),
        ) == ((Predecessor { phase: ControlPhase::Done }), Ok::<
            ControlAction<T, S, L>,
            ControlEvent<T, S, L>,
        >(ControlAction::Send(Message::Resources(resources)))),
        next.phase is Resuming,
        res matches Ok(ServerAction::Resume(resumption)) && resumption_of(
            newer.upstream,
            resources,
            resumption,
        ) && resumption.spawns@.len() == resources.socket_pairs@.len() && (forall|i: int|
            0 <= i < resources.socket_pairs@.len() ==> (#[trigger] resumption.spawns@[i]).socket_pair
                == from_ipc(resources.socket_pairs@[i])),
{
}

} // verus!
