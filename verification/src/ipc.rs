//! The handover between two generations: the messages of the control
//! channel, the bundle of sockets that crosses it, and the first step of
//! the newer generation.

use vstd::prelude::*;
pub use crate::connections::SocketPair;

verus! {

/// Where the control channel is bound. One older and one newer generation
/// meet there, once per handover.
pub const CONTROL_SOCKET: &'static str = "/tmp/proto-socket";

/// What travels over the control channel.
#[derive(Debug, PartialEq, Eq)]
pub enum Message<T, S, L> {
    /// Newer to older: stop accepting, collect what is live, send it.
    Takeover(),
    /// Older to newer: the listening socket and every live pair.
    Resources(Resources<S, L>),
    /// Newer to older: everything arrived, the older generation may exit.
    Shutdown(),
    /// Older to newer: the sending half of a channel to the older
    /// generation.
    GiveSender(T),
}

/// What a generation surrenders when it shuts down: a live pair from a
/// connection handler, or the listening socket from the listener.
#[derive(Debug, PartialEq, Eq)]
pub enum Socket<S, L> {
    SocketPair(SocketPair<S>),
    Listener(L),
}

/// A client/upstream pair in the form in which it crosses the control
/// channel. Sending it gives it away: the sender keeps nothing.
#[derive(Debug, PartialEq, Eq)]
pub struct IPCSocketPair<S> {
    pub client: S,
    pub upstream: S,
}

/// Everything that one generation hands to the next: the pairs that were
/// being proxied, in the order in which they were surrendered, and the
/// listening socket if the accept loop had one to give.
#[derive(Debug, PartialEq, Eq)]
pub struct Resources<S, L> {
    pub socket_pairs: Vec<IPCSocketPair<S>>,
    pub listeners: Vec<L>,
}

/// The pair in its transferable form: the same two streams.
pub open spec fn to_ipc<S>(pair: SocketPair<S>) -> IPCSocketPair<S> {
    IPCSocketPair { client: pair.client, upstream: pair.upstream }
}

/// The pairs among `items`, each in its transferable form, in the order
/// in which they stand in `items`.
pub open spec fn bundled_pairs<S, L>(items: Seq<Socket<S, L>>) -> Seq<IPCSocketPair<S>>
    decreases items.len(),
{
    if items.len() == 0 {
        Seq::empty()
    } else {
        let before = bundled_pairs(items.drop_last());
        match items.last() {
            Socket::SocketPair(pair) => before.push(to_ipc(pair)),
            Socket::Listener(_) => before,
        }
    }
}

/// The listening sockets among `items`, in the order in which they stand
/// in `items`.
pub open spec fn bundled_listeners<S, L>(items: Seq<Socket<S, L>>) -> Seq<L>
    decreases items.len(),
{
    if items.len() == 0 {
        Seq::empty()
    } else {
        let before = bundled_listeners(items.drop_last());
        match items.last() {
            Socket::SocketPair(_) => before,
            Socket::Listener(listener) => before.push(listener),
        }
    }
}

/// The pair as a live one: the same two streams.
pub open spec fn from_ipc<S>(pair: IPCSocketPair<S>) -> SocketPair<S> {
    SocketPair { client: pair.client, upstream: pair.upstream }
}

/// The pairs of a bundle as live ones, in their order.
pub open spec fn inherited_pairs<S>(pairs: Seq<IPCSocketPair<S>>) -> Seq<SocketPair<S>> {
    Seq::new(pairs.len(), |i: int| from_ipc(pairs[i]))
}

impl<S> SocketPair<S> {
    /// Turns the pair into its transferable form.
    pub fn into_ipc(self) -> (pair: IPCSocketPair<S>)
        ensures
            pair == to_ipc(self),
    {
        IPCSocketPair { client: self.client, upstream: self.upstream }
    }
}

impl<S> IPCSocketPair<S> {
    /// Turns the pair that crossed the control channel into a live one.
    pub fn into_socket_pair(self) -> (pair: SocketPair<S>)
        ensures
            pair == from_ipc(self),
    {
        SocketPair { client: self.client, upstream: self.upstream }
    }
}

/// Builds the bundle for the next generation from everything that was
/// surrendered, in the order in which it arrived.
///
/// `items` is what the handover sink held once every handler and the
/// listener had let go of it. Every pair in it is in the bundle exactly
/// once and in the same place among the pairs; the same holds of the
/// listening sockets. Nothing else is in the bundle.
pub fn collect_socket_pairs<S, L>(items: Vec<Socket<S, L>>) -> (resources: Resources<S, L>)
    ensures
        resources.socket_pairs@ == bundled_pairs(items@),
        resources.listeners@ == bundled_listeners(items@),
{
    let mut resources = Resources { socket_pairs: Vec::new(), listeners: Vec::new() };
    let ghost all = items@;
    for val in it: items
        invariant
            it.seq() == all,
            resources.socket_pairs@ == bundled_pairs(all.take(it.index() as int)),
            resources.listeners@ == bundled_listeners(all.take(it.index() as int)),
    {
        proof {
            let i = it.index() as int;
            assert(all.take(i + 1).drop_last() =~= all.take(i));
        }
        match val {
            Socket::Listener(listener) => {
                resources.listeners.push(listener);
            },
            Socket::SocketPair(socket_pair) => {
                resources.socket_pairs.push(socket_pair.into_ipc());
            },
        }
    }
    proof {
        assert(all.take(all.len() as int) =~= all);
    }
    resources
}

/// Which of the four messages one is.
#[derive(Debug, PartialEq, Eq, Clone, Copy)]
pub enum MessageKind {
    Takeover,
    Resources,
    Shutdown,
    GiveSender,
}

/// A violation of the handover protocol: a message other than the one
/// that the step called for. The handover is all or nothing, so every one
/// of these is fatal to the generation that meets it. Each holds the kind
/// of the message that came.
#[derive(Debug, PartialEq, Eq, Clone, Copy)]
pub enum HandoverError {
    /// The newer generation connected and got something other than the
    /// sender.
    ExpectedSender(MessageKind),
    /// The newer generation asked for the takeover and got something
    /// other than the resources.
    ExpectedResources(MessageKind),
    /// The older generation got something other than a request for the
    /// takeover or the leave to exit.
    ExpectedRequest(MessageKind),
}

/// The kind of a message.
pub open spec fn kind_of<T, S, L>(message: Message<T, S, L>) -> MessageKind {
    match message {
        Message::Takeover() => MessageKind::Takeover,
        Message::Resources(_) => MessageKind::Resources,
        Message::Shutdown() => MessageKind::Shutdown,
        Message::GiveSender(_) => MessageKind::GiveSender,
    }
}

/// What the newer generation makes of the first message on the control
/// channel: the sender that it carries, or a violation.
pub open spec fn sender_in<T, S, L>(first: Message<T, S, L>) -> Result<T, HandoverError> {
    match first {
        Message::GiveSender(sender) => Ok(sender),
        other => Err(HandoverError::ExpectedSender(kind_of(other))),
    }
}

/// The text of a violation.
pub open spec fn error_text(error: HandoverError) -> Seq<char> {
    match error {
        HandoverError::ExpectedSender(_) => "Expected Message::Sender"@,
        HandoverError::ExpectedResources(_) => "invalid response to Message::Takeover"@,
        HandoverError::ExpectedRequest(_) => "unexpected message received"@,
    }
}

impl<T, S, L> Message<T, S, L> {
    /// The kind of this message.
    pub fn kind(&self) -> (kind: MessageKind)
        ensures
            kind == kind_of(*self),
    {
        match self {
            Message::Takeover() => MessageKind::Takeover,
            Message::Resources(_) => MessageKind::Resources,
            Message::Shutdown() => MessageKind::Shutdown,
            Message::GiveSender(_) => MessageKind::GiveSender,
        }
    }
}

impl HandoverError {
    /// What to tell the operator.
    pub fn message(&self) -> (text: String)
        ensures
            text@ == error_text(*self),
    {
        match self {
            HandoverError::ExpectedSender(_) => "Expected Message::Sender".to_owned(),
            HandoverError::ExpectedResources(_) => "invalid response to Message::Takeover".to_owned(),
            HandoverError::ExpectedRequest(_) => "unexpected message received".to_owned(),
        }
    }
}

/// The first step of the newer generation on the control channel. The
/// driver has connected to `CONTROL_SOCKET` and received `first`. The
/// older generation opens with `GiveSender`: its sender is what comes
/// back, and on it the newer generation talks from then on. Anything else
/// is a violation of the protocol.
pub fn unix_socket_listen<T, S, L>(first: Message<T, S, L>) -> (res: Result<T, HandoverError>)
    ensures
        res == sender_in(first),
{
    match first {
        Message::GiveSender(sender) => Ok(sender),
        other => Err(HandoverError::ExpectedSender(other.kind())),
    }
}

} // verus!
