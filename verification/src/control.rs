//! The older generation's side of the handover: what it does with the
//! signals of the operating system and with a newer generation that
//! connects to its control channel.
//!
//! The driver binds `CONTROL_SOCKET` and then waits for three things at
//! once: an interrupt, a termination request, and a peer to which the
//! opening message can be delivered. It reports the first that happens,
//! performs the action that `Predecessor::step` returns, and reports
//! what came of it:
//!
//! | action    | the driver                                         | then reports |
//! |-----------|----------------------------------------------------|--------------|
//! | `Stop`    | triggers the shutdown of the generation            | nothing      |
//! | `Receive` | waits for the peer's message                       | `Received`   |
//! | `Collect` | triggers the shutdown, gathers what is surrendered | `Collected`  |
//! | `Send`    | sends the message to the peer, then exits          | nothing      |
//! | `Exit`    | exits                                              | nothing      |
//! | `Fail`    | exits with the error                               | nothing      |

use vstd::prelude::*;
use crate::ipc::kind_of;
use crate::ipc::HandoverError;
use crate::ipc::Message;
use crate::ipc::Resources;

verus! {

/// Where the older generation stands in the handover.
#[derive(Debug, PartialEq, Eq, Clone, Copy)]
pub enum ControlPhase {
    /// The control channel is bound. No peer has connected.
    Listening,
    /// A peer has the opening message. Its request is awaited.
    AwaitingRequest,
    /// The peer asked for the takeover. The bundle is being gathered.
    Collecting,
    /// Nothing is left to do.
    Done,
    /// The peer broke the protocol.
    Failed,
}

/// The older generation in the handover.
#[derive(Debug, PartialEq, Eq)]
pub struct Predecessor {
    pub phase: ControlPhase,
}

/// What the driver reports to the older generation.
#[derive(Debug, PartialEq, Eq)]
pub enum ControlEvent<T, S, L> {
    /// The process was interrupted.
    Interrupt,
    /// The process was asked to terminate.
    Terminate,
    /// A peer connected and was sent the opening message.
    PeerConnected,
    /// The peer sent this message.
    Received(Message<T, S, L>),
    /// Every handler and the listener have let go: this is the bundle.
    Collected(Resources<S, L>),
}

/// What the older generation asks of the driver.
#[derive(Debug, PartialEq, Eq)]
pub enum ControlAction<T, S, L> {
    /// Trigger the shutdown of this generation. There is no handover.
    Stop,
    /// Wait for the peer's message.
    Receive,
    /// Trigger the shutdown of this generation and gather everything that
    /// its handlers and its listener surrender.
    Collect,
    /// Send this message to the peer, then exit.
    Send(Message<T, S, L>),
    /// Exit: the peer decided against the takeover.
    Exit,
    /// Exit with this error.
    Fail(HandoverError),
}

/// Whether the older generation has nothing more to do.
pub open spec fn is_settled(phase: ControlPhase) -> bool {
    phase is Done || phase is Failed
}

/// The transition of the older generation: its next state, and the action
/// that it asks for or, where the event does not belong to the phase, the
/// event itself with the state unchanged.
pub open spec fn control_step<T, S, L>(p: Predecessor, event: ControlEvent<T, S, L>) -> (
    Predecessor,
    Result<ControlAction<T, S, L>, ControlEvent<T, S, L>>,
) {
    match (p.phase, event) {
        (ControlPhase::Listening, ControlEvent::Interrupt) => (
            Predecessor { phase: ControlPhase::Done },
            Ok(ControlAction::Stop),
        ),
        (ControlPhase::Listening, ControlEvent::Terminate) => (
            Predecessor { phase: ControlPhase::Done },
            Ok(ControlAction::Stop),
        ),
        (ControlPhase::Listening, ControlEvent::PeerConnected) => (
            Predecessor { phase: ControlPhase::AwaitingRequest },
            Ok(ControlAction::Receive),
        ),
        (ControlPhase::AwaitingRequest, ControlEvent::Received(message)) => match message {
            Message::Takeover() => (
                Predecessor { phase: ControlPhase::Collecting },
                Ok(ControlAction::Collect),
            ),
            Message::Shutdown() => (Predecessor { phase: ControlPhase::Done }, Ok(ControlAction::Exit)),
            other => (
                Predecessor { phase: ControlPhase::Failed },
                Ok(ControlAction::Fail(HandoverError::ExpectedRequest(kind_of(other)))),
            ),
        },
        (ControlPhase::Collecting, ControlEvent::Collected(resources)) => (
            Predecessor { phase: ControlPhase::Done },
            Ok(ControlAction::Send(Message::Resources(resources))),
        ),
        (_, other) => (p, Err(other)),
    }
}

/// The older generation after a sequence of events.
pub open spec fn control_after<T, S, L>(p: Predecessor, events: Seq<ControlEvent<T, S, L>>) -> Predecessor
    decreases events.len(),
{
    if events.len() == 0 {
        p
    } else {
        control_step(control_after(p, events.drop_last()), events.last()).0
    }
}

/// The answers of the older generation to a sequence of events, one for
/// each event, first to last.
pub open spec fn control_answers<T, S, L>(p: Predecessor, events: Seq<ControlEvent<T, S, L>>) -> Seq<
    Result<ControlAction<T, S, L>, ControlEvent<T, S, L>>,
>
    decreases events.len(),
{
    if events.len() == 0 {
        Seq::empty()
    } else {
        control_answers(p, events.drop_last()).push(
            control_step(control_after(p, events.drop_last()), events.last()).1,
        )
    }
}

/// Whether the answer makes the driver build or send a bundle.
pub open spec fn is_handover<T, S, L>(
    answer: Result<ControlAction<T, S, L>, ControlEvent<T, S, L>>,
) -> bool {
    answer matches Ok(action) && (action is Collect || action is Send)
}

impl Predecessor {
    /// The older generation at its start, and the opening message that
    /// the driver sends to the peer that connects: the sending half of a
    /// channel on which the peer can talk to this generation.
    pub fn new<T, S, L>(sender: T) -> (start: (Predecessor, Message<T, S, L>))
        ensures
            start.0 == (Predecessor { phase: ControlPhase::Listening }),
            start.1 == Message::<T, S, L>::GiveSender(sender),
    {
        (Predecessor { phase: ControlPhase::Listening }, Message::GiveSender(sender))
    }

    /// Advances the handover by one event.
    ///
    /// A signal that arrives before any peer stops the generation, and
    /// that is all: nothing is collected and nothing is sent. A peer that
    /// connects is listened to for one message. On `Takeover` the
    /// generation shuts down, and once the bundle is complete it is sent
    /// as `Resources`. On `Shutdown` the generation exits at once. Any
    /// other message is a violation of the protocol and fatal. An event
    /// that does not belong to the phase comes back as `Err` and changes
    /// nothing.
    pub fn step<T, S, L>(&mut self, event: ControlEvent<T, S, L>) -> (res: Result<
        ControlAction<T, S, L>,
        ControlEvent<T, S, L>,
    >)
        ensures
            (*final(self), res) == control_step(*old(self), event),
    {
        match (self.phase, event) {
            (ControlPhase::Listening, ControlEvent::Interrupt) => {
                self.phase = ControlPhase::Done;
                Ok(ControlAction::Stop)
            },
            (ControlPhase::Listening, ControlEvent::Terminate) => {
                self.phase = ControlPhase::Done;
                Ok(ControlAction::Stop)
            },
            (ControlPhase::Listening, ControlEvent::PeerConnected) => {
                self.phase = ControlPhase::AwaitingRequest;
                Ok(ControlAction::Receive)
            },
            (ControlPhase::AwaitingRequest, ControlEvent::Received(message)) => match message {
                Message::Takeover() => {
                    self.phase = ControlPhase::Collecting;
                    Ok(ControlAction::Collect)
                },
                Message::Shutdown() => {
                    self.phase = ControlPhase::Done;
                    Ok(ControlAction::Exit)
                },
                other => {
                    self.phase = ControlPhase::Failed;
                    Ok(ControlAction::Fail(HandoverError::ExpectedRequest(other.kind())))
                },
            },
            (ControlPhase::Collecting, ControlEvent::Collected(resources)) => {
                self.phase = ControlPhase::Done;
                Ok(ControlAction::Send(Message::Resources(resources)))
            },
            (_, other) => Err(other),
        }
    }
}

/// Once the older generation has settled, nothing moves it: every event
/// is turned down and the state stays.
pub proof fn lemma_settled_stays<T, S, L>(p: Predecessor, events: Seq<ControlEvent<T, S, L>>)
    requires
        is_settled(p.phase),
    ensures
        control_after(p, events) == p,
        control_answers(p, events).len() == events.len(),
        forall|i: int|
            0 <= i < events.len() ==> (#[trigger] control_answers(p, events)[i]) == Err::<
                ControlAction<T, S, L>,
                ControlEvent<T, S, L>,
            >(events[i]),
    decreases events.len(),
{
    if events.len() > 0 {
        lemma_settled_stays(p, events.drop_last());
    }
}

/// The bundle is built on request only. The older generation asks for
/// the collection in one situation: a peer has connected and its message
/// is `Takeover`. It sends a bundle in one situation: the collection that
/// it asked for is complete.
pub proof fn lemma_handover_on_request_only<T, S, L>(p: Predecessor, event: ControlEvent<T, S, L>)
    ensures
        control_step(p, event).1 matches Ok(ControlAction::Collect) ==> p.phase is AwaitingRequest
            && event == ControlEvent::<T, S, L>::Received(Message::Takeover()),
        control_step(p, event).1 matches Ok(ControlAction::Send(message)) ==> p.phase is Collecting
            && event is Collected && message == Message::<T, S, L>::Resources(event->Collected_0),
{
}

/// A signal with no peer is a plain stop. If the first thing that the
/// older generation meets is an interrupt or a termination request, the
/// driver is told to stop the generation, and after that no event
/// whatever makes the generation collect or send a bundle.
pub proof fn lemma_signal_stops_without_handover<T, S, L>(events: Seq<ControlEvent<T, S, L>>)
    requires
        events.len() > 0,
        events[0] is Interrupt || events[0] is Terminate,
    ensures
        control_answers((Predecessor { phase: ControlPhase::Listening }), events).len()
            == events.len(),
        control_answers((Predecessor { phase: ControlPhase::Listening }), events)[0] == Ok::<
            ControlAction<T, S, L>,
            ControlEvent<T, S, L>,
        >(ControlAction::Stop),
        control_after((Predecessor { phase: ControlPhase::Listening }), events).phase is Done,
        forall|i: int|
            0 <= i < events.len() ==> !is_handover(
                #[trigger] control_answers((Predecessor { phase: ControlPhase::Listening }), events)[i],
            ),
    decreases events.len(),
{
    let start = Predecessor { phase: ControlPhase::Listening };
    let before = events.drop_last();
    if events.len() == 1 {
        assert(before.len() == 0);
        assert(control_answers(start, before).len() == 0);
        assert(control_after(start, before) == start);
    } else {
        assert(before[0] == events[0]);
        lemma_signal_stops_without_handover(before);
        assert forall|i: int| 0 <= i < events.len() implies !is_handover(
            #[trigger] control_answers(start, events)[i],
        ) by {
            if i < before.len() {
                assert(control_answers(start, events)[i] == control_answers(start, before)[i]);
            }
        }
    }
}

/// The number of answers that make the driver send a bundle.
pub open spec fn bundles_sent<T, S, L>(
    answers: Seq<Result<ControlAction<T, S, L>, ControlEvent<T, S, L>>>,
) -> nat
    decreases answers.len(),
{
    if answers.len() == 0 {
        0
    } else {
        bundles_sent(answers.drop_last()) + if answers.last() matches Ok(ControlAction::Send(_)) {
            1nat
        } else {
            0nat
        }
    }
}

/// The bundle is sent once at most. Whatever the older generation meets,
/// and wherever it starts, it tells the driver to send a bundle at most
/// one time, and when it has done so it has nothing more to do.
pub proof fn lemma_bundle_sent_once<T, S, L>(p: Predecessor, events: Seq<ControlEvent<T, S, L>>)
    ensures
        bundles_sent(control_answers(p, events)) <= 1,
        bundles_sent(control_answers(p, events)) == 1 ==> control_after(p, events).phase is Done,
    decreases events.len(),
{
    if events.len() > 0 {
        let before = events.drop_last();
        lemma_bundle_sent_once(p, before);
        let answer = control_step(control_after(p, before), events.last()).1;
        assert(control_answers(p, events) == control_answers(p, before).push(answer));
        assert(control_answers(p, events).drop_last() =~= control_answers(p, before));
    }
}

} // verus!
