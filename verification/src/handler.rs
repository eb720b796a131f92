//! What one ECR connection does, as a state machine: read a message, publish
//! it on the subject of its terminal, wait for a message from the POS side,
//! and hand it back to the ECR when it is the reply for that terminal.
//!
//! The caller performs each action (reading the socket, publishing,
//! waiting for a message) and reports what came of it as the next event.

use vstd::prelude::*;
use bytes::BytesMut;
use crate::buf::{bytes_of, opt_bytes_of};
use crate::config::{Topic, subject_of};
use crate::utils::{extract_tid, spec_tid, has_tid, tid_splits_char};

verus! {

/// Where a connection handler is in its loop.
pub enum Phase {
    /// At the top of the loop.
    Idle,
    /// Waiting for data from the ECR (or for shutdown).
    Reading,
    /// Publishing the message of terminal `tid`.
    Publishing { tid: String },
    /// Waiting for the POS reply for terminal `tid` (or for shutdown).
    AwaitingReply { tid: String },
    /// Done: the handler returns.
    Stopped,
}

/// What happened since the last action.
pub enum HandlerEvent {
    /// The loop came round to its top; `shutdown` tells whether shutdown
    /// has been signalled.
    LoopStart { shutdown: bool },
    /// The shutdown signal arrived while waiting.
    Shutdown,
    /// The read from the ECR connection finished: the data, or `None` when
    /// the peer closed the connection.
    DataRead { data: Option<BytesMut> },
    /// The publish was acknowledged by JetStream.
    Published,
    /// A message arrived from the consumer, on `subject`, carrying
    /// `payload`.
    Message { subject: String, payload: Vec<u8> },
}

/// What to do next.
pub enum HandlerAction {
    /// Read data from the ECR connection, or wait for shutdown.
    ReadData,
    /// Publish `payload` on `subject` and wait for the acknowledgement.
    Publish { subject: String, payload: BytesMut },
    /// Wait for the next message from the consumer, or for shutdown.
    NextMessage,
    /// Write `payload` to the ECR connection and acknowledge the message it
    /// came in.
    Deliver { payload: Vec<u8> },
    /// Leave the message be and go back to the top of the loop.
    Skip,
    /// Return from the handler.
    Finish,
}

/// `Phase` with its strings as character sequences.
pub enum PhaseModel {
    Idle,
    Reading,
    Publishing(Seq<char>),
    AwaitingReply(Seq<char>),
    Stopped,
}

/// `HandlerEvent` with its data as byte and character sequences.
pub enum EventModel {
    LoopStart(bool),
    Shutdown,
    DataRead(Option<Seq<u8>>),
    Published,
    Message(Seq<char>, Seq<u8>),
}

/// `HandlerAction` with its data as character and byte sequences.
pub enum ActionModel {
    ReadData,
    Publish(Seq<char>, Seq<u8>),
    NextMessage,
    Deliver(Seq<u8>),
    Skip,
    Finish,
}

impl View for Phase {
    type V = PhaseModel;

    open spec fn view(&self) -> PhaseModel {
        match self {
            Phase::Idle => PhaseModel::Idle,
            Phase::Reading => PhaseModel::Reading,
            Phase::Publishing { tid } => PhaseModel::Publishing(tid@),
            Phase::AwaitingReply { tid } => PhaseModel::AwaitingReply(tid@),
            Phase::Stopped => PhaseModel::Stopped,
        }
    }
}

impl View for HandlerEvent {
    type V = EventModel;

    open spec fn view(&self) -> EventModel {
        match self {
            HandlerEvent::LoopStart { shutdown } => EventModel::LoopStart(*shutdown),
            HandlerEvent::Shutdown => EventModel::Shutdown,
            HandlerEvent::DataRead { data } => EventModel::DataRead(opt_bytes_of(*data)),
            HandlerEvent::Published => EventModel::Published,
            HandlerEvent::Message { subject, payload } => EventModel::Message(subject@, payload@),
        }
    }
}

impl View for HandlerAction {
    type V = ActionModel;

    open spec fn view(&self) -> ActionModel {
        match self {
            HandlerAction::ReadData => ActionModel::ReadData,
            HandlerAction::Publish { subject, payload } => ActionModel::Publish(
                subject@,
                bytes_of(*payload),
            ),
            HandlerAction::NextMessage => ActionModel::NextMessage,
            HandlerAction::Deliver { payload } => ActionModel::Deliver(payload@),
            HandlerAction::Skip => ActionModel::Skip,
            HandlerAction::Finish => ActionModel::Finish,
        }
    }
}

/// The events that each phase waits for. Data whose terminal id would
/// split a character is not accepted: taking the id out would fail there.
pub open spec fn accepts(phase: PhaseModel, event: EventModel) -> bool {
    match phase {
        PhaseModel::Idle => event is LoopStart,
        PhaseModel::Reading => match event {
            EventModel::Shutdown => true,
            EventModel::DataRead(Some(d)) => !tid_splits_char(d),
            EventModel::DataRead(None) => true,
            _ => false,
        },
        PhaseModel::Publishing(_) => event is Published,
        PhaseModel::AwaitingReply(_) => event is Shutdown || event is Message,
        PhaseModel::Stopped => false,
    }
}

/// The next phase and the action, for the topic prefixes `ecr` and `pos`.
pub open spec fn next(ecr: Seq<char>, pos: Seq<char>, phase: PhaseModel, event: EventModel) -> (
    PhaseModel,
    ActionModel,
) {
    match phase {
        PhaseModel::Idle => match event {
            EventModel::LoopStart(true) => (PhaseModel::Stopped, ActionModel::Finish),
            _ => (PhaseModel::Reading, ActionModel::ReadData),
        },
        PhaseModel::Reading => match event {
            EventModel::DataRead(Some(d)) => match spec_tid(d) {
                Some(t) => (PhaseModel::Publishing(t), ActionModel::Publish(subject_of(ecr, t), d)),
                None => (PhaseModel::Stopped, ActionModel::Finish),
            },
            _ => (PhaseModel::Stopped, ActionModel::Finish),
        },
        PhaseModel::Publishing(t) => (PhaseModel::AwaitingReply(t), ActionModel::NextMessage),
        PhaseModel::AwaitingReply(t) => match event {
            EventModel::Message(s, b) => if s == subject_of(pos, t) {
                (PhaseModel::Idle, ActionModel::Deliver(b))
            } else {
                (PhaseModel::Idle, ActionModel::Skip)
            },
            _ => (PhaseModel::Stopped, ActionModel::Finish),
        },
        PhaseModel::Stopped => (PhaseModel::Stopped, ActionModel::Finish),
    }
}

impl Phase {
    /// The phase a handler starts in.
    pub fn new() -> (p: Phase)
        ensures
            p@ == PhaseModel::Idle,
    {
        Phase::Idle
    }

    /// Takes one event and gives the next phase and what to do.
    pub fn step(self, topic: &Topic, event: HandlerEvent) -> (r: (Phase, HandlerAction))
        requires
            accepts(self@, event@),
        ensures
            (r.0@, r.1@) == next(topic.ecr@, topic.pos@, self@, event@),
    {
        match self {
            Phase::Idle => {
                match event {
                    HandlerEvent::LoopStart { shutdown } => {
                        if shutdown {
                            (Phase::Stopped, HandlerAction::Finish)
                        } else {
                            (Phase::Reading, HandlerAction::ReadData)
                        }
                    },
                    _ => (Phase::Reading, HandlerAction::ReadData),
                }
            },
            Phase::Reading => {
                match event {
                    HandlerEvent::DataRead { data: Some(data) } => {
                        match extract_tid(&data) {
                            Some(tid) => {
                                let subject = topic.ecr_subject(tid);
                                let tid = String::from_str(tid);
                                (Phase::Publishing { tid }, HandlerAction::Publish { subject, payload: data })
                            },
                            None => (Phase::Stopped, HandlerAction::Finish),
                        }
                    },
                    _ => (Phase::Stopped, HandlerAction::Finish),
                }
            },
            Phase::Publishing { tid } => (Phase::AwaitingReply { tid }, HandlerAction::NextMessage),
            Phase::AwaitingReply { tid } => {
                match event {
                    HandlerEvent::Message { subject, payload } => {
                        let expected = topic.pos_subject(tid.as_str());
                        if subject == expected {
                            (Phase::Idle, HandlerAction::Deliver { payload })
                        } else {
                            (Phase::Idle, HandlerAction::Skip)
                        }
                    },
                    _ => (Phase::Stopped, HandlerAction::Finish),
                }
            },
            Phase::Stopped => (Phase::Stopped, HandlerAction::Finish),
        }
    }
}

/// One round of the relay: at the top of the loop, without shutdown, the
/// handler reads; a message with a terminal id `t` is published unchanged on
/// `ecr.t`; once acknowledged the handler waits for a reply; and a message
/// from the consumer is handed to the ECR, its payload unchanged, exactly
/// when it arrives on `pos.t`. Either way the handler is back at the top of
/// its loop.
pub proof fn lemma_relay_round(
    ecr: Seq<char>,
    pos: Seq<char>,
    data: Seq<u8>,
    reply: Seq<char>,
    reply_payload: Seq<u8>,
)
    requires
        has_tid(data),
        !tid_splits_char(data),
    ensures
        ({
            let t = spec_tid(data).unwrap();
            let (p1, a1) = next(ecr, pos, PhaseModel::Idle, EventModel::LoopStart(false));
            let (p2, a2) = next(ecr, pos, p1, EventModel::DataRead(Some(data)));
            let (p3, a3) = next(ecr, pos, p2, EventModel::Published);
            let (p4, a4) = next(ecr, pos, p3, EventModel::Message(reply, reply_payload));
            &&& accepts(PhaseModel::Idle, EventModel::LoopStart(false))
            &&& a1 == ActionModel::ReadData
            &&& accepts(p1, EventModel::DataRead(Some(data)))
            &&& a2 == ActionModel::Publish(subject_of(ecr, t), data)
            &&& accepts(p2, EventModel::Published)
            &&& a3 == ActionModel::NextMessage
            &&& accepts(p3, EventModel::Message(reply, reply_payload))
            &&& a4 == (if reply == subject_of(pos, t) {
                ActionModel::Deliver(reply_payload)
            } else {
                ActionModel::Skip
            })
            &&& p4 == PhaseModel::Idle
        }),
{
}

/// Bytes are handed to the ECR only while the handler waits for the reply
/// of some terminal `t`, and they are the payload of a message that arrived
/// on `pos.t`.
pub proof fn lemma_deliver_only_matching_reply(
    ecr: Seq<char>,
    pos: Seq<char>,
    phase: PhaseModel,
    event: EventModel,
)
    requires
        accepts(phase, event),
        next(ecr, pos, phase, event).1 is Deliver,
    ensures
        phase matches PhaseModel::AwaitingReply(t) && event == EventModel::Message(
            subject_of(pos, t),
            next(ecr, pos, phase, event).1->Deliver_0,
        ),
{
}

/// Whatever the handler waits for, shutdown ends it; and at the top of the
/// loop a shutdown already signalled ends it before anything is read.
pub proof fn lemma_shutdown_stops(ecr: Seq<char>, pos: Seq<char>, phase: PhaseModel)
    requires
        phase is Reading || phase is AwaitingReply,
    ensures
        accepts(phase, EventModel::Shutdown),
        next(ecr, pos, phase, EventModel::Shutdown) == (PhaseModel::Stopped, ActionModel::Finish),
        accepts(PhaseModel::Idle, EventModel::LoopStart(true)),
        next(ecr, pos, PhaseModel::Idle, EventModel::LoopStart(true)) == (
            PhaseModel::Stopped,
            ActionModel::Finish,
        ),
{
}

/// A connection that closes, or a message without a terminal id, ends the
/// handler without publishing anything.
pub proof fn lemma_no_tid_stops(ecr: Seq<char>, pos: Seq<char>, data: Option<Seq<u8>>)
    requires
        data matches Some(d) ==> !has_tid(d),
    ensures
        accepts(PhaseModel::Reading, EventModel::DataRead(data)),
        next(ecr, pos, PhaseModel::Reading, EventModel::DataRead(data)) == (
            PhaseModel::Stopped,
            ActionModel::Finish,
        ),
{
}

/// Once stopped, the handler takes no further event.
pub proof fn lemma_stopped_is_final(event: EventModel)
    ensures
        !accepts(PhaseModel::Stopped, event),
{
}

} // verus!
