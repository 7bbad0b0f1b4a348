//! The decisions of the inference actor while it relays a chat stream from the backend to the
//! requester: which event to pass on, when to stop waiting for the backend, and which assistant
//! message to record once the stream is over. The actor performs each action and hands back what
//! happened next.
use vstd::prelude::*;

use crate::inference::{AssistantMessage, ChatEvent, InferenceError};

verus! {

/// Where a relay stands.
#[derive(Debug, Clone, Copy, PartialEq, Eq, Structural)]
pub enum RelayPhase {
    /// Events of the backend are passed on while the backend still works.
    Relaying,
    /// The backend is done or the requester is gone; buffered events are passed on.
    Draining,
    /// Nothing is left to do.
    Finished,
}

/// What happened since the last step.
#[derive(Debug, Clone, PartialEq, Eq)]
pub enum RelayEvent {
    /// The backend produced an event.
    Received(ChatEvent),
    /// The last event could not be passed on: the requester is gone.
    ReceiverGone,
    /// The backend's stream is over, with the error it ended with, if any.
    StreamEnded(Option<InferenceError>),
    /// No buffered event is left.
    BufferEmpty,
}

/// What the actor does next.
#[derive(Debug, Clone, PartialEq, Eq)]
pub enum RelayAction {
    /// Pass the event on to the requester.
    Forward(ChatEvent),
    /// Pass the backend's error on to the requester.
    ForwardError(InferenceError),
    /// Record the assistant message that the stream produced.
    Capture(AssistantMessage),
    /// Nothing.
    Nothing,
}

/// The state of a chat stream relay: whether the produced message is recorded, the text appended
/// so far, and the phase.
#[derive(Debug, Clone, PartialEq, Eq)]
pub struct ChatStreamRelay {
    pub capture: bool,
    pub captured: String,
    pub phase: RelayPhase,
}

/// The text that an event appends to the message.
pub open spec fn appended_text(e: ChatEvent) -> Seq<char> {
    match e {
        ChatEvent::MessageAppend { content } => content@,
        _ => Seq::empty(),
    }
}

/// The phase after an event.
pub open spec fn next_phase(phase: RelayPhase, event: RelayEvent) -> RelayPhase {
    match phase {
        RelayPhase::Relaying => match event {
            RelayEvent::ReceiverGone => RelayPhase::Draining,
            RelayEvent::StreamEnded(_) => RelayPhase::Draining,
            _ => RelayPhase::Relaying,
        },
        RelayPhase::Draining => match event {
            RelayEvent::BufferEmpty => RelayPhase::Finished,
            _ => RelayPhase::Draining,
        },
        RelayPhase::Finished => RelayPhase::Finished,
    }
}

/// The recorded text after an event: only text that arrives while the backend still works counts.
pub open spec fn next_captured(r: ChatStreamRelay, event: RelayEvent) -> Seq<char> {
    match event {
        RelayEvent::Received(e) => if r.capture && r.phase == RelayPhase::Relaying {
            r.captured@ + appended_text(e)
        } else {
            r.captured@
        },
        _ => r.captured@,
    }
}

/// The action for an event.
pub open spec fn relay_action(r: ChatStreamRelay, event: RelayEvent, action: RelayAction) -> bool {
    match event {
        RelayEvent::Received(e) => if r.phase == RelayPhase::Finished {
            action == RelayAction::Nothing
        } else {
            action == RelayAction::Forward(e)
        },
        RelayEvent::ReceiverGone => action == RelayAction::Nothing,
        RelayEvent::StreamEnded(err) => match err {
            Some(x) => if r.phase == RelayPhase::Relaying {
                action == RelayAction::ForwardError(x)
            } else {
                action == RelayAction::Nothing
            },
            None => action == RelayAction::Nothing,
        },
        RelayEvent::BufferEmpty => if r.phase == RelayPhase::Draining && r.capture {
            &&& action matches RelayAction::Capture(m)
            &&& m.content matches Some(c) && c@ == r.captured@
            &&& m.reasoning_content is None
            &&& m.tool_calls is None
        } else {
            action == RelayAction::Nothing
        },
    }
}

impl ChatStreamRelay {
    /// A relay at its start; `capture` says whether the produced message is recorded.
    pub fn new(capture: bool) -> (r: ChatStreamRelay)
        ensures
            r.capture == capture,
            r.captured@ == Seq::<char>::empty(),
            r.phase == RelayPhase::Relaying,
    {
        ChatStreamRelay { capture, captured: String::new(), phase: RelayPhase::Relaying }
    }

    /// Takes what happened and says what to do next.
    pub fn step(&mut self, event: RelayEvent) -> (action: RelayAction)
        ensures
            final(self).capture == old(self).capture,
            final(self).phase == next_phase(old(self).phase, event),
            final(self).captured@ == next_captured(*old(self), event),
            relay_action(*old(self), event, action),
    {
        match event {
            RelayEvent::Received(e) => {
                match self.phase {
                    RelayPhase::Finished => RelayAction::Nothing,
                    RelayPhase::Relaying => {
                        if self.capture {
                            if let ChatEvent::MessageAppend { content } = &e {
                                self.captured.append(content.as_str());
                            }
                        }
                        RelayAction::Forward(e)
                    },
                    RelayPhase::Draining => RelayAction::Forward(e),
                }
            },
            RelayEvent::ReceiverGone => {
                if self.phase == RelayPhase::Relaying {
                    self.phase = RelayPhase::Draining;
                }
                RelayAction::Nothing
            },
            RelayEvent::StreamEnded(err) => {
                if self.phase == RelayPhase::Relaying {
                    self.phase = RelayPhase::Draining;
                    match err {
                        Some(x) => RelayAction::ForwardError(x),
                        None => RelayAction::Nothing,
                    }
                } else {
                    RelayAction::Nothing
                }
            },
            RelayEvent::BufferEmpty => {
                if self.phase == RelayPhase::Draining {
                    self.phase = RelayPhase::Finished;
                    if self.capture {
                        RelayAction::Capture(
                            AssistantMessage {
                                content: Some(self.captured.clone()),
                                reasoning_content: None,
                                tool_calls: None,
                            },
                        )
                    } else {
                        RelayAction::Nothing
                    }
                } else {
                    RelayAction::Nothing
                }
            },
        }
    }
}

/// The phase and recorded text of a relay after a sequence of events, step by step as
/// [`ChatStreamRelay::step`] takes them.
pub open spec fn relay_after(
    capture: bool,
    phase: RelayPhase,
    captured: Seq<char>,
    events: Seq<RelayEvent>,
) -> (RelayPhase, Seq<char>)
    decreases events.len(),
{
    if events.len() == 0 {
        (phase, captured)
    } else {
        let e = events[0];
        let next = match e {
            RelayEvent::Received(x) => if capture && phase == RelayPhase::Relaying {
                captured + appended_text(x)
            } else {
                captured
            },
            _ => captured,
        };
        relay_after(capture, next_phase(phase, e), next, events.drop_first())
    }
}

/// The text that the backend streamed until it finished or the requester left.
pub open spec fn streamed_text(events: Seq<RelayEvent>) -> Seq<char>
    decreases events.len(),
{
    if events.len() == 0 {
        Seq::empty()
    } else {
        match events[0] {
            RelayEvent::Received(x) => appended_text(x) + streamed_text(events.drop_first()),
            RelayEvent::ReceiverGone => Seq::empty(),
            RelayEvent::StreamEnded(_) => Seq::empty(),
            RelayEvent::BufferEmpty => streamed_text(events.drop_first()),
        }
    }
}

proof fn lemma_no_capture_after_relaying(
    capture: bool,
    phase: RelayPhase,
    captured: Seq<char>,
    events: Seq<RelayEvent>,
)
    requires
        phase != RelayPhase::Relaying,
    ensures
        relay_after(capture, phase, captured, events).1 == captured,
    decreases events.len(),
{
    if events.len() > 0 {
        lemma_no_capture_after_relaying(
            capture,
            next_phase(phase, events[0]),
            captured,
            events.drop_first(),
        );
    }
}

proof fn lemma_recorded_text(captured: Seq<char>, events: Seq<RelayEvent>)
    ensures
        relay_after(true, RelayPhase::Relaying, captured, events).1 == captured + streamed_text(events),
    decreases events.len(),
{
    if events.len() == 0 {
        assert(captured + Seq::<char>::empty() =~= captured);
    } else {
        let e = events[0];
        let rest = events.drop_first();
        match e {
            RelayEvent::Received(x) => {
                lemma_recorded_text(captured + appended_text(x), rest);
                assert(captured + appended_text(x) + streamed_text(rest) =~= captured + (
                appended_text(x) + streamed_text(rest)));
            },
            RelayEvent::BufferEmpty => {
                lemma_recorded_text(captured, rest);
            },
            _ => {
                lemma_no_capture_after_relaying(true, RelayPhase::Draining, captured, rest);
                assert(captured + Seq::<char>::empty() =~= captured);
            },
        }
    }
}

/// A relay that records the message records exactly the text that the backend streamed until it
/// finished or the requester left: the content of the assistant message is rebuilt from the
/// stream.
pub proof fn law_recorded_message_is_the_streamed_text(events: Seq<RelayEvent>)
    ensures
        relay_after(true, RelayPhase::Relaying, Seq::empty(), events).1 == streamed_text(events),
{
    lemma_recorded_text(Seq::empty(), events);
    assert(Seq::<char>::empty() + streamed_text(events) =~= streamed_text(events));
}

/// A relay that does not record the message records nothing, whatever happens.
pub proof fn law_nothing_recorded_without_capture(phase: RelayPhase, events: Seq<RelayEvent>)
    ensures
        relay_after(false, phase, Seq::empty(), events).1 == Seq::<char>::empty(),
    decreases events.len(),
{
    if events.len() > 0 {
        law_nothing_recorded_without_capture(next_phase(phase, events[0]), events.drop_first());
    }
}

} // verus!

