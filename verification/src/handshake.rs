//! How the realtime session is set up: the client waits for the service to say that the
//! session is created, and then that it is updated.
use crate::events::{
    detail_of, error_detail, CloseFrameView, Phase, ServerEventView, SessionError,
    SessionErrorView, SocketRead, SocketReadView,
};
use crate::text::same;
use vstd::prelude::*;

verus! {

/// The seconds that each of the two waits may take.
pub const SESSION_TIMEOUT_SECS: u64 = 15;

/// What to do after a read.
#[derive(Debug)]
pub enum HandshakeStep {
    /// The awaited event has come.
    Ready,
    /// Read on.
    Wait,
    /// Give up.
    Failed { error: SessionError },
}

/// What a [`HandshakeStep`] holds.
pub enum HandshakeStepView {
    Ready,
    Wait,
    Failed { error: SessionErrorView },
}

impl View for HandshakeStep {
    type V = HandshakeStepView;

    open spec fn view(&self) -> HandshakeStepView {
        match *self {
            HandshakeStep::Ready => HandshakeStepView::Ready,
            HandshakeStep::Wait => HandshakeStepView::Wait,
            HandshakeStep::Failed { error } => HandshakeStepView::Failed { error: error@ },
        }
    }
}

/// The event that ends the wait of a phase.
pub open spec fn awaited_event(phase: Phase) -> Seq<char> {
    match phase {
        Phase::Created => "session.created"@,
        _ => "session.updated"@,
    }
}

/// What a read means while the event of `phase` is awaited.
pub open spec fn handshake_step(phase: Phase, read: SocketReadView) -> HandshakeStepView {
    match read {
        SocketReadView::Text { text, event } => match event {
            None => HandshakeStepView::Failed {
                error: SessionErrorView::InvalidEvent { phase, text },
            },
            Some(event) => if event.event_type == awaited_event(phase) {
                HandshakeStepView::Ready
            } else if event.event_type == "error"@ {
                HandshakeStepView::Failed {
                    error: SessionErrorView::Server { phase, detail: error_detail(event, text) },
                }
            } else {
                HandshakeStepView::Wait
            },
        },
        SocketReadView::Close { frame } => HandshakeStepView::Failed {
            error: SessionErrorView::Closed { phase, frame },
        },
        SocketReadView::Other => HandshakeStepView::Wait,
        SocketReadView::Failed => HandshakeStepView::Failed {
            error: SessionErrorView::ReadFailed { phase },
        },
        SocketReadView::Ended => HandshakeStepView::Failed {
            error: SessionErrorView::Ended { phase },
        },
    }
}

/// What a wait comes to over the reads so far: the step of the first read that does not
/// let it go on, or `Wait`.
pub open spec fn handshake_outcome(phase: Phase, reads: Seq<SocketReadView>) -> HandshakeStepView
    decreases reads.len(),
{
    if reads.len() == 0 {
        HandshakeStepView::Wait
    } else {
        match handshake_step(phase, reads[0]) {
            HandshakeStepView::Wait => handshake_outcome(phase, reads.drop_first()),
            step => step,
        }
    }
}

fn wait_step(phase: Phase, awaited: &str, read: SocketRead) -> (r: HandshakeStep)
    requires
        awaited@ == awaited_event(phase),
    ensures
        r@ == handshake_step(phase, read@),
{
    match read {
        SocketRead::Text { text, event } => match event {
            None => HandshakeStep::Failed { error: SessionError::InvalidEvent { phase, text } },
            Some(event) => {
                if same(event.event_type.as_str(), awaited) {
                    HandshakeStep::Ready
                } else if same(event.event_type.as_str(), "error") {
                    let detail = detail_of(event, text.as_str());
                    HandshakeStep::Failed { error: SessionError::Server { phase, detail } }
                } else {
                    HandshakeStep::Wait
                }
            },
        },
        SocketRead::Close { frame } => HandshakeStep::Failed {
            error: SessionError::Closed { phase, frame },
        },
        SocketRead::Other => HandshakeStep::Wait,
        SocketRead::Failed => HandshakeStep::Failed { error: SessionError::ReadFailed { phase } },
        SocketRead::Ended => HandshakeStep::Failed { error: SessionError::Ended { phase } },
    }
}

/// Takes a read while the session is to be created.
pub fn wait_for_session_created(read: SocketRead) -> (r: HandshakeStep)
    ensures
        r@ == handshake_step(Phase::Created, read@),
{
    wait_step(Phase::Created, "session.created", read)
}

/// Takes a read while the session is to be updated.
pub fn wait_for_session_updated(read: SocketRead) -> (r: HandshakeStep)
    ensures
        r@ == handshake_step(Phase::Updated, read@),
{
    wait_step(Phase::Updated, "session.updated", read)
}

/// Reads that let the wait go on have no say in it, and neither has what comes after the
/// read that ends it.
pub proof fn law_first_deciding_read(
    phase: Phase,
    before: Seq<SocketReadView>,
    deciding: SocketReadView,
    after: Seq<SocketReadView>,
)
    requires
        forall|i: int|
            0 <= i < before.len() ==> handshake_step(phase, #[trigger] before[i])
                == HandshakeStepView::Wait,
        handshake_step(phase, deciding) != HandshakeStepView::Wait,
    ensures
        handshake_outcome(phase, before + seq![deciding] + after) == handshake_step(
            phase,
            deciding,
        ),
    decreases before.len(),
{
    let reads = before + seq![deciding] + after;
    if before.len() == 0 {
        assert(reads[0] == deciding);
    } else {
        assert(reads[0] == before[0]);
        assert(reads.drop_first() =~= before.drop_first() + seq![deciding] + after);
        assert forall|i: int| 0 <= i < before.drop_first().len() implies handshake_step(
            phase,
            #[trigger] before.drop_first()[i],
        ) == HandshakeStepView::Wait by {
            assert(before.drop_first()[i] == before[i + 1]);
        }
        law_first_deciding_read(phase, before.drop_first(), deciding, after);
    }
}

/// A wait succeeds only where one of the reads is the awaited event.
pub proof fn law_ready_only_on_awaited_event(phase: Phase, reads: Seq<SocketReadView>)
    requires
        handshake_outcome(phase, reads) == HandshakeStepView::Ready,
    ensures
        exists|i: int|
            0 <= i < reads.len() && (#[trigger] reads[i] matches SocketReadView::Text {
                text,
                event,
            } && event matches Some(e) && e.event_type == awaited_event(phase)),
    decreases reads.len(),
{
    if handshake_step(phase, reads[0]) == HandshakeStepView::Wait {
        let rest = reads.drop_first();
        law_ready_only_on_awaited_event(phase, rest);
        let i = choose|i: int|
            0 <= i < rest.len() && (#[trigger] rest[i] matches SocketReadView::Text {
                text,
                event,
            } && event matches Some(e) && e.event_type == awaited_event(phase));
        assert(reads[i + 1] == rest[i]);
    }
}

/// A wait ends well on the event that it waits for and on nothing else: the first on
/// `session.created`, the second on `session.updated`.
pub proof fn law_awaited_event_ends_wait(phase: Phase, read: SocketReadView)
    requires
        phase != Phase::Running,
    ensures
        handshake_step(phase, read) == HandshakeStepView::Ready <==> (
        read matches SocketReadView::Text { text, event } && event matches Some(e) && e.event_type
            == if phase == Phase::Created {
            "session.created"@
        } else {
            "session.updated"@
        }),
{
}

/// A wait fails on an error event, with the message of the error or the whole text; on a text
/// that holds no event; when the websocket is closed; on a read that fails; and at the end of
/// the stream. The error says what was awaited.
pub proof fn law_what_fails_wait(
    phase: Phase,
    text: Seq<char>,
    event: ServerEventView,
    frame: Option<CloseFrameView>,
)
    requires
        event.event_type == "error"@,
    ensures
        handshake_step(phase, SocketReadView::Text { text, event: Some(event) })
            matches HandshakeStepView::Failed { error } && error
            matches SessionErrorView::Server { phase: p, detail } && p == phase && (
        event.error matches Some(Some(message)) ==> detail == message) && (!(event.error
            matches Some(Some(_))) ==> detail == text),
        handshake_step(phase, SocketReadView::Text { text, event: None }) == (
        HandshakeStepView::Failed { error: SessionErrorView::InvalidEvent { phase, text } }),
        handshake_step(phase, SocketReadView::Close { frame }) == (HandshakeStepView::Failed {
            error: SessionErrorView::Closed { phase, frame },
        }),
        handshake_step(phase, SocketReadView::Failed) == (HandshakeStepView::Failed {
            error: SessionErrorView::ReadFailed { phase },
        }),
        handshake_step(phase, SocketReadView::Ended) == (HandshakeStepView::Failed {
            error: SessionErrorView::Ended { phase },
        }),
{
    reveal_strlit("error");
    reveal_strlit("session.created");
    reveal_strlit("session.updated");
    assert("error"@.len() == 5);
    assert("session.created"@.len() == 15);
    assert("session.updated"@.len() == 15);
}

/// Any other event, and a message that is no text, let the wait go on.
pub proof fn law_what_wait_passes_over(phase: Phase, text: Seq<char>, event: ServerEventView)
    requires
        phase == Phase::Created ==> event.event_type != "session.created"@,
        phase == Phase::Updated ==> event.event_type != "session.updated"@,
        phase != Phase::Running,
        event.event_type != "error"@,
    ensures
        handshake_step(phase, SocketReadView::Text { text, event: Some(event) })
            == HandshakeStepView::Wait,
        handshake_step(phase, SocketReadView::Other) == HandshakeStepView::Wait,
{
}

} // verus!
