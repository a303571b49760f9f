//! What the realtime service sends, and what becomes of it.
use crate::text::{decimal, decimal_text, joined, same, text_view};
use vstd::prelude::*;

verus! {

/// The error that a server event reports.
#[derive(Debug)]
pub struct ServerError {
    pub message: Option<String>,
}

/// An event of the realtime service, as far as the client reads it.
#[derive(Debug)]
pub struct ServerEvent {
    pub event_type: String,
    pub delta: Option<String>,
    pub error: Option<ServerError>,
}

/// Why the service closed the websocket.
#[derive(Debug)]
pub struct CloseFrame {
    pub code: u16,
    pub reason: String,
}

/// What came of reading the websocket.
#[derive(Debug)]
pub enum SocketRead {
    /// A text message, with the event in it, or `None` where it holds none.
    Text { text: String, event: Option<ServerEvent> },
    /// A close message.
    Close { frame: Option<CloseFrame> },
    /// A message of another kind.
    Other,
    /// An error.
    Failed,
    /// The end of the stream.
    Ended,
}

/// How far the session has come: what it waits for, or that it is running.
#[derive(Debug, Clone, Copy, PartialEq, Eq, Structural)]
pub enum Phase {
    Created,
    Updated,
    Running,
}

/// Why the session ended.
#[derive(Debug)]
pub enum SessionError {
    InvalidEvent { phase: Phase, text: String },
    Server { phase: Phase, detail: String },
    Closed { phase: Phase, frame: Option<CloseFrame> },
    ReadFailed { phase: Phase },
    Ended { phase: Phase },
    TimedOut { phase: Phase },
}

/// What a [`ServerEvent`] holds.
pub struct ServerEventView {
    pub event_type: Seq<char>,
    pub delta: Option<Seq<char>>,
    /// The error, and its message.
    pub error: Option<Option<Seq<char>>>,
}

/// What a [`CloseFrame`] holds.
pub struct CloseFrameView {
    pub code: u16,
    pub reason: Seq<char>,
}

/// What a [`SocketRead`] holds.
pub enum SocketReadView {
    Text { text: Seq<char>, event: Option<ServerEventView> },
    Close { frame: Option<CloseFrameView> },
    Other,
    Failed,
    Ended,
}

/// What a [`SessionError`] holds.
pub enum SessionErrorView {
    InvalidEvent { phase: Phase, text: Seq<char> },
    Server { phase: Phase, detail: Seq<char> },
    Closed { phase: Phase, frame: Option<CloseFrameView> },
    ReadFailed { phase: Phase },
    Ended { phase: Phase },
    TimedOut { phase: Phase },
}

/// What an optional event holds.
pub open spec fn event_view(event: Option<ServerEvent>) -> Option<ServerEventView> {
    match event {
        Some(event) => Some(event@),
        None => None,
    }
}

/// What an optional frame holds.
pub open spec fn frame_view(frame: Option<CloseFrame>) -> Option<CloseFrameView> {
    match frame {
        Some(frame) => Some(frame@),
        None => None,
    }
}

impl View for ServerEvent {
    type V = ServerEventView;

    open spec fn view(&self) -> ServerEventView {
        ServerEventView {
            event_type: self.event_type@,
            delta: text_view(self.delta),
            error: match self.error {
                Some(error) => Some(text_view(error.message)),
                None => None,
            },
        }
    }
}

impl View for CloseFrame {
    type V = CloseFrameView;

    open spec fn view(&self) -> CloseFrameView {
        CloseFrameView { code: self.code, reason: self.reason@ }
    }
}

impl View for SocketRead {
    type V = SocketReadView;

    open spec fn view(&self) -> SocketReadView {
        match *self {
            SocketRead::Text { text, event } => SocketReadView::Text {
                text: text@,
                event: event_view(event),
            },
            SocketRead::Close { frame } => SocketReadView::Close { frame: frame_view(frame) },
            SocketRead::Other => SocketReadView::Other,
            SocketRead::Failed => SocketReadView::Failed,
            SocketRead::Ended => SocketReadView::Ended,
        }
    }
}

impl View for SessionError {
    type V = SessionErrorView;

    open spec fn view(&self) -> SessionErrorView {
        match *self {
            SessionError::InvalidEvent { phase, text } => SessionErrorView::InvalidEvent {
                phase,
                text: text@,
            },
            SessionError::Server { phase, detail } => SessionErrorView::Server {
                phase,
                detail: detail@,
            },
            SessionError::Closed { phase, frame } => SessionErrorView::Closed {
                phase,
                frame: frame_view(frame),
            },
            SessionError::ReadFailed { phase } => SessionErrorView::ReadFailed { phase },
            SessionError::Ended { phase } => SessionErrorView::Ended { phase },
            SessionError::TimedOut { phase } => SessionErrorView::TimedOut { phase },
        }
    }
}

/// What an error event says: the message of its error, or the whole text of the event.
pub open spec fn error_detail(event: ServerEventView, text: Seq<char>) -> Seq<char> {
    match event.error {
        Some(Some(message)) => message,
        _ => text,
    }
}

/// The text of an error.
pub open spec fn error_message(error: SessionErrorView) -> Seq<char> {
    match error {
        SessionErrorView::InvalidEvent { phase, text } => match phase {
            Phase::Running => "failed to parse server event: "@ + text,
            _ => "invalid server event: "@ + text,
        },
        SessionErrorView::Server { phase, detail } => match phase {
            Phase::Created => "OpenAI returned error before session.created: "@ + detail,
            Phase::Updated => "OpenAI rejected session.update: "@ + detail,
            Phase::Running => "OpenAI returned an error: "@ + detail,
        },
        SessionErrorView::Closed { phase, frame } => match frame {
            Some(frame) => match phase {
                Phase::Created => "OpenAI closed the websocket before session.created: "@ + decimal(
                    frame.code as nat,
                ) + " "@ + frame.reason,
                Phase::Updated => "OpenAI closed the websocket before session.updated: "@ + decimal(
                    frame.code as nat,
                ) + " "@ + frame.reason,
                Phase::Running => "OpenAI closed the websocket: code="@ + decimal(frame.code as nat)
                    + " reason="@ + frame.reason,
            },
            None => match phase {
                Phase::Created => "OpenAI closed the websocket before session.created"@,
                Phase::Updated => "OpenAI closed the websocket before session.updated"@,
                Phase::Running => "OpenAI closed the websocket"@,
            },
        },
        SessionErrorView::ReadFailed { phase } => match phase {
            Phase::Created => "failed while waiting for session.created"@,
            Phase::Updated => "failed while waiting for session.updated"@,
            Phase::Running => "error while reading websocket message"@,
        },
        SessionErrorView::Ended { phase } => match phase {
            Phase::Created => "websocket closed before session.created"@,
            Phase::Updated => "websocket closed before session.updated"@,
            Phase::Running => "websocket stream ended"@,
        },
        SessionErrorView::TimedOut { phase } => match phase {
            Phase::Created => "timed out while waiting for OpenAI session.created"@,
            _ => "timed out while waiting for OpenAI session.updated"@,
        },
    }
}

impl SessionError {
    /// The text of the error.
    pub fn message(&self) -> (r: String)
        ensures
            r@ == error_message(self@),
    {
        match self {
            SessionError::InvalidEvent { phase, text } => match phase {
                Phase::Running => joined("failed to parse server event: ", text.as_str()),
                _ => joined("invalid server event: ", text.as_str()),
            },
            SessionError::Server { phase, detail } => match phase {
                Phase::Created => joined(
                    "OpenAI returned error before session.created: ",
                    detail.as_str(),
                ),
                Phase::Updated => joined("OpenAI rejected session.update: ", detail.as_str()),
                Phase::Running => joined("OpenAI returned an error: ", detail.as_str()),
            },
            SessionError::Closed { phase, frame } => match frame {
                Some(frame) => match phase {
                    Phase::Created => closed_text(
                        "OpenAI closed the websocket before session.created: ",
                        frame,
                        " ",
                    ),
                    Phase::Updated => closed_text(
                        "OpenAI closed the websocket before session.updated: ",
                        frame,
                        " ",
                    ),
                    Phase::Running => closed_text(
                        "OpenAI closed the websocket: code=",
                        frame,
                        " reason=",
                    ),
                },
                None => match phase {
                    Phase::Created => "OpenAI closed the websocket before session.created".to_owned(),
                    Phase::Updated => "OpenAI closed the websocket before session.updated".to_owned(),
                    Phase::Running => "OpenAI closed the websocket".to_owned(),
                },
            },
            SessionError::ReadFailed { phase } => match phase {
                Phase::Created => "failed while waiting for session.created".to_owned(),
                Phase::Updated => "failed while waiting for session.updated".to_owned(),
                Phase::Running => "error while reading websocket message".to_owned(),
            },
            SessionError::Ended { phase } => match phase {
                Phase::Created => "websocket closed before session.created".to_owned(),
                Phase::Updated => "websocket closed before session.updated".to_owned(),
                Phase::Running => "websocket stream ended".to_owned(),
            },
            SessionError::TimedOut { phase } => match phase {
                Phase::Created => "timed out while waiting for OpenAI session.created".to_owned(),
                _ => "timed out while waiting for OpenAI session.updated".to_owned(),
            },
        }
    }
}

fn closed_text(head: &str, frame: &CloseFrame, between: &str) -> (r: String)
    ensures
        r@ == head@ + decimal(frame.code as nat) + between@ + frame.reason@,
{
    let mut r = joined(head, decimal_text(frame.code as u64).as_str());
    r.append(between);
    r.append(frame.reason.as_str());
    r
}

/// What an error event says: the message of its error, or the whole text of the event.
pub(crate) fn detail_of(event: ServerEvent, text: &str) -> (r: String)
    ensures
        r@ == error_detail(event@, text@),
{
    match event.error {
        Some(error) => match error.message {
            Some(message) => message,
            None => text.to_owned(),
        },
        None => text.to_owned(),
    }
}

/// What an event does: what is printed, whether a response is still awaited, and the
/// text of the response so far.
pub struct EventEffect {
    pub printed: Seq<char>,
    pub awaiting_response: bool,
    pub output: Seq<char>,
}

/// What is printed of a piece of the response: the piece, after the prefix and a space
/// where there is a prefix and this is the first of the response.
pub open spec fn delta_printed(prefix: Seq<char>, delta: Seq<char>, output: Seq<char>) -> Seq<
    char,
> {
    if delta.len() > 0 && prefix.len() > 0 && output.len() == 0 {
        prefix + " "@ + delta
    } else {
        delta
    }
}

/// What an event does while the session runs, or the error that ends it.
pub open spec fn event_effect(
    text: Seq<char>,
    event: Option<ServerEventView>,
    awaiting_response: bool,
    output: Seq<char>,
) -> Result<EventEffect, SessionErrorView> {
    match event {
        None => Err(SessionErrorView::InvalidEvent { phase: Phase::Running, text }),
        Some(event) => if event.event_type == "response.output_text.delta"@ {
            match event.delta {
                Some(delta) => Ok(
                    EventEffect {
                        printed: delta_printed(""@, delta, output),
                        awaiting_response,
                        output: output + delta,
                    },
                ),
                None => Ok(EventEffect { printed: seq![], awaiting_response, output }),
            }
        } else if event.event_type == "response.output_text.done"@ {
            Ok(EventEffect { printed: "\n"@, awaiting_response, output })
        } else if event.event_type == "response.done"@ {
            Ok(EventEffect { printed: "\n"@, awaiting_response: false, output })
        } else if event.event_type == "error"@ {
            Err(
                SessionErrorView::Server {
                    phase: Phase::Running,
                    detail: error_detail(event, text),
                },
            )
        } else {
            Ok(EventEffect { printed: seq![], awaiting_response, output })
        },
    }
}

/// Adds a piece of the response to the text so far, and says what to print of it.
pub fn print_delta(prefix: &str, delta: &str, full_text: &mut String) -> (printed: String)
    ensures
        printed@ == delta_printed(prefix@, delta@, old(full_text)@),
        final(full_text)@ == old(full_text)@ + delta@,
{
    if delta.is_empty() {
        assert(full_text@ + delta@ =~= full_text@);
        assert(delta@ =~= Seq::<char>::empty());
        return String::new();
    }
    let mut printed = String::new();
    if !prefix.is_empty() && full_text.as_str().is_empty() {
        printed.append(prefix);
        printed.append(" ");
    }
    printed.append(delta);
    full_text.append(delta);
    assert(printed@ =~= delta_printed(prefix@, delta@, old(full_text)@));
    printed
}

/// Takes a text message while the session runs: `event` is the event in it, if any.
/// Returns what to print. An error leaves the state as it was.
pub fn handle_server_event(
    text: &str,
    event: Option<ServerEvent>,
    awaiting_response: &mut bool,
    last_output_text: &mut String,
) -> (r: Result<String, SessionError>)
    ensures
        match event_effect(
            text@,
            event_view(event),
            *old(awaiting_response),
            old(last_output_text)@,
        ) {
            Ok(effect) => {
                &&& r matches Ok(printed) && printed@ == effect.printed
                &&& *final(awaiting_response) == effect.awaiting_response
                &&& final(last_output_text)@ == effect.output
            },
            Err(error) => {
                &&& r matches Err(e) && e@ == error
                &&& *final(awaiting_response) == *old(awaiting_response)
                &&& final(last_output_text)@ == old(last_output_text)@
            },
        },
        event matches Some(e) ==> (e.event_type@ == "response.output_text.delta"@ ==> (
        e.delta matches Some(delta) ==> {
            &&& r matches Ok(printed) && printed@ == delta@
            &&& *final(awaiting_response) == *old(awaiting_response)
            &&& final(last_output_text)@ == old(last_output_text)@ + delta@
        })),
{
    proof {
        reveal_strlit("");
    }
    let event = match event {
        Some(event) => event,
        None => {
            return Err(
                SessionError::InvalidEvent { phase: Phase::Running, text: text.to_owned() },
            );
        },
    };
    let kind = event.event_type.as_str();
    if same(kind, "response.output_text.delta") {
        match event.delta {
            Some(delta) => Ok(print_delta("", delta.as_str(), last_output_text)),
            None => Ok(String::new()),
        }
    } else if same(kind, "response.output_text.done") {
        Ok("\n".to_owned())
    } else if same(kind, "response.done") {
        *awaiting_response = false;
        Ok("\n".to_owned())
    } else if same(kind, "error") {
        Err(SessionError::Server { phase: Phase::Running, detail: detail_of(event, text) })
    } else {
        Ok(String::new())
    }
}

/// A piece of the response is printed as it is and added to the text so far, whatever that text
/// is and whether or not a response is awaited; an event of that kind without a piece changes
/// nothing.
pub proof fn law_piece_is_printed(
    text: Seq<char>,
    event: ServerEventView,
    awaiting_response: bool,
    output: Seq<char>,
)
    requires
        event.event_type == "response.output_text.delta"@,
    ensures
        event_effect(text, Some(event), awaiting_response, output) matches Ok(effect) && {
            &&& effect.awaiting_response == awaiting_response
            &&& event.delta matches Some(delta) ==> effect.printed == delta && effect.output
                == output + delta
            &&& event.delta is None ==> effect.printed.len() == 0 && effect.output == output
        },
{
    reveal_strlit("");
}

/// The end of a text breaks the line. The end of the response does so too, and then none is
/// awaited; else both leave things as they are.
pub proof fn law_end_breaks_line(
    text: Seq<char>,
    event: ServerEventView,
    awaiting_response: bool,
    output: Seq<char>,
)
    requires
        event.event_type == "response.output_text.done"@ || event.event_type == "response.done"@,
    ensures
        event_effect(text, Some(event), awaiting_response, output) matches Ok(effect) && {
            &&& effect.printed == "\n"@
            &&& effect.output == output
            &&& effect.awaiting_response == (awaiting_response && event.event_type
                == "response.output_text.done"@)
        },
{
    lemma_event_types();
}

/// An error event ends the session with the message of the error, or with the whole text of the
/// event where it has none; and a text that holds no event ends it with that text. No other
/// event ends it.
pub proof fn law_what_ends_session(
    text: Seq<char>,
    event: Option<ServerEventView>,
    awaiting_response: bool,
    output: Seq<char>,
)
    ensures
        event_effect(text, event, awaiting_response, output) is Err <==> (event matches Some(e)
            ==> e.event_type == "error"@),
        event is None ==> event_effect(text, event, awaiting_response, output) == Err::<
            EventEffect,
            SessionErrorView,
        >(SessionErrorView::InvalidEvent { phase: Phase::Running, text }),
        event matches Some(e) ==> (e.event_type == "error"@ ==> (event_effect(
            text,
            event,
            awaiting_response,
            output,
        ) matches Err(error) && error matches SessionErrorView::Server { phase, detail } && phase
            == Phase::Running && (e.error matches Some(Some(message)) ==> detail == message) && (
        !(e.error matches Some(Some(_))) ==> detail == text))),
{
    lemma_event_types();
}

/// An event of any other kind changes nothing and prints nothing.
pub proof fn law_other_events(
    text: Seq<char>,
    event: ServerEventView,
    awaiting_response: bool,
    output: Seq<char>,
)
    requires
        event.event_type != "response.output_text.delta"@,
        event.event_type != "response.output_text.done"@,
        event.event_type != "response.done"@,
        event.event_type != "error"@,
    ensures
        event_effect(text, Some(event), awaiting_response, output) matches Ok(effect)
            && effect.printed.len() == 0 && effect.awaiting_response == awaiting_response
            && effect.output == output,
{
}

proof fn lemma_event_types()
    ensures
        "response.output_text.delta"@ != "response.output_text.done"@,
        "response.output_text.delta"@ != "response.done"@,
        "response.output_text.delta"@ != "error"@,
        "response.output_text.done"@ != "response.done"@,
        "response.output_text.done"@ != "error"@,
        "response.done"@ != "error"@,
{
    reveal_strlit("response.output_text.delta");
    reveal_strlit("response.output_text.done");
    reveal_strlit("response.done");
    reveal_strlit("error");
    assert("response.output_text.delta"@.len() == 26);
    assert("response.output_text.done"@.len() == 25);
    assert("response.done"@.len() == 13);
    assert("error"@.len() == 5);
}

/// The prefix comes once, with a space, before the first piece that is not empty; any other
/// piece is printed alone, and nothing is ever left out of it.
pub proof fn law_prefix_comes_once(prefix: Seq<char>, delta: Seq<char>, output: Seq<char>)
    ensures
        delta.len() == 0 ==> delta_printed(prefix, delta, output).len() == 0,
        prefix.len() == 0 || output.len() > 0 ==> delta_printed(prefix, delta, output) == delta,
        delta.len() > 0 && prefix.len() > 0 && output.len() == 0 ==> delta_printed(
            prefix,
            delta,
            output,
        ) == prefix + " "@ + delta,
{
}

/// What is said where the service sends no event, by what is awaited: the text that came.
pub proof fn law_invalid_event_texts(text: Seq<char>)
    ensures
        error_message(SessionErrorView::InvalidEvent { phase: Phase::Created, text })
            == "invalid server event: "@ + text,
        error_message(SessionErrorView::InvalidEvent { phase: Phase::Updated, text })
            == "invalid server event: "@ + text,
        error_message(SessionErrorView::InvalidEvent { phase: Phase::Running, text })
            == "failed to parse server event: "@ + text,
{
}

/// What is said where the service reports an error, by what is awaited: what the error says.
pub proof fn law_server_error_texts(detail: Seq<char>)
    ensures
        error_message(SessionErrorView::Server { phase: Phase::Created, detail })
            == "OpenAI returned error before session.created: "@ + detail,
        error_message(SessionErrorView::Server { phase: Phase::Updated, detail })
            == "OpenAI rejected session.update: "@ + detail,
        error_message(SessionErrorView::Server { phase: Phase::Running, detail })
            == "OpenAI returned an error: "@ + detail,
{
}

/// What is said where the service closes the websocket, by what is awaited: the code in decimal
/// and the reason, where it gives them.
pub proof fn law_closed_texts(frame: CloseFrameView)
    ensures
        error_message(SessionErrorView::Closed { phase: Phase::Created, frame: Some(frame) })
            == "OpenAI closed the websocket before session.created: "@ + decimal(frame.code as nat)
            + " "@ + frame.reason,
        error_message(SessionErrorView::Closed { phase: Phase::Updated, frame: Some(frame) })
            == "OpenAI closed the websocket before session.updated: "@ + decimal(frame.code as nat)
            + " "@ + frame.reason,
        error_message(SessionErrorView::Closed { phase: Phase::Running, frame: Some(frame) })
            == "OpenAI closed the websocket: code="@ + decimal(frame.code as nat) + " reason="@
            + frame.reason,
        error_message(SessionErrorView::Closed { phase: Phase::Created, frame: None })
            == "OpenAI closed the websocket before session.created"@,
        error_message(SessionErrorView::Closed { phase: Phase::Updated, frame: None })
            == "OpenAI closed the websocket before session.updated"@,
        error_message(SessionErrorView::Closed { phase: Phase::Running, frame: None })
            == "OpenAI closed the websocket"@,
{
}

/// What is said of a read that fails, of the end of the stream and of the end of the time, by
/// what is awaited.
pub proof fn law_other_error_texts(phase: Phase)
    ensures
        error_message(SessionErrorView::ReadFailed { phase }) == match phase {
            Phase::Created => "failed while waiting for session.created"@,
            Phase::Updated => "failed while waiting for session.updated"@,
            Phase::Running => "error while reading websocket message"@,
        },
        error_message(SessionErrorView::Ended { phase }) == match phase {
            Phase::Created => "websocket closed before session.created"@,
            Phase::Updated => "websocket closed before session.updated"@,
            Phase::Running => "websocket stream ended"@,
        },
        error_message(SessionErrorView::TimedOut { phase }) == if phase == Phase::Created {
            "timed out while waiting for OpenAI session.created"@
        } else {
            "timed out while waiting for OpenAI session.updated"@
        },
{
}

} // verus!
