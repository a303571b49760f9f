//! The loop of the speech client: what comes of the microphone, the service and the user.
use crate::request::{audio_request, carrying_request, RequestView, StreamingRecognizeRequest};
use vstd::prelude::*;

verus! {

/// What happens while the speech client streams.
#[derive(Debug)]
pub enum StreamEvent {
    /// The service has sent its last response.
    ResponsesEnded,
    /// The microphone gives no more audio.
    CaptureClosed,
    /// Audio was captured: `pcm` is what is to be sent of it.
    Captured { pcm: Vec<u8> },
    /// The user asks to stop.
    Interrupt,
}

/// What the speech client is to do.
#[derive(Debug)]
pub enum StreamAction {
    /// Wait for what happens next.
    Wait,
    /// Send a request.
    Send { request: StreamingRecognizeRequest },
    /// Close the stream, and wait for what the service still sends, unless that has come to
    /// its end.
    Finish { await_responses: bool },
    /// Give up.
    Fail { message: String },
}

/// What a [`StreamEvent`] holds.
pub enum StreamEventView {
    ResponsesEnded,
    CaptureClosed,
    Captured { pcm: Seq<u8> },
    Interrupt,
}

/// What a [`StreamAction`] holds.
pub enum StreamActionView {
    Wait,
    Send { request: RequestView },
    Finish { await_responses: bool },
    Fail { message: Seq<char> },
}

impl View for StreamEvent {
    type V = StreamEventView;

    open spec fn view(&self) -> StreamEventView {
        match *self {
            StreamEvent::ResponsesEnded => StreamEventView::ResponsesEnded,
            StreamEvent::CaptureClosed => StreamEventView::CaptureClosed,
            StreamEvent::Captured { pcm } => StreamEventView::Captured { pcm: pcm@ },
            StreamEvent::Interrupt => StreamEventView::Interrupt,
        }
    }
}

impl View for StreamAction {
    type V = StreamActionView;

    open spec fn view(&self) -> StreamActionView {
        match *self {
            StreamAction::Wait => StreamActionView::Wait,
            StreamAction::Send { request } => StreamActionView::Send { request: request@ },
            StreamAction::Finish { await_responses } => StreamActionView::Finish {
                await_responses,
            },
            StreamAction::Fail { message } => StreamActionView::Fail { message: message@ },
        }
    }
}

/// What is to be done when something happens.
pub open spec fn stream_action(event: StreamEventView) -> StreamActionView {
    match event {
        StreamEventView::ResponsesEnded => StreamActionView::Finish { await_responses: false },
        StreamEventView::CaptureClosed => StreamActionView::Fail {
            message: "microphone capture channel closed unexpectedly"@,
        },
        StreamEventView::Captured { pcm } => if pcm.len() == 0 {
            StreamActionView::Wait
        } else {
            StreamActionView::Send { request: carrying_request(pcm) }
        },
        StreamEventView::Interrupt => StreamActionView::Finish { await_responses: true },
    }
}

/// What is to be done when something happens.
pub fn on_stream_event(event: StreamEvent) -> (r: StreamAction)
    ensures
        r@ == stream_action(event@),
{
    match event {
        StreamEvent::ResponsesEnded => StreamAction::Finish { await_responses: false },
        StreamEvent::CaptureClosed => StreamAction::Fail {
            message: "microphone capture channel closed unexpectedly".to_owned(),
        },
        StreamEvent::Captured { pcm } => {
            if pcm.len() == 0 {
                StreamAction::Wait
            } else {
                StreamAction::Send { request: audio_request(pcm) }
            }
        },
        StreamEvent::Interrupt => StreamAction::Finish { await_responses: true },
    }
}

/// The audio that is sent over `events`, up to the first that ends the stream.
pub open spec fn audio_sent(events: Seq<StreamEventView>) -> Seq<u8>
    decreases events.len(),
{
    if events.len() == 0 {
        seq![]
    } else {
        match stream_action(events[0]) {
            StreamActionView::Wait => audio_sent(events.drop_first()),
            StreamActionView::Send { request } => sent_in(request) + audio_sent(
                events.drop_first(),
            ),
            _ => seq![],
        }
    }
}

/// The audio that a request carries.
pub open spec fn sent_in(request: RequestView) -> Seq<u8> {
    match request.streaming_request {
        crate::request::StreamingRequestView::Audio { audio } => audio,
        _ => seq![],
    }
}

/// The audio of chunks, one after the other.
pub open spec fn joined_chunks(chunks: Seq<Seq<u8>>) -> Seq<u8>
    decreases chunks.len(),
{
    if chunks.len() == 0 {
        seq![]
    } else {
        chunks[0] + joined_chunks(chunks.drop_first())
    }
}

/// All audio that is captured is sent, in order, until the stream ends.
pub proof fn law_captured_audio_is_sent(chunks: Seq<Seq<u8>>)
    ensures
        audio_sent(chunks.map_values(|pcm: Seq<u8>| StreamEventView::Captured { pcm }))
            == joined_chunks(chunks),
    decreases chunks.len(),
{
    let events = chunks.map_values(|pcm: Seq<u8>| StreamEventView::Captured { pcm });
    if chunks.len() > 0 {
        law_captured_audio_is_sent(chunks.drop_first());
        assert(events.drop_first() =~= chunks.drop_first().map_values(
            |pcm: Seq<u8>| StreamEventView::Captured { pcm },
        ));
        assert(events[0] == (StreamEventView::Captured { pcm: chunks[0] }));
        assert(audio_sent(events) =~= joined_chunks(chunks));
    }
}

/// No request without audio follows the first.
pub proof fn law_no_empty_request(event: StreamEventView)
    ensures
        stream_action(event) matches StreamActionView::Send { request } ==> sent_in(request).len()
            > 0,
{
}

/// Captured audio is sent as it is, in a request that names no recognizer; where there is none,
/// the client waits.
pub proof fn law_what_captured_audio_does(pcm: Seq<u8>)
    ensures
        pcm.len() > 0 ==> (stream_action(StreamEventView::Captured { pcm })
            matches StreamActionView::Send { request } && request.recognizer.len() == 0
            && request.streaming_request == crate::request::StreamingRequestView::Audio {
            audio: pcm,
        }),
        pcm.len() == 0 ==> stream_action(StreamEventView::Captured { pcm })
            == StreamActionView::Wait,
{
}

/// The stream is closed when the user asks for it, and then what the service still sends is
/// awaited; and when the service has sent all, and then nothing is. Without a microphone the
/// client gives up. Only these three end the stream.
pub proof fn law_what_ends_stream(event: StreamEventView)
    ensures
        stream_action(event) == (StreamActionView::Finish { await_responses: true }) <==> event
            == StreamEventView::Interrupt,
        stream_action(event) == (StreamActionView::Finish { await_responses: false }) <==> event
            == StreamEventView::ResponsesEnded,
        stream_action(event) == (StreamActionView::Fail {
            message: "microphone capture channel closed unexpectedly"@,
        }) <==> event == StreamEventView::CaptureClosed,
        stream_action(event) is Wait || stream_action(event) is Send <==> event is Captured,
{
}

} // verus!
