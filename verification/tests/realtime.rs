use live_speech::client::{ClientAction, ClientEvent, RealtimeClient, Stage};
use live_speech::events::{
    handle_server_event, print_delta, CloseFrame, Phase, ServerError, ServerEvent, SessionError,
    SocketRead,
};
use live_speech::handshake::{
    wait_for_session_created, wait_for_session_updated, HandshakeStep, SESSION_TIMEOUT_SECS,
};
use live_speech::messages::{
    append_message, build_session_update, commit_message, create_message, session_update_message,
    OPENAI_AUDIO_RATE, WS_URL,
};
use live_speech::session::{
    Heard, LoopAction, LoopEvent, RealtimeSession, AUDIO_IDLE_FLUSH_MS, MAX_SPEECH_TURN_MS,
    MIC_REPORT_INTERVAL_MS, SEND_INTERVAL_MS,
};

const COMMIT: &str = "{\"type\":\"input_audio_buffer.commit\"}";
const CREATE: &str = "{\"type\":\"response.create\"}";
const MS: u64 = 1_000_000;

fn event(kind: &str) -> ServerEvent {
    ServerEvent { event_type: kind.to_string(), delta: None, error: None }
}

fn text(kind: &str) -> SocketRead {
    SocketRead::Text { text: format!("raw {kind}"), event: Some(event(kind)) }
}

fn delta(piece: &str) -> SocketRead {
    SocketRead::Text {
        text: String::new(),
        event: Some(ServerEvent {
            delta: Some(piece.to_string()),
            ..event("response.output_text.delta")
        }),
    }
}

fn error_event(message: Option<&str>) -> SocketRead {
    SocketRead::Text {
        text: "raw error".to_string(),
        event: Some(ServerEvent {
            error: Some(ServerError { message: message.map(|m| m.to_string()) }),
            ..event("error")
        }),
    }
}

fn frame() -> SocketRead {
    SocketRead::Close { frame: Some(CloseFrame { code: 1000, reason: "bye".to_string() }) }
}

fn failure(step: HandshakeStep) -> String {
    match step {
        HandshakeStep::Failed { error } => error.message(),
        other => panic!("{other:?}"),
    }
}

#[test]
fn constants_of_the_realtime_client() {
    assert_eq!(WS_URL, "wss://api.openai.com/v1/realtime?model=gpt-realtime");
    assert_eq!(OPENAI_AUDIO_RATE, 24_000);
    assert_eq!(SESSION_TIMEOUT_SECS, 15);
    assert_eq!(SEND_INTERVAL_MS, 100);
    assert_eq!(AUDIO_IDLE_FLUSH_MS, 1_200);
    assert_eq!(MIC_REPORT_INTERVAL_MS, 1_000);
    assert_eq!(MAX_SPEECH_TURN_MS, 4_000);
}

#[test]
fn session_update_is_json() {
    let expected = "{\"session\":{\"audio\":{\"input\":{\"format\":{\"rate\":24000,\"type\":\"audio/pcm\"},\"turn_detection\":null}},\"instructions\":\"Output only the Czech translation of the spoken audio.\",\"output_modalities\":[\"text\"],\"type\":\"realtime\"},\"type\":\"session.update\"}";
    assert_eq!(session_update_message(), expected);
    assert_eq!(build_session_update().to_string(), expected);
    let value = build_session_update();
    assert_eq!(value["session"]["audio"]["input"]["format"]["rate"], OPENAI_AUDIO_RATE);
    assert!(value["session"]["audio"]["input"]["turn_detection"].is_null());
}

#[test]
fn short_messages_are_json() {
    assert_eq!(commit_message(), COMMIT);
    assert_eq!(create_message(), CREATE);
}

#[test]
fn append_message_holds_base64() {
    for (bytes, encoded) in [
        (&b""[..], ""),
        (&b"f"[..], "Zg=="),
        (&b"fo"[..], "Zm8="),
        (&b"foo"[..], "Zm9v"),
        (&b"foob"[..], "Zm9vYg=="),
        (&b"fooba"[..], "Zm9vYmE="),
        (&b"foobar"[..], "Zm9vYmFy"),
        (&[0xfb, 0xff, 0xfe][..], "+//+"),
    ] {
        assert_eq!(
            append_message(bytes),
            format!("{{\"audio\":\"{encoded}\",\"type\":\"input_audio_buffer.append\"}}")
        );
    }
}

#[test]
fn append_message_follows_the_standard_alphabet() {
    let alphabet: Vec<char> =
        "ABCDEFGHIJKLMNOPQRSTUVWXYZabcdefghijklmnopqrstuvwxyz0123456789+/".chars().collect();
    for length in 0..70usize {
        let bytes: Vec<u8> = (0..length).map(|i| (i * 37 + length * 11) as u8).collect();
        let mut expected = String::new();
        for group in bytes.chunks(3) {
            let at = |i: usize| if i < group.len() { group[i] as usize } else { 0 };
            let bits = at(0) * 65536 + at(1) * 256 + at(2);
            for i in 0..4 {
                if i <= group.len() {
                    expected.push(alphabet[bits >> (18 - 6 * i) & 63]);
                } else {
                    expected.push('=');
                }
            }
        }
        assert_eq!(
            append_message(&bytes),
            format!("{{\"audio\":\"{expected}\",\"type\":\"input_audio_buffer.append\"}}")
        );
    }
}

#[test]
fn append_messages_tell_the_audio() {
    assert_ne!(append_message(&[0]), append_message(&[0, 0]));
    assert_ne!(append_message(&[1, 2, 3]), append_message(&[1, 2, 4]));
}

#[test]
fn created_is_awaited() {
    assert!(matches!(wait_for_session_created(text("session.created")), HandshakeStep::Ready));
    assert!(matches!(wait_for_session_created(text("session.updated")), HandshakeStep::Wait));
    assert!(matches!(wait_for_session_created(SocketRead::Other), HandshakeStep::Wait));
}

#[test]
fn updated_is_awaited() {
    assert!(matches!(wait_for_session_updated(text("session.updated")), HandshakeStep::Ready));
    assert!(matches!(wait_for_session_updated(text("session.created")), HandshakeStep::Wait));
    assert!(matches!(wait_for_session_updated(SocketRead::Other), HandshakeStep::Wait));
}

#[test]
fn wait_for_created_fails() {
    let invalid = SocketRead::Text { text: "{".to_string(), event: None };
    assert_eq!(failure(wait_for_session_created(invalid)), "invalid server event: {");
    assert_eq!(
        failure(wait_for_session_created(error_event(Some("no")))),
        "OpenAI returned error before session.created: no"
    );
    assert_eq!(
        failure(wait_for_session_created(error_event(None))),
        "OpenAI returned error before session.created: raw error"
    );
    assert_eq!(
        failure(wait_for_session_created(frame())),
        "OpenAI closed the websocket before session.created: 1000 bye"
    );
    assert_eq!(
        failure(wait_for_session_created(SocketRead::Close { frame: None })),
        "OpenAI closed the websocket before session.created"
    );
    assert_eq!(
        failure(wait_for_session_created(SocketRead::Failed)),
        "failed while waiting for session.created"
    );
    assert_eq!(
        failure(wait_for_session_created(SocketRead::Ended)),
        "websocket closed before session.created"
    );
}

#[test]
fn wait_for_updated_fails() {
    let invalid = SocketRead::Text { text: "{".to_string(), event: None };
    assert_eq!(failure(wait_for_session_updated(invalid)), "invalid server event: {");
    assert_eq!(
        failure(wait_for_session_updated(text("error"))),
        "OpenAI rejected session.update: raw error"
    );
    assert_eq!(
        failure(wait_for_session_updated(error_event(Some("no")))),
        "OpenAI rejected session.update: no"
    );
    assert_eq!(
        failure(wait_for_session_updated(frame())),
        "OpenAI closed the websocket before session.updated: 1000 bye"
    );
    assert_eq!(
        failure(wait_for_session_updated(SocketRead::Close { frame: None })),
        "OpenAI closed the websocket before session.updated"
    );
    assert_eq!(
        failure(wait_for_session_updated(SocketRead::Failed)),
        "failed while waiting for session.updated"
    );
    assert_eq!(
        failure(wait_for_session_updated(SocketRead::Ended)),
        "websocket closed before session.updated"
    );
}

#[test]
fn first_deciding_read_counts() {
    let mut reads = vec![
        SocketRead::Other,
        text("rate_limits.updated"),
        text("session.created"),
        SocketRead::Ended,
    ]
    .into_iter();
    let mut waits = 0;
    let last = loop {
        match wait_for_session_created(reads.next().unwrap()) {
            HandshakeStep::Wait => waits += 1,
            step => break step,
        }
    };
    assert_eq!(waits, 2);
    assert!(matches!(last, HandshakeStep::Ready));
}

#[test]
fn deltas_are_printed_and_kept() {
    let mut full = String::new();
    assert_eq!(print_delta("", "a", &mut full), "a");
    assert_eq!(print_delta("", "b", &mut full), "b");
    assert_eq!(print_delta("", "", &mut full), "");
    assert_eq!(full, "ab");
}

#[test]
fn prefix_comes_once() {
    let mut full = String::new();
    assert_eq!(print_delta("out:", "", &mut full), "");
    assert_eq!(print_delta("out:", "a", &mut full), "out: a");
    assert_eq!(print_delta("out:", "b", &mut full), "b");
    assert_eq!(full, "ab");
}

fn handled(kind: &str) -> (String, bool, String) {
    let mut awaiting = true;
    let mut output = "so far".to_string();
    let printed =
        handle_server_event("raw", Some(event(kind)), &mut awaiting, &mut output).unwrap();
    (printed, awaiting, output)
}

#[test]
fn events_of_a_running_session() {
    let same = |printed: &str, awaiting: bool| {
        (printed.to_string(), awaiting, "so far".to_string())
    };
    assert_eq!(handled("response.output_text.delta"), same("", true));
    assert_eq!(handled("response.output_text.done"), same("\n", true));
    assert_eq!(handled("response.done"), same("\n", false));
    for kind in [
        "response.created",
        "response.output_item.added",
        "response.content_part.added",
        "input_audio_buffer.committed",
        "conversation.item.created",
        "session.updated",
        "anything else",
    ] {
        assert_eq!(handled(kind), same("", true));
    }
}

#[test]
fn error_events_end_the_session_and_change_nothing() {
    let mut awaiting = true;
    let mut output = "so far".to_string();
    let e = handle_server_event("raw", Some(event("error")), &mut awaiting, &mut output)
        .unwrap_err();
    assert_eq!(e.message(), "OpenAI returned an error: raw");
    let e = handle_server_event("raw", None, &mut awaiting, &mut output).unwrap_err();
    assert_eq!(e.message(), "failed to parse server event: raw");
    assert!(awaiting);
    assert_eq!(output, "so far");
}

#[test]
fn text_of_each_error_of_a_running_session() {
    let phase = Phase::Running;
    assert_eq!(
        SessionError::Closed {
            phase,
            frame: Some(CloseFrame { code: 1011, reason: String::new() })
        }
        .message(),
        "OpenAI closed the websocket: code=1011 reason="
    );
    assert_eq!(
        SessionError::Closed { phase, frame: None }.message(),
        "OpenAI closed the websocket"
    );
    assert_eq!(
        SessionError::ReadFailed { phase }.message(),
        "error while reading websocket message"
    );
    assert_eq!(SessionError::Ended { phase }.message(), "websocket stream ended");
    for code in [0u16, 9, 10, 1000, 65535] {
        let error = SessionError::Closed {
            phase,
            frame: Some(CloseFrame { code, reason: "r".to_string() }),
        };
        assert_eq!(error.message(), format!("OpenAI closed the websocket: code={code} reason=r"));
    }
}

fn step(session: &mut RealtimeSession, event: LoopEvent) -> LoopAction {
    session.step(event).unwrap()
}

fn sent(action: &LoopAction) -> Vec<&str> {
    action.send.iter().map(|message| message.text.as_str()).collect()
}

fn audio(session: &mut RealtimeSession, now: u64, loud: bool) -> LoopAction {
    let action = tick(session, Some(Heard { now, loud, pcm: vec![1, 2] }));
    assert!(action.look_at_timers);
    action
}

fn tick(session: &mut RealtimeSession, heard: Option<Heard>) -> LoopAction {
    step(session, LoopEvent::Tick { heard })
}

/// Looks at the timers of a tick that heard nothing.
fn timer(session: &mut RealtimeSession, now: u64) -> LoopAction {
    let action = tick(session, None);
    assert!(action.look_at_timers && action.send.is_empty());
    look(session, now)
}

fn look(session: &mut RealtimeSession, now: u64) -> LoopAction {
    step(session, LoopEvent::Timer { now })
}

#[test]
fn silence_ends_a_turn() {
    let mut s = RealtimeSession::new(0);
    let action = audio(&mut s, 10 * MS, true);
    assert_eq!(action.send[0].failure, "failed to send audio chunk");
    assert_eq!(sent(&action), vec!["{\"audio\":\"AQI=\",\"type\":\"input_audio_buffer.append\"}"]);
    assert!(s.saw_speech);
    assert_eq!(s.speech_turn_started_at, Some(10 * MS));
    audio(&mut s, 500 * MS, false);
    assert!(timer(&mut s, 1_210 * MS - 1).send.is_empty());
    assert_eq!(sent(&timer(&mut s, 1_210 * MS)), vec![COMMIT, CREATE]);
    assert!(s.awaiting_response && !s.saw_speech);
    assert_eq!(s.speech_turn_started_at, None);
}

#[test]
fn long_turns_are_sent() {
    let mut s = RealtimeSession::new(0);
    for tick in 0..40u64 {
        let now = tick * 100 * MS;
        audio(&mut s, now, true);
        assert!(look(&mut s, now).send.is_empty());
    }
    audio(&mut s, 4_000 * MS, true);
    assert_eq!(sent(&look(&mut s, 4_000 * MS)), vec![COMMIT, CREATE]);
}

#[test]
fn no_turn_without_speech() {
    let mut s = RealtimeSession::new(0);
    for tick in 0..100u64 {
        audio(&mut s, tick * 100 * MS, false);
        assert!(timer(&mut s, tick * 100 * MS).send.is_empty());
    }
}

#[test]
fn one_turn_per_response() {
    let mut s = RealtimeSession::new(0);
    audio(&mut s, 0, true);
    let turn = timer(&mut s, 5_000 * MS).send;
    assert_eq!(turn.len(), 2);
    assert_eq!(turn[0].failure, "failed to send input_audio_buffer.commit");
    assert_eq!(turn[1].failure, "failed to send response.create");
    audio(&mut s, 5_000 * MS, true);
    assert!(timer(&mut s, 20_000 * MS).send.is_empty());
    assert_eq!(step(&mut s, LoopEvent::Read { read: text("response.done") }).print, "\n");
    assert_eq!(sent(&timer(&mut s, 20_100 * MS)), vec![COMMIT, CREATE]);
}

#[test]
fn output_grows_by_pieces_and_starts_anew() {
    let mut s = RealtimeSession::new(0);
    for piece in ["Dob", "rý", " den"] {
        assert_eq!(step(&mut s, LoopEvent::Read { read: delta(piece) }).print, piece);
    }
    assert_eq!(s.last_output_text, "Dobrý den");
    audio(&mut s, 0, true);
    timer(&mut s, 1_200 * MS);
    assert_eq!(s.last_output_text, "");
}

#[test]
fn turn_is_marked() {
    let mut s = RealtimeSession::new(7);
    assert_eq!(s.saw_speech, s.speech_turn_started_at.is_some());
    audio(&mut s, 8, true);
    assert_eq!(s.saw_speech, s.speech_turn_started_at.is_some());
    audio(&mut s, 9, true);
    assert_eq!(s.speech_turn_started_at, Some(8));
    assert_eq!(s.last_non_silent_audio, 9);
    timer(&mut s, 10_000 * MS);
    assert_eq!(s.saw_speech, s.speech_turn_started_at.is_some());
}

#[test]
fn peak_starts_anew() {
    let mut s = RealtimeSession::new(0);
    assert!(!timer(&mut s, 1_000 * MS - 1).reset_peak);
    assert!(timer(&mut s, 1_000 * MS).reset_peak);
    assert_eq!(s.last_mic_report, 1_000 * MS);
    assert!(!timer(&mut s, 1_100 * MS).reset_peak);
}

#[test]
fn clock_may_not_go_back() {
    let mut s = RealtimeSession::new(5_000 * MS);
    audio(&mut s, 5_000 * MS, true);
    let action = timer(&mut s, 0);
    assert!(action.send.is_empty() && !action.reset_peak);
}

#[test]
fn nothing_is_sent_of_empty_audio() {
    let mut s = RealtimeSession::new(0);
    let action = tick(&mut s, Some(Heard { now: 1, loud: true, pcm: vec![] }));
    assert!(action.send.is_empty() && action.look_at_timers);
    assert!(s.saw_speech);
    let action = tick(&mut s, None);
    assert!(action.send.is_empty() && action.look_at_timers);
}

#[test]
fn audio_of_a_tick_goes_before_its_turn() {
    let mut s = RealtimeSession::new(0);
    audio(&mut s, 0, true);
    assert!(look(&mut s, 0).send.is_empty());
    let append = append_message(&[3, 4]);
    let heard = || Some(Heard { now: 4_000 * MS, loud: false, pcm: vec![3, 4] });
    let first = tick(&mut s, heard());
    assert_eq!(sent(&first), vec![append.as_str()]);
    assert!(first.look_at_timers && s.tick_open);
    let second = look(&mut s, 4_000 * MS);
    assert_eq!(sent(&second), vec![COMMIT, CREATE]);
    assert!(!second.look_at_timers && !s.tick_open);
    // Silence is sent while a response is awaited.
    assert!(s.awaiting_response);
    assert_eq!(sent(&tick(&mut s, heard())), vec![append.as_str()]);
    assert!(look(&mut s, 4_100 * MS).send.is_empty());
}

#[test]
fn timers_count_the_audio_of_their_tick() {
    let mut s = RealtimeSession::new(0);
    audio(&mut s, 0, true);
    // Silence would have ended the turn by now.
    audio(&mut s, 1_200 * MS, true);
    assert!(look(&mut s, 1_200 * MS).send.is_empty());
}

#[test]
fn timers_wait_for_a_tick() {
    let mut s = RealtimeSession::new(0);
    let action = look(&mut s, 9_000 * MS);
    assert!(action.send.is_empty() && !action.reset_peak);
    audio(&mut s, 0, true);
    assert!(look(&mut s, 0).send.is_empty());
    let action = look(&mut s, 9_000 * MS);
    assert!(action.send.is_empty() && !action.reset_peak);
    let action = timer(&mut s, 9_000 * MS);
    assert_eq!(sent(&action), vec![COMMIT, CREATE]);
    assert!(action.reset_peak);
}

#[test]
fn interrupt_stops() {
    let mut s = RealtimeSession::new(0);
    let action = step(&mut s, LoopEvent::Interrupt);
    assert!(action.stop && action.send.is_empty() && action.print.is_empty());
    assert!(!timer(&mut s, 0).stop);
}

#[test]
fn reads_that_end_a_running_session() {
    let mut s = RealtimeSession::new(0);
    let mut message = |read: SocketRead| s.step(LoopEvent::Read { read }).unwrap_err().message();
    assert_eq!(message(frame()), "OpenAI closed the websocket: code=1000 reason=bye");
    assert_eq!(message(SocketRead::Close { frame: None }), "OpenAI closed the websocket");
    assert_eq!(message(SocketRead::Failed), "error while reading websocket message");
    assert_eq!(message(SocketRead::Ended), "websocket stream ended");
    assert_eq!(message(error_event(Some("no"))), "OpenAI returned an error: no");
    let action = step(&mut s, LoopEvent::Read { read: SocketRead::Other });
    assert!(!action.stop && action.send.is_empty() && action.print.is_empty());
}

fn client_step(client: &mut RealtimeClient, event: LoopEvent) -> ClientAction {
    client.step(ClientEvent::Session { event }).unwrap()
}

fn client_read(client: &mut RealtimeClient, read: SocketRead) -> ClientAction {
    client_step(client, LoopEvent::Read { read })
}

fn loud() -> LoopEvent {
    LoopEvent::Tick { heard: Some(Heard { now: 0, loud: true, pcm: vec![1, 2] }) }
}

#[test]
fn set_up_comes_first() {
    let mut c = RealtimeClient::new();
    assert_eq!(c.stage, Stage::AwaitingCreated);
    assert!(client_step(&mut c, loud()).action.send.is_empty());
    assert!(client_read(&mut c, text("session.updated")).action.send.is_empty());
    assert_eq!(c.stage, Stage::AwaitingCreated);

    let update = client_read(&mut c, text("session.created")).action.send;
    assert_eq!(update.len(), 1);
    assert_eq!(update[0].text, session_update_message());
    assert_eq!(update[0].failure, "failed to send session.update");
    assert_eq!(c.stage, Stage::AwaitingUpdated);

    assert!(client_read(&mut c, text("session.created")).action.send.is_empty());
    assert!(client_step(&mut c, loud()).action.send.is_empty());
    assert!(client_step(&mut c, LoopEvent::Timer { now: u64::MAX }).action.send.is_empty());
    let ready = client_read(&mut c, text("session.updated"));
    assert!(ready.start_capture && ready.action.send.is_empty());
    assert_eq!(c.stage, Stage::Starting);

    assert!(client_step(&mut c, loud()).action.send.is_empty());
    c.step(ClientEvent::Started { now: 5 }).unwrap();
    assert_eq!(c.stage, Stage::Running);
    assert_eq!(c.session.last_non_silent_audio, 5);
    let sent = client_step(&mut c, loud()).action.send;
    assert_eq!(sent[0].text, append_message(&[1, 2]));
    let turn = client_step(&mut c, LoopEvent::Timer { now: 9_000 * MS }).action.send;
    assert_eq!(turn[0].text, COMMIT);
    assert_eq!(turn[1].text, CREATE);
    assert!(client_read(&mut c, text("session.created")).action.send.is_empty());
}

#[test]
fn set_up_must_not_take_too_long() {
    let mut c = RealtimeClient::new();
    let e = c.step(ClientEvent::TimedOut).unwrap_err();
    assert_eq!(e.message(), "timed out while waiting for OpenAI session.created");
    assert_eq!(c.stage, Stage::Over);

    let mut c = RealtimeClient::new();
    client_read(&mut c, text("session.created"));
    let e = c.step(ClientEvent::TimedOut).unwrap_err();
    assert_eq!(e.message(), "timed out while waiting for OpenAI session.updated");
    assert!(client_read(&mut c, text("session.updated")).action.send.is_empty());
    assert_eq!(c.stage, Stage::Over);
}

#[test]
fn set_up_fails_as_its_waits_do() {
    let mut c = RealtimeClient::new();
    client_read(&mut c, text("session.created"));
    let event = LoopEvent::Read { read: error_event(Some("no")) };
    let e = c.step(ClientEvent::Session { event }).unwrap_err();
    assert_eq!(e.message(), "OpenAI rejected session.update: no");
    assert_eq!(c.stage, Stage::Over);
}

#[test]
fn client_is_over_after_an_interrupt_or_an_error() {
    let running = || {
        let mut c = RealtimeClient::new();
        client_read(&mut c, text("session.created"));
        client_read(&mut c, text("session.updated"));
        c.step(ClientEvent::Started { now: 0 }).unwrap();
        c
    };
    let mut c = running();
    assert!(client_step(&mut c, LoopEvent::Interrupt).action.stop);
    assert_eq!(c.stage, Stage::Over);
    assert!(client_step(&mut c, loud()).action.send.is_empty());

    let mut c = running();
    c.step(ClientEvent::TimedOut).unwrap();
    assert_eq!(c.stage, Stage::Running);
    let event = LoopEvent::Read { read: SocketRead::Ended };
    let e = c.step(ClientEvent::Session { event }).unwrap_err();
    assert_eq!(e.message(), "websocket stream ended");
    assert_eq!(c.stage, Stage::Over);
}
