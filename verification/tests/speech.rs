use live_speech::capture::{
    report_stream_error, sample_kind, stream_error_line, SampleFormat, SampleKind,
};
use live_speech::request::{
    audio_request, initial_request, AudioEncoding, StreamingRequest, TARGET_SAMPLE_RATE,
};
use live_speech::settings::{
    check_endpoint, read_bearer_token, realtime_authorization, recognizer_name,
    speech_authorization, speech_domain, speech_endpoint, startup_banner, user_project,
    SettingsError, SpeechEnv, SpeechSettings, DEFAULT_LOCATION,
};
use live_speech::stream::{on_stream_event, StreamAction, StreamEvent};
use live_speech::transcript::{RecognitionResult, TranscriptPrinter};

fn some(s: &str) -> Option<String> {
    Some(s.to_string())
}

fn env() -> SpeechEnv {
    SpeechEnv {
        project: some("your-project-id"),
        location: None,
        endpoint: None,
        api_token: some("token"),
        access_token: None,
    }
}

#[test]
fn endpoint_of_a_region() {
    assert_eq!(speech_endpoint("europe-west4"), "https://europe-west4-speech.googleapis.com");
    assert_eq!(speech_domain("europe-west4"), "europe-west4-speech.googleapis.com");
    assert_eq!(speech_endpoint(""), "https://-speech.googleapis.com");
}

#[test]
fn endpoint_of_global() {
    assert_eq!(speech_endpoint("global"), "https://speech.googleapis.com");
    assert_eq!(speech_domain("global"), "speech.googleapis.com");
    assert_eq!(speech_domain("Global"), "Global-speech.googleapis.com");
}

#[test]
fn endpoint_is_domain_over_https() {
    for location in ["global", "europe-west4", "us-central1", ""] {
        assert_eq!(speech_endpoint(location), format!("https://{}", speech_domain(location)));
    }
}

#[test]
fn locations_have_domains_of_their_own() {
    assert_ne!(speech_domain("global"), speech_domain(""));
    assert_ne!(speech_domain("us"), speech_domain("eu"));
}

#[test]
fn recognizer_of_a_project() {
    assert_eq!(
        recognizer_name("your-project-id", "europe-west4"),
        "projects/your-project-id/locations/europe-west4/recognizers/_"
    );
}

#[test]
fn defaults_of_the_environment() {
    let s = SpeechSettings::resolve(env()).unwrap();
    assert_eq!(DEFAULT_LOCATION, "europe-west4");
    assert_eq!(s.project_id, "your-project-id");
    assert_eq!(s.location, "europe-west4");
    assert_eq!(s.endpoint, "https://europe-west4-speech.googleapis.com");
    assert_eq!(s.tls_domain, "europe-west4-speech.googleapis.com");
    assert_eq!(s.bearer_token, "token");
    assert_eq!(s.recognizer, "projects/your-project-id/locations/europe-west4/recognizers/_");
}

#[test]
fn endpoint_of_the_environment_goes_first() {
    let s = SpeechSettings::resolve(SpeechEnv {
        location: some("global"),
        endpoint: some("http://localhost:1"),
        ..env()
    })
    .unwrap();
    assert_eq!(s.endpoint, "http://localhost:1");
    assert_eq!(s.tls_domain, "speech.googleapis.com");
    assert_eq!(s.recognizer, "projects/your-project-id/locations/global/recognizers/_");
}

#[test]
fn project_must_be_set() {
    let e = SpeechSettings::resolve(SpeechEnv { project: None, api_token: None, ..env() });
    let e = e.unwrap_err();
    assert!(matches!(e, SettingsError::MissingProject));
    assert_eq!(e.message(), "set GOOGLE_CLOUD_PROJECT to your Google Cloud project id");
}

#[test]
fn token_must_be_set() {
    let e = SpeechSettings::resolve(SpeechEnv { api_token: None, ..env() }).unwrap_err();
    assert!(matches!(e, SettingsError::MissingToken));
    assert_eq!(
        e.message(),
        "set GOOGLE_API_TOKEN or GOOGLE_ACCESS_TOKEN, or run `gcloud auth application-default print-access-token` and export the result"
    );
}

#[test]
fn first_token_goes_first_and_is_trimmed() {
    assert_eq!(read_bearer_token(some(" a\n"), some("b")).unwrap(), "a");
    assert_eq!(read_bearer_token(None, some("\u{3000}b c\t")).unwrap(), "b c");
    assert_eq!(read_bearer_token(some(" "), some("b")).unwrap(), "");
}

#[test]
fn no_token_is_an_error_of_its_own() {
    let e = read_bearer_token(None, None).unwrap_err();
    assert!(matches!(e, SettingsError::NoToken));
    assert_eq!(e.message(), "missing Google access token");
}

#[test]
fn white_space_is_what_the_library_says() {
    let listed = |c: char| {
        matches!(
            c,
            '\u{9}'..='\u{d}'
                | ' '
                | '\u{85}'
                | '\u{a0}'
                | '\u{1680}'
                | '\u{2000}'..='\u{200a}'
                | '\u{2028}'..='\u{2029}'
                | '\u{202f}'
                | '\u{205f}'
                | '\u{3000}'
        )
    };
    for c in '\0'..=char::MAX {
        let token = read_bearer_token(Some(format!("{c}x{c}")), None).unwrap();
        assert_eq!(token == "x", listed(c), "{c:?}");
    }
}

#[test]
fn authorization_of_the_speech_client() {
    assert_eq!(speech_authorization("abc").unwrap(), "Bearer abc");
    assert_eq!(speech_authorization("").unwrap(), "Bearer ");
    assert_eq!(speech_authorization("a\tb").unwrap(), "Bearer a\tb");
    assert_eq!(speech_authorization("\u{e1}").unwrap(), "Bearer \u{e1}");
    for bad in ["a\nb", "\0", "\u{7f}", "\u{1f}"] {
        let e = speech_authorization(bad).unwrap_err();
        assert!(matches!(e, SettingsError::InvalidToken));
        assert_eq!(e.message(), "invalid bearer token");
    }
}

#[test]
fn user_project_of_the_speech_client() {
    assert_eq!(user_project("your-project-id").unwrap(), "your-project-id");
    let e = user_project("a\r").unwrap_err();
    assert!(matches!(e, SettingsError::InvalidUserProject));
    assert_eq!(e.message(), "failed to encode x-goog-user-project metadata");
}

#[test]
fn authorization_of_the_realtime_client() {
    assert_eq!(realtime_authorization(some("k")).unwrap(), "Bearer k");
    let e = realtime_authorization(None).unwrap_err();
    assert!(matches!(e, SettingsError::MissingApiKey));
    assert_eq!(
        e.message(),
        "set OPENAI_API_KEY to an OpenAI API key before running this example"
    );
    let e = realtime_authorization(some("k\n")).unwrap_err();
    assert!(matches!(e, SettingsError::InvalidApiKey));
    assert_eq!(e.message(), "invalid OPENAI_API_KEY header value");
}

#[test]
fn headers_take_no_control_characters() {
    for c in '\0'..='\u{2ff}' {
        let taken = c == '\t' || (c >= ' ' && c != '\u{7f}');
        assert_eq!(speech_authorization(&c.to_string()).is_ok(), taken, "{c:?}");
        assert_eq!(realtime_authorization(Some(c.to_string())).is_ok(), taken, "{c:?}");
    }
}

#[test]
fn endpoint_must_be_an_address() {
    assert!(check_endpoint("https://europe-west4-speech.googleapis.com").is_ok());
    let e = check_endpoint("not an address").unwrap_err();
    assert!(matches!(e, SettingsError::InvalidEndpoint { .. }));
    assert_eq!(e.message(), "invalid speech endpoint: not an address");
}

#[test]
fn banner_of_the_speech_client() {
    assert_eq!(
        startup_banner(
            "https://europe-west4-speech.googleapis.com",
            "projects/your-project-id/locations/europe-west4/recognizers/_"
        ),
        vec![
            "Streaming microphone audio to Google Speech-to-Text v2. Press Ctrl+C to stop.",
            "Lowest live price tier: v2 standard recognition ($0.016/min as of 2026-05-15).",
            "Using scope: https://www.googleapis.com/auth/cloud-platform",
            "Using endpoint: https://europe-west4-speech.googleapis.com",
            "Using recognizer: projects/your-project-id/locations/europe-west4/recognizers/_",
        ]
    );
}

#[test]
fn opening_request_holds_the_settings() {
    let request = initial_request("r".to_string());
    assert_eq!(request.recognizer, "r");
    let StreamingRequest::StreamingConfig { config } = request.streaming_request else {
        panic!("no settings");
    };
    assert!(config.interim_results);
    assert!(!config.enable_voice_activity_events);
    let config = config.config;
    assert_eq!(config.model, "chirp_2");
    assert_eq!(config.language_codes, vec!["cs-CZ"]);
    assert_eq!(config.decoding.encoding, AudioEncoding::Linear16);
    assert_eq!(config.decoding.sample_rate_hertz, 16000);
    assert_eq!(config.decoding.sample_rate_hertz, TARGET_SAMPLE_RATE as i32);
    assert_eq!(config.decoding.audio_channel_count, 1);
    assert_eq!(config.adaptation.phrase_sets.len(), 1);
    let set = &config.adaptation.phrase_sets[0];
    for text in [
        &set.name,
        &set.uid,
        &set.display_name,
        &set.etag,
        &set.kms_key_name,
        &set.kms_key_version_name,
    ] {
        assert_eq!(text, "");
    }
    assert_eq!(set.state, 0);
    assert!(!set.reconciling);
    assert_eq!(set.boost, 15);
    let phrases: Vec<(&str, u32)> =
        set.phrases.iter().map(|p| (p.value.as_str(), p.boost)).collect();
    assert_eq!(
        phrases,
        vec![
            ("Dobrý den", 15),
            ("Česká republika", 15),
            ("umělá inteligence", 15),
        ]
    );
}

#[test]
fn audio_request_names_no_recognizer() {
    let request = audio_request(vec![1, 2, 3]);
    assert_eq!(request.recognizer, "");
    assert!(matches!(request.streaming_request,
        StreamingRequest::Audio { audio } if audio == vec![1, 2, 3]));
}

#[test]
fn stream_sends_what_is_captured() {
    let StreamAction::Send { request } =
        on_stream_event(StreamEvent::Captured { pcm: vec![7, 8] })
    else {
        panic!("nothing sent");
    };
    assert!(matches!(request.streaming_request,
        StreamingRequest::Audio { audio } if audio == vec![7, 8]));
}

#[test]
fn stream_sends_chunks_in_order() {
    let mut sent: Vec<u8> = Vec::new();
    for pcm in [vec![1, 2], vec![], vec![3, 4, 5, 6]] {
        if let StreamAction::Send { request } = on_stream_event(StreamEvent::Captured { pcm }) {
            assert_eq!(request.recognizer, "");
            if let StreamingRequest::Audio { audio } = request.streaming_request {
                sent.extend(audio);
            }
        }
    }
    assert_eq!(sent, vec![1, 2, 3, 4, 5, 6]);
}

#[test]
fn stream_sends_no_empty_audio() {
    let action = on_stream_event(StreamEvent::Captured { pcm: vec![] });
    assert!(matches!(action, StreamAction::Wait));
}

#[test]
fn stream_ends() {
    assert!(matches!(
        on_stream_event(StreamEvent::Interrupt),
        StreamAction::Finish { await_responses: true }
    ));
    assert!(matches!(
        on_stream_event(StreamEvent::ResponsesEnded),
        StreamAction::Finish { await_responses: false }
    ));
    assert!(matches!(on_stream_event(StreamEvent::CaptureClosed),
        StreamAction::Fail { message }
        if message == "microphone capture channel closed unexpectedly"));
}

#[test]
fn formats_of_samples() {
    assert_eq!(sample_kind(SampleFormat::Float32), Ok(SampleKind::Float32));
    assert_eq!(sample_kind(SampleFormat::Signed16), Ok(SampleKind::Signed16));
    assert_eq!(sample_kind(SampleFormat::Unsigned16), Ok(SampleKind::Unsigned16));
    assert_eq!(
        sample_kind(SampleFormat::Other { name: "F64".to_string() }),
        Err("unsupported microphone sample format: F64".to_string())
    );
}

#[test]
fn harmless_stream_errors_are_not_reported() {
    assert_eq!(report_stream_error("x alsa::poll() spuriously returned y"), None);
    assert_eq!(report_stream_error("alsa::poll() spuriously returned"), None);
    assert_eq!(
        report_stream_error("alsa::poll() returned"),
        some("microphone stream error: alsa::poll() returned")
    );
    assert_eq!(report_stream_error(""), some("microphone stream error: "));
    assert_eq!(stream_error_line("gone"), "microphone stream error: gone");
}

fn result(transcripts: &[&str], is_final: bool) -> RecognitionResult {
    RecognitionResult { transcripts: transcripts.iter().map(|t| t.to_string()).collect(), is_final }
}

fn shown(p: &mut TranscriptPrinter, result: RecognitionResult) -> Option<String> {
    p.on_result(&result).map(|printed| printed.text)
}

#[test]
fn failure_to_print() {
    let mut p = TranscriptPrinter::new();
    let partial = p.on_result(&result(&["a"], false)).unwrap();
    assert_eq!(partial.failure, "failed to flush partial transcript");
    let last = p.on_result(&result(&["a"], true)).unwrap();
    assert_eq!(last.failure, "failed to flush final transcript");
}

#[test]
fn partial_results_take_over_the_line() {
    let mut p = TranscriptPrinter::new();
    assert_eq!(shown(&mut p, result(&[" dobrý "], false)), some("\r\x1b[2K[partial] dobrý"));
    assert_eq!(p.last_partial, "dobrý");
    assert_eq!(shown(&mut p, result(&["dobrý"], false)), None);
    assert_eq!(shown(&mut p, result(&["dobrý den"], false)), some("\r\x1b[2K[partial] dobrý den"));
}

#[test]
fn final_results_clear_the_line() {
    let mut p = TranscriptPrinter::new();
    assert_eq!(shown(&mut p, result(&["a"], true)), some("[final] a\n"));
    shown(&mut p, result(&["b"], false));
    assert_eq!(shown(&mut p, result(&["c", "d"], true)), some("\r\x1b[2K[final] c\n"));
    assert_eq!(p.last_partial, "");
    assert_eq!(shown(&mut p, result(&["c"], true)), some("[final] c\n"));
}

#[test]
fn blank_results_show_nothing() {
    let mut p = TranscriptPrinter::new();
    shown(&mut p, result(&["a"], false));
    assert_eq!(shown(&mut p, result(&[], true)), None);
    assert_eq!(shown(&mut p, result(&[" \n"], true)), None);
    assert_eq!(shown(&mut p, result(&[""], false)), None);
    assert_eq!(p.last_partial, "a");
}

#[test]
fn messages_may_come_in_parts() {
    let results = || vec![result(&["a"], false), result(&["a"], false), result(&["a b"], true)];
    let mut whole = TranscriptPrinter::new();
    let printed: Vec<String> =
        whole.on_message(&results()).into_iter().map(|p| p.text).collect();
    assert_eq!(printed, vec!["\r\x1b[2K[partial] a", "\r\x1b[2K[final] a b\n"]);
    let mut parts = TranscriptPrinter::new();
    let mut pieces: Vec<String> = Vec::new();
    for r in results() {
        pieces.extend(parts.on_message(&vec![r]).into_iter().map(|p| p.text));
    }
    assert_eq!(pieces, printed);
    assert_eq!(parts.last_partial, whole.last_partial);
}
