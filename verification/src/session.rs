//! The running realtime session: when a turn of speech is over, and what is sent and
//! printed.
use crate::encoding::encodable;
use crate::events::{
    event_effect, handle_server_event, Phase, SessionError, SessionErrorView, SocketRead,
    SocketReadView,
};
use crate::messages::{
    append_message, append_text, commit_message, commit_text, create_message, create_text,
};
use vstd::prelude::*;

verus! {

/// How often the captured audio is sent.
pub const SEND_INTERVAL_MS: u64 = 100;

/// How long a silence ends a turn.
pub const AUDIO_IDLE_FLUSH_MS: u64 = 1_200;

/// How often the peak of the microphone level starts anew.
pub const MIC_REPORT_INTERVAL_MS: u64 = 1_000;

/// How long a turn may be.
pub const MAX_SPEECH_TURN_MS: u64 = 4_000;

/// The nanoseconds of a millisecond.
pub const NANOS_PER_MS: u64 = 1_000_000;

/// The state of the session. All times are in nanoseconds of one clock.
#[derive(Debug)]
pub struct RealtimeSession {
    /// When audio was last loud, or when the session began.
    pub last_non_silent_audio: u64,
    /// When the turn began that is not sent yet.
    pub speech_turn_started_at: Option<u64>,
    /// When the peak of the microphone level last started anew.
    pub last_mic_report: u64,
    /// Whether a turn was sent whose response is not done.
    pub awaiting_response: bool,
    /// Whether there was speech since the last turn was sent.
    pub saw_speech: bool,
    /// The text of the response so far.
    pub last_output_text: String,
    /// Whether there was a tick whose timers have not been looked at.
    pub tick_open: bool,
}

/// Audio that was captured by a tick.
#[derive(Debug)]
pub struct Heard {
    pub now: u64,
    /// Whether it reaches the level of speech.
    pub loud: bool,
    /// What is to be sent of it.
    pub pcm: Vec<u8>,
}

/// What happens to the session.
#[derive(Debug)]
pub enum LoopEvent {
    /// The user asks to stop.
    Interrupt,
    /// [`SEND_INTERVAL_MS`] have passed. `heard` is what was captured meanwhile, if anything.
    Tick { heard: Option<Heard> },
    /// The audio of the tick is sent, and it is time to look at the timers.
    Timer { now: u64 },
    /// The websocket was read.
    Read { read: SocketRead },
}

/// A message to send, and what is said where it cannot be sent.
#[derive(Debug)]
pub struct Outgoing {
    pub text: String,
    pub failure: String,
}

/// What the client is to do.
#[derive(Debug)]
pub struct LoopAction {
    /// Whether the session ends.
    pub stop: bool,
    /// The messages to send, in order.
    pub send: Vec<Outgoing>,
    /// What to print.
    pub print: String,
    /// Whether the peak of the microphone level starts anew.
    pub reset_peak: bool,
    /// Whether the timers are to be looked at next, once the messages are sent.
    pub look_at_timers: bool,
}

/// What a [`RealtimeSession`] holds.
pub struct SessionView {
    pub last_non_silent_audio: u64,
    pub speech_turn_started_at: Option<u64>,
    pub last_mic_report: u64,
    pub awaiting_response: bool,
    pub saw_speech: bool,
    pub last_output_text: Seq<char>,
    pub tick_open: bool,
}

/// What a [`Heard`] holds.
pub struct HeardView {
    pub now: u64,
    pub loud: bool,
    pub pcm: Seq<u8>,
}

/// What a [`LoopEvent`] holds.
pub enum LoopEventView {
    Interrupt,
    Tick { heard: Option<HeardView> },
    Timer { now: u64 },
    Read { read: SocketReadView },
}

/// What a [`Outgoing`] holds.
pub struct OutgoingView {
    pub text: Seq<char>,
    pub failure: Seq<char>,
}

/// What a [`LoopAction`] holds.
#[verifier::ext_equal]
pub struct LoopActionView {
    pub stop: bool,
    pub send: Seq<OutgoingView>,
    pub print: Seq<char>,
    pub reset_peak: bool,
    pub look_at_timers: bool,
}

impl View for RealtimeSession {
    type V = SessionView;

    open spec fn view(&self) -> SessionView {
        SessionView {
            last_non_silent_audio: self.last_non_silent_audio,
            speech_turn_started_at: self.speech_turn_started_at,
            last_mic_report: self.last_mic_report,
            awaiting_response: self.awaiting_response,
            saw_speech: self.saw_speech,
            last_output_text: self.last_output_text@,
            tick_open: self.tick_open,
        }
    }
}

impl View for Heard {
    type V = HeardView;

    open spec fn view(&self) -> HeardView {
        HeardView { now: self.now, loud: self.loud, pcm: self.pcm@ }
    }
}

/// What optional audio holds.
pub open spec fn heard_view(heard: Option<Heard>) -> Option<HeardView> {
    match heard {
        Some(heard) => Some(heard@),
        None => None,
    }
}

impl View for LoopEvent {
    type V = LoopEventView;

    open spec fn view(&self) -> LoopEventView {
        match *self {
            LoopEvent::Interrupt => LoopEventView::Interrupt,
            LoopEvent::Tick { heard } => LoopEventView::Tick { heard: heard_view(heard) },
            LoopEvent::Timer { now } => LoopEventView::Timer { now },
            LoopEvent::Read { read } => LoopEventView::Read { read: read@ },
        }
    }
}

impl View for Outgoing {
    type V = OutgoingView;

    open spec fn view(&self) -> OutgoingView {
        OutgoingView { text: self.text@, failure: self.failure@ }
    }
}

impl View for LoopAction {
    type V = LoopActionView;

    open spec fn view(&self) -> LoopActionView {
        LoopActionView {
            stop: self.stop,
            send: self.send@.map_values(|m: Outgoing| m@),
            print: self.print@,
            reset_peak: self.reset_peak,
            look_at_timers: self.look_at_timers,
        }
    }
}

/// The time from `since` to `now`, and none where `now` is earlier.
pub open spec fn time_since(since: u64, now: u64) -> int {
    if now >= since {
        now - since
    } else {
        0
    }
}

/// Whether `ms` milliseconds have passed from `since` to `now`.
pub open spec fn has_passed(since: u64, now: u64, ms: u64) -> bool {
    time_since(since, now) >= ms * NANOS_PER_MS
}

/// The state of a session that begins at `now`.
pub open spec fn fresh_session(now: u64) -> SessionView {
    SessionView {
        last_non_silent_audio: now,
        speech_turn_started_at: None,
        last_mic_report: now,
        awaiting_response: false,
        saw_speech: false,
        last_output_text: seq![],
        tick_open: false,
    }
}

/// The state after audio was heard. Loud audio is speech, and begins a turn where none
/// has begun.
pub open spec fn after_audio(s: SessionView, now: u64, loud: bool) -> SessionView {
    if loud {
        SessionView {
            last_non_silent_audio: now,
            speech_turn_started_at: match s.speech_turn_started_at {
                Some(started) => Some(started),
                None => Some(now),
            },
            saw_speech: true,
            ..s
        }
    } else {
        s
    }
}

/// The state after a tick: what it heard is taken in, and its timers are to be looked at.
pub open spec fn after_tick(s: SessionView, heard: Option<HeardView>) -> SessionView {
    let taken = match heard {
        Some(heard) => after_audio(s, heard.now, heard.loud),
        None => s,
    };
    SessionView { tick_open: true, ..taken }
}

/// Whether the turn is over at `now`: there was speech, no response is awaited, and either
/// it has been silent for long enough or the turn has become too long.
pub open spec fn turn_due(s: SessionView, now: u64) -> bool {
    &&& !s.awaiting_response
    &&& s.saw_speech
    &&& {
        ||| has_passed(s.last_non_silent_audio, now, AUDIO_IDLE_FLUSH_MS)
        ||| s.speech_turn_started_at matches Some(started) && has_passed(
            started,
            now,
            MAX_SPEECH_TURN_MS,
        )
    }
}

/// Whether the peak of the microphone level starts anew at `now`.
pub open spec fn report_due(s: SessionView, now: u64) -> bool {
    has_passed(s.last_mic_report, now, MIC_REPORT_INTERVAL_MS)
}

/// The state after the timers of a tick were looked at.
pub open spec fn after_timer(s: SessionView, now: u64) -> SessionView {
    let reported = SessionView {
        last_mic_report: if report_due(s, now) {
            now
        } else {
            s.last_mic_report
        },
        tick_open: false,
        ..s
    };
    if turn_due(s, now) {
        SessionView {
            awaiting_response: true,
            saw_speech: false,
            speech_turn_started_at: None,
            last_output_text: seq![],
            ..reported
        }
    } else {
        reported
    }
}

/// The messages that send a turn.
pub open spec fn turn_messages() -> Seq<OutgoingView> {
    seq![
        OutgoingView {
            text: commit_text(),
            failure: "failed to send input_audio_buffer.commit"@,
        },
        OutgoingView { text: create_text(), failure: "failed to send response.create"@ },
    ]
}

/// The message that sends audio.
pub open spec fn audio_message(pcm: Seq<u8>) -> OutgoingView {
    OutgoingView { text: append_text(pcm), failure: "failed to send audio chunk"@ }
}

/// The messages that send what a tick heard: one where there are bytes, and none otherwise.
pub open spec fn heard_messages(heard: Option<HeardView>) -> Seq<OutgoingView> {
    match heard {
        Some(heard) => if heard.pcm.len() > 0 {
            seq![audio_message(heard.pcm)]
        } else {
            seq![]
        },
        None => seq![],
    }
}

/// Whether the audio of an event can be sent at all.
pub open spec fn sendable(event: LoopEventView) -> bool {
    event matches LoopEventView::Tick { heard } ==> (heard matches Some(h) ==> encodable(
        h.pcm.len(),
    ))
}

/// The action that does nothing.
pub open spec fn no_action() -> LoopActionView {
    LoopActionView {
        stop: false,
        send: seq![],
        print: seq![],
        reset_peak: false,
        look_at_timers: false,
    }
}

/// What a read of the websocket does, or the error that ends the session.
pub open spec fn read_effect(s: SessionView, read: SocketReadView) -> Result<
    (SessionView, LoopActionView),
    SessionErrorView,
> {
    match read {
        SocketReadView::Text { text, event } => match event_effect(
            text,
            event,
            s.awaiting_response,
            s.last_output_text,
        ) {
            Ok(effect) => Ok(
                (
                    SessionView {
                        awaiting_response: effect.awaiting_response,
                        last_output_text: effect.output,
                        ..s
                    },
                    LoopActionView { print: effect.printed, ..no_action() },
                ),
            ),
            Err(error) => Err(error),
        },
        SocketReadView::Close { frame } => Err(
            SessionErrorView::Closed { phase: Phase::Running, frame },
        ),
        SocketReadView::Other => Ok((s, no_action())),
        SocketReadView::Failed => Err(SessionErrorView::ReadFailed { phase: Phase::Running }),
        SocketReadView::Ended => Err(SessionErrorView::Ended { phase: Phase::Running }),
    }
}

/// What an event does to the session, or the error that ends it. The timers are looked at
/// once after each tick, when its audio is sent; at any other time they change nothing.
pub open spec fn step_effect(s: SessionView, event: LoopEventView) -> Result<
    (SessionView, LoopActionView),
    SessionErrorView,
> {
    match event {
        LoopEventView::Interrupt => Ok((s, LoopActionView { stop: true, ..no_action() })),
        LoopEventView::Tick { heard } => Ok(
            (
                after_tick(s, heard),
                LoopActionView {
                    send: heard_messages(heard),
                    look_at_timers: true,
                    ..no_action()
                },
            ),
        ),
        LoopEventView::Timer { now } => if s.tick_open {
            Ok(
                (
                    after_timer(s, now),
                    LoopActionView {
                        send: if turn_due(s, now) {
                            turn_messages()
                        } else {
                            seq![]
                        },
                        reset_peak: report_due(s, now),
                        ..no_action()
                    },
                ),
            )
        } else {
            Ok((s, no_action()))
        },
        LoopEventView::Read { read } => read_effect(s, read),
    }
}

fn passed(since: u64, now: u64, ms: u64) -> (r: bool)
    requires
        ms * NANOS_PER_MS <= u64::MAX,
    ensures
        r == has_passed(since, now, ms),
{
    let elapsed: u64 = if now >= since {
        now - since
    } else {
        0
    };
    elapsed >= ms * NANOS_PER_MS
}

impl RealtimeSession {
    /// A session that begins at `now`.
    pub fn new(now: u64) -> (r: RealtimeSession)
        ensures
            r@ == fresh_session(now),
    {
        RealtimeSession {
            last_non_silent_audio: now,
            speech_turn_started_at: None,
            last_mic_report: now,
            awaiting_response: false,
            saw_speech: false,
            last_output_text: String::new(),
            tick_open: false,
        }
    }

    /// Takes captured audio, and returns the message that sends it, if there is anything
    /// to send.
    pub fn on_audio(&mut self, now: u64, loud: bool, pcm: &[u8]) -> (message: Option<String>)
        requires
            encodable(pcm@.len()),
        ensures
            final(self)@ == after_audio(old(self)@, now, loud),
            match message {
                Some(m) => pcm@.len() > 0 && m@ == append_text(pcm@),
                None => pcm@.len() == 0,
            },
            !loud ==> final(self).saw_speech == old(self).saw_speech
                && final(self).speech_turn_started_at == old(self).speech_turn_started_at
                && final(self).last_non_silent_audio == old(self).last_non_silent_audio,
            loud ==> final(self).saw_speech && final(self).last_non_silent_audio == now,
            loud && old(self).speech_turn_started_at is Some ==> final(self).speech_turn_started_at
                == old(self).speech_turn_started_at,
            loud && old(self).speech_turn_started_at is None ==> final(self).speech_turn_started_at
                == Some(now),
            final(self).awaiting_response == old(self).awaiting_response,
            final(self).last_mic_report == old(self).last_mic_report,
            final(self).last_output_text@ == old(self).last_output_text@,
            final(self).tick_open == old(self).tick_open,
    {
        if loud {
            self.last_non_silent_audio = now;
            if self.speech_turn_started_at.is_none() {
                self.speech_turn_started_at = Some(now);
            }
            self.saw_speech = true;
        }
        if pcm.len() > 0 {
            Some(append_message(pcm))
        } else {
            None
        }
    }

    /// Takes a tick, and returns the message that sends its audio, if there is anything to
    /// send. The timers are to be looked at next.
    pub fn on_tick(&mut self, heard: Option<Heard>) -> (message: Option<String>)
        requires
            heard matches Some(h) ==> encodable(h.pcm@.len()),
        ensures
            final(self)@ == after_tick(old(self)@, heard_view(heard)),
            match message {
                Some(m) => heard matches Some(h) && h.pcm@.len() > 0 && m@ == append_text(h.pcm@),
                None => heard matches Some(h) ==> h.pcm@.len() == 0,
            },
    {
        self.tick_open = true;
        match heard {
            Some(heard) => self.on_audio(heard.now, heard.loud, heard.pcm.as_slice()),
            None => None,
        }
    }

    /// Looks at the timers of a tick. Returns whether the peak of the microphone level starts
    /// anew, and whether the turn is over and is to be sent. Without a tick nothing comes of
    /// it.
    pub fn on_timer(&mut self, now: u64) -> (r: (bool, bool))
        ensures
            old(self).tick_open ==> final(self)@ == after_timer(old(self)@, now) && r == (
                report_due(old(self)@, now),
                turn_due(old(self)@, now),
            ),
            !old(self).tick_open ==> final(self)@ == old(self)@ && r == (false, false),
            r.0 <==> old(self).tick_open && old(self).last_mic_report + 1_000_000_000 <= now,
            r.1 <==> old(self).tick_open && old(self).saw_speech && !old(self).awaiting_response && (
            old(self).last_non_silent_audio + 1_200_000_000 <= now || (
            old(self).speech_turn_started_at matches Some(began) && began + 4_000_000_000 <= now)),
            r.1 ==> final(self).awaiting_response && !final(self).saw_speech
                && final(self).speech_turn_started_at is None,
            !r.1 ==> final(self).awaiting_response == old(self).awaiting_response
                && final(self).saw_speech == old(self).saw_speech
                && final(self).speech_turn_started_at == old(self).speech_turn_started_at,
            final(self).last_non_silent_audio == old(self).last_non_silent_audio,
    {
        if !self.tick_open {
            return (false, false);
        }
        self.tick_open = false;
        let report = passed(self.last_mic_report, now, MIC_REPORT_INTERVAL_MS);
        if report {
            self.last_mic_report = now;
        }
        let silence_elapsed = passed(self.last_non_silent_audio, now, AUDIO_IDLE_FLUSH_MS);
        let max_turn_elapsed = match self.speech_turn_started_at {
            Some(started) => passed(started, now, MAX_SPEECH_TURN_MS),
            None => false,
        };
        let send = !self.awaiting_response && self.saw_speech && (silence_elapsed
            || max_turn_elapsed);
        if send {
            self.awaiting_response = true;
            self.saw_speech = false;
            self.speech_turn_started_at = None;
            self.last_output_text = String::new();
        }
        (report, send)
    }

    /// Takes a read of the websocket, and returns what to print.
    pub fn on_read(&mut self, read: SocketRead) -> (r: Result<String, SessionError>)
        ensures
            match read_effect(old(self)@, read@) {
                Ok((s, action)) => {
                    &&& r matches Ok(printed) && printed@ == action.print
                    &&& final(self)@ == s
                },
                Err(error) => {
                    &&& r matches Err(e) && e@ == error
                    &&& final(self)@ == old(self)@
                },
            },
    {
        match read {
            SocketRead::Text { text, event } => handle_server_event(
                text.as_str(),
                event,
                &mut self.awaiting_response,
                &mut self.last_output_text,
            ),
            SocketRead::Close { frame } => Err(
                SessionError::Closed { phase: Phase::Running, frame },
            ),
            SocketRead::Other => Ok(String::new()),
            SocketRead::Failed => Err(SessionError::ReadFailed { phase: Phase::Running }),
            SocketRead::Ended => Err(SessionError::Ended { phase: Phase::Running }),
        }
    }

    /// Takes an event and says what to do. An error ends the session and leaves its state
    /// as it was.
    pub fn step(&mut self, event: LoopEvent) -> (r: Result<LoopAction, SessionError>)
        requires
            sendable(event@),
        ensures
            match step_effect(old(self)@, event@) {
                Ok((s, action)) => {
                    &&& r matches Ok(a) && a@ == action
                    &&& final(self)@ == s
                },
                Err(error) => {
                    &&& r matches Err(e) && e@ == error
                    &&& final(self)@ == old(self)@
                },
            },
    {
        let mut action = LoopAction {
            stop: false,
            send: Vec::new(),
            print: String::new(),
            reset_peak: false,
            look_at_timers: false,
        };
        match event {
            LoopEvent::Interrupt => {
                action.stop = true;
            },
            LoopEvent::Tick { heard } => {
                action.look_at_timers = true;
                match self.on_tick(heard) {
                    Some(text) => {
                        let failure = "failed to send audio chunk".to_owned();
                        action.send.push(Outgoing { text, failure });
                    },
                    None => {},
                }
            },
            LoopEvent::Timer { now } => {
                let (report, send) = self.on_timer(now);
                action.reset_peak = report;
                if send {
                    let failure = "failed to send input_audio_buffer.commit".to_owned();
                    action.send.push(Outgoing { text: commit_message(), failure });
                    let failure = "failed to send response.create".to_owned();
                    action.send.push(Outgoing { text: create_message(), failure });
                }
            },
            LoopEvent::Read { read } => {
                match self.on_read(read) {
                    Ok(printed) => {
                        action.print = printed;
                    },
                    Err(error) => {
                        return Err(error);
                    },
                }
            },
        }
        Ok(action)
    }
}

} // verus!
