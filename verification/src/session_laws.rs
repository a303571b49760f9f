//! What holds of a realtime session over all that may happen to it.
use crate::encoding::base64_text;
use crate::events::{
    law_end_breaks_line, law_other_events, law_piece_is_printed, law_what_ends_session, Phase,
    ServerEventView, SessionErrorView, SocketReadView,
};
use crate::messages::{append_text, law_append_text, law_messages_differ, law_turn_texts};
use crate::session::{
    after_tick, after_timer, audio_message, fresh_session, has_passed, heard_messages, step_effect, turn_due,
    turn_messages, HeardView, LoopActionView, LoopEventView, OutgoingView, SessionView,
    AUDIO_IDLE_FLUSH_MS, MAX_SPEECH_TURN_MS,
};
use vstd::prelude::*;

verus! {

/// The state after `events`, or `None` where one of them ended the session.
pub open spec fn run(s: SessionView, events: Seq<LoopEventView>) -> Option<SessionView>
    decreases events.len(),
{
    if events.len() == 0 {
        Some(s)
    } else {
        match step_effect(s, events[0]) {
            Ok((next, action)) => if action.stop {
                None
            } else {
                run(next, events.drop_first())
            },
            Err(_) => None,
        }
    }
}

/// How many turns are sent over `events`.
pub open spec fn turns_sent(s: SessionView, events: Seq<LoopEventView>) -> nat
    decreases events.len(),
{
    if events.len() == 0 {
        0
    } else {
        match step_effect(s, events[0]) {
            Ok((next, action)) => turn_in(action) + if action.stop {
                0
            } else {
                turns_sent(next, events.drop_first())
            },
            Err(_) => 0,
        }
    }
}

/// One where the action sends a turn.
pub open spec fn turn_in(action: LoopActionView) -> nat {
    if action.send == turn_messages() {
        1
    } else {
        0
    }
}

/// Whether the event says that the response is done.
pub open spec fn response_done(event: LoopEventView) -> bool {
    event matches LoopEventView::Read { read } && read matches SocketReadView::Text { text, event }
        && event matches Some(e) && e.event_type == "response.done"@
}

/// How many responses are done over `events`.
pub open spec fn responses_done(events: Seq<LoopEventView>) -> nat
    decreases events.len(),
{
    if events.len() == 0 {
        0
    } else {
        (if response_done(events[0]) {
            1nat
        } else {
            0nat
        }) + responses_done(events.drop_first())
    }
}

/// The piece of the response that an event brings.
pub open spec fn piece(event: LoopEventView) -> Seq<char> {
    match event {
        LoopEventView::Read { read } => match read {
            SocketReadView::Text { text, event } => match event {
                Some(e) => if e.event_type == "response.output_text.delta"@ {
                    match e.delta {
                        Some(delta) => delta,
                        None => seq![],
                    }
                } else {
                    seq![]
                },
                None => seq![],
            },
            _ => seq![],
        },
        _ => seq![],
    }
}

/// The pieces of the response that `events` bring, one after the other.
pub open spec fn pieces(events: Seq<LoopEventView>) -> Seq<char>
    decreases events.len(),
{
    if events.len() == 0 {
        seq![]
    } else {
        piece(events[0]) + pieces(events.drop_first())
    }
}

/// Whether the event is loud audio.
pub open spec fn loud_audio(event: LoopEventView) -> bool {
    event matches LoopEventView::Tick { heard } && heard matches Some(h) && h.loud
}

/// Whether a turn has begun exactly where there was speech that is not sent yet.
pub open spec fn turn_marked(s: SessionView) -> bool {
    s.saw_speech <==> s.speech_turn_started_at is Some
}

proof fn lemma_not_a_turn(send: Seq<OutgoingView>)
    requires
        send.len() != 2,
    ensures
        send != turn_messages(),
{
}

/// In every state that a session comes to, a turn has begun exactly where there was speech
/// that is not sent yet.
pub proof fn law_turn_marked(now: u64, events: Seq<LoopEventView>)
    ensures
        run(fresh_session(now), events) matches Some(s) ==> turn_marked(s),
{
    lemma_turn_marked(fresh_session(now), events);
}

proof fn lemma_turn_marked(s: SessionView, events: Seq<LoopEventView>)
    requires
        turn_marked(s),
    ensures
        run(s, events) matches Some(t) ==> turn_marked(t),
    decreases events.len(),
{
    if events.len() > 0 {
        match step_effect(s, events[0]) {
            Ok((next, action)) => {
                assert(turn_marked(next));
                lemma_turn_marked(next, events.drop_first());
            },
            Err(_) => {},
        }
    }
}

/// The time of an event, where it has one.
pub open spec fn event_time(event: LoopEventView) -> Option<u64> {
    match event {
        LoopEventView::Tick { heard } => match heard {
            Some(heard) => Some(heard.now),
            None => None,
        },
        LoopEventView::Timer { now } => Some(now),
        _ => None,
    }
}

/// Whether the times of the events, from `start` on, never go back.
pub open spec fn in_time_order(start: u64, events: Seq<LoopEventView>) -> bool
    decreases events.len(),
{
    if events.len() == 0 {
        true
    } else {
        match event_time(events[0]) {
            Some(now) => start <= now && in_time_order(now, events.drop_first()),
            None => in_time_order(start, events.drop_first()),
        }
    }
}

/// On a clock that never goes back, a turn began no later than it was last loud.
pub proof fn law_turn_began_before_last_speech(start: u64, events: Seq<LoopEventView>)
    requires
        in_time_order(start, events),
    ensures
        run(fresh_session(start), events) matches Some(s) ==> (
        s.speech_turn_started_at matches Some(began) ==> began <= s.last_non_silent_audio),
{
    lemma_turn_began(fresh_session(start), start, events);
}

proof fn lemma_turn_began(s: SessionView, start: u64, events: Seq<LoopEventView>)
    requires
        in_time_order(start, events),
        s.last_non_silent_audio <= start,
        s.speech_turn_started_at matches Some(began) ==> began <= s.last_non_silent_audio,
    ensures
        run(s, events) matches Some(t) ==> (t.speech_turn_started_at matches Some(began) ==> began
            <= t.last_non_silent_audio),
    decreases events.len(),
{
    if events.len() > 0 {
        match step_effect(s, events[0]) {
            Ok((next, action)) => {
                let now = match event_time(events[0]) {
                    Some(now) => now,
                    None => start,
                };
                lemma_turn_began(next, now, events.drop_first());
            },
            Err(_) => {},
        }
    }
}

/// A turn is sent only when the response to the one before is done: over any events there
/// are at most as many turns as responses done, and one more where none was awaited.
pub proof fn law_one_turn_per_response(s: SessionView, events: Seq<LoopEventView>)
    ensures
        turns_sent(s, events) <= responses_done(events) + if s.awaiting_response {
            0int
        } else {
            1
        },
    decreases events.len(),
{
    if events.len() > 0 {
        match step_effect(s, events[0]) {
            Ok((next, action)) => {
                if action.send.len() != 2 {
                    lemma_not_a_turn(action.send);
                }
                law_one_turn_per_response(next, events.drop_first());
            },
            Err(_) => {},
        }
    }
}

/// Without speech no turn is sent.
pub proof fn law_no_turn_without_speech(s: SessionView, events: Seq<LoopEventView>)
    requires
        !s.saw_speech,
        forall|i: int| 0 <= i < events.len() ==> !loud_audio(#[trigger] events[i]),
    ensures
        turns_sent(s, events) == 0,
    decreases events.len(),
{
    if events.len() > 0 {
        assert(!loud_audio(events[0]));
        match step_effect(s, events[0]) {
            Ok((next, action)) => {
                lemma_not_a_turn(action.send);
                assert forall|i: int| 0 <= i < events.drop_first().len() implies !loud_audio(
                    #[trigger] events.drop_first()[i],
                ) by {
                    assert(events.drop_first()[i] == events[i + 1]);
                }
                law_no_turn_without_speech(next, events.drop_first());
            },
            Err(_) => {},
        }
    }
}

/// As long as no turn is sent, the text of the response grows by the pieces that come, in
/// order.
pub proof fn law_output_is_pieces(s: SessionView, events: Seq<LoopEventView>)
    requires
        run(s, events) is Some,
        turns_sent(s, events) == 0,
    ensures
        run(s, events)->Some_0.last_output_text == s.last_output_text + pieces(events),
    decreases events.len(),
{
    if events.len() == 0 {
        assert(s.last_output_text + pieces(events) =~= s.last_output_text);
    } else {
        match step_effect(s, events[0]) {
            Ok((next, action)) => {
                law_output_is_pieces(next, events.drop_first());
                assert(next.last_output_text =~= s.last_output_text + piece(events[0]));
                assert(s.last_output_text + piece(events[0]) + pieces(events.drop_first())
                    =~= s.last_output_text + pieces(events));
            },
            Err(_) => {},
        }
    }
}

/// The messages that an event sends.
pub open spec fn sent_by(s: SessionView, event: LoopEventView) -> Seq<OutgoingView> {
    match step_effect(s, event) {
        Ok((_, action)) => action.send,
        Err(_) => seq![],
    }
}

/// The state after an event, or as it was where the event is an error.
pub open spec fn state_after(s: SessionView, event: LoopEventView) -> SessionView {
    match step_effect(s, event) {
        Ok((next, _)) => next,
        Err(_) => s,
    }
}

/// What a tick and the look at its timers send together, in order.
pub open spec fn tick_messages(s: SessionView, heard: Option<HeardView>, now: u64) -> Seq<
    OutgoingView,
> {
    let tick = LoopEventView::Tick { heard };
    sent_by(s, tick) + sent_by(state_after(s, tick), LoopEventView::Timer { now })
}

/// Whether the message sends audio.
pub open spec fn sends_audio(message: OutgoingView) -> bool {
    exists|pcm: Seq<u8>| message.text == #[trigger] append_text(pcm)
}

/// A tick asks for a look at the timers. It sends what it heard before that, and the timers
/// then count what it heard: the turn that they may send follows the audio of the tick.
pub proof fn law_tick(s: SessionView, heard: Option<HeardView>, now: u64)
    ensures
        step_effect(s, LoopEventView::Tick { heard }) matches Ok((_, action))
            && action.look_at_timers && action.send == heard_messages(heard),
        tick_messages(s, heard, now) == heard_messages(heard) + if turn_due(
            after_tick(s, heard),
            now,
        ) {
            turn_messages()
        } else {
            seq![]
        },
        state_after(state_after(s, LoopEventView::Tick { heard }), LoopEventView::Timer { now })
            == after_timer(after_tick(s, heard), now),
{
}

/// Over a tick audio is sent in the first message and in no other, and this exactly where
/// there are bytes to send: whether it is loud and whether a response is awaited play no part.
pub proof fn law_one_audio_message_per_tick(
    s: SessionView,
    heard: Option<HeardView>,
    now: u64,
    i: int,
)
    requires
        0 <= i < tick_messages(s, heard, now).len(),
    ensures
        sends_audio(tick_messages(s, heard, now)[i]) <==> (i == 0 && (heard matches Some(h)
            && h.pcm.len() > 0)),
{
    law_tick(s, heard, now);
    let message = tick_messages(s, heard, now)[i];
    if i < heard_messages(heard).len() {
        assert(message == audio_message(heard->Some_0.pcm));
    } else {
        assert(message == turn_messages()[i - heard_messages(heard).len()]);
        assert forall|pcm: Seq<u8>| message.text != #[trigger] append_text(pcm) by {
            law_messages_differ(pcm);
        }
    }
}

/// A turn is sent only by the first look at the timers after a tick.
pub proof fn law_turn_follows_its_tick(now: u64, events: Seq<LoopEventView>)
    requires
        events.len() > 0,
        run(fresh_session(now), events.drop_last()) matches Some(s) && sent_by(s, events.last())
            == turn_messages(),
    ensures
        events.last() is Timer,
        exists|i: int|
            0 <= i < events.len() - 1 && (#[trigger] events[i]) is Tick && forall|j: int|
                i < j < events.len() - 1 ==> !((#[trigger] events[j]) is Timer),
{
    let before = events.drop_last();
    let s = run(fresh_session(now), before)->Some_0;
    if !(events.last() is Timer) || !s.tick_open {
        lemma_not_a_turn(sent_by(s, events.last()));
    }
    lemma_open_tick(fresh_session(now), before);
    let i = choose|i: int|
        0 <= i < before.len() && (#[trigger] before[i]) is Tick && forall|j: int|
            i < j < before.len() ==> !((#[trigger] before[j]) is Timer);
    assert(events[i] == before[i]);
    assert forall|j: int| i < j < events.len() - 1 implies !((#[trigger] events[j]) is Timer) by {
        assert(events[j] == before[j]);
    }
}

proof fn lemma_open_tick(s: SessionView, events: Seq<LoopEventView>)
    requires
        run(s, events) matches Some(t) && t.tick_open,
    ensures
        (s.tick_open && forall|j: int|
            0 <= j < events.len() ==> !((#[trigger] events[j]) is Timer)) || exists|i: int|
            0 <= i < events.len() && (#[trigger] events[i]) is Tick && forall|j: int|
                i < j < events.len() ==> !((#[trigger] events[j]) is Timer),
    decreases events.len(),
{
    if events.len() > 0 {
        let rest = events.drop_first();
        let next = state_after(s, events[0]);
        assert(run(s, events) == run(next, rest));
        lemma_open_tick(next, rest);
        if next.tick_open && (forall|j: int|
            0 <= j < rest.len() ==> !((#[trigger] rest[j]) is Timer)) {
            assert forall|j: int| 0 < j < events.len() implies !((#[trigger] events[j]) is Timer) by {
                assert(events[j] == rest[j - 1]);
            }
        } else {
            let i = choose|i: int|
                0 <= i < rest.len() && (#[trigger] rest[i]) is Tick && forall|j: int|
                    i < j < rest.len() ==> !((#[trigger] rest[j]) is Timer);
            assert(events[i + 1] == rest[i]);
            assert forall|j: int| i + 1 < j < events.len() implies !((
            #[trigger] events[j]) is Timer) by {
                assert(events[j] == rest[j - 1]);
            }
        }
    }
}

/// Where no response is awaited, a turn is sent at the latest by the tick at which it has
/// lasted [`MAX_SPEECH_TURN_MS`], or it has been silent for [`AUDIO_IDLE_FLUSH_MS`]; and the text
/// of the response then starts anew.
pub proof fn law_turn_is_flushed(s: SessionView, now: u64)
    requires
        turn_marked(s),
        s.tick_open,
        s.saw_speech,
        !s.awaiting_response,
        has_passed(s.speech_turn_started_at->Some_0, now, MAX_SPEECH_TURN_MS) || has_passed(
            s.last_non_silent_audio,
            now,
            AUDIO_IDLE_FLUSH_MS,
        ),
    ensures
        step_effect(s, LoopEventView::Timer { now }) matches Ok((next, action)) && action.send
            == turn_messages() && next.awaiting_response && !next.saw_speech
            && next.last_output_text.len() == 0,
{
}

/// Quiet audio, and a tick that heard nothing, change nothing of the turn: all that a tick
/// without loud audio does to the state is that its timers are to be looked at.
pub proof fn law_quiet_tick_keeps_turn(s: SessionView, heard: Option<HeardView>)
    requires
        heard matches Some(h) ==> !h.loud,
    ensures
        step_effect(s, LoopEventView::Tick { heard }) matches Ok((t, _)) && {
            &&& t.saw_speech == s.saw_speech
            &&& t.speech_turn_started_at == s.speech_turn_started_at
            &&& t.last_non_silent_audio == s.last_non_silent_audio
            &&& t.awaiting_response == s.awaiting_response
            &&& t.last_mic_report == s.last_mic_report
            &&& t.last_output_text == s.last_output_text
            &&& t.tick_open
        },
{
}

/// Loud audio is speech. It sets the time when it was last loud, and begins a turn where none
/// has begun; a turn that has begun keeps its beginning.
pub proof fn law_loud_tick_is_speech(s: SessionView, h: HeardView)
    requires
        h.loud,
    ensures
        step_effect(s, LoopEventView::Tick { heard: Some(h) }) matches Ok((t, _)) && {
            &&& t.saw_speech
            &&& t.last_non_silent_audio == h.now
            &&& s.speech_turn_started_at is Some ==> t.speech_turn_started_at
                == s.speech_turn_started_at
            &&& s.speech_turn_started_at is None ==> t.speech_turn_started_at == Some(h.now)
            &&& t.awaiting_response == s.awaiting_response
            &&& t.last_mic_report == s.last_mic_report
            &&& t.last_output_text == s.last_output_text
            &&& t.tick_open
        },
{
}

/// All that a tick does but for its effect on the state: it sends the bytes that were heard, in
/// one message that holds their base64 text, and asks for a look at the timers.
pub proof fn law_what_tick_does(s: SessionView, heard: Option<HeardView>)
    ensures
        step_effect(s, LoopEventView::Tick { heard }) matches Ok((_, a)) && {
            &&& a.look_at_timers && !a.stop && !a.reset_peak && a.print.len() == 0
            &&& heard is None ==> a.send.len() == 0
            &&& heard matches Some(h) ==> (h.pcm.len() == 0 ==> a.send.len() == 0)
            &&& heard matches Some(h) ==> (h.pcm.len() > 0 ==> {
                &&& a.send.len() == 1
                &&& a.send[0].text == "{\"audio\":\""@ + base64_text(h.pcm)
                    + "\",\"type\":\"input_audio_buffer.append\"}"@
                &&& a.send[0].failure == "failed to send audio chunk"@
            })
        },
{
    if heard is Some {
        law_append_text(heard->Some_0.pcm);
    }
}

/// Without a tick before it, a look at the timers changes nothing and does nothing.
pub proof fn law_timers_need_tick(s: SessionView, now: u64)
    requires
        !s.tick_open,
    ensures
        step_effect(s, LoopEventView::Timer { now }) matches Ok((t, a)) && t == s && !a.stop
            && a.send.len() == 0 && a.print.len() == 0 && !a.reset_peak && !a.look_at_timers,
{
}

/// Where there was speech and no response is awaited, the turn is sent when it has been silent
/// for 1.2 seconds or when the turn began 4 seconds ago: a commit, then the request for a
/// response, and nothing else. From then on a response is awaited, and the next turn and the
/// next text begin from nothing.
pub proof fn law_turn_over_is_sent(s: SessionView, now: u64)
    requires
        s.tick_open,
        s.saw_speech,
        !s.awaiting_response,
        s.last_non_silent_audio + 1_200_000_000 <= now || (s.speech_turn_started_at matches Some(
            began,
        ) && began + 4_000_000_000 <= now),
    ensures
        step_effect(s, LoopEventView::Timer { now }) matches Ok((t, a)) && {
            &&& a.send.len() == 2
            &&& a.send[0].text == "{\"type\":\"input_audio_buffer.commit\"}"@
            &&& a.send[0].failure == "failed to send input_audio_buffer.commit"@
            &&& a.send[1].text == "{\"type\":\"response.create\"}"@
            &&& a.send[1].failure == "failed to send response.create"@
            &&& !a.stop && a.print.len() == 0 && !a.look_at_timers
            &&& t.awaiting_response && !t.saw_speech && t.speech_turn_started_at is None
            &&& t.last_output_text.len() == 0
            &&& t.last_non_silent_audio == s.last_non_silent_audio
            &&& !t.tick_open
        },
{
    law_turn_texts();
}

/// Before that, or while a response is awaited, or where there was no speech, nothing is sent,
/// and the turn and the text of the response stay as they are.
pub proof fn law_turn_is_not_sent_early(s: SessionView, now: u64)
    requires
        s.awaiting_response || !s.saw_speech || (now < s.last_non_silent_audio + 1_200_000_000 && (
        s.speech_turn_started_at matches Some(began) ==> now < began + 4_000_000_000)),
    ensures
        step_effect(s, LoopEventView::Timer { now }) matches Ok((t, a)) && {
            &&& a.send.len() == 0
            &&& !a.stop && a.print.len() == 0 && !a.look_at_timers
            &&& t.awaiting_response == s.awaiting_response
            &&& t.saw_speech == s.saw_speech
            &&& t.speech_turn_started_at == s.speech_turn_started_at
            &&& t.last_non_silent_audio == s.last_non_silent_audio
            &&& t.last_output_text == s.last_output_text
            &&& !t.tick_open
        },
{
}

/// The peak of the microphone level starts anew when the last time was a second ago, whatever
/// becomes of the turn.
pub proof fn law_peak_starts_anew_each_second(s: SessionView, now: u64)
    requires
        s.tick_open,
    ensures
        step_effect(s, LoopEventView::Timer { now }) matches Ok((t, a)) && {
            &&& a.reset_peak <==> s.last_mic_report + 1_000_000_000 <= now
            &&& t.last_mic_report == if a.reset_peak {
                now
            } else {
                s.last_mic_report
            }
        },
{
}

/// An interrupt stops the session and does nothing else.
pub proof fn law_interrupt_stops(s: SessionView)
    ensures
        step_effect(s, LoopEventView::Interrupt) matches Ok((t, a)) && t == s && a.stop
            && a.send.len() == 0 && a.print.len() == 0 && !a.reset_peak && !a.look_at_timers,
{
}

/// What is read never touches the turn: it sends nothing, and of the state it can change only
/// whether a response is awaited and the text of the response.
pub proof fn law_read_keeps_turn(s: SessionView, read: SocketReadView)
    ensures
        step_effect(s, LoopEventView::Read { read }) matches Ok((t, a)) ==> {
            &&& t.saw_speech == s.saw_speech
            &&& t.speech_turn_started_at == s.speech_turn_started_at
            &&& t.last_non_silent_audio == s.last_non_silent_audio
            &&& t.last_mic_report == s.last_mic_report
            &&& t.tick_open == s.tick_open
            &&& a.send.len() == 0 && !a.stop && !a.reset_peak && !a.look_at_timers
        },
{
}

/// A piece of the response is printed as it comes, in every state of the session, and added to
/// the text of the response.
pub proof fn law_piece_is_printed_at_once(s: SessionView, text: Seq<char>, e: ServerEventView)
    requires
        e.event_type == "response.output_text.delta"@,
    ensures
        step_effect(
            s,
            LoopEventView::Read { read: SocketReadView::Text { text, event: Some(e) } },
        ) matches Ok((t, a)) && {
            &&& t.awaiting_response == s.awaiting_response
            &&& e.delta matches Some(delta) ==> a.print == delta && t.last_output_text
                == s.last_output_text + delta
            &&& e.delta is None ==> a.print.len() == 0 && t.last_output_text
                == s.last_output_text
        },
{
    law_piece_is_printed(text, e, s.awaiting_response, s.last_output_text);
}

/// The end of a text and that of the response break the line, and after that of the response
/// none is awaited; any other event but an error changes nothing.
pub proof fn law_events_without_piece(s: SessionView, text: Seq<char>, e: ServerEventView)
    requires
        e.event_type != "response.output_text.delta"@,
        e.event_type != "error"@,
    ensures
        step_effect(
            s,
            LoopEventView::Read { read: SocketReadView::Text { text, event: Some(e) } },
        ) matches Ok((t, a)) && {
            let ends = e.event_type == "response.output_text.done"@ || e.event_type
                == "response.done"@;
            &&& ends ==> a.print == "\n"@
            &&& !ends ==> a.print.len() == 0
            &&& t.awaiting_response == (s.awaiting_response && e.event_type != "response.done"@)
            &&& t.last_output_text == s.last_output_text
        },
{
    if e.event_type == "response.output_text.done"@ || e.event_type == "response.done"@ {
        law_end_breaks_line(text, e, s.awaiting_response, s.last_output_text);
        reveal_strlit("response.output_text.done");
        reveal_strlit("response.done");
        assert("response.output_text.done"@.len() == 25);
        assert("response.done"@.len() == 13);
    } else {
        law_other_events(text, e, s.awaiting_response, s.last_output_text);
    }
}

/// What ends a running session: an error event, with what it says; a text without an event; a
/// close, with its frame; a read that fails; and the end of the stream. Nothing else that is read
/// does, and a message that is no text changes nothing.
pub proof fn law_what_ends_running_session(s: SessionView, read: SocketReadView)
    ensures
        match read {
            SocketReadView::Text { text, event } => match event {
                Some(e) => if e.event_type == "error"@ {
                    step_effect(s, LoopEventView::Read { read }) matches Err(error) && error
                        matches SessionErrorView::Server { phase, detail } && phase
                        == Phase::Running && detail == match e.error {
                        Some(Some(message)) => message,
                        _ => text,
                    }
                } else {
                    step_effect(s, LoopEventView::Read { read }) is Ok
                },
                None => step_effect(s, LoopEventView::Read { read }) matches Err(error) && error
                    == (SessionErrorView::InvalidEvent { phase: Phase::Running, text }),
            },
            SocketReadView::Close { frame } => step_effect(s, LoopEventView::Read { read })
                matches Err(error) && error == (SessionErrorView::Closed {
                phase: Phase::Running,
                frame,
            }),
            SocketReadView::Other => step_effect(s, LoopEventView::Read { read }) matches Ok((t, a))
                && t == s && a.print.len() == 0,
            SocketReadView::Failed => step_effect(s, LoopEventView::Read { read })
                matches Err(error) && error == (SessionErrorView::ReadFailed {
                phase: Phase::Running,
            }),
            SocketReadView::Ended => step_effect(s, LoopEventView::Read { read })
                matches Err(error) && error == (SessionErrorView::Ended { phase: Phase::Running }),
        },
{
    match read {
        SocketReadView::Text { text, event } => {
            law_what_ends_session(text, event, s.awaiting_response, s.last_output_text);
        },
        _ => {},
    }
}

/// Once there was speech, it is not forgotten until a turn is sent: over events among which none
/// sends a turn, the turn stays begun and keeps its beginning.
pub proof fn law_speech_is_kept(s: SessionView, events: Seq<LoopEventView>)
    requires
        s.saw_speech,
        s.speech_turn_started_at is Some,
        run(s, events) is Some,
        turns_sent(s, events) == 0,
    ensures
        run(s, events) matches Some(t) && t.saw_speech && t.speech_turn_started_at
            == s.speech_turn_started_at && (!s.awaiting_response ==> !t.awaiting_response),
    decreases events.len(),
{
    if events.len() > 0 {
        let next = step_effect(s, events[0])->Ok_0.0;
        lemma_no_turn_in_step(s, events[0]);
        law_speech_is_kept(next, events.drop_first());
    }
}

/// As long as nothing loud is heard, the time when it was last loud stays.
pub proof fn law_silence_is_counted_from_speech(s: SessionView, events: Seq<LoopEventView>)
    requires
        run(s, events) is Some,
        forall|i: int| 0 <= i < events.len() ==> !loud_audio(#[trigger] events[i]),
    ensures
        run(s, events) matches Some(t) && t.last_non_silent_audio == s.last_non_silent_audio,
    decreases events.len(),
{
    if events.len() > 0 {
        assert(!loud_audio(events[0]));
        let rest = events.drop_first();
        assert forall|i: int| 0 <= i < rest.len() implies !loud_audio(#[trigger] rest[i]) by {
            assert(rest[i] == events[i + 1]);
        }
        law_silence_is_counted_from_speech(step_effect(s, events[0])->Ok_0.0, rest);
    }
}

proof fn lemma_no_turn_in_step(s: SessionView, event: LoopEventView)
    requires
        step_effect(s, event) matches Ok((_, action)) && turn_in(action) == 0,
    ensures
        step_effect(s, event) matches Ok((t, _)) && {
            &&& s.saw_speech ==> t.saw_speech
            &&& s.speech_turn_started_at is Some ==> t.speech_turn_started_at
                == s.speech_turn_started_at
            &&& !s.awaiting_response ==> !t.awaiting_response
        },
{
}

/// Speech is answered: where no response is awaited and loud audio is heard at `h.now`, then
/// whatever comes, as long as nothing loud is heard and no turn is sent, the first tick whose
/// timers are looked at 1.2 seconds or more after `h.now` sends the turn, and exactly that.
pub proof fn law_speech_then_silence_sends_turn(
    s: SessionView,
    h: HeardView,
    between: Seq<LoopEventView>,
    quiet: Option<HeardView>,
    now: u64,
)
    requires
        !s.awaiting_response,
        h.loud,
        run(state_after(s, LoopEventView::Tick { heard: Some(h) }), between) is Some,
        turns_sent(state_after(s, LoopEventView::Tick { heard: Some(h) }), between) == 0,
        forall|i: int| 0 <= i < between.len() ==> !loud_audio(#[trigger] between[i]),
        quiet matches Some(q) ==> !q.loud,
        h.now + 1_200_000_000 <= now,
    ensures
        ({
            let spoken = state_after(s, LoopEventView::Tick { heard: Some(h) });
            let t = run(spoken, between)->Some_0;
            let sent = sent_by(
                state_after(t, LoopEventView::Tick { heard: quiet }),
                LoopEventView::Timer { now },
            );
            &&& t.saw_speech
            &&& t.speech_turn_started_at == spoken.speech_turn_started_at
            &&& t.last_non_silent_audio == h.now
            &&& sent.len() == 2
            &&& sent[0].text == "{\"type\":\"input_audio_buffer.commit\"}"@
            &&& sent[1].text == "{\"type\":\"response.create\"}"@
        }),
{
    let spoken = state_after(s, LoopEventView::Tick { heard: Some(h) });
    law_loud_tick_is_speech(s, h);
    law_speech_is_kept(spoken, between);
    law_silence_is_counted_from_speech(spoken, between);
    let t = run(spoken, between)->Some_0;
    law_quiet_tick_keeps_turn(t, quiet);
    law_turn_over_is_sent(state_after(t, LoopEventView::Tick { heard: quiet }), now);
}

/// And no earlier: as long as nothing loud is heard and each look at the timers comes within 1.2
/// seconds of the speech and within 4 seconds of the beginning of the turn, no turn is sent.
pub proof fn law_no_turn_before_silence(s: SessionView, events: Seq<LoopEventView>)
    requires
        forall|i: int| 0 <= i < events.len() ==> !loud_audio(#[trigger] events[i]),
        forall|i: int|
            0 <= i < events.len() ==> ((#[trigger] events[i]) matches LoopEventView::Timer { now }
                ==> now < s.last_non_silent_audio + 1_200_000_000 && (
            s.speech_turn_started_at matches Some(began) ==> now < began + 4_000_000_000)),
    ensures
        turns_sent(s, events) == 0,
    decreases events.len(),
{
    if events.len() > 0 && step_effect(s, events[0]) is Ok {
        let (next, action) = step_effect(s, events[0])->Ok_0;
        assert(!loud_audio(events[0]));
        match events[0] {
            LoopEventView::Timer { now } => {
                if s.tick_open {
                    law_turn_is_not_sent_early(s, now);
                } else {
                    law_timers_need_tick(s, now);
                }
            },
            LoopEventView::Tick { heard } => {
                law_quiet_tick_keeps_turn(s, heard);
            },
            LoopEventView::Read { read } => {
                law_read_keeps_turn(s, read);
            },
            LoopEventView::Interrupt => {},
        }
        lemma_not_a_turn(action.send);
        let rest = events.drop_first();
        assert forall|i: int| 0 <= i < rest.len() implies rest[i] == events[i + 1] by {}
        assert forall|i: int| 0 <= i < rest.len() implies !loud_audio(#[trigger] rest[i]) by {
            assert(rest[i] == events[i + 1]);
        }
        assert forall|i: int| 0 <= i < rest.len() implies ((
        #[trigger] rest[i]) matches LoopEventView::Timer { now } ==> now
            < next.last_non_silent_audio + 1_200_000_000 && (
        next.speech_turn_started_at matches Some(began) ==> now < began + 4_000_000_000)) by {
            assert(rest[i] == events[i + 1]);
        }
        law_no_turn_before_silence(next, rest);
    }
}

/// What is printed over `events`, one after the other, but for the line breaks at the end of a
/// text and of a response.
pub open spec fn printed_over(s: SessionView, events: Seq<LoopEventView>) -> Seq<char>
    decreases events.len(),
{
    if events.len() == 0 {
        seq![]
    } else {
        match step_effect(s, events[0]) {
            Ok((next, action)) => (if ends_text(events[0]) {
                seq![]
            } else {
                action.print
            }) + printed_over(next, events.drop_first()),
            Err(_) => seq![],
        }
    }
}

/// Whether the event says that a text or the response is at its end.
pub open spec fn ends_text(event: LoopEventView) -> bool {
    event matches LoopEventView::Read { read } && read matches SocketReadView::Text { text, event }
        && event matches Some(e) && (e.event_type == "response.output_text.done"@ || e.event_type
        == "response.done"@)
}

/// What is printed are the pieces of the responses, all of them and in order, and besides them
/// only line breaks.
pub proof fn law_pieces_are_printed(s: SessionView, events: Seq<LoopEventView>)
    requires
        run(s, events) is Some,
    ensures
        printed_over(s, events) == pieces(events),
    decreases events.len(),
{
    if events.len() > 0 {
        let (next, action) = step_effect(s, events[0])->Ok_0;
        law_pieces_are_printed(next, events.drop_first());
        lemma_printed_in_step(s, events[0]);
    }
}

proof fn lemma_printed_in_step(s: SessionView, event: LoopEventView)
    requires
        step_effect(s, event) is Ok,
    ensures
        step_effect(s, event) matches Ok((_, a)) && (if ends_text(event) {
            seq![]
        } else {
            a.print
        }) == piece(event),
{
    match event {
        LoopEventView::Read { read } => match read {
            SocketReadView::Text { text, event: Some(e) } => {
                law_what_ends_running_session(s, read);
                reveal_strlit("response.output_text.delta");
                reveal_strlit("response.output_text.done");
                reveal_strlit("response.done");
                assert("response.output_text.delta"@.len() == 26);
                assert("response.output_text.done"@.len() == 25);
                assert("response.done"@.len() == 13);
                if e.event_type == "response.output_text.delta"@ {
                    law_piece_is_printed_at_once(s, text, e);
                } else {
                    law_events_without_piece(s, text, e);
                }
            },
            _ => {},
        },
        _ => {},
    }
    let print = step_effect(s, event)->Ok_0.1.print;
    if !ends_text(event) {
        assert(print =~= piece(event));
    }
}

/// A session begins with no speech, no turn, no text and no response to wait for, and counts
/// from when it begins.
pub proof fn law_fresh_session(now: u64)
    ensures
        fresh_session(now).last_non_silent_audio == now,
        fresh_session(now).last_mic_report == now,
        fresh_session(now).speech_turn_started_at is None,
        !fresh_session(now).saw_speech,
        !fresh_session(now).awaiting_response,
        !fresh_session(now).tick_open,
        fresh_session(now).last_output_text.len() == 0,
{
}

} // verus!
