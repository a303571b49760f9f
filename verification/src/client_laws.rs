//! The order in which the realtime client sets its session up and uses it.
use crate::client::{
    client_effect, fresh_client, ClientActionView, ClientEventView, ClientView, Stage,
};
use crate::events::{Phase, ServerEventView, SessionErrorView, SocketReadView};
use crate::handshake::{
    awaited_event, handshake_step, law_awaited_event_ends_wait, HandshakeStepView,
};
use crate::messages::{law_messages_differ, session_update_text};
use crate::session::{fresh_session, step_effect, LoopEventView, OutgoingView};
use vstd::prelude::*;

verus! {

/// What goes over the websocket: what is read from it, and the texts that are sent.
pub enum Traffic {
    Read { read: SocketReadView },
    Sent { text: Seq<char> },
}

/// The client after `events`.
pub open spec fn client_after(events: Seq<ClientEventView>) -> ClientView
    decreases events.len(),
{
    if events.len() == 0 {
        fresh_client()
    } else {
        client_effect(client_after(events.drop_last()), events.last()).0
    }
}

/// The messages that are sent when an event comes.
pub open spec fn messages_sent(c: ClientView, event: ClientEventView) -> Seq<OutgoingView> {
    match client_effect(c, event).1 {
        Ok(action) => action.action.send,
        Err(_) => seq![],
    }
}

/// What goes over the websocket when an event comes: what is read, and then what is sent.
pub open spec fn traffic_of(c: ClientView, event: ClientEventView) -> Seq<Traffic> {
    let read = match event {
        ClientEventView::Session { event } => match event {
            LoopEventView::Read { read } => seq![Traffic::Read { read }],
            _ => seq![],
        },
        _ => seq![],
    };
    read + messages_sent(c, event).map_values(|m: OutgoingView| Traffic::Sent { text: m.text })
}

/// What goes over the websocket while `events` come, in order.
pub open spec fn traffic(events: Seq<ClientEventView>) -> Seq<Traffic>
    decreases events.len(),
{
    if events.len() == 0 {
        seq![]
    } else {
        traffic(events.drop_last()) + traffic_of(client_after(events.drop_last()), events.last())
    }
}

/// Whether the item is a read of the event that `phase` waits for.
pub open spec fn reads_awaited(item: Traffic, phase: Phase) -> bool {
    item matches Traffic::Read { read } && read matches SocketReadView::Text { text, event }
        && event matches Some(e) && e.event_type == awaited_event(phase)
}

/// Whether the item is the message that sets the session up.
pub open spec fn sends_update(item: Traffic) -> bool {
    item == (Traffic::Sent { text: session_update_text() })
}

/// Whether the session was created before `end`.
pub open spec fn created_before(t: Seq<Traffic>, end: int) -> bool {
    exists|i: int| 0 <= i < end && reads_awaited(#[trigger] t[i], Phase::Created)
}

/// Whether the settings were sent before `end`, after the session was created.
pub open spec fn update_sent_before(t: Seq<Traffic>, end: int) -> bool {
    exists|i: int| 0 <= i < end && sends_update(#[trigger] t[i]) && created_before(t, i)
}

/// Whether the settings were taken before `end`, after they were sent.
pub open spec fn set_up_before(t: Seq<Traffic>, end: int) -> bool {
    exists|i: int|
        0 <= i < end && reads_awaited(#[trigger] t[i], Phase::Updated) && update_sent_before(t, i)
}

/// Whether nothing was sent before `end`.
pub open spec fn nothing_sent_before(t: Seq<Traffic>, end: int) -> bool {
    forall|i: int| 0 <= i < end ==> (#[trigger] t[i]) is Read
}

/// Whether what is sent at `j` is sent in order: the settings as the first message, after the
/// session was created, and anything else after the settings were taken.
pub open spec fn sent_in_order(t: Seq<Traffic>, j: int) -> bool {
    if sends_update(t[j]) {
        nothing_sent_before(t, j) && created_before(t, j)
    } else {
        set_up_before(t, j)
    }
}

/// Whether all that is sent is sent in order.
pub open spec fn all_in_order(t: Seq<Traffic>) -> bool {
    forall|j: int| 0 <= j < t.len() && (#[trigger] t[j]) is Sent ==> sent_in_order(t, j)
}

/// Whatever happens, the first message that is sent sets the session up, and only after the
/// service said that the session is created; anything else, audio and turns, is sent only
/// after the service then said that it took the settings.
pub proof fn law_set_up_comes_first(events: Seq<ClientEventView>)
    ensures
        all_in_order(traffic(events)),
{
    lemma_order(events);
}

/// The session is set up at most once.
pub proof fn law_one_session_update(events: Seq<ClientEventView>, i: int, j: int)
    requires
        0 <= i < traffic(events).len(),
        0 <= j < traffic(events).len(),
        sends_update(traffic(events)[i]),
        sends_update(traffic(events)[j]),
    ensures
        i == j,
{
    lemma_order(events);
    let t = traffic(events);
    assert(sent_in_order(t, i));
    assert(sent_in_order(t, j));
    if i < j {
        assert(t[i] is Read);
    } else if j < i {
        assert(t[j] is Read);
    }
}

/// What is known of the traffic at each stage.
spec fn stage_known(stage: Stage, t: Seq<Traffic>) -> bool {
    match stage {
        Stage::AwaitingCreated => nothing_sent_before(t, t.len() as int),
        Stage::AwaitingUpdated => update_sent_before(t, t.len() as int),
        Stage::Starting => set_up_before(t, t.len() as int),
        Stage::Running => set_up_before(t, t.len() as int),
        Stage::Over => true,
    }
}

proof fn lemma_order(events: Seq<ClientEventView>)
    ensures
        all_in_order(traffic(events)),
        stage_known(client_after(events).stage, traffic(events)),
    decreases events.len(),
{
    if events.len() > 0 {
        let before = events.drop_last();
        lemma_order(before);
        lemma_step(client_after(before), events.last(), traffic(before));
    }
}

proof fn lemma_prefix(t: Seq<Traffic>, u: Seq<Traffic>, end: int)
    requires
        0 <= end <= t.len(),
    ensures
        created_before(t, end) ==> created_before(t + u, end),
        update_sent_before(t, end) ==> update_sent_before(t + u, end),
        set_up_before(t, end) ==> set_up_before(t + u, end),
        nothing_sent_before(t, end) ==> nothing_sent_before(t + u, end),
    decreases end,
{
    let w = t + u;
    assert forall|i: int| 0 <= i < end implies w[i] == t[i] by {}
    if created_before(t, end) {
        let i = choose|i: int| 0 <= i < end && reads_awaited(#[trigger] t[i], Phase::Created);
        assert(reads_awaited(w[i], Phase::Created));
    }
    if update_sent_before(t, end) {
        let i = choose|i: int|
            0 <= i < end && sends_update(#[trigger] t[i]) && created_before(t, i);
        lemma_prefix(t, u, i);
        assert(sends_update(w[i]));
    }
    if set_up_before(t, end) {
        let i = choose|i: int|
            0 <= i < end && reads_awaited(#[trigger] t[i], Phase::Updated) && update_sent_before(
                t,
                i,
            );
        lemma_prefix(t, u, i);
        assert(reads_awaited(w[i], Phase::Updated));
    }
}

proof fn lemma_later(t: Seq<Traffic>, a: int, b: int)
    requires
        a <= b,
    ensures
        created_before(t, a) ==> created_before(t, b),
        update_sent_before(t, a) ==> update_sent_before(t, b),
        set_up_before(t, a) ==> set_up_before(t, b),
{
    if created_before(t, a) {
        let i = choose|i: int| 0 <= i < a && reads_awaited(#[trigger] t[i], Phase::Created);
        assert(reads_awaited(t[i], Phase::Created));
    }
    if update_sent_before(t, a) {
        let i = choose|i: int|
            0 <= i < a && sends_update(#[trigger] t[i]) && created_before(t, i);
        assert(sends_update(t[i]));
    }
    if set_up_before(t, a) {
        let i = choose|i: int|
            0 <= i < a && reads_awaited(#[trigger] t[i], Phase::Updated) && update_sent_before(t, i);
        assert(reads_awaited(t[i], Phase::Updated));
    }
}

proof fn lemma_step(c: ClientView, event: ClientEventView, t: Seq<Traffic>)
    requires
        all_in_order(t),
        stage_known(c.stage, t),
    ensures
        all_in_order(t + traffic_of(c, event)),
        stage_known(client_effect(c, event).0.stage, t + traffic_of(c, event)),
{
    let u = traffic_of(c, event);
    let w = t + u;
    let n = t.len() as int;
    let sent = messages_sent(c, event);
    let next = client_effect(c, event).0.stage;
    lemma_prefix(t, u, n);
    lemma_later(w, n, w.len() as int);
    // What was sent before is in order still.
    assert forall|j: int| 0 <= j < n && (#[trigger] w[j]) is Sent implies sent_in_order(w, j) by {
        assert(w[j] == t[j]);
        assert(sent_in_order(t, j));
        lemma_prefix(t, u, j);
    }
    if c.stage == Stage::Running {
        assert forall|j: int| n <= j < w.len() && (#[trigger] w[j]) is Sent implies sent_in_order(
            w,
            j,
        ) by {
            lemma_later(w, n, j);
            lemma_sent_while_running(c, event, u, j - n);
        }
    } else if next == Stage::AwaitingUpdated && c.stage == Stage::AwaitingCreated {
        assert(sent.len() == 1);
        assert(u.len() == 2);
        assert(w[n] == u[0]);
        assert(w[n + 1] == u[1]);
        assert(reads_awaited(w[n], Phase::Created));
        assert(created_before(w, n + 1));
        assert(sends_update(w[n + 1]));
        assert(nothing_sent_before(w, n + 1));
        assert(update_sent_before(w, n + 2));
    } else {
        assert(sent.len() == 0);
        assert forall|j: int| n <= j < w.len() implies (#[trigger] w[j]) is Read by {
            assert(w[j] == u[j - n]);
        }
        if next == Stage::Starting && c.stage == Stage::AwaitingUpdated {
            assert(w[n] == u[0]);
            assert(reads_awaited(w[n], Phase::Updated));
            assert(update_sent_before(w, n));
            assert(set_up_before(w, n + 1));
        }
    }
}

proof fn lemma_sent_while_running(
    c: ClientView,
    event: ClientEventView,
    u: Seq<Traffic>,
    i: int,
)
    requires
        c.stage == Stage::Running,
        u == traffic_of(c, event),
        0 <= i < u.len(),
        u[i] is Sent,
    ensures
        !sends_update(u[i]),
{
    match event {
        ClientEventView::Session { event } => match event {
            LoopEventView::Tick { heard } => match heard {
                Some(heard) => {
                    law_messages_differ(heard.pcm);
                },
                None => {},
            },
            _ => {
                law_messages_differ(seq![]);
            },
        },
        _ => {},
    }
}

/// Whether an action of the client does nothing at all.
pub open spec fn does_nothing(a: ClientActionView) -> bool {
    !a.start_capture && !a.action.stop && a.action.send.len() == 0 && a.action.print.len() == 0
        && !a.action.reset_peak && !a.action.look_at_timers
}

/// A client begins by waiting for the session to be created.
pub proof fn law_fresh_client()
    ensures
        fresh_client().stage == Stage::AwaitingCreated,
{
}

/// When the service says that the session is created, the client sends the settings, and just
/// these, and waits for the service to take them.
pub proof fn law_created_sends_settings(c: ClientView, text: Seq<char>, e: ServerEventView)
    requires
        c.stage == Stage::AwaitingCreated,
        e.event_type == "session.created"@,
    ensures
        ({
            let read = SocketReadView::Text { text, event: Some(e) };
            let (next, result) = client_effect(
                c,
                ClientEventView::Session { event: LoopEventView::Read { read } },
            );
            &&& next.stage == Stage::AwaitingUpdated
            &&& next.session == c.session
            &&& result matches Ok(a) && !a.start_capture && !a.action.stop && a.action.print.len()
                == 0 && !a.action.reset_peak && !a.action.look_at_timers && a.action.send.len()
                == 1 && a.action.send[0].text == session_update_text()
                && a.action.send[0].failure == "failed to send session.update"@
        }),
{
    law_awaited_event_ends_wait(
        Phase::Created,
        SocketReadView::Text { text, event: Some(e) },
    );
}

/// When the service then says that it took them, the client starts the microphone and sends
/// nothing.
pub proof fn law_updated_starts_microphone(c: ClientView, text: Seq<char>, e: ServerEventView)
    requires
        c.stage == Stage::AwaitingUpdated,
        e.event_type == "session.updated"@,
    ensures
        ({
            let read = SocketReadView::Text { text, event: Some(e) };
            let (next, result) = client_effect(
                c,
                ClientEventView::Session { event: LoopEventView::Read { read } },
            );
            &&& next.stage == Stage::Starting
            &&& next.session == c.session
            &&& result matches Ok(a) && a.start_capture && !a.action.stop && a.action.send.len()
                == 0 && a.action.print.len() == 0 && !a.action.reset_peak
                && !a.action.look_at_timers
        }),
{
    law_awaited_event_ends_wait(
        Phase::Updated,
        SocketReadView::Text { text, event: Some(e) },
    );
}

/// While the session is set up, a read that its wait passes over changes nothing, and one that
/// the wait fails on ends the client with that error.
pub proof fn law_reads_of_set_up(c: ClientView, read: SocketReadView)
    requires
        c.stage == Stage::AwaitingCreated || c.stage == Stage::AwaitingUpdated,
    ensures
        ({
            let phase = if c.stage == Stage::AwaitingCreated {
                Phase::Created
            } else {
                Phase::Updated
            };
            let (next, result) = client_effect(
                c,
                ClientEventView::Session { event: LoopEventView::Read { read } },
            );
            match handshake_step(phase, read) {
                HandshakeStepView::Ready => result is Ok,
                HandshakeStepView::Wait => next == c && (result matches Ok(a) && does_nothing(a)),
                HandshakeStepView::Failed { error } => next.stage == Stage::Over && result == Err::<
                    ClientActionView,
                    SessionErrorView,
                >(error),
            }
        }),
{
}

/// Nothing else moves the set-up on: the end of the time ends the client, with an error that
/// says what was awaited, and what belongs to a running session changes nothing and does
/// nothing.
pub proof fn law_rest_of_set_up(c: ClientView, event: ClientEventView)
    requires
        c.stage == Stage::AwaitingCreated || c.stage == Stage::AwaitingUpdated,
        !(event matches ClientEventView::Session { event: LoopEventView::Read { read } }),
    ensures
        event is TimedOut ==> client_effect(c, event).0.stage == Stage::Over && client_effect(
            c,
            event,
        ).1 == Err::<ClientActionView, SessionErrorView>(
            SessionErrorView::TimedOut {
                phase: if c.stage == Stage::AwaitingCreated {
                    Phase::Created
                } else {
                    Phase::Updated
                },
            },
        ),
        !(event is TimedOut) ==> client_effect(c, event).0 == c && (client_effect(c, event).1
            matches Ok(a) && does_nothing(a)),
{
}

/// The session runs once the microphone has started, fresh from that time on; until then
/// whatever comes changes nothing.
pub proof fn law_start(c: ClientView, event: ClientEventView)
    requires
        c.stage == Stage::Starting,
    ensures
        client_effect(c, event).1 matches Ok(a) && does_nothing(a),
        event matches ClientEventView::Started { now } ==> client_effect(c, event).0.stage
            == Stage::Running && client_effect(c, event).0.session == fresh_session(now),
        !(event is Started) ==> client_effect(c, event).0 == c,
{
}

/// A running client does what its session does, no more and no less: the state of the session,
/// what is to be done and the error are those of the session, and the client is over exactly
/// where the session stops or ends in an error.
pub proof fn law_running_client_is_its_session(c: ClientView, event: LoopEventView)
    requires
        c.stage == Stage::Running,
    ensures
        ({
            let (next, result) = client_effect(c, ClientEventView::Session { event });
            match step_effect(c.session, event) {
                Ok((session, action)) => {
                    &&& result matches Ok(a) && a.action == action && !a.start_capture
                    &&& next.session == session
                    &&& next.stage == if action.stop {
                        Stage::Over
                    } else {
                        Stage::Running
                    }
                },
                Err(error) => {
                    &&& result == Err::<ClientActionView, SessionErrorView>(error)
                    &&& next.stage == Stage::Over
                    &&& next.session == c.session
                },
            }
        }),
{
}

/// The time that the set-up may take and the start of the microphone are of no concern to a
/// running client, and nothing at all is to one that is over.
pub proof fn law_what_client_ignores(c: ClientView, event: ClientEventView)
    requires
        c.stage == Stage::Over || (c.stage == Stage::Running && !(event is Session)),
    ensures
        client_effect(c, event).0 == c,
        client_effect(c, event).1 matches Ok(a) && does_nothing(a),
{
}

} // verus!
