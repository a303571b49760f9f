//! The realtime client from its first read on: the session is set up step by step, and only
//! then does it run.
use crate::events::{Phase, SessionError, SessionErrorView};
use crate::handshake::{
    handshake_step, wait_for_session_created, wait_for_session_updated, HandshakeStep,
    HandshakeStepView,
};
use crate::messages::{session_update_message, session_update_text};
use crate::session::{
    fresh_session, no_action, sendable, step_effect, LoopAction, LoopActionView, LoopEvent,
    LoopEventView, Outgoing, OutgoingView, RealtimeSession, SessionView,
};
use vstd::prelude::*;

verus! {

/// How far the client has come.
#[derive(Debug, Clone, Copy, PartialEq, Eq, Structural)]
pub enum Stage {
    /// The service has not said yet that the session is created.
    AwaitingCreated,
    /// The settings are sent, and the service has not said yet that it took them.
    AwaitingUpdated,
    /// The session is set up, and the microphone is to be started.
    Starting,
    /// The session runs.
    Running,
    /// The session is over.
    Over,
}

/// The realtime client. The session counts from when it runs.
#[derive(Debug)]
pub struct RealtimeClient {
    pub stage: Stage,
    pub session: RealtimeSession,
}

/// What happens to the client.
#[derive(Debug)]
pub enum ClientEvent {
    /// The microphone has started.
    Started { now: u64 },
    /// The service has not answered in time.
    TimedOut,
    /// What happens to a session: of this, only reads come before the session runs.
    Session { event: LoopEvent },
}

/// What the client is to do.
#[derive(Debug)]
pub struct ClientAction {
    /// Whether to start the microphone.
    pub start_capture: bool,
    pub action: LoopAction,
}

/// What a [`RealtimeClient`] holds.
pub struct ClientView {
    pub stage: Stage,
    pub session: SessionView,
}

/// What a [`ClientEvent`] holds.
pub enum ClientEventView {
    Started { now: u64 },
    TimedOut,
    Session { event: LoopEventView },
}

/// What a [`ClientAction`] holds.
pub struct ClientActionView {
    pub start_capture: bool,
    pub action: LoopActionView,
}

impl View for RealtimeClient {
    type V = ClientView;

    open spec fn view(&self) -> ClientView {
        ClientView { stage: self.stage, session: self.session@ }
    }
}

impl View for ClientEvent {
    type V = ClientEventView;

    open spec fn view(&self) -> ClientEventView {
        match *self {
            ClientEvent::Started { now } => ClientEventView::Started { now },
            ClientEvent::TimedOut => ClientEventView::TimedOut,
            ClientEvent::Session { event } => ClientEventView::Session { event: event@ },
        }
    }
}

impl View for ClientAction {
    type V = ClientActionView;

    open spec fn view(&self) -> ClientActionView {
        ClientActionView { start_capture: self.start_capture, action: self.action@ }
    }
}

/// The client before anything has happened.
pub open spec fn fresh_client() -> ClientView {
    ClientView { stage: Stage::AwaitingCreated, session: fresh_session(0) }
}

/// The client `c` at another stage.
pub open spec fn at_stage(c: ClientView, stage: Stage) -> ClientView {
    ClientView { stage, ..c }
}

/// The client action that does nothing.
pub open spec fn idle() -> ClientActionView {
    ClientActionView { start_capture: false, action: no_action() }
}

/// The message that sets the session up.
pub open spec fn update_message() -> OutgoingView {
    OutgoingView { text: session_update_text(), failure: "failed to send session.update"@ }
}

/// What the client does when a wait has come to its end: it sends the settings once the
/// session is created, and starts the microphone once they are taken.
pub open spec fn on_ready(c: ClientView) -> (ClientView, ClientActionView) {
    if c.stage == Stage::AwaitingCreated {
        (
            at_stage(c, Stage::AwaitingUpdated),
            ClientActionView {
                start_capture: false,
                action: LoopActionView { send: seq![update_message()], ..no_action() },
            },
        )
    } else {
        (
            at_stage(c, Stage::Starting),
            ClientActionView { start_capture: true, action: no_action() },
        )
    }
}

/// What is awaited at a stage of the set-up.
pub open spec fn awaited_phase(stage: Stage) -> Phase {
    if stage == Stage::AwaitingCreated {
        Phase::Created
    } else {
        Phase::Updated
    }
}

/// What an event does while the session is set up: a read is taken as a step of the wait, the
/// end of the time is an error, and anything else changes nothing.
pub open spec fn setup_effect(c: ClientView, event: ClientEventView) -> (
    ClientView,
    Result<ClientActionView, SessionErrorView>,
) {
    let phase = awaited_phase(c.stage);
    match event {
        ClientEventView::TimedOut => (
            at_stage(c, Stage::Over),
            Err(SessionErrorView::TimedOut { phase }),
        ),
        ClientEventView::Session { event } => match event {
            LoopEventView::Read { read } => match handshake_step(phase, read) {
                HandshakeStepView::Ready => (on_ready(c).0, Ok(on_ready(c).1)),
                HandshakeStepView::Wait => (c, Ok(idle())),
                HandshakeStepView::Failed { error } => (at_stage(c, Stage::Over), Err(error)),
            },
            _ => (c, Ok(idle())),
        },
        ClientEventView::Started { now } => (c, Ok(idle())),
    }
}

/// What an event does while the session runs.
pub open spec fn running_effect(c: ClientView, event: ClientEventView) -> (
    ClientView,
    Result<ClientActionView, SessionErrorView>,
) {
    match event {
        ClientEventView::Session { event } => match step_effect(c.session, event) {
            Ok((session, action)) => (
                ClientView {
                    stage: if action.stop {
                        Stage::Over
                    } else {
                        Stage::Running
                    },
                    session,
                },
                Ok(ClientActionView { start_capture: false, action }),
            ),
            Err(error) => (at_stage(c, Stage::Over), Err(error)),
        },
        _ => (c, Ok(idle())),
    }
}

/// What an event does to the client, and what is to be done or the error that ends it. An
/// event that has no place at the stage changes nothing.
pub open spec fn client_effect(c: ClientView, event: ClientEventView) -> (
    ClientView,
    Result<ClientActionView, SessionErrorView>,
) {
    match c.stage {
        Stage::AwaitingCreated => setup_effect(c, event),
        Stage::AwaitingUpdated => setup_effect(c, event),
        Stage::Starting => match event {
            ClientEventView::Started { now } => (
                ClientView { stage: Stage::Running, session: fresh_session(now) },
                Ok(idle()),
            ),
            _ => (c, Ok(idle())),
        },
        Stage::Running => running_effect(c, event),
        Stage::Over => (c, Ok(idle())),
    }
}

fn nothing() -> (r: ClientAction)
    ensures
        r@ == idle(),
{
    let r = ClientAction {
        start_capture: false,
        action: LoopAction {
            stop: false,
            send: Vec::new(),
            print: String::new(),
            reset_peak: false,
            look_at_timers: false,
        },
    };
    assert(r@.action =~= no_action());
    r
}

impl RealtimeClient {
    /// A client that has just connected.
    pub fn new() -> (r: RealtimeClient)
        ensures
            r@ == fresh_client(),
    {
        RealtimeClient { stage: Stage::AwaitingCreated, session: RealtimeSession::new(0) }
    }

    fn ready(&mut self) -> (r: ClientAction)
        ensures
            final(self)@ == on_ready(old(self)@).0,
            r@ == on_ready(old(self)@).1,
    {
        let mut r = nothing();
        match self.stage {
            Stage::AwaitingCreated => {
                let failure = "failed to send session.update".to_owned();
                r.action.send.push(Outgoing { text: session_update_message(), failure });
                self.stage = Stage::AwaitingUpdated;
                assert(r@.action =~= on_ready(old(self)@).1.action);
            },
            _ => {
                r.start_capture = true;
                self.stage = Stage::Starting;
            },
        }
        r
    }

    fn set_up(&mut self, event: ClientEvent) -> (r: Result<ClientAction, SessionError>)
        requires
            old(self).stage == Stage::AwaitingCreated || old(self).stage == Stage::AwaitingUpdated,
        ensures
            final(self)@ == setup_effect(old(self)@, event@).0,
            match setup_effect(old(self)@, event@).1 {
                Ok(action) => r matches Ok(a) && a@ == action,
                Err(error) => r matches Err(e) && e@ == error,
            },
    {
        let created = match self.stage {
            Stage::AwaitingCreated => true,
            _ => false,
        };
        match event {
            ClientEvent::TimedOut => {
                self.stage = Stage::Over;
                let phase = if created {
                    Phase::Created
                } else {
                    Phase::Updated
                };
                Err(SessionError::TimedOut { phase })
            },
            ClientEvent::Session { event } => match event {
                LoopEvent::Read { read } => {
                    let step = if created {
                        wait_for_session_created(read)
                    } else {
                        wait_for_session_updated(read)
                    };
                    match step {
                        HandshakeStep::Ready => Ok(self.ready()),
                        HandshakeStep::Wait => Ok(nothing()),
                        HandshakeStep::Failed { error } => {
                            self.stage = Stage::Over;
                            Err(error)
                        },
                    }
                },
                _ => Ok(nothing()),
            },
            ClientEvent::Started { now } => Ok(nothing()),
        }
    }

    fn proceed(&mut self, event: ClientEvent) -> (r: Result<ClientAction, SessionError>)
        requires
            old(self).stage == Stage::Running,
            event@ matches ClientEventView::Session { event } ==> sendable(event),
        ensures
            final(self)@ == running_effect(old(self)@, event@).0,
            match running_effect(old(self)@, event@).1 {
                Ok(action) => r matches Ok(a) && a@ == action,
                Err(error) => r matches Err(e) && e@ == error,
            },
    {
        match event {
            ClientEvent::Session { event } => match self.session.step(event) {
                Ok(action) => {
                    if action.stop {
                        self.stage = Stage::Over;
                    }
                    Ok(ClientAction { start_capture: false, action })
                },
                Err(error) => {
                    self.stage = Stage::Over;
                    Err(error)
                },
            },
            _ => Ok(nothing()),
        }
    }

    /// Takes an event and says what to do. An error ends the session.
    pub fn step(&mut self, event: ClientEvent) -> (r: Result<ClientAction, SessionError>)
        requires
            event@ matches ClientEventView::Session { event } ==> sendable(event),
        ensures
            final(self)@ == client_effect(old(self)@, event@).0,
            match client_effect(old(self)@, event@).1 {
                Ok(action) => r matches Ok(a) && a@ == action,
                Err(error) => r matches Err(e) && e@ == error,
            },
    {
        match self.stage {
            Stage::AwaitingCreated => self.set_up(event),
            Stage::AwaitingUpdated => self.set_up(event),
            Stage::Starting => {
                match event {
                    ClientEvent::Started { now } => {
                        self.session = RealtimeSession::new(now);
                        self.stage = Stage::Running;
                    },
                    _ => {},
                }
                Ok(nothing())
            },
            Stage::Running => self.proceed(event),
            Stage::Over => Ok(nothing()),
        }
    }
}

} // verus!
