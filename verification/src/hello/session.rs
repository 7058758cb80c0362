//! When the application draws: the session's life, and the thread that waits for
//! frames.
use crate::xr::XrErr;
use vstd::prelude::*;

verus! {

/// The session can be begun.
pub const STATE_READY: i32 = 2;

/// The session has to be ended.
pub const STATE_STOPPING: i32 = 6;

/// The application has to leave.
pub const STATE_EXITING: i32 = 8;

/// How long to wait for events while nothing is drawn, in milliseconds.
pub const IDLE_WAIT_MS: u64 = 100;

/// State of the session, with the frame waiter `W` where it is at hand.
#[derive(Debug)]
pub enum SessionState<W> {
    /// Frames are waited for, by a thread that has the frame waiter.
    Running,
    /// The session was ended; the frame waiter is on its way back.
    StopWaitting,
    /// As before, but the session was begun again meanwhile.
    StartWaitting,
    /// The session is not running.
    Idle(W),
    /// Nothing more can be done.
    Invalid,
}

/// How a session is stopped.
#[derive(Debug, Eq, PartialEq, Clone, Copy, Structural)]
pub enum StopStep {
    /// End the session, then wait for the waiting thread to finish.
    EndAndJoin,
    /// There is nothing to end: frames were not waited for yet.
    CancelStart,
    /// The session was stopped already.
    AlreadyStopped,
}

/// A session that is started: its new state, and the frame waiter that a thread
/// has to be started with.
pub open spec fn started<W>(state: SessionState<W>) -> (SessionState<W>, Option<W>) {
    match state {
        SessionState::StopWaitting => (SessionState::StartWaitting, None),
        SessionState::Idle(waiter) => (SessionState::Running, Some(waiter)),
        _ => (SessionState::Invalid, None),
    }
}

/// A session that is stopped.
pub open spec fn stopped<W>(state: SessionState<W>) -> (SessionState<W>, StopStep) {
    match state {
        SessionState::Running => (SessionState::StopWaitting, StopStep::EndAndJoin),
        SessionState::StartWaitting => (SessionState::StopWaitting, StopStep::CancelStart),
        _ => (SessionState::Invalid, StopStep::AlreadyStopped),
    }
}

/// A session that gets its frame waiter back.
pub open spec fn waiter_returned<W>(state: SessionState<W>, waiter: W) -> (
    SessionState<W>,
    Option<W>,
) {
    match state {
        SessionState::StartWaitting => (SessionState::Running, Some(waiter)),
        SessionState::StopWaitting => (SessionState::Idle(waiter), None),
        _ => (SessionState::Invalid, None),
    }
}

impl<W> SessionState<W> {
    /// The session is not running, and was not begun again.
    pub open spec fn is_down(self) -> bool {
        self is Idle || self is StopWaitting
    }

    /// The session is running, or will once the frame waiter is back.
    pub open spec fn is_up(self) -> bool {
        self is Running || self is StartWaitting
    }

    /// The frame waiter is on its way back.
    pub open spec fn awaits_waiter(self) -> bool {
        self is StopWaitting || self is StartWaitting
    }

    /// Starts the session. Where a frame waiter comes back, a thread has to be
    /// started with it.
    pub fn start(&mut self) -> (waiter: Option<W>)
        requires
            old(self).is_down(),
        ensures
            *final(self) == started(*old(self)).0,
            waiter == started(*old(self)).1,
    {
        let mut this = SessionState::Running;
        std::mem::swap(self, &mut this);
        match this {
            SessionState::StopWaitting => {
                *self = SessionState::StartWaitting;
                None
            },
            SessionState::Idle(waiter) => Some(waiter),
            _ => None,
        }
    }

    /// Stops the session. One that was stopped already cannot be used any more.
    pub fn stop(&mut self) -> (step: StopStep)
        requires
            !(*old(self) is Invalid),
        ensures
            *final(self) == stopped(*old(self)).0,
            step == stopped(*old(self)).1,
    {
        let mut this = SessionState::Invalid;
        std::mem::swap(self, &mut this);
        match this {
            SessionState::Running => {
                *self = SessionState::StopWaitting;
                StopStep::EndAndJoin
            },
            SessionState::StartWaitting => {
                *self = SessionState::StopWaitting;
                StopStep::CancelStart
            },
            _ => StopStep::AlreadyStopped,
        }
    }

    /// Stops a session that is up.
    pub fn ensure_stop(&mut self) -> (step: StopStep)
        requires
            old(self).is_up(),
        ensures
            *final(self) is StopWaitting,
            step == stopped(*old(self)).1,
            step != StopStep::AlreadyStopped,
    {
        self.stop()
    }

    /// Whether the session was stopped.
    pub fn is_stopped(&self) -> (yes: bool)
        requires
            !(self is Invalid),
        ensures
            yes == self.is_down(),
    {
        match self {
            SessionState::Idle(_) => true,
            SessionState::StopWaitting => true,
            _ => false,
        }
    }

    /// Takes the frame waiter back. Where it is handed out again, a thread has
    /// to be started with it.
    pub fn put_frame_waiter(&mut self, waiter: W) -> (again: Option<W>)
        requires
            old(self).awaits_waiter(),
        ensures
            *final(self) == waiter_returned(*old(self), waiter).0,
            again == waiter_returned(*old(self), waiter).1,
    {
        let start = match self {
            SessionState::StartWaitting => true,
            _ => false,
        };
        *self = SessionState::Idle(waiter);
        if start {
            self.start()
        } else {
            None
        }
    }

    /// How long to wait for events at most, in milliseconds.
    pub fn wait_time(&self) -> (ms: Option<u64>)
        requires
            !(self is Invalid),
        ensures
            ms == (if self is Idle {
                Some(IDLE_WAIT_MS)
            } else {
                None
            }),
    {
        match self {
            SessionState::Idle(_) => Some(IDLE_WAIT_MS),
            _ => None,
        }
    }
}

/// A frame that the runtime wants.
#[derive(Debug, Eq, PartialEq, Clone, Copy, Structural)]
pub struct FrameState {
    pub predicted_display_time: i64,
    pub should_render: bool,
}

/// What the thread that waits for frames does after a wait.
#[derive(Debug, Eq, PartialEq, Clone, Copy, Structural)]
pub enum WaiterStep {
    /// Tell the application of the frame, and wait for the next one.
    Announce(FrameState),
    /// Give the frame waiter back.
    Exit,
}

/// What the thread that waits for frames does after a wait: any error ends it.
pub fn after_wait(outcome: Result<FrameState, XrErr>) -> (step: WaiterStep)
    ensures
        step == (match outcome {
            Ok(state) => WaiterStep::Announce(state),
            Err(_) => WaiterStep::Exit,
        }),
{
    match outcome {
        Ok(state) => WaiterStep::Announce(state),
        Err(_) => WaiterStep::Exit,
    }
}

/// What the thread that waits for frames tells the application.
#[derive(Debug)]
pub enum AppMessage<W> {
    Frame(FrameState),
    WaiterExited(W),
}

/// What a message asks for.
#[derive(Debug)]
pub enum MessageStep<W> {
    Nothing,
    /// Begin and end a frame that shows nothing.
    SkipFrame(FrameState),
    RenderFrame(FrameState),
    /// Start a thread with the frame waiter if there is one, then leave if asked
    /// to.
    WaiterBack { again: Option<W>, exit: bool },
}

/// An event of the runtime.
#[derive(Debug, Eq, PartialEq, Clone, Copy, Structural)]
pub enum XrEvent {
    SessionStateChanged(i32),
    Other,
}

/// What an event asks for.
#[derive(Debug, Eq, PartialEq, Clone, Copy, Structural)]
pub enum EventStep {
    /// Begin the session; if that works, the session is started.
    Begin,
    /// Look at no more events for now.
    Break,
    Stop(StopStep),
    Nothing,
}

/// The application's course.
#[derive(Debug)]
pub struct App<W> {
    /// The application leaves once the frame waiter is back.
    pub exiting: bool,
    pub state: SessionState<W>,
}

/// What a message asks for.
pub open spec fn message_step<W>(app: App<W>, message: AppMessage<W>) -> (App<W>, MessageStep<W>) {
    match message {
        AppMessage::Frame(frame) => (
            app,
            if app.state.is_down() {
                MessageStep::Nothing
            } else if frame.should_render {
                MessageStep::RenderFrame(frame)
            } else {
                MessageStep::SkipFrame(frame)
            },
        ),
        AppMessage::WaiterExited(waiter) => {
            let (state, again) = waiter_returned(app.state, waiter);
            (
                App { exiting: app.exiting, state },
                MessageStep::WaiterBack { again, exit: app.exiting },
            )
        },
    }
}

/// What an event asks for.
pub open spec fn event_step<W>(app: App<W>, event: XrEvent) -> (App<W>, EventStep) {
    match event {
        XrEvent::SessionStateChanged(s) => if s == STATE_READY {
            (app, EventStep::Begin)
        } else if s == STATE_EXITING {
            (App { exiting: true, state: app.state }, EventStep::Break)
        } else if s == STATE_STOPPING {
            (
                App { exiting: app.exiting, state: SessionState::StopWaitting },
                EventStep::Stop(stopped(app.state).1),
            )
        } else {
            (app, EventStep::Nothing)
        },
        XrEvent::Other => (app, EventStep::Nothing),
    }
}

impl<W> App<W> {
    /// Messages come only from a thread that has the frame waiter.
    pub open spec fn takes_message(self, message: AppMessage<W>) -> bool {
        match message {
            AppMessage::Frame(_) => !(self.state is Invalid),
            AppMessage::WaiterExited(_) => self.state.awaits_waiter(),
        }
    }

    /// Only a session that is up can be stopped by the runtime.
    pub open spec fn takes_event(self, event: XrEvent) -> bool {
        event == XrEvent::SessionStateChanged(STATE_STOPPING) ==> self.state.is_up()
    }

    /// An application whose session is not running yet.
    pub fn new(waiter: W) -> (app: Self)
        ensures
            app == (App { exiting: false, state: SessionState::Idle(waiter) }),
    {
        App { exiting: false, state: SessionState::Idle(waiter) }
    }

    /// Takes a message. Frames of a session that was stopped are left out.
    pub fn user_event(&mut self, message: AppMessage<W>) -> (step: MessageStep<W>)
        requires
            old(self).takes_message(message),
        ensures
            *final(self) == message_step(*old(self), message).0,
            step == message_step(*old(self), message).1,
    {
        match message {
            AppMessage::Frame(frame) => {
                if self.state.is_stopped() {
                    MessageStep::Nothing
                } else if frame.should_render {
                    MessageStep::RenderFrame(frame)
                } else {
                    MessageStep::SkipFrame(frame)
                }
            },
            AppMessage::WaiterExited(waiter) => {
                let again = self.state.put_frame_waiter(waiter);
                MessageStep::WaiterBack { again, exit: self.exiting }
            },
        }
    }

    /// Takes an event of the runtime.
    pub fn xr_event(&mut self, event: XrEvent) -> (step: EventStep)
        requires
            old(self).takes_event(event),
        ensures
            *final(self) == event_step(*old(self), event).0,
            step == event_step(*old(self), event).1,
    {
        match event {
            XrEvent::SessionStateChanged(s) => {
                if s == STATE_READY {
                    EventStep::Begin
                } else if s == STATE_EXITING {
                    self.exiting = true;
                    EventStep::Break
                } else if s == STATE_STOPPING {
                    EventStep::Stop(self.state.ensure_stop())
                } else {
                    EventStep::Nothing
                }
            },
            XrEvent::Other => EventStep::Nothing,
        }
    }
}

/// Starting, stopping and getting the frame waiter back leads to where it began.
pub proof fn stopping_undoes_starting<W>(waiter: W)
    ensures
        ({
            let (up, handed_out) = started(SessionState::Idle(waiter));
            let (down, step) = stopped(up);
            &&& handed_out == Some(waiter)
            &&& step == StopStep::EndAndJoin
            &&& waiter_returned(down, waiter) == (SessionState::Idle(waiter), None::<W>)
        }),
{
}

/// A session that is begun again before the frame waiter is back starts as soon
/// as it is, just as if it had been begun afterwards.
pub proof fn early_start_is_made_up_for<W>(waiter: W)
    ensures
        waiter_returned(started(SessionState::<W>::StopWaitting).0, waiter) == started(
            waiter_returned(SessionState::StopWaitting, waiter).0,
        ),
{
}

/// A start that is still to come is cancelled by a stop.
pub proof fn stop_cancels_a_pending_start<W>()
    ensures
        stopped(started(SessionState::<W>::StopWaitting).0) == (
            SessionState::<W>::StopWaitting,
            StopStep::CancelStart,
        ),
{
}

/// The frame waiter is in one place: a session that is started hands out the one
/// it had or had none, and one that gets it back keeps it or hands it out.
pub proof fn the_waiter_is_never_lost<W>(state: SessionState<W>, waiter: W)
    ensures
        state.is_down() ==> (match state {
            SessionState::Idle(w) => started(state).1 == Some(w),
            _ => started(state).1 is None,
        }) && !(started(state).0 is Idle),
        state.awaits_waiter() ==> (waiter_returned(state, waiter).1 == Some(waiter) <==> !(
        waiter_returned(state, waiter).0 == SessionState::Idle(waiter))),
{
}

/// The session keeps going as long as it is used as it should be: neither a
/// message nor an event makes it unusable.
pub proof fn session_stays_usable<W>(app: App<W>, message: AppMessage<W>, event: XrEvent)
    requires
        !(app.state is Invalid),
    ensures
        app.takes_message(message) ==> !(message_step(app, message).0.state is Invalid),
        app.takes_event(event) ==> !(event_step(app, event).0.state is Invalid),
{
}

/// No frame is drawn once the session was stopped.
pub proof fn stopped_session_draws_nothing<W>(app: App<W>, frame: FrameState)
    requires
        app.state.is_up(),
    ensures
        ({
            let down = App { exiting: app.exiting, state: stopped(app.state).0 };
            message_step(down, AppMessage::Frame(frame)) == (down, MessageStep::<W>::Nothing)
        }),
{
}

/// The application leaves when the frame waiter comes back after the runtime
/// asked it to, and not before.
pub proof fn application_leaves_with_the_waiter<W>(app: App<W>, waiter: W)
    requires
        app.state.awaits_waiter(),
    ensures
        ({
            let told = event_step(app, XrEvent::SessionStateChanged(STATE_EXITING)).0;
            message_step(told, AppMessage::WaiterExited(waiter)).1 matches MessageStep::WaiterBack {
                exit,
                ..
            } && exit
        }),
        message_step(app, AppMessage::WaiterExited(waiter)).1 matches MessageStep::WaiterBack {
            exit,
            ..
        } && exit == app.exiting,
{
}

/// The runtime's states have OpenXR's numbers: at 2 the session is begun, at 6 it is
/// stopped, and at 8 the application is to leave and looks at no more events. All
/// other states, and all other events, change nothing.
pub proof fn events_go_by_openxrs_numbers<W>(app: App<W>, number: i32)
    ensures
        event_step(app, XrEvent::SessionStateChanged(2)) == (app, EventStep::Begin),
        event_step(app, XrEvent::SessionStateChanged(8)) == (
            App { exiting: true, state: app.state },
            EventStep::Break,
        ),
        app.state is Running ==> event_step(app, XrEvent::SessionStateChanged(6)) == (
            App { exiting: app.exiting, state: SessionState::<W>::StopWaitting },
            EventStep::Stop(StopStep::EndAndJoin),
        ),
        app.state is StartWaitting ==> event_step(app, XrEvent::SessionStateChanged(6)) == (
            App { exiting: app.exiting, state: SessionState::<W>::StopWaitting },
            EventStep::Stop(StopStep::CancelStart),
        ),
        number != 2 && number != 6 && number != 8 ==> event_step(
            app,
            XrEvent::SessionStateChanged(number),
        ) == (app, EventStep::Nothing),
        event_step(app, XrEvent::Other) == (app, EventStep::Nothing),
{
}

/// While the session is up, each frame that the runtime wants is drawn if it is to
/// be seen, and skipped otherwise. Frames change nothing about the session.
pub proof fn wanted_frames_are_drawn<W>(app: App<W>, frame: FrameState)
    ensures
        ({
            let (after, step) = message_step(app, AppMessage::Frame(frame));
            &&& after == app
            &&& app.state is Running || app.state is StartWaitting ==> step == (
            if frame.should_render {
                MessageStep::<W>::RenderFrame(frame)
            } else {
                MessageStep::SkipFrame(frame)
            })
            &&& app.state is Idle || app.state is StopWaitting ==> step is Nothing
        }),
{
}

/// The frame waiter that comes back is kept where the session was stopped, and handed
/// out again where it was begun meanwhile. Whether the application leaves does not
/// depend on that.
pub proof fn waiter_is_kept_or_handed_out<W>(exiting: bool, waiter: W)
    ensures
        message_step(
            App { exiting, state: SessionState::StopWaitting },
            AppMessage::WaiterExited(waiter),
        ) == (
            App { exiting, state: SessionState::Idle(waiter) },
            MessageStep::WaiterBack { again: None::<W>, exit: exiting },
        ),
        message_step(
            App { exiting, state: SessionState::StartWaitting },
            AppMessage::WaiterExited(waiter),
        ) == (
            App { exiting, state: SessionState::<W>::Running },
            MessageStep::WaiterBack { again: Some(waiter), exit: exiting },
        ),
{
}

/// An idle session starts with its waiter at once; one whose waiter is not back yet
/// starts when it is. One that runs is ended when it is stopped.
pub proof fn sessions_start_and_stop<W>(waiter: W)
    ensures
        started(SessionState::Idle(waiter)) == (SessionState::<W>::Running, Some(waiter)),
        started(SessionState::<W>::StopWaitting) == (SessionState::<W>::StartWaitting, None::<W>),
        stopped(SessionState::<W>::Running) == (
            SessionState::<W>::StopWaitting,
            StopStep::EndAndJoin,
        ),
        stopped(SessionState::Idle(waiter)).1 == StopStep::AlreadyStopped,
        stopped(SessionState::<W>::StopWaitting).1 == StopStep::AlreadyStopped,
{
}

} // verus!
