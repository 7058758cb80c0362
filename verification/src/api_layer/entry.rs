//! The OpenXR calls that the layer intercepts, apart from the end of a frame.
use crate::api_layer::session::{BeginReplies, SessionData, SessionDataInner, SessionState};
use crate::xr::{XrErr, ERROR_SESSION_NOT_RUNNING, ERROR_SESSION_RUNNING, SUCCESS};
use vstd::prelude::*;

verus! {

use crate::api_layer::session::{attach_result, begin_result, usable_views};

/// What to do with a call on a session.
#[derive(Debug, Eq, PartialEq, Clone, Copy, Structural)]
pub enum SessionCall {
    /// The layer does not wrap the session: hand the call to the runtime, and
    /// its answer to the application.
    Forward,
    /// Answer the application with this, and do nothing.
    Refuse(XrErr),
    /// Make the call, and tell the session how it went.
    Proceed,
}

/// What to do next at the start of a frame.
#[derive(Debug, Eq, PartialEq, Clone, Copy, Structural)]
pub enum FrameCall {
    /// Answer the application.
    Return(XrErr),
    /// Acquire an image of our swapchain.
    AcquireImage,
    /// Wait, as long as it takes, until the acquired image is ready.
    WaitImage,
}

/// What the runtime answers at the start of a frame.
#[derive(Debug, Clone, Copy)]
pub struct BeginFrameReplies {
    /// Answer to the application's own call.
    pub begun: XrErr,
    /// The image that was acquired.
    pub acquired: Result<u32, XrErr>,
    /// Whether the image is ready.
    pub ready: Result<(), XrErr>,
}

/// The number that the application is given for a result.
pub open spec fn answer(result: Result<(), XrErr>) -> XrErr {
    match result {
        Ok(()) => XrErr { code: SUCCESS },
        Err(e) => e,
    }
}

/// The number that the application is given for a result.
pub fn to_answer(result: Result<(), XrErr>) -> (code: XrErr)
    ensures
        code == answer(result),
{
    match result {
        Ok(()) => XrErr { code: SUCCESS },
        Err(e) => e,
    }
}

/// What a call that starts a session is met with.
pub open spec fn begin_session_call(session: Option<SessionState>) -> SessionCall {
    match session {
        None => SessionCall::Forward,
        Some(SessionState::Running { .. }) => SessionCall::Refuse(
            XrErr { code: ERROR_SESSION_RUNNING },
        ),
        Some(SessionState::Idle { .. }) => SessionCall::Proceed,
    }
}

/// What a call that stops a session is met with.
pub open spec fn end_session_call(session: Option<SessionState>) -> SessionCall {
    match session {
        None => SessionCall::Forward,
        Some(SessionState::Running { .. }) => SessionCall::Proceed,
        Some(SessionState::Idle { .. }) => SessionCall::Refuse(
            XrErr { code: ERROR_SESSION_NOT_RUNNING },
        ),
    }
}

/// The state and the answer after the application begins a wrapped session.
pub open spec fn begin_session_result(
    state: SessionState,
    view_type: i32,
    runtime: Result<(), XrErr>,
    replies: BeginReplies,
) -> (SessionState, XrErr) {
    if state is Running {
        (state, XrErr { code: ERROR_SESSION_RUNNING })
    } else if runtime is Err {
        (state, runtime->Err_0)
    } else {
        match begin_result(state, view_type, replies) {
            Ok(begun) => (begun, XrErr { code: SUCCESS }),
            Err(e) => (state, e),
        }
    }
}

/// The state and the answer after the application ends a wrapped session.
pub open spec fn end_session_result(state: SessionState, runtime: Result<(), XrErr>) -> (
    SessionState,
    XrErr,
) {
    if state is Idle {
        (state, XrErr { code: ERROR_SESSION_NOT_RUNNING })
    } else if runtime is Err {
        (state, runtime->Err_0)
    } else {
        (state.ended(), XrErr { code: SUCCESS })
    }
}

/// The state and the answer after the start of a frame.
///
/// The runtime is asked first, and its answer stands unless it is plain
/// success. An image that is still at hand is used again. An image that was
/// acquired is kept even if waiting for it fails.
pub open spec fn begin_frame_result(
    session: Option<SessionState>,
    replies: BeginFrameReplies,
) -> (Option<SessionState>, XrErr) {
    if replies.begun.code != SUCCESS {
        (session, replies.begun)
    } else {
        match session {
            None => (session, XrErr { code: SUCCESS }),
            Some(SessionState::Idle { .. }) => (
                session,
                XrErr { code: ERROR_SESSION_NOT_RUNNING },
            ),
            Some(SessionState::Running { view_type, passthrough, size, image_index }) => if image_index is Some {
                (session, XrErr { code: SUCCESS })
            } else {
                match replies.acquired {
                    Err(e) => (session, e),
                    Ok(index) => (
                        Some(
                            SessionState::Running {
                                view_type,
                                passthrough,
                                size,
                                image_index: Some(index),
                            },
                        ),
                        answer(replies.ready),
                    ),
                }
            },
        }
    }
}

impl SessionData {
    /// What to do when the application begins the session.
    pub fn begin_session_plan(&self) -> (call: SessionCall)
        ensures
            call == begin_session_call(self.session()),
    {
        match &self.inner {
            None => SessionCall::Forward,
            Some(inner) => {
                if inner.is_running() {
                    SessionCall::Refuse(XrErr { code: ERROR_SESSION_RUNNING })
                } else {
                    SessionCall::Proceed
                }
            },
        }
    }

    /// Begins a wrapped session for the application. `runtime` is the runtime's
    /// answer to the call itself, which is made before anything else: if it
    /// fails the session is not running, and nothing has to be undone.
    pub fn begin_session(
        &mut self,
        view_type: i32,
        runtime: Result<(), XrErr>,
        replies: BeginReplies,
    ) -> (code: XrErr)
        requires
            old(self).inner is Some,
            old(self).valid(),
            old(self).session() matches Some(SessionState::Idle { .. }) ==> (runtime is Ok ==> (
            replies.views matches Ok(v) ==> usable_views(v@))),
        ensures
            final(self).valid(),
            final(self).inner is Some,
            final(self).inner->Some_0.system_id == old(self).inner->Some_0.system_id,
            (final(self).session()->Some_0, code) == begin_session_result(
                old(self).session()->Some_0,
                view_type,
                runtime,
                replies,
            ),
    {
        let plan = self.begin_session_plan();
        if let SessionCall::Refuse(e) = plan {
            return e;
        }
        if let Err(e) = runtime {
            return e;
        }
        let mut inner = self.inner.unwrap();
        let result = inner.begin(view_type, replies);
        self.inner = Some(inner);
        to_answer(result)
    }

    /// What to do when the application ends the session.
    pub fn end_session_plan(&self) -> (call: SessionCall)
        ensures
            call == end_session_call(self.session()),
    {
        match &self.inner {
            None => SessionCall::Forward,
            Some(inner) => {
                if inner.is_running() {
                    SessionCall::Proceed
                } else {
                    SessionCall::Refuse(XrErr { code: ERROR_SESSION_NOT_RUNNING })
                }
            },
        }
    }

    /// Ends a wrapped session for the application. `runtime` is the runtime's
    /// answer to the call itself: if it fails the session goes on.
    pub fn end_session(&mut self, runtime: Result<(), XrErr>) -> (code: XrErr)
        requires
            old(self).inner is Some,
            old(self).valid(),
        ensures
            final(self).valid(),
            final(self).inner is Some,
            final(self).inner->Some_0.system_id == old(self).inner->Some_0.system_id,
            (final(self).session()->Some_0, code) == end_session_result(
                old(self).session()->Some_0,
                runtime,
            ),
    {
        let plan = self.end_session_plan();
        if let SessionCall::Refuse(e) = plan {
            return e;
        }
        if let Err(e) = runtime {
            return e;
        }
        let mut inner = self.inner.unwrap();
        inner.end();
        self.inner = Some(inner);
        XrErr { code: SUCCESS }
    }

    /// Goes on at the start of a frame with the runtime's answer to the
    /// application's call.
    pub fn frame_begun(&self, begun: XrErr) -> (call: FrameCall)
        ensures
            call == (if begun.code != SUCCESS {
                FrameCall::Return(begun)
            } else {
                match self.session() {
                    None => FrameCall::Return(XrErr { code: SUCCESS }),
                    Some(SessionState::Idle { .. }) => FrameCall::Return(
                        XrErr { code: ERROR_SESSION_NOT_RUNNING },
                    ),
                    Some(SessionState::Running { image_index, .. }) => if image_index is Some {
                        FrameCall::Return(XrErr { code: SUCCESS })
                    } else {
                        FrameCall::AcquireImage
                    },
                }
            }),
    {
        if begun.code != SUCCESS {
            return FrameCall::Return(begun);
        }
        match &self.inner {
            None => FrameCall::Return(XrErr { code: SUCCESS }),
            Some(inner) => match inner.state {
                SessionState::Idle { .. } => FrameCall::Return(
                    XrErr { code: ERROR_SESSION_NOT_RUNNING },
                ),
                SessionState::Running { image_index, .. } => {
                    if image_index.is_some() {
                        FrameCall::Return(XrErr { code: SUCCESS })
                    } else {
                        FrameCall::AcquireImage
                    }
                },
            },
        }
    }

    /// Goes on at the start of a frame with the image that was acquired.
    pub fn image_acquired(&mut self, acquired: Result<u32, XrErr>) -> (call: FrameCall)
        requires
            old(self).valid(),
            old(self).session() matches Some(SessionState::Running { .. }),
        ensures
            final(self).valid(),
            final(self).inner is Some,
            final(self).inner->Some_0.system_id == old(self).inner->Some_0.system_id,
            match acquired {
                Err(e) => call == FrameCall::Return(e) && *final(self) == *old(self),
                Ok(index) => {
                    &&& call == FrameCall::WaitImage
                    &&& old(self).session() matches Some(
                        SessionState::Running { view_type, passthrough, size, .. },
                    )
                    &&& final(self).session() == Some(
                        SessionState::Running {
                            view_type,
                            passthrough,
                            size,
                            image_index: Some(index),
                        },
                    )
                },
            },
    {
        let index: u32 = match acquired {
            Ok(index) => index,
            Err(e) => return FrameCall::Return(e),
        };
        let mut inner = self.inner.unwrap();
        if let SessionState::Running { view_type, passthrough, size, .. } = inner.state {
            inner.state =
            SessionState::Running { view_type, passthrough, size, image_index: Some(index) };
        }
        self.inner = Some(inner);
        FrameCall::WaitImage
    }

    /// The start of a frame, given all that the runtime answers.
    pub fn begin_frame(&mut self, replies: BeginFrameReplies) -> (code: XrErr)
        requires
            old(self).valid(),
        ensures
            final(self).valid(),
            (final(self).session(), code) == begin_frame_result(old(self).session(), replies),
            final(self).inner matches Some(inner) ==> inner.system_id
                == old(self).inner->Some_0.system_id,
    {
        if let FrameCall::Return(code) = self.frame_begun(replies.begun) {
            return code;
        }
        if let FrameCall::Return(code) = self.image_acquired(replies.acquired) {
            return code;
        }
        to_answer(replies.ready)
    }

    /// Returns the passthrough object if one is already attached. Otherwise try
    /// to attach `fresh`. Returns `Ok(None)` if the current session is not
    /// supported.
    pub fn maybe_get_or_add_passthrough(&mut self, fresh: u64, camera: Result<(), XrErr>) -> (result:
        Result<Option<u64>, XrErr>)
        requires
            old(self).valid(),
        ensures
            final(self).valid(),
            match old(self).inner {
                None => final(self).inner is None && result == Ok::<Option<u64>, XrErr>(None),
                Some(before) => {
                    let (state, attached) = attach_result(before.state, fresh, camera);
                    &&& final(self).inner == Some(
                        SessionDataInner { state, system_id: before.system_id },
                    )
                    &&& result == (match attached {
                        Ok(id) => Ok::<Option<u64>, XrErr>(Some(id)),
                        Err(e) => Err(e),
                    })
                },
            },
    {
        let mut inner = match self.inner {
            Some(inner) => inner,
            None => return Ok(None),
        };
        let result = inner.get_or_add_passthrough(fresh, camera);
        self.inner = Some(inner);
        match result {
            Ok(id) => Ok(Some(id)),
            Err(e) => Err(e),
        }
    }
}

} // verus!
