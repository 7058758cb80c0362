//! OpenXR result codes.
use vstd::prelude::*;

verus! {

/// The call succeeded.
pub const SUCCESS: i32 = 0;

/// The caller broke a rule of OpenXR.
pub const ERROR_VALIDATION_FAILURE: i32 = -1;

/// Something went wrong inside of the runtime or a layer.
pub const ERROR_RUNTIME_FAILURE: i32 = -2;

/// The session is running, and must not be for this call.
pub const ERROR_SESSION_RUNNING: i32 = -14;

/// The session is not running, and must be for this call.
pub const ERROR_SESSION_NOT_RUNNING: i32 = -16;

/// The numbers are OpenXR's: success is zero, failures are negative.
pub proof fn result_codes_are_openxrs()
    ensures
        SUCCESS == 0,
        ERROR_VALIDATION_FAILURE == -1,
        ERROR_RUNTIME_FAILURE == -2,
        ERROR_SESSION_RUNNING == -14,
        ERROR_SESSION_NOT_RUNNING == -16,
{
}

/// An OpenXR result, by its number: zero for plain success, negative numbers
/// for failures, positive ones for success with something to add.
#[derive(Debug, Eq, PartialEq, Clone, Copy, Structural)]
pub struct XrErr {
    pub code: i32,
}

/// An OpenXR failure, and what was being done when it came.
#[derive(Debug)]
pub struct XrFailure {
    pub error: XrErr,
    pub context: String,
}

/// Turns an OpenXR result into a Rust result that says what was being done.
pub trait XrContext: Sized {
    /// The result that is looked at.
    spec fn result(&self) -> XrErr;

    /// Fails with `ctx` unless the result is plain success.
    fn context(self, ctx: String) -> (outcome: Result<(), XrFailure>)
        ensures
            outcome is Ok <==> self.result().code == SUCCESS,
            outcome matches Err(failure) ==> failure.error == self.result() && failure.context
                == ctx,
    ;

    /// Fails with what `f` makes of the result unless it is plain success. On
    /// success `f` is not called.
    fn with_context<F: FnOnce(&Self) -> String>(self, f: F) -> (outcome: Result<(), XrFailure>)
        requires
            self.result().code != SUCCESS ==> call_requires(f, (&self,)),
        ensures
            outcome is Ok <==> self.result().code == SUCCESS,
            outcome matches Err(failure) ==> failure.error == self.result() && call_ensures(
                f,
                (&self,),
                failure.context,
            ),
    ;
}

impl XrContext for XrErr {
    open spec fn result(&self) -> XrErr {
        *self
    }

    fn context(self, ctx: String) -> (outcome: Result<(), XrFailure>) {
        if self.code == SUCCESS {
            Ok(())
        } else {
            Err(XrFailure { error: self, context: ctx })
        }
    }

    fn with_context<F: FnOnce(&Self) -> String>(self, f: F) -> (outcome: Result<(), XrFailure>) {
        if self.code == SUCCESS {
            Ok(())
        } else {
            let context = f(&self);
            Err(XrFailure { error: self, context })
        }
    }
}

} // verus!
