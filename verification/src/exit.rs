//! Exit codes, and the values that a root system may return.
use vstd::prelude::*;

use crate::error::{GenericError, IntoGenericError};
#[allow(unused_imports)]
use crate::error::GenericErrorView;

verus! {

/// The status that a process exits with.
#[derive(Clone, Copy, Debug, PartialEq, Eq, Structural)]
pub struct ExitCode {
    pub code: u8,
}

impl ExitCode {
    /// The code of a successful run.
    pub open spec fn spec_success() -> ExitCode {
        ExitCode { code: 0 }
    }

    /// The code of a failed run.
    pub open spec fn spec_failure() -> ExitCode {
        ExitCode { code: 1 }
    }

    /// The code of a successful run.
    #[verifier::when_used_as_spec(spec_success)]
    pub fn success() -> (code: ExitCode)
        ensures
            code == ExitCode::spec_success(),
    {
        ExitCode { code: 0 }
    }

    /// The code of a failed run.
    #[verifier::when_used_as_spec(spec_failure)]
    pub fn failure() -> (code: ExitCode)
        ensures
            code == ExitCode::spec_failure(),
    {
        ExitCode { code: 1 }
    }
}

impl From<u8> for ExitCode {
    fn from(code: u8) -> (exit_code: ExitCode) {
        ExitCode { code }
    }
}

impl vstd::std_specs::convert::FromSpecImpl<u8> for ExitCode {
    open spec fn obeys_from_spec() -> bool {
        true
    }

    open spec fn from_spec(code: u8) -> ExitCode {
        ExitCode { code }
    }
}

/// A value that stands for an exit code.
pub trait IntoExitCode: Sized {
    /// The exit code that the value stands for.
    spec fn exit_code(self) -> ExitCode;

    /// Turns the value into an exit code.
    fn into_exit_code(self) -> (code: ExitCode)
        ensures
            code == self.exit_code(),
    ;
}

impl IntoExitCode for ExitCode {
    open spec fn exit_code(self) -> ExitCode {
        self
    }

    fn into_exit_code(self) -> (code: ExitCode) {
        self
    }
}

impl IntoExitCode for () {
    open spec fn exit_code(self) -> ExitCode {
        ExitCode::success()
    }

    fn into_exit_code(self) -> (code: ExitCode) {
        ExitCode::success()
    }
}

/// The error of what cannot fail: there is no value of this type.
pub struct Infallible {
    never: bool,
}

impl Infallible {
    #[verifier::type_invariant]
    spec fn uninhabited(self) -> bool {
        self.never && !self.never
    }
}

impl IntoGenericError for Infallible {
    open spec fn generic_error(self) -> GenericErrorView {
        arbitrary()
    }

    fn into_generic_error(self) -> (error: GenericError) {
        proof {
            use_type_invariant(&self);
        }
        vstd::pervasive::unreached()
    }
}

/// A value that a root system may return.
pub trait IntoExitCodeResult: Sized {
    /// What stands for the exit code on success.
    type Output: IntoExitCode;

    /// The error on failure.
    type E: IntoGenericError;

    /// The result that the value stands for.
    spec fn exit_code_result(self) -> Result<Self::Output, Self::E>;

    /// Turns the value into a result.
    fn into_exit_code_result(self) -> (result: Result<Self::Output, Self::E>)
        ensures
            result == self.exit_code_result(),
    ;
}

impl<C: IntoExitCode> IntoExitCodeResult for C {
    type Output = C;

    type E = Infallible;

    open spec fn exit_code_result(self) -> Result<C, Infallible> {
        Ok(self)
    }

    fn into_exit_code_result(self) -> (result: Result<C, Infallible>) {
        Ok(self)
    }
}

impl<E: IntoGenericError> IntoExitCodeResult for Result<(), E> {
    type Output = ExitCode;

    type E = E;

    open spec fn exit_code_result(self) -> Result<ExitCode, E> {
        match self {
            Ok(()) => Ok(ExitCode::success()),
            Err(error) => Err(error),
        }
    }

    fn into_exit_code_result(self) -> (result: Result<ExitCode, E>) {
        match self {
            Ok(()) => Ok(ExitCode::success()),
            Err(error) => Err(error),
        }
    }
}

} // verus!
