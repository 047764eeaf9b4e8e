//! Errors: what a subsystem can fail with, and what its failure is reported as.
use tokio::task::JoinError;
use vstd::prelude::*;

#[allow(unused_imports)]
use crate::id::{IdView, SubsystemId};
use crate::task;

verus! {

/// An error value that a subsystem can fail with: something that can be described to a user and
/// to a developer.
pub trait GenErr {
    /// The description for a user.
    spec fn display_text(&self) -> Seq<char>;

    /// The description for a developer.
    spec fn debug_text(&self) -> Seq<char>;

    /// Describes the error to a user.
    fn display_string(&self) -> (out: String)
        ensures
            out@ == self.display_text(),
    ;

    /// Describes the error to a developer.
    fn debug_string(&self) -> (out: String)
        ensures
            out@ == self.debug_text(),
    ;
}

/// What a [`GenericError`] stands for: its two descriptions.
#[verifier::ext_equal]
pub struct GenericErrorView {
    pub display: Seq<char>,
    pub debug: Seq<char>,
}

/// An error of any kind. All that is kept of the value is how it is described.
pub struct GenericError {
    display: String,
    debug: String,
}

impl View for GenericError {
    type V = GenericErrorView;

    closed spec fn view(&self) -> GenericErrorView {
        GenericErrorView { display: self.display@, debug: self.debug@ }
    }
}

impl GenericError {
    /// An error with the given descriptions.
    pub fn new(display: String, debug: String) -> (error: Self)
        ensures
            error@ == (GenericErrorView { display: display@, debug: debug@ }),
    {
        GenericError { display, debug }
    }

    /// The description of the error for a user.
    pub fn to_string(&self) -> (out: String)
        ensures
            out@ == self@.display,
    {
        self.display.clone()
    }

    /// The description of the error for a developer.
    pub fn to_debug_string(&self) -> (out: String)
        ensures
            out@ == self@.debug,
    {
        self.debug.clone()
    }
}

impl Clone for GenericError {
    fn clone(&self) -> (error: Self)
        ensures
            error == *self,
    {
        GenericError { display: self.display.clone(), debug: self.debug.clone() }
    }
}

impl GenErr for JoinError {
    open spec fn display_text(&self) -> Seq<char> {
        task::join_error_display(*self)
    }

    open spec fn debug_text(&self) -> Seq<char> {
        task::join_error_debug(*self)
    }

    fn display_string(&self) -> (out: String) {
        task::join_error_display_text(self)
    }

    fn debug_string(&self) -> (out: String) {
        task::join_error_debug_text(self)
    }
}

impl GenErr for GenericError {
    open spec fn display_text(&self) -> Seq<char> {
        self@.display
    }

    open spec fn debug_text(&self) -> Seq<char> {
        self@.debug
    }

    fn display_string(&self) -> (out: String) {
        self.to_string()
    }

    fn debug_string(&self) -> (out: String) {
        self.to_debug_string()
    }
}

/// A value that can be turned into a [`GenericError`].
pub trait IntoGenericError: Sized {
    /// The error that the value stands for.
    spec fn generic_error(self) -> GenericErrorView;

    /// Turns the value into an error.
    fn into_generic_error(self) -> (error: GenericError)
        ensures
            error@ == self.generic_error(),
    ;
}

impl<E: GenErr> IntoGenericError for E {
    open spec fn generic_error(self) -> GenericErrorView {
        GenericErrorView { display: self.display_text(), debug: self.debug_text() }
    }

    fn into_generic_error(self) -> (error: GenericError) {
        GenericError { display: self.display_string(), debug: self.debug_string() }
    }
}

/// A result with the view of its error.
pub open spec fn generic_result_view<T>(result: Result<T, GenericError>) -> Result<
    T,
    GenericErrorView,
> {
    match result {
        Ok(value) => Ok(value),
        Err(error) => Err(error@),
    }
}

/// A value that a subsystem may return.
pub trait IntoGenericResult: Sized {
    /// What the subsystem returns on success.
    type Output: Send + Sync + 'static;

    /// The result that the value stands for.
    spec fn generic_result(self) -> Result<Self::Output, GenericErrorView>;

    /// Turns the value into a result.
    fn into_generic_result(self) -> (result: Result<Self::Output, GenericError>)
        ensures
            generic_result_view(result) == self.generic_result(),
    ;
}

impl<T: Send + Sync + 'static, E: IntoGenericError> IntoGenericResult for Result<T, E> {
    type Output = T;

    open spec fn generic_result(self) -> Result<T, GenericErrorView> {
        match self {
            Ok(value) => Ok(value),
            Err(error) => Err(error.generic_error()),
        }
    }

    fn into_generic_result(self) -> (result: Result<T, GenericError>) {
        match self {
            Ok(value) => Ok(value),
            Err(error) => Err(error.into_generic_error()),
        }
    }
}

impl IntoGenericResult for () {
    type Output = ();

    open spec fn generic_result(self) -> Result<(), GenericErrorView> {
        Ok(())
    }

    fn into_generic_result(self) -> (result: Result<(), GenericError>) {
        Ok(())
    }
}

/// What a [`SubsystemError`] stands for.
#[verifier::ext_equal]
pub enum SubsystemErrorView {
    Error(IdView, GenericErrorView),
    Panic(IdView, GenericErrorView),
    OrderlyShutdown,
    ForcedShutdown,
}

impl SubsystemErrorView {
    /// The message of the error.
    pub open spec fn message(self) -> Seq<char> {
        match self {
            SubsystemErrorView::Error(id, _) => "Subsystem '"@ + id.display()
                + "' terminated with error"@,
            SubsystemErrorView::Panic(id, _) => "Subsystem '"@ + id.display() + "' panicked"@,
            SubsystemErrorView::OrderlyShutdown =>
                "Subsystem did not complete because it was asked to shut down"@,
            SubsystemErrorView::ForcedShutdown =>
                "Subsystem did not complete because it was forced to shut down"@,
        }
    }

    /// The error behind the error.
    pub open spec fn source(self) -> Option<GenericErrorView> {
        match self {
            SubsystemErrorView::Error(_, error) => Some(error),
            SubsystemErrorView::Panic(_, error) => Some(error),
            _ => None,
        }
    }
}

/// Why a subsystem did not complete.
pub enum SubsystemError {
    /// The subsystem returned an error.
    Error(SubsystemId, GenericError),
    /// The subsystem panicked.
    Panic(SubsystemId, GenericError),
    /// The subsystem was asked to shut down.
    OrderlyShutdown,
    /// The subsystem was forced to shut down.
    ForcedShutdown,
}

impl View for SubsystemError {
    type V = SubsystemErrorView;

    open spec fn view(&self) -> SubsystemErrorView {
        match *self {
            SubsystemError::Error(id, error) => SubsystemErrorView::Error(id@, error@),
            SubsystemError::Panic(id, error) => SubsystemErrorView::Panic(id@, error@),
            SubsystemError::OrderlyShutdown => SubsystemErrorView::OrderlyShutdown,
            SubsystemError::ForcedShutdown => SubsystemErrorView::ForcedShutdown,
        }
    }
}

impl SubsystemError {
    /// The message of the error.
    pub fn to_string(&self) -> (out: String)
        ensures
            out@ == self@.message(),
    {
        match self {
            SubsystemError::Error(id, _) => {
                let out: String = String::from_str("Subsystem '");
                out.concat(id.to_string().as_str()).concat("' terminated with error")
            },
            SubsystemError::Panic(id, _) => {
                let out: String = String::from_str("Subsystem '");
                out.concat(id.to_string().as_str()).concat("' panicked")
            },
            SubsystemError::OrderlyShutdown => String::from_str(
                "Subsystem did not complete because it was asked to shut down",
            ),
            SubsystemError::ForcedShutdown => String::from_str(
                "Subsystem did not complete because it was forced to shut down",
            ),
        }
    }

    /// The error behind the error.
    pub fn source(&self) -> (source: Option<&GenericError>)
        ensures
            source is Some == self@.source() is Some,
            source matches Some(error) ==> self@.source() == Some(error@),
    {
        match self {
            SubsystemError::Error(_, error) => Some(error),
            SubsystemError::Panic(_, error) => Some(error),
            _ => None,
        }
    }
}

impl Clone for SubsystemError {
    fn clone(&self) -> (error: Self)
        ensures
            error == *self,
    {
        match self {
            SubsystemError::Error(id, error) => SubsystemError::Error(id.clone(), error.clone()),
            SubsystemError::Panic(id, error) => SubsystemError::Panic(id.clone(), error.clone()),
            SubsystemError::OrderlyShutdown => SubsystemError::OrderlyShutdown,
            SubsystemError::ForcedShutdown => SubsystemError::ForcedShutdown,
        }
    }
}

/// A result with the view of its error.
pub open spec fn subsystem_result_view<T>(result: Result<T, SubsystemError>) -> Result<
    T,
    SubsystemErrorView,
> {
    match result {
        Ok(value) => Ok(value),
        Err(error) => Err(error@),
    }
}

/// A result that can be reported as that of a subsystem.
pub trait IntoSubsystemResult<T>: Sized {
    /// The result, as that of the subsystem `id`.
    spec fn subsystem_result(self, id: IdView) -> Result<T, SubsystemErrorView>;

    /// Reports the result as that of the subsystem `id`.
    fn into_subsystem_result(self, id: SubsystemId) -> (result: Result<T, SubsystemError>)
        ensures
            subsystem_result_view(result) == self.subsystem_result(id@),
    ;
}

impl<T, E: IntoGenericError> IntoSubsystemResult<T> for Result<T, E> {
    open spec fn subsystem_result(self, id: IdView) -> Result<T, SubsystemErrorView> {
        match self {
            Ok(value) => Ok(value),
            Err(error) => Err(SubsystemErrorView::Error(id, error.generic_error())),
        }
    }

    fn into_subsystem_result(self, id: SubsystemId) -> (result: Result<T, SubsystemError>) {
        match self {
            Ok(value) => Ok(value),
            Err(error) => Err(SubsystemError::Error(id, error.into_generic_error())),
        }
    }
}

} // verus!
