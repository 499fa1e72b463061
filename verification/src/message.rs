//! The errors that the source reports.

use vstd::prelude::*;

use crate::text::join;

verus! {

/// The kind of a resource error.
#[derive(Debug, Clone, Copy, PartialEq, Eq, Structural)]
pub enum ResourceError {
    OpenRead,
    Settings,
}

/// An error message about a resource, with text for developers.
#[derive(Debug)]
pub struct ErrorMessage {
    pub error: ResourceError,
    pub debug: String,
}

/// An `ErrorMessage` by its characters.
pub struct ErrorMessageView {
    pub error: ResourceError,
    pub debug: Seq<char>,
}

impl View for ErrorMessage {
    type V = ErrorMessageView;

    open spec fn view(&self) -> ErrorMessageView {
        ErrorMessageView { error: self.error, debug: self.debug@ }
    }
}

/// A failure of the stream, with text for users and text for developers.
#[derive(Debug)]
pub struct StreamFailure {
    pub message: String,
    pub debug: String,
}

/// A `StreamFailure` by its characters.
pub struct StreamFailureView {
    pub message: Seq<char>,
    pub debug: Seq<char>,
}

impl View for StreamFailure {
    type V = StreamFailureView;

    open spec fn view(&self) -> StreamFailureView {
        StreamFailureView { message: self.message@, debug: self.debug@ }
    }
}

/// The error of kind `error` with the text `intro` followed by `detail`.
pub open spec fn message_view(
    error: ResourceError,
    intro: Seq<char>,
    detail: Seq<char>,
) -> ErrorMessageView {
    ErrorMessageView { error, debug: intro + detail }
}

/// Returns the error of kind `error` with the text `intro` followed by `detail`.
pub(crate) fn message(error: ResourceError, intro: &str, detail: &str) -> (message: ErrorMessage)
    ensures
        message@ == message_view(error, intro@, detail@),
{
    ErrorMessage { error, debug: join(intro, detail) }
}

/// The failure after an element further down reported `reason`.
pub open spec fn flow_failure_view(reason: Seq<char>) -> StreamFailureView {
    StreamFailureView {
        message: "Internal data stream error"@,
        debug: "streaming stopped, reason "@ + reason,
    }
}

/// Returns the failure after an element further down reported `reason`.
pub(crate) fn flow_failure(reason: &str) -> (failure: StreamFailure)
    ensures
        failure@ == flow_failure_view(reason@),
{
    StreamFailure {
        message: "Internal data stream error".to_owned(),
        debug: join("streaming stopped, reason ", reason),
    }
}

/// The failure after reading from the socket ended in `error`.
pub open spec fn io_failure_view(error: Seq<char>) -> StreamFailureView {
    StreamFailureView {
        message: "I/O error"@,
        debug: "streaming stopped, I/O error "@ + error,
    }
}

/// Returns the failure after reading from the socket ended in `error`.
pub(crate) fn io_failure(error: &str) -> (failure: StreamFailure)
    ensures
        failure@ == io_failure_view(error@),
{
    StreamFailure {
        message: "I/O error".to_owned(),
        debug: join("streaming stopped, I/O error ", error),
    }
}

} // verus!
