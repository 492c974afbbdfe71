//! How a transfer ends, and the ways in which it ends other than well.

use crate::message::Message;
use vstd::prelude::*;

verus! {

/// Why a transfer stopped.
#[derive(Debug, PartialEq, Eq)]
pub enum Error {
    /// The parameters were incomplete or malformed. No remote call was made.
    ParameterParseFailed,
    /// The source queue could not be read.
    MessagePullFailed,
    /// None of the messages of a batch met the filter.
    NothingAfterFilter,
    /// The destination queue did not take a batch. The batch is still on the source queue.
    FailedToPushMessages,
    /// The destination queue took these messages, and the source queue still has them.
    FailedToDeleteMessages(Vec<Message>),
    /// The visibility of some messages that the filter turned down could not be reset.
    FailedToChangeMessageVisibility,
}

/// An [`Error`], with the messages that it carries as a sequence.
pub ghost enum ErrorView {
    ParameterParseFailed,
    MessagePullFailed,
    NothingAfterFilter,
    FailedToPushMessages,
    FailedToDeleteMessages(Seq<Message>),
    FailedToChangeMessageVisibility,
}

impl View for Error {
    type V = ErrorView;

    open spec fn view(&self) -> ErrorView {
        match self {
            Error::ParameterParseFailed => ErrorView::ParameterParseFailed,
            Error::MessagePullFailed => ErrorView::MessagePullFailed,
            Error::NothingAfterFilter => ErrorView::NothingAfterFilter,
            Error::FailedToPushMessages => ErrorView::FailedToPushMessages,
            Error::FailedToDeleteMessages(messages) => ErrorView::FailedToDeleteMessages(
                messages@,
            ),
            Error::FailedToChangeMessageVisibility => ErrorView::FailedToChangeMessageVisibility,
        }
    }
}

impl ErrorView {
    /// Whether the error is one that makes the program fail, and not a mere warning.
    pub open spec fn is_fatal(self) -> bool {
        self is ParameterParseFailed || self is FailedToPushMessages
            || self is FailedToDeleteMessages
    }

    /// The line that tells the operator of the error.
    pub open spec fn notice(self) -> Seq<char> {
        match self {
            ErrorView::ParameterParseFailed => "Error: Failed to parse parameters"@,
            ErrorView::MessagePullFailed => "Warning: Failed to retrieve messages from source queue. There might not have been any messages on the queue"@,
            ErrorView::NothingAfterFilter => "Warning: No messages matched the filter"@,
            ErrorView::FailedToPushMessages => "Error: Failed to push messages to destination queue"@,
            ErrorView::FailedToDeleteMessages(_) => "Error: Unable to delete messages. Messages may be present both source and destination queues"@,
            ErrorView::FailedToChangeMessageVisibility => "Warning: Failed to change visibility of some unfiltered messages. They will not be visible on source queue for 10 minutes"@,
        }
    }
}

/// The exit code of a program whose transfer ended with `outcome`: 1 after a fatal error,
/// 0 after a warning or none.
pub open spec fn exit_code_of(outcome: Result<(), ErrorView>) -> int {
    match outcome {
        Err(error) if error.is_fatal() => 1,
        _ => 0,
    }
}

impl Error {
    /// Whether the error makes the program fail. The others are reported as warnings.
    pub fn is_fatal(&self) -> (fatal: bool)
        ensures
            fatal == self@.is_fatal(),
    {
        match self {
            Error::ParameterParseFailed => true,
            Error::FailedToPushMessages => true,
            Error::FailedToDeleteMessages(_) => true,
            Error::MessagePullFailed => false,
            Error::NothingAfterFilter => false,
            Error::FailedToChangeMessageVisibility => false,
        }
    }

    /// The line that tells the operator of the error.
    pub fn notice(&self) -> (notice: &'static str)
        ensures
            notice@ == self@.notice(),
    {
        match self {
            Error::ParameterParseFailed => "Error: Failed to parse parameters",
            Error::MessagePullFailed => "Warning: Failed to retrieve messages from source queue. There might not have been any messages on the queue",
            Error::NothingAfterFilter => "Warning: No messages matched the filter",
            Error::FailedToPushMessages => "Error: Failed to push messages to destination queue",
            Error::FailedToDeleteMessages(_) => "Error: Unable to delete messages. Messages may be present both source and destination queues",
            Error::FailedToChangeMessageVisibility => "Warning: Failed to change visibility of some unfiltered messages. They will not be visible on source queue for 10 minutes",
        }
    }
}

/// The view of a result.
pub open spec fn result_view(result: Result<(), Error>) -> Result<(), ErrorView> {
    match result {
        Ok(()) => Ok(()),
        Err(error) => Err(error@),
    }
}

/// The exit code with which the program ends after `result`.
pub fn exit_code(result: &Result<(), Error>) -> (code: i32)
    ensures
        code == exit_code_of(result_view(*result)),
{
    match result {
        Ok(()) => 0,
        Err(error) => if error.is_fatal() {
            1
        } else {
            0
        },
    }
}

/// How a run ended: how its pipeline ended, and whether a reset of visibility failed
/// afterwards. The failure of a reset stands beside the error of the pipeline and never in
/// its place.
#[derive(Debug, PartialEq, Eq)]
pub struct Outcome {
    /// How the pipeline ended.
    pub pipeline: Result<(), Error>,
    /// Whether a reset of the visibility of the messages that were turned down failed.
    pub reset_failed: bool,
}

/// An [`Outcome`], with the messages of its error as a sequence.
pub ghost struct OutcomeView {
    pub pipeline: Result<(), ErrorView>,
    pub reset_failed: bool,
}

impl View for Outcome {
    type V = OutcomeView;

    open spec fn view(&self) -> OutcomeView {
        OutcomeView { pipeline: result_view(self.pipeline), reset_failed: self.reset_failed }
    }
}

impl OutcomeView {
    /// The outcome as one result: the error of the pipeline where it has one; else
    /// `FailedToChangeMessageVisibility` where a reset failed; else success.
    pub open spec fn result(self) -> Result<(), ErrorView> {
        match self.pipeline {
            Err(error) => Err(error),
            Ok(()) => if self.reset_failed {
                Err(ErrorView::FailedToChangeMessageVisibility)
            } else {
                Ok(())
            },
        }
    }

    /// The lines that tell the operator of the outcome: the notice of the pipeline's error,
    /// where it has one, and then the notice of the failed reset, where one failed.
    pub open spec fn notices(self) -> Seq<Seq<char>> {
        let first = match self.pipeline {
            Err(error) => seq![error.notice()],
            Ok(()) => Seq::empty(),
        };
        if self.reset_failed {
            first.push(ErrorView::FailedToChangeMessageVisibility.notice())
        } else {
            first
        }
    }
}

impl Outcome {
    /// The outcome as one result. The failure of a reset shows only where the pipeline ended
    /// well.
    pub fn into_result(self) -> (result: Result<(), Error>)
        ensures
            result_view(result) == self@.result(),
            self@.pipeline is Err ==> result_view(result) == self@.pipeline,
    {
        match self.pipeline {
            Err(error) => Err(error),
            Ok(()) => if self.reset_failed {
                Err(Error::FailedToChangeMessageVisibility)
            } else {
                Ok(())
            },
        }
    }

    /// The exit code with which the program ends after this outcome. It goes by the
    /// pipeline: the failure of a reset is a warning, and changes nothing in it.
    pub fn exit_code(&self) -> (code: i32)
        ensures
            code == exit_code_of(self@.pipeline),
            code == exit_code_of(self@.result()),
    {
        exit_code(&self.pipeline)
    }

    /// The lines that tell the operator of the outcome, in the order in which they are
    /// printed.
    pub fn notices(&self) -> (notices: Vec<&'static str>)
        ensures
            notices@.len() == self@.notices().len(),
            forall|i: int|
                0 <= i < notices@.len() ==> (#[trigger] notices@[i])@ == self@.notices()[i],
    {
        let mut notices: Vec<&'static str> = Vec::new();
        if let Err(error) = &self.pipeline {
            notices.push(error.notice());
        }
        if self.reset_failed {
            notices.push(Error::FailedToChangeMessageVisibility.notice());
        }
        notices
    }
}

} // verus!
