use queue_shift::error::{exit_code, Error, Outcome};
use queue_shift::message::Message;

fn undeleted() -> Error {
    Error::FailedToDeleteMessages(vec![Message::new(
        "a".to_string(),
        "ra".to_string(),
        "first".to_string(),
    )])
}

#[test]
fn fatal_errors_are_the_ones_that_lose_or_double_messages() {
    assert!(Error::ParameterParseFailed.is_fatal());
    assert!(Error::FailedToPushMessages.is_fatal());
    assert!(undeleted().is_fatal());
    assert!(!Error::MessagePullFailed.is_fatal());
    assert!(!Error::NothingAfterFilter.is_fatal());
    assert!(!Error::FailedToChangeMessageVisibility.is_fatal());
}

#[test]
fn exit_code_is_1_after_a_fatal_error_only() {
    assert_eq!(exit_code(&Ok(())), 0);
    assert_eq!(exit_code(&Err(Error::ParameterParseFailed)), 1);
    assert_eq!(exit_code(&Err(Error::FailedToPushMessages)), 1);
    assert_eq!(exit_code(&Err(undeleted())), 1);
    assert_eq!(exit_code(&Err(Error::MessagePullFailed)), 0);
    assert_eq!(exit_code(&Err(Error::NothingAfterFilter)), 0);
    assert_eq!(exit_code(&Err(Error::FailedToChangeMessageVisibility)), 0);
}

#[test]
fn each_error_has_its_notice() {
    assert_eq!(Error::ParameterParseFailed.notice(), "Error: Failed to parse parameters");
    assert_eq!(
        Error::MessagePullFailed.notice(),
        "Warning: Failed to retrieve messages from source queue. There might not have been any messages on the queue"
    );
    assert_eq!(Error::NothingAfterFilter.notice(), "Warning: No messages matched the filter");
    assert_eq!(
        Error::FailedToPushMessages.notice(),
        "Error: Failed to push messages to destination queue"
    );
    assert_eq!(
        undeleted().notice(),
        "Error: Unable to delete messages. Messages may be present both source and destination queues"
    );
    assert_eq!(
        Error::FailedToChangeMessageVisibility.notice(),
        "Warning: Failed to change visibility of some unfiltered messages. They will not be visible on source queue for 10 minutes"
    );
}

#[test]
fn result_of_an_outcome_is_the_error_of_the_pipeline() {
    for reset_failed in [false, true] {
        let outcome = Outcome { pipeline: Err(Error::FailedToPushMessages), reset_failed };
        assert_eq!(outcome.exit_code(), 1);
        assert_eq!(outcome.into_result(), Err(Error::FailedToPushMessages));
        let outcome = Outcome { pipeline: Err(undeleted()), reset_failed };
        assert_eq!(outcome.exit_code(), 1);
        assert_eq!(outcome.into_result(), Err(undeleted()));
        let outcome = Outcome { pipeline: Err(Error::MessagePullFailed), reset_failed };
        assert_eq!(outcome.exit_code(), 0);
        assert_eq!(outcome.into_result(), Err(Error::MessagePullFailed));
    }
}

#[test]
fn failed_reset_shows_in_the_result_after_a_pipeline_that_ended_well() {
    let outcome = Outcome { pipeline: Ok(()), reset_failed: true };
    assert_eq!(outcome.exit_code(), 0);
    assert_eq!(outcome.into_result(), Err(Error::FailedToChangeMessageVisibility));
    let outcome = Outcome { pipeline: Ok(()), reset_failed: false };
    assert_eq!(outcome.exit_code(), 0);
    assert_eq!(outcome.into_result(), Ok(()));
}

#[test]
fn notices_name_the_error_and_then_the_failed_reset() {
    let both = Outcome { pipeline: Err(undeleted()), reset_failed: true };
    assert_eq!(
        both.notices(),
        [undeleted().notice(), Error::FailedToChangeMessageVisibility.notice()]
    );
    let error = Outcome { pipeline: Err(Error::NothingAfterFilter), reset_failed: false };
    assert_eq!(error.notices(), ["Warning: No messages matched the filter"]);
    let reset = Outcome { pipeline: Ok(()), reset_failed: true };
    assert_eq!(reset.notices(), [Error::FailedToChangeMessageVisibility.notice()]);
    assert!(Outcome { pipeline: Ok(()), reset_failed: false }.notices().is_empty());
}
