use queue_shift::cli::Parameters;
use queue_shift::error::{Error, Outcome};
use queue_shift::message::{AttributeValue, Message};
use queue_shift::pipeline::{process_messages, start, Request, Run, Stage};
use queue_shift::queue::Reply;
use rusoto_core::Region;

const SOURCE: &str = "https://queue/source";
const DEST: &str = "https://queue/dest";

fn parameters(filter: Option<(&str, &str)>) -> Parameters {
    Parameters {
        source: SOURCE.to_string(),
        destination: DEST.to_string(),
        filter: filter.map(|(name, value)| (name.to_string(), value.to_string())),
        region: Region::EuWest1,
        profile: "default".to_string(),
    }
}

fn plain(id: &str) -> Message {
    Message::new(id.to_string(), format!("receipt-{id}"), format!("body of {id}"))
}

fn invoice(id: &str) -> Message {
    plain(id).with_attribute(
        "type".to_string(),
        AttributeValue {
            data_type: "String".to_string(),
            string_value: Some("invoice".to_string()),
            binary_value: None,
            string_list_values: None,
            binary_list_values: None,
        },
    )
}

fn plains(prefix: &str, count: usize) -> Vec<Message> {
    (0..count).map(|i| plain(&format!("{prefix}{i}"))).collect()
}

fn names(prefix: &str, count: usize) -> Vec<String> {
    (0..count).map(|i| format!("{prefix}{i}")).collect()
}

fn result_of(run: Run) -> Option<Result<(), Error>> {
    run.into_outcome().map(Outcome::into_result)
}

/// A queue service in memory. It keeps a record of the calls that it answered.
#[derive(Default)]
struct Service {
    /// The messages that the source queue has to hand out, the next one first.
    waiting: Vec<Message>,
    /// The calls in the order in which they came.
    calls: Vec<&'static str>,
    /// The identifiers that were sent to the destination queue.
    sent: Vec<String>,
    /// The identifiers that were deleted from the source queue.
    deleted: Vec<String>,
    /// The identifiers of each call that changed a visibility.
    resets: Vec<Vec<String>>,
    /// The number of the receive that fails, counted from 0.
    failing_receive: Option<usize>,
    failing_send: bool,
    failing_delete: bool,
    /// The number of the change of visibility that fails, counted from 0.
    failing_reset: Option<usize>,
}

impl Service {
    fn with(waiting: Vec<Message>) -> Service {
        Service { waiting, ..Service::default() }
    }

    fn count(&self, call: &str) -> usize {
        self.calls.iter().filter(|made| **made == call).count()
    }

    fn answer(&mut self, request: Request) -> Reply {
        match request {
            Request::Receive(receive) => {
                let number = self.count("receive");
                self.calls.push("receive");
                assert_eq!(receive.queue_url, SOURCE);
                if self.failing_receive == Some(number) {
                    return Reply::Failed;
                }
                let count = self.waiting.len().min(receive.max_number_of_messages as usize);
                if count == 0 {
                    return Reply::Received(None);
                }
                Reply::Received(Some(self.waiting.drain(..count).collect()))
            },
            Request::SendBatch(send) => {
                self.calls.push("send");
                assert_eq!(send.queue_url, DEST);
                assert!(!send.entries.is_empty() && send.entries.len() <= 10);
                if self.failing_send {
                    return Reply::Failed;
                }
                self.sent.extend(send.entries.iter().map(|entry| entry.id.clone()));
                Reply::Completed { failed: 0 }
            },
            Request::DeleteBatch(delete) => {
                self.calls.push("delete");
                assert_eq!(delete.queue_url, SOURCE);
                if self.failing_delete {
                    return Reply::Failed;
                }
                self.deleted.extend(delete.entries.iter().map(|entry| entry.id.clone()));
                Reply::Completed { failed: 0 }
            },
            Request::ChangeVisibilityBatch(reset) => {
                let number = self.count("reset");
                self.calls.push("reset");
                assert_eq!(reset.queue_url, SOURCE);
                assert!(!reset.entries.is_empty() && reset.entries.len() <= 10);
                assert!(reset.entries.iter().all(|entry| entry.visibility_timeout == 1));
                if self.failing_reset == Some(number) {
                    return Reply::Failed;
                }
                self.resets.push(reset.entries.iter().map(|entry| entry.id.clone()).collect());
                Reply::Completed { failed: 0 }
            },
            Request::Nothing => panic!("a call was made though none is outstanding"),
        }
    }

    /// Runs a transfer against this service, and gives its outcome as one result.
    fn transfer(&mut self, parameters: Parameters) -> Result<(), Error> {
        self.run(parameters).into_result()
    }

    /// Runs a transfer against this service.
    fn run(&mut self, parameters: Parameters) -> Outcome {
        let mut run = start(parameters);
        while !run.is_finished() {
            let reply = self.answer(run.request());
            run = run.advance(reply);
        }
        assert!(matches!(run.request(), Request::Nothing));
        run.into_outcome().unwrap()
    }
}

#[test]
fn run_starts_with_a_receive() {
    let run = start(parameters(None));
    assert!(matches!(run.stage, Stage::Pulling));
    assert!(run.rejected.is_empty());
    assert!(!run.is_finished());
    match run.request() {
        Request::Receive(receive) => assert_eq!(receive.queue_url, SOURCE),
        other => panic!("{other:?}"),
    }
    assert_eq!(run.into_outcome(), None);
}

#[test]
fn nothing_matches_the_filter() {
    let mut service = Service::with(plains("m", 3));
    let outcome = service.transfer(parameters(Some(("type", "invoice"))));
    assert_eq!(outcome, Err(Error::NothingAfterFilter));
    assert_eq!(service.calls, ["receive", "reset"]);
    assert!(service.sent.is_empty());
    assert!(service.deleted.is_empty());
    assert_eq!(service.resets, [names("m", 3)]);
}

#[test]
fn twelve_messages_move_in_two_batches() {
    let mut service = Service::with(plains("m", 12));
    let outcome = service.transfer(parameters(None));
    assert_eq!(outcome, Ok(()));
    assert_eq!(
        service.calls,
        ["receive", "send", "delete", "receive", "send", "delete", "receive"]
    );
    assert_eq!(service.sent, names("m", 12));
    assert_eq!(service.deleted, names("m", 12));
    assert!(service.resets.is_empty());
}

#[test]
fn failed_push_leaves_the_batch_alone() {
    let mut service = Service::with(plains("m", 5));
    service.failing_send = true;
    let outcome = service.transfer(parameters(None));
    assert_eq!(outcome, Err(Error::FailedToPushMessages));
    assert_eq!(service.calls, ["receive", "send"]);
    assert!(service.deleted.is_empty());
    assert!(service.resets.is_empty());
}

#[test]
fn failed_push_resets_only_what_was_rejected() {
    let mut waiting = vec![invoice("a"), plain("b"), invoice("c"), plain("d")];
    waiting.push(invoice("e"));
    let mut service = Service::with(waiting);
    service.failing_send = true;
    let outcome = service.transfer(parameters(Some(("type", "invoice"))));
    assert_eq!(outcome, Err(Error::FailedToPushMessages));
    assert_eq!(service.calls, ["receive", "send", "reset"]);
    assert!(service.deleted.is_empty());
    assert_eq!(service.resets, [["b", "d"]]);
}

#[test]
fn failed_delete_carries_the_batch() {
    let mut service = Service::with(plains("m", 4));
    service.failing_delete = true;
    let outcome = service.transfer(parameters(None));
    assert_eq!(outcome, Err(Error::FailedToDeleteMessages(plains("m", 4))));
    assert_eq!(service.calls, ["receive", "send", "delete"]);
    assert_eq!(service.sent, names("m", 4));
    assert!(service.deleted.is_empty());
}

#[test]
fn rejected_messages_are_reset_ten_at_a_time() {
    let mut waiting = Vec::new();
    let mut expected = Vec::new();
    for (cycle, turned_down) in [9, 9, 7].into_iter().enumerate() {
        for i in 0..turned_down {
            waiting.push(plain(&format!("r{cycle}-{i}")));
            expected.push(format!("r{cycle}-{i}"));
        }
        waiting.push(invoice(&format!("i{cycle}")));
    }
    let mut service = Service::with(waiting);
    let outcome = service.transfer(parameters(Some(("type", "invoice"))));
    assert_eq!(outcome, Ok(()));
    assert_eq!(service.sent, ["i0", "i1", "i2"]);
    assert_eq!(service.deleted, ["i0", "i1", "i2"]);
    let sizes: Vec<usize> = service.resets.iter().map(|reset| reset.len()).collect();
    assert_eq!(sizes, [10, 10, 5]);
    assert_eq!(service.resets.concat(), expected);
    assert_eq!(service.count("reset"), 3);
}

#[test]
fn later_batch_without_a_match_ends_the_run() {
    let mut waiting = vec![invoice("a")];
    waiting.extend(plains("x", 9));
    waiting.extend(plains("y", 10));
    waiting.push(invoice("never"));
    let mut service = Service::with(waiting);
    let outcome = service.transfer(parameters(Some(("type", "invoice"))));
    assert_eq!(outcome, Err(Error::NothingAfterFilter));
    assert_eq!(service.calls, ["receive", "send", "delete", "receive", "reset", "reset"]);
    assert_eq!(service.sent, ["a"]);
    assert_eq!(service.resets.concat(), [names("x", 9), names("y", 10)].concat());
    assert_eq!(service.waiting.len(), 1);
}

#[test]
fn failed_pull_ends_the_run() {
    let mut service = Service::with(plains("m", 3));
    service.failing_receive = Some(0);
    let outcome = service.transfer(parameters(None));
    assert_eq!(outcome, Err(Error::MessagePullFailed));
    assert_eq!(service.calls, ["receive"]);
}

#[test]
fn failed_pull_still_resets_what_was_rejected() {
    let mut waiting = vec![invoice("a")];
    waiting.extend(plains("x", 9));
    waiting.extend(plains("y", 2));
    let mut service = Service::with(waiting);
    service.failing_receive = Some(1);
    let outcome = service.transfer(parameters(Some(("type", "invoice"))));
    assert_eq!(outcome, Err(Error::MessagePullFailed));
    assert_eq!(service.calls, ["receive", "send", "delete", "receive", "reset"]);
    assert_eq!(service.resets, [names("x", 9)]);
}

#[test]
fn empty_source_ends_the_run_well() {
    let mut service = Service::with(Vec::new());
    let outcome = service.transfer(parameters(Some(("type", "invoice"))));
    assert_eq!(outcome, Ok(()));
    assert_eq!(service.calls, ["receive"]);
}

#[test]
fn failed_reset_stops_the_resets() {
    let mut waiting = Vec::new();
    for cycle in 0..3 {
        waiting.extend(plains(&format!("r{cycle}-"), 9));
        waiting.push(invoice(&format!("i{cycle}")));
    }
    let mut service = Service::with(waiting);
    service.failing_reset = Some(1);
    let outcome = service.transfer(parameters(Some(("type", "invoice"))));
    assert_eq!(outcome, Err(Error::FailedToChangeMessageVisibility));
    assert_eq!(service.count("reset"), 2);
    assert_eq!(service.resets.len(), 1);
    assert_eq!(service.resets[0].len(), 10);
}

#[test]
fn failed_reset_is_the_result_of_a_pipeline_that_ended_well() {
    let mut waiting = vec![invoice("a")];
    waiting.extend(plains("x", 3));
    let mut service = Service::with(waiting);
    service.failing_reset = Some(0);
    let outcome = service.run(parameters(Some(("type", "invoice"))));
    assert_eq!(outcome, Outcome { pipeline: Ok(()), reset_failed: true });
    assert_eq!(service.calls, ["receive", "send", "delete", "receive", "reset"]);
    assert_eq!(
        outcome.notices(),
        ["Warning: Failed to change visibility of some unfiltered messages. They will not be visible on source queue for 10 minutes"]
    );
    assert_eq!(outcome.exit_code(), 0);
    assert_eq!(outcome.into_result(), Err(Error::FailedToChangeMessageVisibility));
}

#[test]
fn failed_reset_does_not_hide_a_failed_push() {
    let mut service =
        Service::with(vec![invoice("a"), plain("b"), invoice("c"), plain("d"), invoice("e")]);
    service.failing_send = true;
    service.failing_reset = Some(0);
    let outcome = service.run(parameters(Some(("type", "invoice"))));
    assert_eq!(
        outcome,
        Outcome { pipeline: Err(Error::FailedToPushMessages), reset_failed: true }
    );
    assert_eq!(service.calls, ["receive", "send", "reset"]);
    assert!(service.deleted.is_empty());
    assert_eq!(
        outcome.notices(),
        [
            "Error: Failed to push messages to destination queue",
            "Warning: Failed to change visibility of some unfiltered messages. They will not be visible on source queue for 10 minutes",
        ]
    );
    assert_eq!(outcome.exit_code(), 1);
    assert_eq!(outcome.into_result(), Err(Error::FailedToPushMessages));
}

#[test]
fn failed_reset_does_not_hide_a_failed_delete() {
    let mut service = Service::with(vec![invoice("a"), plain("b")]);
    service.failing_delete = true;
    service.failing_reset = Some(0);
    let outcome = service.run(parameters(Some(("type", "invoice"))));
    assert!(outcome.reset_failed);
    assert_eq!(outcome.exit_code(), 1);
    assert_eq!(outcome.notices().len(), 2);
    assert_eq!(
        outcome.into_result(),
        Err(Error::FailedToDeleteMessages(vec![invoice("a")]))
    );
}

#[test]
fn failed_reset_does_not_hide_that_nothing_matched() {
    let mut service = Service::with(plains("m", 3));
    service.failing_reset = Some(0);
    let outcome = service.run(parameters(Some(("type", "invoice"))));
    assert_eq!(outcome, Outcome { pipeline: Err(Error::NothingAfterFilter), reset_failed: true });
    assert_eq!(service.calls, ["receive", "reset"]);
    assert_eq!(outcome.exit_code(), 0);
    assert_eq!(outcome.into_result(), Err(Error::NothingAfterFilter));
}

#[test]
fn failed_reset_gives_up_the_messages_that_are_left() {
    let run = start(parameters(Some(("type", "invoice"))))
        .advance(Reply::Received(Some(plains("m", 12))))
        .advance(Reply::Completed { failed: 0 });
    assert!(!run.reset_failed);
    assert_eq!(run.rejected.len(), 2);
    let run = run.advance(Reply::Failed);
    assert!(matches!(run.stage, Stage::Resetting(Err(Error::NothingAfterFilter))));
    assert!(run.reset_failed);
    assert!(run.rejected.is_empty());
    assert!(run.is_finished());
    assert!(matches!(run.request(), Request::Nothing));
    assert_eq!(
        run.into_outcome(),
        Some(Outcome { pipeline: Err(Error::NothingAfterFilter), reset_failed: true })
    );
}

#[test]
fn outcome_without_a_failure_has_no_notice() {
    let mut service = Service::with(plains("m", 2));
    let outcome = service.run(parameters(None));
    assert_eq!(outcome, Outcome { pipeline: Ok(()), reset_failed: false });
    assert!(outcome.notices().is_empty());
    assert_eq!(outcome.exit_code(), 0);
    assert_eq!(outcome.into_result(), Ok(()));
}

#[test]
fn batch_with_a_failed_entry_is_not_deleted() {
    let run = start(parameters(None)).advance(Reply::Received(Some(plains("m", 2))));
    assert!(matches!(&run.stage, Stage::Pushing(batch) if *batch == plains("m", 2)));
    let run = run.advance(Reply::Completed { failed: 1 });
    assert!(run.is_finished());
    assert_eq!(result_of(run), Some(Err(Error::FailedToPushMessages)));
}

#[test]
fn answered_delete_goes_on_to_the_next_receive() {
    let run = start(parameters(None))
        .advance(Reply::Received(Some(plains("m", 2))))
        .advance(Reply::Completed { failed: 0 });
    assert!(matches!(&run.stage, Stage::Deleting(batch) if *batch == plains("m", 2)));
    match run.request() {
        Request::DeleteBatch(delete) => {
            assert_eq!(delete.queue_url, SOURCE);
            assert_eq!(delete.entries.len(), 2);
            assert_eq!(delete.entries[1].receipt_handle, "receipt-m1");
        },
        other => panic!("{other:?}"),
    }
    let run = run.advance(Reply::Completed { failed: 2 });
    assert!(matches!(run.stage, Stage::Pulling));
    assert!(matches!(run.request(), Request::Receive(_)));
}

#[test]
fn reply_to_another_call_fails_the_call() {
    let run = start(parameters(None)).advance(Reply::Completed { failed: 0 });
    assert_eq!(result_of(run), Some(Err(Error::MessagePullFailed)));
    let run = start(parameters(None))
        .advance(Reply::Received(Some(plains("m", 2))))
        .advance(Reply::Received(None));
    assert_eq!(result_of(run), Some(Err(Error::FailedToPushMessages)));
    let run = start(parameters(None))
        .advance(Reply::Received(Some(plains("m", 2))))
        .advance(Reply::Completed { failed: 0 })
        .advance(Reply::Received(None));
    assert_eq!(result_of(run), Some(Err(Error::FailedToDeleteMessages(plains("m", 2)))));
}

#[test]
fn finished_run_stays_as_it_is() {
    let run = start(parameters(None)).advance(Reply::Received(None));
    assert!(run.is_finished());
    let run = run.advance(Reply::Failed).advance(Reply::Received(Some(plains("m", 2))));
    assert!(run.is_finished());
    assert!(run.rejected.is_empty());
    assert_eq!(result_of(run), Some(Ok(())));
}

#[test]
fn run_that_still_resets_has_no_outcome() {
    let run = start(parameters(Some(("type", "invoice"))))
        .advance(Reply::Received(Some(plains("m", 12))));
    assert!(matches!(run.stage, Stage::Resetting(Err(Error::NothingAfterFilter))));
    assert!(!run.is_finished());
    assert_eq!(run.rejected, plains("m", 12));
    let run = run.advance(Reply::Completed { failed: 0 });
    assert_eq!(run.rejected, [plain("m10"), plain("m11")]);
    assert!(!run.is_finished());
    let run = run.advance(Reply::Completed { failed: 0 });
    assert!(run.is_finished());
    assert_eq!(result_of(run), Some(Err(Error::NothingAfterFilter)));
}

#[test]
fn pipeline_adds_to_the_rejected_messages() {
    let parameters = parameters(Some(("type", "invoice")));
    let mut rejected = vec![plain("old")];
    let batch = vec![plain("a"), invoice("b"), plain("c")];
    let stage =
        process_messages(&parameters, Stage::Pulling, &mut rejected, Reply::Received(Some(batch)));
    assert!(matches!(stage, Stage::Pushing(batch) if batch == [invoice("b")]));
    assert_eq!(rejected, [plain("old"), plain("a"), plain("c")]);
    let stage = process_messages(
        &parameters,
        Stage::Pushing(vec![invoice("b")]),
        &mut rejected,
        Reply::Failed,
    );
    assert!(matches!(stage, Stage::Resetting(Err(Error::FailedToPushMessages))));
    assert_eq!(rejected, [plain("old"), plain("a"), plain("c")]);
}
