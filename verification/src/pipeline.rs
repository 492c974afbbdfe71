//! A transfer, as a run that is advanced by the replies of the queue service.
//!
//! A run receives a batch from the source queue, parts it by the filter, sends what passes to
//! the destination queue, deletes it from the source queue, and begins again. This pipeline
//! ends well when the source queue hands out nothing more. It ends with an error when a call
//! fails, and when no message of a batch passes the filter, whatever later batches may hold.
//! However it ends, the messages that the filter turned down are then made visible again on
//! the source queue, ten at a time, and the run is over. A reset that fails ends the run as
//! well; it is recorded beside the outcome of the pipeline, which it never replaces.
//!
//! A batch that could not be sent is neither deleted nor made visible again: it stays hidden
//! on the source queue until the timeout of its receipt runs out.
//!
//! Every call is made once. A reply that is not the answer to the outstanding call counts as
//! its failure. The service's count of failed entries decides for a send alone, where one
//! failed entry fails the batch; a deletion or a reset that was answered has succeeded.
//!
//! The run makes no call itself. [`Run::request`] tells which call is outstanding, and
//! [`Run::advance`] takes the reply to it.

use crate::cli::Parameters;
use crate::error::{exit_code_of, result_view, Error, ErrorView, Outcome, OutcomeView};
use crate::filter::{lemma_partition_complete, matched, maybe_filter_messages, rejected};
use crate::message::Message;
use crate::queue::{
    chunk, chunk_count, chunk_len, delete_messages_from_queue, deletes_batch, pull_messages,
    push_messages, receives, reset_chunk, resets_batch, sends_batch, DeleteBatchRequest,
    ReceiveRequest, Reply, SendBatchRequest, VisibilityBatchRequest, BATCH_LIMIT,
};
use vstd::prelude::*;

verus! {

/// Where a run stands: the call whose reply it waits for.
#[derive(Debug)]
pub enum Stage {
    /// A receive from the source queue.
    Pulling,
    /// The sending of these messages to the destination queue.
    Pushing(Vec<Message>),
    /// The deletion of these messages, which were sent, from the source queue.
    Deleting(Vec<Message>),
    /// The pipeline has ended with this outcome. The call resets the visibility of the first
    /// ten of the messages that are left of those that were turned down. Where none is left,
    /// no call is outstanding: the run is over.
    Resetting(Result<(), Error>),
}

/// A [`Stage`], with its messages as a sequence.
pub ghost enum StageView {
    Pulling,
    Pushing(Seq<Message>),
    Deleting(Seq<Message>),
    Resetting(Result<(), ErrorView>),
}

impl View for Stage {
    type V = StageView;

    open spec fn view(&self) -> StageView {
        match self {
            Stage::Pulling => StageView::Pulling,
            Stage::Pushing(batch) => StageView::Pushing(batch@),
            Stage::Deleting(batch) => StageView::Deleting(batch@),
            Stage::Resetting(outcome) => StageView::Resetting(result_view(*outcome)),
        }
    }
}

/// A transfer in progress.
#[derive(Debug)]
pub struct Run {
    pub parameters: Parameters,
    pub stage: Stage,
    /// The messages that the filter has turned down and whose visibility is still to be
    /// reset.
    pub rejected: Vec<Message>,
    /// Whether a reset of visibility has failed.
    pub reset_failed: bool,
}

/// A [`Run`], with its messages as sequences.
pub ghost struct RunView {
    pub parameters: Parameters,
    pub stage: StageView,
    pub rejected: Seq<Message>,
    pub reset_failed: bool,
}

impl View for Run {
    type V = RunView;

    open spec fn view(&self) -> RunView {
        RunView {
            parameters: self.parameters,
            stage: self.stage@,
            rejected: self.rejected@,
            reset_failed: self.reset_failed,
        }
    }
}

/// The messages that `reply` brought: those of a receive that was answered with a list.
pub open spec fn received(reply: Reply) -> Seq<Message> {
    match reply {
        Reply::Received(Some(messages)) => messages@,
        _ => Seq::empty(),
    }
}

/// Whether `reply` tells that a batch was sent: the call was answered, and no entry failed.
pub open spec fn was_sent(reply: Reply) -> bool {
    reply matches Reply::Completed { failed } && failed == 0
}

/// The stage that follows `stage` in the pipeline after `reply`, under `filter`.
///
/// A receive that is not answered ends the pipeline with `MessagePullFailed`, one that
/// brings nothing ends it well, and one of which nothing passes the filter ends it with
/// `NothingAfterFilter`; else what passes is sent. A batch that is not sent whole ends the
/// pipeline with `FailedToPushMessages`; else it is deleted. A deletion that is not answered
/// ends the pipeline with `FailedToDeleteMessages` and the batch; else the next batch is
/// received. A pipeline that has ended stays as it is.
pub open spec fn next_stage(
    filter: Option<(String, String)>,
    stage: StageView,
    reply: Reply,
) -> StageView {
    match stage {
        StageView::Pulling => if !(reply is Received) {
            StageView::Resetting(Err(ErrorView::MessagePullFailed))
        } else if received(reply).len() == 0 {
            StageView::Resetting(Ok(()))
        } else if matched(filter, received(reply)).len() == 0 {
            StageView::Resetting(Err(ErrorView::NothingAfterFilter))
        } else {
            StageView::Pushing(matched(filter, received(reply)))
        },
        StageView::Pushing(batch) => if was_sent(reply) {
            StageView::Deleting(batch)
        } else {
            StageView::Resetting(Err(ErrorView::FailedToPushMessages))
        },
        StageView::Deleting(batch) => if reply is Completed {
            StageView::Pulling
        } else {
            StageView::Resetting(Err(ErrorView::FailedToDeleteMessages(batch)))
        },
        StageView::Resetting(outcome) => stage,
    }
}

/// The messages that are turned down once the pipeline, at `stage`, has taken `reply`: those
/// that were, and behind them those that a receive brought and the filter does not let pass.
pub open spec fn next_rejected(
    filter: Option<(String, String)>,
    stage: StageView,
    turned_down: Seq<Message>,
    reply: Reply,
) -> Seq<Message> {
    match stage {
        StageView::Pulling => turned_down + rejected(filter, received(reply)),
        _ => turned_down,
    }
}

/// Takes the reply to the call of a pipeline stage: gives the stage that follows, and adds to
/// `turned_down` the messages that the filter does not let pass.
pub fn process_messages(
    parameters: &Parameters,
    stage: Stage,
    turned_down: &mut Vec<Message>,
    reply: Reply,
) -> (next: Stage)
    ensures
        next@ == next_stage(parameters.filter, stage@, reply),
        final(turned_down)@ == next_rejected(parameters.filter, stage@, old(turned_down)@, reply),
{
    proof {
        reveal(Seq::filter);
    }
    match stage {
        Stage::Pulling => match reply {
            Reply::Received(list) => {
                let messages = match list {
                    Some(messages) => messages,
                    None => Vec::new(),
                };
                if messages.is_empty() {
                    return Stage::Resetting(Ok(()));
                }
                let (passed, mut failed) = maybe_filter_messages(&parameters.filter, messages);
                turned_down.append(&mut failed);
                if passed.is_empty() {
                    Stage::Resetting(Err(Error::NothingAfterFilter))
                } else {
                    Stage::Pushing(passed)
                }
            },
            _ => {
                assert(turned_down@ + rejected(parameters.filter, received(reply))
                    == turned_down@);
                Stage::Resetting(Err(Error::MessagePullFailed))
            },
        },
        Stage::Pushing(batch) => match reply {
            Reply::Completed { failed } => if failed == 0 {
                Stage::Deleting(batch)
            } else {
                Stage::Resetting(Err(Error::FailedToPushMessages))
            },
            _ => Stage::Resetting(Err(Error::FailedToPushMessages)),
        },
        Stage::Deleting(batch) => match reply {
            Reply::Completed { .. } => Stage::Pulling,
            _ => Stage::Resetting(Err(Error::FailedToDeleteMessages(batch))),
        },
        Stage::Resetting(outcome) => Stage::Resetting(outcome),
    }
}

/// A call to the queue service, by the messages that it is about.
pub ghost enum Call {
    /// A receive from the source queue.
    Receive,
    /// The sending of a batch to the destination queue.
    SendBatch(Seq<Message>),
    /// The deletion of a batch from the source queue.
    DeleteBatch(Seq<Message>),
    /// The reset of the visibility of a batch on the source queue.
    ChangeVisibilityBatch(Seq<Message>),
    /// No call: the run is over.
    Nothing,
}

impl RunView {
    /// The call whose reply the run waits for.
    pub open spec fn call(self) -> Call {
        match self.stage {
            StageView::Pulling => Call::Receive,
            StageView::Pushing(batch) => Call::SendBatch(batch),
            StageView::Deleting(batch) => Call::DeleteBatch(batch),
            StageView::Resetting(_) => if self.rejected.len() == 0 {
                Call::Nothing
            } else {
                Call::ChangeVisibilityBatch(chunk(self.rejected, 0))
            },
        }
    }

    /// Whether the run is over: the pipeline has ended, and no message is left whose
    /// visibility is to be reset.
    pub open spec fn is_finished(self) -> bool {
        self.stage is Resetting && self.rejected.len() == 0
    }

    /// How the run ended, once it is over.
    pub open spec fn outcome(self) -> Option<OutcomeView> {
        match self.stage {
            StageView::Resetting(pipeline) if self.rejected.len() == 0 => Some(
                OutcomeView { pipeline, reset_failed: self.reset_failed },
            ),
            _ => None,
        }
    }
}

/// The run after `reply` to its outstanding call.
///
/// In the pipeline the stage and the messages that are turned down change as
/// [`next_stage`] and [`next_rejected`] say. Once the pipeline has ended, its outcome stays
/// as it is. A reset that is answered leaves the messages behind the first ten to be reset.
/// A reset that fails is recorded beside the outcome of the pipeline, and ends the run: the
/// messages that are left are given up. A run that is over stays as it is.
pub open spec fn step(run: RunView, reply: Reply) -> RunView {
    match run.stage {
        StageView::Resetting(_) => if run.rejected.len() == 0 {
            run
        } else if reply is Completed {
            RunView {
                rejected: run.rejected.skip(chunk_len(run.rejected.len(), 0) as int),
                ..run
            }
        } else {
            RunView { rejected: Seq::empty(), reset_failed: true, ..run }
        },
        _ => RunView {
            stage: next_stage(run.parameters.filter, run.stage, reply),
            rejected: next_rejected(run.parameters.filter, run.stage, run.rejected, reply),
            ..run
        },
    }
}

/// A call to the queue service, as the request that is handed to it.
#[derive(Debug)]
pub enum Request<'a> {
    Receive(ReceiveRequest<'a>),
    SendBatch(SendBatchRequest<'a>),
    DeleteBatch(DeleteBatchRequest<'a>),
    ChangeVisibilityBatch(VisibilityBatchRequest<'a>),
    /// No call is to be made.
    Nothing,
}

/// Whether `request` makes `call` on the queues of `parameters`.
pub open spec fn makes(request: Request, call: Call, parameters: Parameters) -> bool {
    match call {
        Call::Receive => request matches Request::Receive(receive) && receives(
            receive,
            parameters.source@,
        ),
        Call::SendBatch(batch) => request matches Request::SendBatch(send) && sends_batch(
            send,
            parameters.destination@,
            batch,
        ),
        Call::DeleteBatch(batch) => request matches Request::DeleteBatch(delete)
            && deletes_batch(delete, parameters.source@, batch),
        Call::ChangeVisibilityBatch(batch) => request matches Request::ChangeVisibilityBatch(
            reset,
        ) && resets_batch(reset, parameters.source@, batch),
        Call::Nothing => request is Nothing,
    }
}

/// The run of a transfer with `parameters`, before its first call: a receive.
pub fn start(parameters: Parameters) -> (run: Run)
    ensures
        run@ == (RunView {
            parameters,
            stage: StageView::Pulling,
            rejected: Seq::empty(),
            reset_failed: false,
        }),
{
    Run { parameters, stage: Stage::Pulling, rejected: Vec::new(), reset_failed: false }
}

impl Run {
    /// The request of the call whose reply the run waits for.
    pub fn request(&self) -> (request: Request<'_>)
        ensures
            makes(request, self@.call(), self.parameters),
    {
        match &self.stage {
            Stage::Pulling => Request::Receive(pull_messages(self.parameters.source.as_str())),
            Stage::Pushing(batch) => Request::SendBatch(
                push_messages(self.parameters.destination.as_str(), batch),
            ),
            Stage::Deleting(batch) => Request::DeleteBatch(
                delete_messages_from_queue(self.parameters.source.as_str(), batch),
            ),
            Stage::Resetting(_) => if self.rejected.is_empty() {
                Request::Nothing
            } else {
                Request::ChangeVisibilityBatch(
                    reset_chunk(self.parameters.source.as_str(), &self.rejected, 0),
                )
            },
        }
    }

    /// Takes the reply to the outstanding call.
    pub fn advance(self, reply: Reply) -> (next: Run)
        ensures
            next@ == step(self@, reply),
    {
        let Run { parameters, stage, mut rejected, reset_failed } = self;
        match stage {
            Stage::Resetting(outcome) => {
                if rejected.is_empty() {
                    Run { parameters, stage: Stage::Resetting(outcome), rejected, reset_failed }
                } else {
                    match reply {
                        Reply::Completed { .. } => {
                            let len = if rejected.len() < BATCH_LIMIT {
                                rejected.len()
                            } else {
                                BATCH_LIMIT
                            };
                            let left = rejected.split_off(len);
                            Run {
                                parameters,
                                stage: Stage::Resetting(outcome),
                                rejected: left,
                                reset_failed,
                            }
                        },
                        _ => Run {
                            parameters,
                            stage: Stage::Resetting(outcome),
                            rejected: Vec::new(),
                            reset_failed: true,
                        },
                    }
                }
            },
            stage => {
                let next = process_messages(&parameters, stage, &mut rejected, reply);
                Run { parameters, stage: next, rejected, reset_failed }
            },
        }
    }

    /// Whether the run is over.
    pub fn is_finished(&self) -> (finished: bool)
        ensures
            finished == self@.is_finished(),
    {
        match &self.stage {
            Stage::Resetting(_) => self.rejected.is_empty(),
            _ => false,
        }
    }

    /// How the run ended, once it is over: how the pipeline ended, and whether a reset
    /// failed.
    pub fn into_outcome(self) -> (outcome: Option<Outcome>)
        ensures
            match outcome {
                Some(outcome) => self@.outcome() == Some(outcome@),
                None => self@.outcome() is None,
            },
    {
        let Run { parameters: _, stage, rejected, reset_failed } = self;
        match stage {
            Stage::Resetting(pipeline) => if rejected.is_empty() {
                Some(Outcome { pipeline, reset_failed })
            } else {
                None
            },
            _ => None,
        }
    }
}

/// The run after the replies `replies`, one after the other.
pub open spec fn after(run: RunView, replies: Seq<Reply>) -> RunView
    decreases replies.len(),
{
    if replies.len() == 0 {
        run
    } else {
        step(after(run, replies.drop_last()), replies.last())
    }
}

/// Whether `tail` is what is left of `whole` behind some of its first messages.
pub open spec fn is_tail_of(tail: Seq<Message>, whole: Seq<Message>) -> bool {
    tail.len() <= whole.len() && tail == whole.skip(whole.len() - tail.len())
}

/// Once the pipeline has ended, whatever the replies, it stays ended with the outcome that
/// it has: no call is made but resets of visibility, and no message is added to those that
/// are to be reset.
pub proof fn lemma_ended_pipeline_only_resets(run: RunView, replies: Seq<Reply>)
    requires
        run.stage is Resetting,
    ensures
        after(run, replies).stage == run.stage,
        after(run, replies).call() is ChangeVisibilityBatch || after(run, replies).call()
            is Nothing,
        after(run, replies).parameters == run.parameters,
        is_tail_of(after(run, replies).rejected, run.rejected),
    decreases replies.len(),
{
    if replies.len() == 0 {
        assert(run.rejected.skip(0) == run.rejected);
    } else {
        lemma_ended_pipeline_only_resets(run, replies.drop_last());
        let before = after(run, replies.drop_last());
        let cut = run.rejected.len() - before.rejected.len();
        if before.rejected.len() == 0 {
        } else if replies.last() is Completed {
            let len = chunk_len(before.rejected.len(), 0) as int;
            assert(run.rejected.skip(cut).skip(len) == run.rejected.skip(cut + len));
        } else {
            assert(run.rejected.skip(run.rejected.len() as int) == Seq::<Message>::empty());
        }
    }
}

/// Where a batch is not sent, none of its messages is deleted from the source queue: the
/// pipeline ends with `FailedToPushMessages`, no deletion is ever called for, and the batch
/// is not among the messages whose visibility is reset.
pub proof fn lemma_failed_push_deletes_nothing(run: RunView, reply: Reply, later: Seq<Reply>)
    requires
        run.stage is Pushing,
        !was_sent(reply),
    ensures
        step(run, reply).stage == StageView::Resetting(Err(ErrorView::FailedToPushMessages)),
        step(run, reply).rejected == run.rejected,
        after(step(run, reply), later).stage == step(run, reply).stage,
        !(after(step(run, reply), later).call() is DeleteBatch),
        is_tail_of(after(step(run, reply), later).rejected, run.rejected),
{
    lemma_ended_pipeline_only_resets(step(run, reply), later);
}

/// Once the pipeline has ended with `n` messages turned down, and as long as the resets are
/// answered, the run calls for `n / 10` resets, rounded up: the `k`-th is for the `k`-th chunk
/// of those messages, which holds between one and ten of them. After the last one the run is
/// over, with the outcome of the pipeline.
pub proof fn lemma_reset_goes_by_chunks(run: RunView, replies: Seq<Reply>)
    requires
        run.stage is Resetting,
        forall|i: int| 0 <= i < replies.len() ==> replies[i] is Completed,
        replies.len() <= chunk_count(run.rejected.len()),
    ensures
        ({
            let k = replies.len();
            let n = run.rejected.len();
            let now = after(run, replies);
            &&& now.stage == run.stage
            &&& now.parameters == run.parameters
            &&& now.reset_failed == run.reset_failed
            &&& now.rejected == run.rejected.skip(
                if BATCH_LIMIT * k <= n {
                    BATCH_LIMIT * k
                } else {
                    n as int
                },
            )
            &&& k < chunk_count(n) ==> {
                &&& now.call() == Call::ChangeVisibilityBatch(chunk(run.rejected, k))
                &&& 1 <= chunk(run.rejected, k).len() <= BATCH_LIMIT
            }
            &&& k == chunk_count(n) ==> {
                &&& now.call() is Nothing
                &&& now.outcome() == Some(
                    OutcomeView {
                        pipeline: run.stage->Resetting_0,
                        reset_failed: run.reset_failed,
                    },
                )
            }
        }),
    decreases replies.len(),
{
    let k = replies.len();
    if k > 0 {
        lemma_reset_goes_by_chunks(run, replies.drop_last());
    }
    if k < chunk_count(run.rejected.len()) {
        assert(chunk(after(run, replies).rejected, 0) == chunk(run.rejected, k));
    }
}

/// A reset that is not answered ends the run at once: no call is made for the chunks that
/// are left, and those messages are given up. The failure is recorded, and the outcome of
/// the pipeline stays as it was.
pub proof fn lemma_failed_reset_ends_the_run(run: RunView, reply: Reply)
    requires
        run.stage is Resetting,
        run.rejected.len() > 0,
        !(reply is Completed),
    ensures
        step(run, reply).call() is Nothing,
        step(run, reply).rejected.len() == 0,
        step(run, reply).stage == run.stage,
        step(run, reply).outcome() == Some(
            OutcomeView { pipeline: run.stage->Resetting_0, reset_failed: true },
        ),
{
}

/// The failure of a reset never hides the error of a pipeline: however a run goes on once
/// its pipeline has ended with an error, where it is over its result is that error, and its
/// exit code is the one of that error.
pub proof fn lemma_pipeline_error_is_kept(run: RunView, replies: Seq<Reply>)
    requires
        run.stage matches StageView::Resetting(Err(_)),
    ensures
        after(run, replies).outcome() matches Some(outcome) ==> {
            &&& outcome.pipeline == run.stage->Resetting_0
            &&& outcome.result() == run.stage->Resetting_0
            &&& exit_code_of(outcome.result()) == exit_code_of(run.stage->Resetting_0)
        },
{
    lemma_ended_pipeline_only_resets(run, replies);
}

/// A run ends with `FailedToChangeMessageVisibility` as its result only where a reset
/// failed and its pipeline had ended well, or where the pipeline itself was set to that
/// error; its exit code is the one of the pipeline's outcome in every case.
pub proof fn lemma_reset_failure_is_a_warning(outcome: OutcomeView)
    ensures
        exit_code_of(outcome.result()) == exit_code_of(outcome.pipeline),
        outcome.result() == Err::<(), ErrorView>(ErrorView::FailedToChangeMessageVisibility)
            ==> (outcome.pipeline is Ok && outcome.reset_failed) || outcome.pipeline == Err::<
            (),
            ErrorView,
        >(ErrorView::FailedToChangeMessageVisibility),
{
}

/// However the pipeline ends, the visibility of exactly the messages that were turned down
/// up to then is reset: as long as the resets are answered, the run calls for the chunks of
/// those messages, one after the other, and is then over with the outcome of the pipeline.
pub proof fn lemma_cleanup_follows_every_end(run: RunView, reply: Reply, replies: Seq<Reply>)
    requires
        !(run.stage is Resetting),
        step(run, reply).stage is Resetting,
        forall|i: int| 0 <= i < replies.len() ==> replies[i] is Completed,
        replies.len() <= chunk_count(step(run, reply).rejected.len()),
    ensures
        ({
            let turned_down = next_rejected(
                run.parameters.filter,
                run.stage,
                run.rejected,
                reply,
            );
            let k = replies.len();
            let now = after(step(run, reply), replies);
            &&& step(run, reply).rejected == turned_down
            &&& k < chunk_count(turned_down.len()) ==> now.call() == Call::ChangeVisibilityBatch(
                chunk(turned_down, k),
            )
            &&& k == chunk_count(turned_down.len()) ==> {
                &&& now.call() is Nothing
                &&& now.outcome() == Some(
                    OutcomeView {
                        pipeline: step(run, reply).stage->Resetting_0,
                        reset_failed: run.reset_failed,
                    },
                )
            }
        }),
{
    lemma_reset_goes_by_chunks(step(run, reply), replies);
}

/// No message that is received is dropped: the batch that is sent next and the messages that
/// are turned down hold, together, what was turned down before and what the receive brought.
pub proof fn lemma_received_is_sent_or_turned_down(run: RunView, reply: Reply)
    requires
        run.stage is Pulling,
    ensures
        ({
            let next = step(run, reply);
            let batch = match next.stage {
                StageView::Pushing(batch) => batch,
                _ => Seq::empty(),
            };
            batch.to_multiset().add(next.rejected.to_multiset()) == received(
                reply,
            ).to_multiset().add(run.rejected.to_multiset())
        }),
{
    broadcast use vstd::seq_lib::group_to_multiset_ensures;

    let filter = run.parameters.filter;
    let brought = received(reply);
    let next = step(run, reply);
    let batch = match next.stage {
        StageView::Pushing(batch) => batch,
        _ => Seq::empty(),
    };
    lemma_partition_complete(filter, brought);
    vstd::seq_lib::lemma_multiset_commutative(run.rejected, rejected(filter, brought));
    assert(batch.to_multiset().add(next.rejected.to_multiset()) =~= brought.to_multiset().add(
        run.rejected.to_multiset(),
    ));
}

} // verus!
