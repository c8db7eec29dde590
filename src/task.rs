use vstd::prelude::*;

use crate::event::{payload_reference, Event};
use crate::gateway::GatewayError;

verus! {

/// How the processing of one event ended.
#[derive(Clone, Debug)]
pub enum TaskOutcome {
    /// The event carried no artifact reference: nothing was called.
    Skipped,
    /// The artifact was fetched and submitted.
    Delivered,
    /// Fetching the artifact failed; nothing was submitted.
    FetchFailed(GatewayError),
    /// The artifact was fetched but submitting it failed.
    SubmitFailed(GatewayError),
}

/// Where the processing of one event stands.
#[derive(Clone, Debug)]
pub enum Stage {
    /// The artifact is being fetched; it goes to `chat_id`, in reply to `reply_to`.
    Fetching { chat_id: i64, reply_to: i64 },
    /// The artifact is being submitted to `chat_id`, in reply to `reply_to`.
    Submitting { chat_id: i64, reply_to: i64 },
    /// Processing is over; nothing more is called for this event.
    Finished(TaskOutcome),
}

/// What the driver of a task reports back.
#[derive(Debug)]
pub enum TaskEvent {
    ArtifactFetched(Vec<u8>),
    ArtifactFailed(GatewayError),
    Submitted,
    SubmitFailed(GatewayError),
}

/// What the driver of a task does next.
#[derive(Debug)]
pub enum TaskAction {
    /// Resolve `reference` and retrieve the artifact it names.
    FetchArtifact { reference: String },
    /// Submit `artifact` to `chat_id`, in reply to message `reply_to`.
    Submit { artifact: Vec<u8>, chat_id: i64, reply_to: i64 },
    /// Nothing new: the reported event does not belong to the current stage.
    Wait,
    /// The task is over.
    Complete,
}

/// Whether an action calls out to the remote service.
pub open spec fn calls_out(a: TaskAction) -> bool {
    a is FetchArtifact || a is Submit
}

/// The stage a task starts in for an event.
pub open spec fn start_stage(e: Event) -> Stage {
    match payload_reference(e) {
        Some(_) => Stage::Fetching {
            chat_id: e.message->0.chat_id,
            reply_to: e.message->0.message_id,
        },
        None => Stage::Finished(TaskOutcome::Skipped),
    }
}

/// One step of a task: the stage after a reported event, and the action it calls for.
/// An event that does not belong to the stage changes nothing.
pub open spec fn step(stage: Stage, ev: TaskEvent) -> (Stage, TaskAction) {
    match stage {
        Stage::Fetching { chat_id, reply_to } => match ev {
            TaskEvent::ArtifactFetched(bytes) => (
                Stage::Submitting { chat_id, reply_to },
                TaskAction::Submit { artifact: bytes, chat_id, reply_to },
            ),
            TaskEvent::ArtifactFailed(e) => (
                Stage::Finished(TaskOutcome::FetchFailed(e)),
                TaskAction::Complete,
            ),
            _ => (stage, TaskAction::Wait),
        },
        Stage::Submitting { .. } => match ev {
            TaskEvent::Submitted => (Stage::Finished(TaskOutcome::Delivered), TaskAction::Complete),
            TaskEvent::SubmitFailed(e) => (
                Stage::Finished(TaskOutcome::SubmitFailed(e)),
                TaskAction::Complete,
            ),
            _ => (stage, TaskAction::Wait),
        },
        Stage::Finished(_) => (stage, TaskAction::Complete),
    }
}

/// The stage after a run of reported events, and the actions called for along the way.
pub open spec fn run(stage: Stage, evs: Seq<TaskEvent>) -> (Stage, Seq<TaskAction>)
    decreases evs.len(),
{
    if evs.len() == 0 {
        (stage, Seq::empty())
    } else {
        let (next, a) = step(stage, evs[0]);
        let (last, rest) = run(next, evs.drop_first());
        (last, seq![a] + rest)
    }
}

/// The processing of one event, end to end: fetch its artifact, then submit it back to the
/// event's origin. Failures end the task; they are never retried.
pub struct EventTask {
    stage: Stage,
}

impl EventTask {
    pub closed spec fn spec_stage(&self) -> Stage {
        self.stage
    }

    /// Starts processing `event`: an event without an artifact reference is finished at once
    /// and calls nothing; any other first fetches the artifact it references.
    pub fn start(event: &Event) -> (r: (EventTask, TaskAction))
        ensures
            r.0.spec_stage() == start_stage(*event),
            payload_reference(*event) is None ==> r.1 is Complete,
            payload_reference(*event) matches Some(reference) ==> (r.1 matches
                TaskAction::FetchArtifact { reference: s } && s@ == reference),
    {
        match event.payload_reference() {
            Some(reference) => {
                let m = event.message.as_ref().unwrap();
                (
                    EventTask {
                        stage: Stage::Fetching { chat_id: m.chat_id, reply_to: m.message_id },
                    },
                    TaskAction::FetchArtifact { reference },
                )
            },
            None => (EventTask { stage: Stage::Finished(TaskOutcome::Skipped) }, TaskAction::Complete),
        }
    }

    pub fn stage(&self) -> (r: &Stage)
        ensures
            *r == self.spec_stage(),
    {
        &self.stage
    }

    /// Whether processing is over.
    pub fn is_finished(&self) -> (r: bool)
        ensures
            r == self.spec_stage() is Finished,
    {
        match &self.stage {
            Stage::Finished(_) => true,
            _ => false,
        }
    }

    /// Reports an event to the task and returns what to do next.
    pub fn advance(&mut self, ev: TaskEvent) -> (r: TaskAction)
        ensures
            (final(self).spec_stage(), r) == step(old(self).spec_stage(), ev),
    {
        match &self.stage {
            Stage::Fetching { chat_id, reply_to } => match ev {
                TaskEvent::ArtifactFetched(bytes) => {
                    let (chat_id, reply_to) = (*chat_id, *reply_to);
                    self.stage = Stage::Submitting { chat_id, reply_to };
                    TaskAction::Submit { artifact: bytes, chat_id, reply_to }
                },
                TaskEvent::ArtifactFailed(e) => {
                    self.stage = Stage::Finished(TaskOutcome::FetchFailed(e));
                    TaskAction::Complete
                },
                _ => TaskAction::Wait,
            },
            Stage::Submitting { .. } => match ev {
                TaskEvent::Submitted => {
                    self.stage = Stage::Finished(TaskOutcome::Delivered);
                    TaskAction::Complete
                },
                TaskEvent::SubmitFailed(e) => {
                    self.stage = Stage::Finished(TaskOutcome::SubmitFailed(e));
                    TaskAction::Complete
                },
                _ => TaskAction::Wait,
            },
            Stage::Finished(_) => TaskAction::Complete,
        }
    }
}

/// A finished task is never re-attempted: whatever is reported to it afterwards, it stays
/// finished with the same outcome and calls nothing.
pub proof fn lemma_finished_task_calls_nothing(outcome: TaskOutcome, evs: Seq<TaskEvent>)
    ensures
        run(Stage::Finished(outcome), evs).0 == Stage::Finished(outcome),
        run(Stage::Finished(outcome), evs).1.len() == evs.len(),
        forall|i: int|
            0 <= i < evs.len() ==> !calls_out(#[trigger] run(Stage::Finished(outcome), evs).1[i]),
    decreases evs.len(),
{
    if evs.len() > 0 {
        lemma_finished_task_calls_nothing(outcome, evs.drop_first());
        let rest = run(Stage::Finished(outcome), evs.drop_first()).1;
        assert(run(Stage::Finished(outcome), evs).1 == seq![TaskAction::Complete] + rest);
        assert forall|i: int| 0 <= i < evs.len() implies !calls_out(
            #[trigger] run(Stage::Finished(outcome), evs).1[i],
        ) by {
            if i > 0 {
                assert(run(Stage::Finished(outcome), evs).1[i] == rest[i - 1]);
            }
        }
    }
}

/// An event without an artifact reference completes at once and, whatever is reported to its
/// task afterwards, no fetch or submit is ever called for it.
pub proof fn lemma_no_payload_calls_nothing(e: Event, evs: Seq<TaskEvent>)
    requires
        payload_reference(e) is None,
    ensures
        start_stage(e) == Stage::Finished(TaskOutcome::Skipped),
        forall|i: int| 0 <= i < evs.len() ==> !calls_out(#[trigger] run(start_stage(e), evs).1[i]),
{
    lemma_finished_task_calls_nothing(TaskOutcome::Skipped, evs);
}

/// A failure ends the task: after a failed fetch nothing is submitted, and after any failure
/// the task is finished with that failure as its outcome.
pub proof fn lemma_failure_ends_task(stage: Stage, ev: TaskEvent)
    requires
        ev is ArtifactFailed || ev is SubmitFailed,
    ensures
        !calls_out(step(stage, ev).1),
        stage is Fetching ==> (ev matches TaskEvent::ArtifactFailed(e) ==> step(stage, ev).0
            == Stage::Finished(TaskOutcome::FetchFailed(e))),
        stage is Submitting ==> (ev matches TaskEvent::SubmitFailed(e) ==> step(stage, ev).0
            == Stage::Finished(TaskOutcome::SubmitFailed(e))),
{
}

} // verus!
