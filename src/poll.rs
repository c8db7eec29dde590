use vstd::prelude::*;

use crate::event::{batch_ids, Event};
use crate::gateway::POLL_WAIT_SECS;

verus! {

/// What the driver of the loop does next.
#[derive(Clone, Copy, Debug, PartialEq, Eq, Structural)]
pub enum PollAction {
    /// Ask for the next batch, starting at `cursor`, letting the remote side wait up to `wait_secs`.
    Fetch { cursor: i64, wait_secs: u64 },
    /// Wait for the processing tasks of the current round; `remaining` are still running.
    AwaitTasks { remaining: usize },
}

/// Why the loop refused an event handed to it.
#[derive(Clone, Copy, Debug, PartialEq, Eq, Structural)]
pub enum RoundError {
    /// A batch arrived while tasks of the previous round were still running.
    RoundStillOpen,
    /// The batch's last identifier is the largest `i64`: no cursor follows it.
    CursorOverflow,
    /// A task finished while none was running.
    NoTaskInFlight,
}

/// The cursor to ask with after a batch with these identifiers:
/// one past the last of them, or the same cursor after an empty batch.
pub open spec fn next_cursor(cursor: i64, ids: Seq<i64>) -> int {
    if ids.len() == 0 {
        cursor as int
    } else {
        ids.last() + 1
    }
}

/// The largest identifier of a non-empty batch.
pub open spec fn max_id(ids: Seq<i64>) -> int
    decreases ids.len(),
{
    if ids.len() <= 1 {
        ids[0] as int
    } else {
        let m = max_id(ids.drop_last());
        if ids.last() > m { ids.last() as int } else { m }
    }
}

/// Identifiers as the remote side hands them out: strictly increasing.
pub open spec fn strictly_increasing(ids: Seq<i64>) -> bool {
    forall|i: int, j: int| 0 <= i < j < ids.len() ==> ids[i] < ids[j]
}

/// Identifiers that a batch asked for with `cursor` may hold: strictly increasing, none
/// below the cursor.
pub open spec fn batch_fits(cursor: i64, ids: Seq<i64>) -> bool {
    strictly_increasing(ids) && (ids.len() > 0 ==> ids[0] >= cursor)
}

/// The cursor after one round: unchanged when the fetch failed (`None`), else as the batch sets it.
pub open spec fn round_cursor(cursor: i64, batch: Option<Seq<i64>>) -> int {
    match batch {
        Some(ids) => next_cursor(cursor, ids),
        None => cursor as int,
    }
}

/// The polling sequence's state: the cursor and the number of tasks of the current round
/// that have not finished yet.
pub struct PollLoop {
    cursor: i64,
    in_flight: usize,
}

impl PollLoop {
    /// One task finished: one fewer is running and the cursor has not moved.
    pub open spec fn spec_finished_one(before: PollLoop, after: PollLoop) -> bool {
        after.spec_cursor() == before.spec_cursor() && after.spec_in_flight() + 1
            == before.spec_in_flight()
    }

    pub closed spec fn spec_cursor(&self) -> i64 {
        self.cursor
    }

    pub closed spec fn spec_in_flight(&self) -> usize {
        self.in_flight
    }

    /// The action that follows a state: a fetch only once every task of the round has finished.
    pub open spec fn spec_next_action(&self) -> PollAction {
        if self.spec_in_flight() == 0 {
            PollAction::Fetch { cursor: self.spec_cursor(), wait_secs: POLL_WAIT_SECS }
        } else {
            PollAction::AwaitTasks { remaining: self.spec_in_flight() }
        }
    }

    /// A loop that has seen nothing: the cursor starts at 0, which the remote side reads as
    /// "from the oldest pending event".
    pub fn new() -> (r: PollLoop)
        ensures
            r.spec_cursor() == 0,
            r.spec_in_flight() == 0,
    {
        PollLoop { cursor: 0, in_flight: 0 }
    }

    pub fn cursor(&self) -> (r: i64)
        ensures
            r == self.spec_cursor(),
    {
        self.cursor
    }

    pub fn in_flight(&self) -> (r: usize)
        ensures
            r == self.spec_in_flight(),
    {
        self.in_flight
    }

    /// What the driver does next.
    pub fn next_action(&self) -> (r: PollAction)
        ensures
            r == self.spec_next_action(),
    {
        if self.in_flight == 0 {
            PollAction::Fetch { cursor: self.cursor, wait_secs: POLL_WAIT_SECS }
        } else {
            PollAction::AwaitTasks { remaining: self.in_flight }
        }
    }

    /// A fetch failed: the round is over and the cursor stays where it was.
    pub fn on_fetch_failed(&mut self)
        ensures
            final(self).spec_cursor() == old(self).spec_cursor(),
            final(self).spec_in_flight() == old(self).spec_in_flight(),
    {
    }

    /// A batch arrived: the cursor moves one past its last identifier, and one task per event
    /// is now running. Refused, with the state unchanged, while tasks of an earlier round run
    /// or when no cursor follows the last identifier.
    pub fn on_batch(&mut self, batch: &Vec<Event>) -> (r: Result<(), RoundError>)
        ensures
            old(self).spec_in_flight() != 0 ==> r == Err::<(), RoundError>(RoundError::RoundStillOpen),
            old(self).spec_in_flight() == 0 && batch@.len() > 0 && batch@.last().id == i64::MAX
                ==> r == Err::<(), RoundError>(RoundError::CursorOverflow),
            r is Ok <==> (old(self).spec_in_flight() == 0 && (batch@.len() == 0 || batch@.last().id
                < i64::MAX)),
            r is Ok ==> final(self).spec_cursor() == next_cursor(
                old(self).spec_cursor(),
                batch_ids(batch@),
            ),
            r is Ok ==> final(self).spec_in_flight() == batch@.len(),
            r is Err ==> *final(self) == *old(self),
    {
        if self.in_flight != 0 {
            return Err(RoundError::RoundStillOpen);
        }
        let n = batch.len();
        if n > 0 {
            let last = batch[n - 1].id;
            if last == i64::MAX {
                return Err(RoundError::CursorOverflow);
            }
            self.cursor = last + 1;
        }
        self.in_flight = n;
        Ok(())
    }

    /// A task of the current round finished, whatever its outcome: the cursor is untouched.
    pub fn on_task_finished(&mut self) -> (r: Result<(), RoundError>)
        ensures
            r is Ok <==> old(self).spec_in_flight() > 0,
            r is Err ==> r == Err::<(), RoundError>(RoundError::NoTaskInFlight),
            r is Ok ==> PollLoop::spec_finished_one(*old(self), *final(self)),
            r is Err ==> *final(self) == *old(self),
            final(self).spec_cursor() == old(self).spec_cursor(),
    {
        if self.in_flight == 0 {
            return Err(RoundError::NoTaskInFlight);
        }
        self.in_flight = self.in_flight - 1;
        Ok(())
    }
}

proof fn lemma_increasing_max_is_last(ids: Seq<i64>)
    requires
        ids.len() > 0,
        strictly_increasing(ids),
    ensures
        max_id(ids) == ids.last(),
    decreases ids.len(),
{
    if ids.len() > 1 {
        let init = ids.drop_last();
        assert(strictly_increasing(init));
        lemma_increasing_max_is_last(init);
        assert(init.last() == ids[ids.len() - 2]);
    }
}

/// Over any sequence of rounds, the cursor that round `k + 1` asks with is the cursor of
/// round `k` (the fetch failed or the batch was empty) or one past the largest identifier
/// of round `k`'s batch, and it never falls below the cursor of an earlier round.
/// `cursors[k]` is the cursor round `k` asked with; `batches[k]` is what it fetched.
pub proof fn lemma_cursor_monotone(cursors: Seq<i64>, batches: Seq<Option<Seq<i64>>>)
    requires
        cursors.len() == batches.len() + 1,
        forall|k: int|
            0 <= k < batches.len() ==> cursors[k + 1] == #[trigger] round_cursor(
                cursors[k],
                batches[k],
            ),
        forall|k: int|
            0 <= k < batches.len() && #[trigger] batches[k] is Some ==> batch_fits(
                cursors[k],
                batches[k]->0,
            ),
    ensures
        forall|k: int|
            0 <= k < batches.len() ==> #[trigger] cursors[k + 1] == cursors[k] || (
            batches[k] matches Some(ids) && ids.len() > 0 && cursors[k + 1] == max_id(ids) + 1),
        forall|i: int, j: int| 0 <= i <= j < cursors.len() ==> cursors[i] <= cursors[j],
    decreases batches.len(),
{
    assert forall|k: int| 0 <= k < batches.len() implies cursors[k] <= #[trigger] cursors[k + 1]
        && (cursors[k + 1] == cursors[k] || (batches[k] matches Some(ids) && ids.len() > 0
        && cursors[k + 1] == max_id(ids) + 1)) by {
        assert(cursors[k + 1] == round_cursor(cursors[k], batches[k]));
        if let Some(ids) = batches[k] {
            assert(batch_fits(cursors[k], ids));
            if ids.len() > 0 {
                lemma_increasing_max_is_last(ids);
                assert(ids[0] <= ids.last());
            }
        }
    }
    if batches.len() > 0 {
        let n = batches.len() as int;
        lemma_cursor_monotone(cursors.drop_last(), batches.drop_last());
        assert forall|i: int, j: int| 0 <= i <= j < cursors.len() implies cursors[i]
            <= cursors[j] by {
            if j == n {
                if i < n {
                    assert(cursors.drop_last()[i] <= cursors.drop_last()[n - 1]);
                }
                assert(cursors[n - 1] <= cursors[n]);
            } else {
                assert(cursors.drop_last()[i] <= cursors.drop_last()[j]);
            }
        }
    }
}

/// Round barrier: the loop asks for a fetch exactly when no task of the round is running.
/// Starting from `n` running tasks, along any run of task completions the next action stays
/// "wait" until the `n`-th completion, and only then becomes a fetch, with the cursor of the
/// round. `states[k]` is the loop after `k` completions.
pub proof fn lemma_round_barrier(states: Seq<PollLoop>)
    requires
        states.len() > 0,
        forall|k: int|
            0 <= k < states.len() - 1 ==> PollLoop::spec_finished_one(
                #[trigger] states[k],
                states[k + 1],
            ),
    ensures
        forall|k: int|
            0 <= k < states.len() ==> (#[trigger] states[k].spec_next_action() is Fetch
                <==> k == states[0].spec_in_flight()),
        forall|k: int|
            0 <= k < states.len() ==> #[trigger] states[k].spec_cursor() == states[0].spec_cursor(),
{
    assert forall|k: int| 0 <= k < states.len() implies (
    #[trigger] states[k].spec_next_action() is Fetch <==> k == states[0].spec_in_flight())
        by {
        lemma_in_flight_after(states, k);
    }
    assert forall|k: int| 0 <= k < states.len() implies #[trigger] states[k].spec_cursor()
        == states[0].spec_cursor() by {
        lemma_in_flight_after(states, k);
    }
}

proof fn lemma_in_flight_after(states: Seq<PollLoop>, k: int)
    requires
        0 <= k < states.len(),
        forall|i: int|
            0 <= i < states.len() - 1 ==> PollLoop::spec_finished_one(
                #[trigger] states[i],
                states[i + 1],
            ),
    ensures
        states[k].spec_in_flight() + k == states[0].spec_in_flight(),
        states[k].spec_cursor() == states[0].spec_cursor(),
    decreases k,
{
    if k > 0 {
        lemma_in_flight_after(states, k - 1);
        assert(PollLoop::spec_finished_one(states[k - 1], states[k]));
    }
}

} // verus!
