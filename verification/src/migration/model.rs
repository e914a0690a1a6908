//! A mathematical model of the storage that a run works against, and of a
//! run as the sequence of answers that the caller hands to the engine.
//!
//! The storage is a sequence `rows`: `rows[i]` is the number of events of
//! miniblock `i` whose index is still to be assigned. A miniblock that the
//! sequence does not reach has none.

use vstd::prelude::*;
use crate::migration::engine::{Action, Event, MigrationView, Phase};

verus! {

/// Events of miniblock `block` that still lack their index.
pub open spec fn rows_at(rows: Seq<nat>, block: int) -> nat {
    if 0 <= block < rows.len() {
        rows[block]
    } else {
        0
    }
}

/// Events of the miniblocks `lo..=hi` that still lack their index.
pub open spec fn pending(rows: Seq<nat>, lo: int, hi: int) -> nat
    decreases hi - lo + 1,
{
    if hi < lo {
        0
    } else {
        rows_at(rows, hi) + pending(rows, lo, hi - 1)
    }
}

/// The storage after the indexes in `lo..=hi` were assigned.
pub open spec fn backfilled(rows: Seq<nat>, lo: int, hi: int) -> Seq<nat> {
    Seq::new(
        rows.len(),
        |i: int|
            if lo <= i <= hi {
                0nat
            } else {
                rows[i]
            },
    )
}

/// `event` is an answer that the storage, the stop signal or the clock may
/// give to `action` when the storage holds `rows`:
/// the check says "migrated" only of a window with nothing pending, an
/// assignment reports exactly the events that were pending in its window,
/// and either storage call may fail.
pub open spec fn answers(rows: Seq<nat>, action: Action, event: Event) -> bool {
    match (action, event) {
        (Action::CheckMigrated(range), Event::Migrated(done)) => done ==> pending(
            rows,
            range.start@ as int,
            range.end@ as int,
        ) == 0,
        (Action::CheckMigrated(_), Event::StorageFailed) => true,
        (Action::AssignIndexes(range), Event::Assigned(count)) => count == pending(
            rows,
            range.start@ as int,
            range.end@ as int,
        ),
        (Action::AssignIndexes(_), Event::StorageFailed) => true,
        (Action::PollStop, Event::Stop(_)) => true,
        (Action::Sleep, Event::Slept) => true,
        _ => false,
    }
}

/// The storage after `action` was answered by `event`: a successful
/// assignment clears its window, and nothing else changes anything.
pub open spec fn rows_after(rows: Seq<nat>, action: Action, event: Event) -> Seq<nat> {
    match (action, event) {
        (Action::AssignIndexes(range), Event::Assigned(_)) => backfilled(
            rows,
            range.start@ as int,
            range.end@ as int,
        ),
        _ => rows,
    }
}

/// Every event of `events`, in turn, answers what the run asks for.
pub open spec fn admissible(run: MigrationView, rows: Seq<nat>, events: Seq<Event>) -> bool
    decreases events.len(),
{
    events.len() > 0 ==> {
        &&& answers(rows, run.action(), events[0])
        &&& admissible(
            run.step(events[0]),
            rows_after(rows, run.action(), events[0]),
            events.skip(1),
        )
    }
}

/// The run after it was handed `events`.
pub open spec fn run_after(run: MigrationView, events: Seq<Event>) -> MigrationView
    decreases events.len(),
{
    if events.len() == 0 {
        run
    } else {
        run_after(run.step(events[0]), events.skip(1))
    }
}

/// The storage after the run was handed `events`.
pub open spec fn storage_after(run: MigrationView, rows: Seq<nat>, events: Seq<Event>) -> Seq<
    nat,
>
    decreases events.len(),
{
    if events.len() == 0 {
        rows
    } else {
        storage_after(
            run.step(events[0]),
            rows_after(rows, run.action(), events[0]),
            events.skip(1),
        )
    }
}

/// A count as the engine reports it: exact up to the largest `u64`, and
/// held there beyond it.
pub open spec fn reported(count: nat) -> nat {
    if count <= u64::MAX {
        count
    } else {
        u64::MAX as nat
    }
}

/// Steps that a run can still take at most.
pub open spec fn steps_left(run: MigrationView) -> nat {
    if run.is_terminal() {
        0
    } else {
        (4 * (run.last_miniblock + 1 - run.chunk_start) + match run.phase {
            Phase::Probing => 4int,
            Phase::Backfilling => 3int,
            Phase::Polling { .. } => 2int,
            _ => 1int,
        }) as nat
    }
}

} // verus!
