//! What holds of every run of the engine against a storage that keeps its
//! side of the bargain.

use vstd::prelude::*;
use crate::identifiers::MiniblockNumber;
use crate::migration::engine::{Event, MigrationView, Phase};
use crate::migration::model::{
    admissible,
    answers,
    backfilled,
    pending,
    reported,
    rows_after,
    rows_at,
    run_after,
    steps_left,
    storage_after,
};

verus! {

proof fn lemma_pending_split(rows: Seq<nat>, lo: int, mid: int, hi: int)
    requires
        lo <= mid + 1,
        mid <= hi,
    ensures
        pending(rows, lo, hi) == pending(rows, lo, mid) + pending(rows, mid + 1, hi),
    decreases hi - mid,
{
    if mid < hi {
        lemma_pending_split(rows, lo, mid, hi - 1);
    }
}

proof fn lemma_pending_outside(rows: Seq<nat>, a: int, b: int, lo: int, hi: int)
    requires
        hi < a || b < lo,
    ensures
        pending(backfilled(rows, a, b), lo, hi) == pending(rows, lo, hi),
    decreases hi - lo + 1,
{
    if lo <= hi {
        lemma_pending_outside(rows, a, b, lo, hi - 1);
    }
}

proof fn lemma_pending_inside(rows: Seq<nat>, a: int, b: int, lo: int, hi: int)
    requires
        a <= lo,
        hi <= b,
    ensures
        pending(backfilled(rows, a, b), lo, hi) == 0,
    decreases hi - lo + 1,
{
    if lo <= hi {
        lemma_pending_inside(rows, a, b, lo, hi - 1);
    }
}

proof fn lemma_nothing_pending(rows: Seq<nat>, lo: int, hi: int, block: int)
    requires
        pending(rows, lo, hi) == 0,
        lo <= block <= hi,
    ensures
        rows_at(rows, block) == 0,
    decreases hi - lo + 1,
{
    if block < hi {
        lemma_nothing_pending(rows, lo, hi - 1, block);
    }
}

proof fn lemma_backfill_of_migrated(rows: Seq<nat>, lo: int, hi: int)
    requires
        pending(rows, lo, hi) == 0,
    ensures
        backfilled(rows, lo, hi) == rows,
{
    assert forall|i: int| 0 <= i < rows.len() implies backfilled(rows, lo, hi)[i] == rows[i] by {
        if lo <= i <= hi {
            lemma_nothing_pending(rows, lo, hi, i);
        }
    }
    assert(backfilled(rows, lo, hi) =~= rows);
}

/// The last miniblock up to which the run knows everything to be migrated.
spec fn done_upto(run: MigrationView) -> int {
    match run.phase {
        Phase::Probing | Phase::Backfilling | Phase::Failed => run.chunk_start - 1,
        Phase::Polling { .. } | Phase::Sleeping | Phase::Cancelled => run.chunk_end() as int,
        Phase::Completed => run.last_miniblock as int,
    }
}

/// The run and the storage fit together: of the `total` events that were
/// pending when the run began, the run has counted those that are pending
/// no more, and nothing is pending below the run's mark.
spec fn consistent(run: MigrationView, rows: Seq<nat>, total: nat) -> bool {
    &&& run.wf()
    &&& pending(rows, 0, run.last_miniblock as int) <= total
    &&& run.events_affected == reported(
        (total - pending(rows, 0, run.last_miniblock as int)) as nat,
    )
    &&& pending(rows, 0, done_upto(run)) == 0
}

proof fn lemma_step_consistent(run: MigrationView, rows: Seq<nat>, total: nat, event: Event)
    requires
        consistent(run, rows, total),
        answers(rows, run.action(), event),
    ensures
        consistent(run.step(event), rows_after(rows, run.action(), event), total),
{
    let start = run.chunk_start as int;
    let end = run.chunk_end() as int;
    let last = run.last_miniblock as int;
    match (run.phase, event) {
        (Phase::Probing, Event::Migrated(true)) => {
            lemma_pending_split(rows, 0, start - 1, end);
        },
        (Phase::Backfilling, Event::Assigned(count)) => {
            let cleared = backfilled(rows, start, end);
            lemma_pending_split(rows, 0, start - 1, end);
            lemma_pending_split(rows, 0, end, last);
            lemma_pending_split(cleared, 0, start - 1, end);
            lemma_pending_split(cleared, 0, end, last);
            lemma_pending_outside(rows, start, end, 0, start - 1);
            lemma_pending_outside(rows, start, end, end + 1, last);
            lemma_pending_inside(rows, start, end, start, end);
        },
        _ => {},
    }
}

proof fn lemma_run_consistent(run: MigrationView, rows: Seq<nat>, total: nat, events: Seq<Event>)
    requires
        consistent(run, rows, total),
        admissible(run, rows, events),
    ensures
        consistent(run_after(run, events), storage_after(run, rows, events), total),
    decreases events.len(),
{
    if events.len() > 0 {
        lemma_step_consistent(run, rows, total, events[0]);
        lemma_run_consistent(
            run.step(events[0]),
            rows_after(rows, run.action(), events[0]),
            total,
            events.skip(1),
        );
    }
}

proof fn lemma_run_keeps_settings(run: MigrationView, events: Seq<Event>)
    ensures
        run_after(run, events).last_miniblock == run.last_miniblock,
        run_after(run, events).chunk_size == run.chunk_size,
    decreases events.len(),
{
    if events.len() > 0 {
        lemma_run_keeps_settings(run.step(events[0]), events.skip(1));
    }
}

proof fn lemma_initial_consistent(last_miniblock: MiniblockNumber, chunk_size: u32, rows: Seq<nat>)
    requires
        chunk_size > 0,
    ensures
        consistent(
            MigrationView::initial(last_miniblock@, chunk_size as nat),
            rows,
            pending(rows, 0, last_miniblock@ as int),
        ),
{
}

proof fn lemma_step_well_formed(run: MigrationView, event: Event)
    requires
        run.wf(),
    ensures
        run.step(event).wf(),
        run.is_terminal() ==> run.step(event) == run,
{
}

/// Whatever a run is handed, it stays well formed and keeps its bound and
/// its chunk size; every window it asks about lies within `0..=last`; and
/// once it has ended, it stays as it is.
pub proof fn law_run_stays_well_formed(run: MigrationView, events: Seq<Event>)
    requires
        run.wf(),
    ensures
        run_after(run, events).wf(),
        run_after(run, events).last_miniblock == run.last_miniblock,
        run_after(run, events).chunk_size == run.chunk_size,
        !run_after(run, events).is_terminal() ==> {
            let range = run_after(run, events).range();
            range.start@ <= range.end@ <= run.last_miniblock
        },
        run.is_terminal() ==> run_after(run, events) == run,
    decreases events.len(),
{
    if events.len() > 0 {
        lemma_step_well_formed(run, events[0]);
        law_run_stays_well_formed(run.step(events[0]), events.skip(1));
    }
}

/// Every answered step brings the run closer to its end, and a run that has
/// ended asks for nothing that could be answered: a run over
/// `0..=last` takes at most `4 * (last + 1) + 4` steps.
pub proof fn law_run_ends(run: MigrationView, rows: Seq<nat>, events: Seq<Event>)
    requires
        run.wf(),
        admissible(run, rows, events),
    ensures
        events.len() <= steps_left(run),
        events.len() + steps_left(run_after(run, events)) <= steps_left(run),
    decreases events.len(),
{
    if events.len() > 0 {
        lemma_step_well_formed(run, events[0]);
        law_run_ends(
            run.step(events[0]),
            rows_after(rows, run.action(), events[0]),
            events.skip(1),
        );
    }
}

/// By the time a run turns to a window, nothing is pending below it: a run
/// that begins on any storage keeps a migrated prefix, and a completed run
/// leaves nothing pending up to the last miniblock.
pub proof fn law_migrated_prefix(
    last_miniblock: MiniblockNumber,
    chunk_size: u32,
    rows: Seq<nat>,
    events: Seq<Event>,
)
    requires
        chunk_size > 0,
        admissible(MigrationView::initial(last_miniblock@, chunk_size as nat), rows, events),
    ensures
        ({
            let begin = MigrationView::initial(last_miniblock@, chunk_size as nat);
            let run = run_after(begin, events);
            let left = storage_after(begin, rows, events);
            &&& pending(left, 0, run.chunk_start - 1) == 0
            &&& run.phase == Phase::Completed ==> pending(left, 0, last_miniblock@ as int) == 0
        }),
{
    let begin = MigrationView::initial(last_miniblock@, chunk_size as nat);
    let total = pending(rows, 0, last_miniblock@ as int);
    lemma_initial_consistent(last_miniblock, chunk_size, rows);
    lemma_run_consistent(begin, rows, total, events);
    lemma_run_keeps_settings(begin, events);
    let run = run_after(begin, events);
    let left = storage_after(begin, rows, events);
    if run.chunk_start - 1 <= done_upto(run) {
        lemma_pending_split(left, 0, run.chunk_start - 1, done_upto(run));
    }
}

proof fn lemma_window_of_migrated(rows: Seq<nat>, last: int, lo: int, hi: int)
    requires
        pending(rows, 0, last) == 0,
        0 <= lo,
        hi <= last,
    ensures
        pending(rows, lo, hi) == 0,
{
    if lo <= hi {
        lemma_pending_split(rows, 0, hi, last);
        lemma_pending_split(rows, 0, lo - 1, hi);
    }
}

proof fn lemma_migrated_storage_stays(run: MigrationView, rows: Seq<nat>, events: Seq<Event>)
    requires
        run.wf(),
        pending(rows, 0, run.last_miniblock as int) == 0,
    ensures
        storage_after(run, rows, events) == rows,
    decreases events.len(),
{
    if events.len() > 0 {
        let start = run.chunk_start as int;
        let end = run.chunk_end() as int;
        if run.phase == Phase::Backfilling {
            lemma_window_of_migrated(rows, run.last_miniblock as int, start, end);
            lemma_backfill_of_migrated(rows, start, end);
        }
        lemma_step_well_formed(run, events[0]);
        lemma_migrated_storage_stays(run.step(events[0]), rows, events.skip(1));
    }
}

/// A run counts exactly the events that it migrates: whatever it was
/// handed, its count is the number of events that were pending up to the
/// last miniblock when it began and are pending no more (held at the
/// largest `u64`).
pub proof fn law_counts_what_it_migrates(
    last_miniblock: MiniblockNumber,
    chunk_size: u32,
    rows: Seq<nat>,
    events: Seq<Event>,
)
    requires
        chunk_size > 0,
        admissible(MigrationView::initial(last_miniblock@, chunk_size as nat), rows, events),
    ensures
        ({
            let begin = MigrationView::initial(last_miniblock@, chunk_size as nat);
            let before = pending(rows, 0, last_miniblock@ as int);
            let after = pending(storage_after(begin, rows, events), 0, last_miniblock@ as int);
            &&& after <= before
            &&& run_after(begin, events).events_affected == reported((before - after) as nat)
        }),
{
    let begin = MigrationView::initial(last_miniblock@, chunk_size as nat);
    lemma_initial_consistent(last_miniblock, chunk_size, rows);
    lemma_run_consistent(begin, rows, pending(rows, 0, last_miniblock@ as int), events);
    lemma_run_keeps_settings(begin, events);
}

/// Idempotence: once a run over `0..=last` has completed, a further run
/// with the same bound, of whatever chunk size and however far it gets,
/// affects no event and leaves the storage as it found it.
pub proof fn law_rerun_affects_nothing(
    last_miniblock: MiniblockNumber,
    rows: Seq<nat>,
    first_chunk_size: u32,
    first: Seq<Event>,
    second_chunk_size: u32,
    second: Seq<Event>,
)
    requires
        first_chunk_size > 0,
        second_chunk_size > 0,
        admissible(MigrationView::initial(last_miniblock@, first_chunk_size as nat), rows, first),
        run_after(MigrationView::initial(last_miniblock@, first_chunk_size as nat), first).phase
            == Phase::Completed,
        admissible(
            MigrationView::initial(last_miniblock@, second_chunk_size as nat),
            storage_after(
                MigrationView::initial(last_miniblock@, first_chunk_size as nat),
                rows,
                first,
            ),
            second,
        ),
    ensures
        ({
            let migrated = storage_after(
                MigrationView::initial(last_miniblock@, first_chunk_size as nat),
                rows,
                first,
            );
            let again = MigrationView::initial(last_miniblock@, second_chunk_size as nat);
            &&& run_after(again, second).events_affected == 0
            &&& storage_after(again, migrated, second) == migrated
        }),
{
    let migrated = storage_after(
        MigrationView::initial(last_miniblock@, first_chunk_size as nat),
        rows,
        first,
    );
    let again = MigrationView::initial(last_miniblock@, second_chunk_size as nat);
    law_migrated_prefix(last_miniblock, first_chunk_size, rows, first);
    law_counts_what_it_migrates(last_miniblock, second_chunk_size, migrated, second);
    lemma_migrated_storage_stays(again, migrated, second);
}

/// Blocks beyond the bound are never touched: whatever a run is handed,
/// the storage keeps its length and every miniblock after `last` as it was.
/// This holds of a run in any state, so also of one that is resumed with a
/// bound fixed before further miniblocks were appended.
pub proof fn law_beyond_bound_untouched(run: MigrationView, rows: Seq<nat>, events: Seq<Event>)
    requires
        run.wf(),
    ensures
        storage_after(run, rows, events).len() == rows.len(),
        forall|block: int|
            block > run.last_miniblock ==> rows_at(storage_after(run, rows, events), block)
                == rows_at(rows, block),
    decreases events.len(),
{
    if events.len() > 0 {
        let next = run.step(events[0]);
        let left = rows_after(rows, run.action(), events[0]);
        lemma_step_well_formed(run, events[0]);
        law_beyond_bound_untouched(next, left, events.skip(1));
        assert forall|block: int| block > run.last_miniblock implies rows_at(
            storage_after(run, rows, events),
            block,
        ) == rows_at(rows, block) by {
            assert(rows_at(storage_after(next, left, events.skip(1)), block) == rows_at(
                left,
                block,
            ));
        }
    }
}

proof fn lemma_completed_storage(
    last_miniblock: MiniblockNumber,
    chunk_size: u32,
    rows: Seq<nat>,
    events: Seq<Event>,
)
    requires
        chunk_size > 0,
        admissible(MigrationView::initial(last_miniblock@, chunk_size as nat), rows, events),
        run_after(MigrationView::initial(last_miniblock@, chunk_size as nat), events).phase
            == Phase::Completed,
    ensures
        storage_after(MigrationView::initial(last_miniblock@, chunk_size as nat), rows, events)
            == backfilled(rows, 0, last_miniblock@ as int),
{
    let begin = MigrationView::initial(last_miniblock@, chunk_size as nat);
    let left = storage_after(begin, rows, events);
    let last = last_miniblock@ as int;
    law_migrated_prefix(last_miniblock, chunk_size, rows, events);
    law_beyond_bound_untouched(begin, rows, events);
    assert forall|i: int| 0 <= i < rows.len() implies left[i] == backfilled(rows, 0, last)[i] by {
        if i <= last {
            lemma_nothing_pending(left, 0, last, i);
        } else {
            assert(rows_at(left, i) == rows_at(rows, i));
        }
    }
    assert(left =~= backfilled(rows, 0, last));
}

/// Chunk-size independence: two runs to completion over the same storage
/// and the same bound report the same count, whatever their chunk sizes,
/// namely the events that were pending up to the bound (held at the largest
/// `u64`), and leave the same storage, with nothing pending up to the bound.
pub proof fn law_chunk_size_independence(
    last_miniblock: MiniblockNumber,
    rows: Seq<nat>,
    chunk_size: u32,
    events: Seq<Event>,
    other_chunk_size: u32,
    other_events: Seq<Event>,
)
    requires
        chunk_size > 0,
        other_chunk_size > 0,
        admissible(MigrationView::initial(last_miniblock@, chunk_size as nat), rows, events),
        run_after(MigrationView::initial(last_miniblock@, chunk_size as nat), events).phase
            == Phase::Completed,
        admissible(
            MigrationView::initial(last_miniblock@, other_chunk_size as nat),
            rows,
            other_events,
        ),
        run_after(
            MigrationView::initial(last_miniblock@, other_chunk_size as nat),
            other_events,
        ).phase == Phase::Completed,
    ensures
        ({
            let one = MigrationView::initial(last_miniblock@, chunk_size as nat);
            let other = MigrationView::initial(last_miniblock@, other_chunk_size as nat);
            &&& run_after(one, events).events_affected == reported(
                pending(rows, 0, last_miniblock@ as int),
            )
            &&& run_after(other, other_events).events_affected == run_after(
                one,
                events,
            ).events_affected
            &&& storage_after(one, rows, events) == backfilled(rows, 0, last_miniblock@ as int)
            &&& storage_after(other, rows, other_events) == storage_after(one, rows, events)
        }),
{
    law_counts_what_it_migrates(last_miniblock, chunk_size, rows, events);
    law_counts_what_it_migrates(last_miniblock, other_chunk_size, rows, other_events);
    law_migrated_prefix(last_miniblock, chunk_size, rows, events);
    law_migrated_prefix(last_miniblock, other_chunk_size, rows, other_events);
    lemma_completed_storage(last_miniblock, chunk_size, rows, events);
    lemma_completed_storage(last_miniblock, other_chunk_size, rows, other_events);
}

/// Resumability: a run that stopped anywhere, followed by a run to
/// completion over what it left, counts in all what one uninterrupted run
/// to completion counts, provided that the events pending up to the bound
/// can be counted in a `u64`.
pub proof fn law_resumed_run_counts_the_same(
    last_miniblock: MiniblockNumber,
    rows: Seq<nat>,
    first_chunk_size: u32,
    first: Seq<Event>,
    second_chunk_size: u32,
    second: Seq<Event>,
    whole_chunk_size: u32,
    whole: Seq<Event>,
)
    requires
        first_chunk_size > 0,
        second_chunk_size > 0,
        whole_chunk_size > 0,
        pending(rows, 0, last_miniblock@ as int) <= u64::MAX,
        admissible(MigrationView::initial(last_miniblock@, first_chunk_size as nat), rows, first),
        admissible(
            MigrationView::initial(last_miniblock@, second_chunk_size as nat),
            storage_after(
                MigrationView::initial(last_miniblock@, first_chunk_size as nat),
                rows,
                first,
            ),
            second,
        ),
        run_after(
            MigrationView::initial(last_miniblock@, second_chunk_size as nat),
            second,
        ).phase == Phase::Completed,
        admissible(MigrationView::initial(last_miniblock@, whole_chunk_size as nat), rows, whole),
        run_after(MigrationView::initial(last_miniblock@, whole_chunk_size as nat), whole).phase
            == Phase::Completed,
    ensures
        run_after(
            MigrationView::initial(last_miniblock@, first_chunk_size as nat),
            first,
        ).events_affected + run_after(
            MigrationView::initial(last_miniblock@, second_chunk_size as nat),
            second,
        ).events_affected == run_after(
            MigrationView::initial(last_miniblock@, whole_chunk_size as nat),
            whole,
        ).events_affected,
        run_after(
            MigrationView::initial(last_miniblock@, whole_chunk_size as nat),
            whole,
        ).events_affected == pending(rows, 0, last_miniblock@ as int),
{
    let left = storage_after(
        MigrationView::initial(last_miniblock@, first_chunk_size as nat),
        rows,
        first,
    );
    law_counts_what_it_migrates(last_miniblock, first_chunk_size, rows, first);
    law_counts_what_it_migrates(last_miniblock, second_chunk_size, left, second);
    law_counts_what_it_migrates(last_miniblock, whole_chunk_size, rows, whole);
    law_migrated_prefix(last_miniblock, second_chunk_size, left, second);
    law_migrated_prefix(last_miniblock, whole_chunk_size, rows, whole);
}

/// Windows are aligned: as long as a run that began at miniblock 0 has
/// windows left, its window begins at a multiple of the chunk size and
/// holds `chunk_size` miniblocks, or fewer where the last miniblock cuts it
/// short. A run that is resumed with the same chunk size therefore names
/// the same windows.
pub proof fn law_windows_are_aligned(
    last_miniblock: MiniblockNumber,
    chunk_size: u32,
    events: Seq<Event>,
)
    requires
        chunk_size > 0,
    ensures
        ({
            let run = run_after(MigrationView::initial(last_miniblock@, chunk_size as nat), events);
            run.chunk_start <= last_miniblock@ ==> {
                &&& run.chunk_start % (chunk_size as nat) == 0
                &&& run.chunk_start <= run.chunk_end() <= last_miniblock@
                &&& run.chunk_end() - run.chunk_start < chunk_size
            }
        }),
{
    let begin = MigrationView::initial(last_miniblock@, chunk_size as nat);
    lemma_run_aligned(begin, events);
    lemma_run_keeps_settings(begin, events);
}

proof fn lemma_run_aligned(run: MigrationView, events: Seq<Event>)
    requires
        run.wf(),
        run.chunk_start <= run.last_miniblock ==> run.chunk_start % run.chunk_size == 0,
    ensures
        run_after(run, events).wf(),
        run_after(run, events).chunk_start <= run.last_miniblock ==> run_after(
            run,
            events,
        ).chunk_start % run.chunk_size == 0,
    decreases events.len(),
{
    if events.len() > 0 {
        let next = run.step(events[0]);
        lemma_step_well_formed(run, events[0]);
        if next.chunk_start != run.chunk_start && next.chunk_start <= run.last_miniblock {
            assert(next.chunk_start == run.chunk_start + run.chunk_size);
            vstd::arithmetic::div_mod::lemma_mod_add_multiples_vanish(
                run.chunk_start as int,
                run.chunk_size as int,
            );
        }
        lemma_run_aligned(next, events.skip(1));
    }
}

} // verus!
