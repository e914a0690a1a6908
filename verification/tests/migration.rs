use chunked_migration::migration::engine::{
    Action, Event, Migration, MigrationError, MigrationOutput, MigrationRange, Phase,
    DEFAULT_CHUNK_SIZE, DEFAULT_SLEEP_SECS,
};
use chunked_migration::MiniblockNumber;

/// Events per miniblock in the fixture.
const EVENTS: u64 = 7;

/// A storage held in memory: `rows[i]` events of miniblock `i` still lack
/// their index.
struct Storage {
    rows: Vec<u64>,
    checks: Vec<(u32, u32)>,
    assignments: Vec<(u32, u32)>,
    failing_check: Option<u32>,
    failing_assignment: Option<u32>,
}

impl Storage {
    fn new(rows: Vec<u64>) -> Self {
        Storage {
            rows,
            checks: Vec::new(),
            assignments: Vec::new(),
            failing_check: None,
            failing_assignment: None,
        }
    }

    fn pending(&self, range: MigrationRange) -> u64 {
        let mut total: u64 = 0;
        let mut block: u32 = range.start.0;
        while block <= range.end.0 {
            if let Some(rows) = self.rows.get(block as usize) {
                total += *rows;
            }
            if block == u32::MAX {
                break;
            }
            block += 1;
        }
        total
    }

    fn are_event_indexes_migrated(&mut self, range: MigrationRange) -> Result<bool, ()> {
        self.checks.push((range.start.0, range.end.0));
        if self.failing_check == Some(range.start.0) {
            return Err(());
        }
        Ok(self.pending(range) == 0)
    }

    fn assign_indexes(&mut self, range: MigrationRange) -> Result<u64, ()> {
        self.assignments.push((range.start.0, range.end.0));
        if self.failing_assignment == Some(range.start.0) {
            return Err(());
        }
        let affected: u64 = self.pending(range);
        for (block, rows) in self.rows.iter_mut().enumerate() {
            if range.start.0 as usize <= block && block <= range.end.0 as usize {
                *rows = 0;
            }
        }
        Ok(affected)
    }
}

struct Report {
    result: Result<MigrationOutput, MigrationError>,
    phase: Option<Phase>,
    sleeps: usize,
    stop_polls: usize,
    steps: u64,
}

/// Runs a migration to its end against `storage`, with the stop signal held
/// at `stop`.
fn migrate(storage: &mut Storage, last: u32, chunk_size: u32, stop: bool) -> Report {
    let mut report = Report {
        result: Ok(MigrationOutput::default()),
        phase: None,
        sleeps: 0,
        stop_polls: 0,
        steps: 0,
    };
    let mut migration = match Migration::start(MiniblockNumber(last), chunk_size) {
        Ok(migration) => migration,
        Err(error) => {
            report.result = Err(error);
            return report;
        }
    };
    let mut action = migration.action();
    loop {
        let event = match action {
            Action::CheckMigrated(range) => match storage.are_event_indexes_migrated(range) {
                Ok(done) => Event::Migrated(done),
                Err(()) => Event::StorageFailed,
            },
            Action::AssignIndexes(range) => match storage.assign_indexes(range) {
                Ok(affected) => Event::Assigned(affected),
                Err(()) => Event::StorageFailed,
            },
            Action::PollStop => {
                report.stop_polls += 1;
                Event::Stop(stop)
            }
            Action::Sleep => {
                report.sleeps += 1;
                Event::Slept
            }
            Action::Finish(output) => {
                report.result = Ok(output);
                break;
            }
            Action::Fail(error) => {
                report.result = Err(error);
                break;
            }
        };
        action = migration.step(event);
        report.steps += 1;
    }
    report.phase = Some(migration.phase());
    report
}

fn prepared_storage() -> Storage {
    Storage::new(vec![EVENTS; 5])
}

fn range(start: u32, end: u32) -> MigrationRange {
    MigrationRange { start: MiniblockNumber(start), end: MiniblockNumber(end) }
}

#[test]
fn migration_basics() {
    for chunk_size in [1u32, 2, 3] {
        let mut storage = prepared_storage();
        let raw_logs: u64 = storage.rows.iter().sum();

        let result = migrate(&mut storage, 4, chunk_size, false).result.unwrap();
        assert_eq!(result.events_affected, raw_logs);
        assert_eq!(result.events_affected, 35);

        // Check that all blocks are migrated.
        assert_eq!(storage.rows, vec![0u64; 5]);

        // Check that migration can run again w/o returning an error, hanging up etc.
        let result = migrate(&mut storage, 4, chunk_size, false).result.unwrap();
        assert_eq!(result.events_affected, 0);
    }
}

#[test]
fn stopping_and_resuming_migration() {
    for chunk_size in [1u32, 2, 3] {
        let mut storage = prepared_storage();

        // Signal stop right away.
        let first = migrate(&mut storage, 4, chunk_size, true);
        // Migration should stop after a single chunk.
        assert_eq!(first.result.unwrap().events_affected, u64::from(chunk_size) * 7);
        assert_eq!(first.phase, Some(Phase::Cancelled));
        assert_eq!(first.sleeps, 0);

        // Check that migration resumes from the same point.
        let second = migrate(&mut storage, 4, chunk_size, false);
        assert_eq!(second.result.unwrap().events_affected, (5 - u64::from(chunk_size)) * 7);
        assert_eq!(second.phase, Some(Phase::Completed));
        assert_eq!(storage.rows, vec![0u64; 5]);
    }
}

#[test]
fn new_blocks_added_during_migration() {
    for chunk_size in [1u32, 2, 3] {
        let mut storage = prepared_storage();

        let result = migrate(&mut storage, 4, chunk_size, true).result.unwrap();
        // Migration should stop after a single chunk.
        assert_eq!(result.events_affected, u64::from(chunk_size) * 7);

        // A new miniblock arrives; its indexes are assigned as it is stored.
        storage.rows.push(0);

        // Resume the migration.
        let result = migrate(&mut storage, 5, chunk_size, false).result.unwrap();

        // The new miniblock should not be affected.
        assert_eq!(result.events_affected, (5 - u64::from(chunk_size)) * 7);
        assert_eq!(storage.rows, vec![0u64; 6]);
    }
}

#[test]
fn stale_bound_leaves_later_blocks_alone() {
    let mut storage = prepared_storage();
    let first = migrate(&mut storage, 2, 2, true).result.unwrap();
    assert_eq!(first.events_affected, 14);

    // Blocks 5 and 6 are appended; the run is resumed with the old bound.
    storage.rows.push(3);
    storage.rows.push(4);
    let second = migrate(&mut storage, 2, 2, false).result.unwrap();
    assert_eq!(second.events_affected, 7);
    assert_eq!(storage.rows, vec![0, 0, 0, 7, 7, 3, 4]);
    for (start, end) in storage.checks.iter().chain(storage.assignments.iter()) {
        assert!(start <= end && *end <= 2);
    }
}

#[test]
fn total_does_not_depend_on_chunk_size() {
    let rows: Vec<u64> = vec![6, 0, 6, 6, 1, 0, 9];
    let mut totals: Vec<u64> = Vec::new();
    for chunk_size in [1u32, 2, 3, 4, 7, 100, u32::MAX] {
        let mut storage = Storage::new(rows.clone());
        let report = migrate(&mut storage, 6, chunk_size, false);
        assert_eq!(report.phase, Some(Phase::Completed));
        assert_eq!(storage.rows, vec![0u64; 7]);
        totals.push(report.result.unwrap().events_affected);
    }
    assert_eq!(totals, vec![28u64; 7]);
}

#[test]
fn zero_chunk_size_is_refused_before_storage_is_touched() {
    let mut storage = prepared_storage();
    let report = migrate(&mut storage, 4, 0, false);
    assert_eq!(report.result, Err(MigrationError::InvalidConfig));
    assert!(storage.checks.is_empty());
    assert!(storage.assignments.is_empty());
    assert_eq!(report.stop_polls, 0);
    assert_eq!(storage.rows, vec![EVENTS; 5]);
    assert!(matches!(
        Migration::start(MiniblockNumber(0), 0),
        Err(MigrationError::InvalidConfig)
    ));
}

#[test]
fn windows_are_visited_in_order() {
    let mut storage = prepared_storage();
    let report = migrate(&mut storage, 4, 2, false);
    assert_eq!(report.result, Ok(MigrationOutput { events_affected: 35 }));
    assert_eq!(storage.checks, vec![(0, 1), (2, 3), (4, 4)]);
    assert_eq!(storage.assignments, vec![(0, 1), (2, 3), (4, 4)]);
    assert_eq!(report.stop_polls, 3);
}

#[test]
fn sleeps_only_after_chunks_that_were_migrated() {
    let mut storage = Storage::new(vec![7, 7, 0, 0, 7]);
    let report = migrate(&mut storage, 4, 2, false);
    assert_eq!(report.result, Ok(MigrationOutput { events_affected: 21 }));
    assert_eq!(storage.checks, vec![(0, 1), (2, 3), (4, 4)]);
    assert_eq!(storage.assignments, vec![(0, 1), (4, 4)]);
    assert_eq!(report.sleeps, 2);

    let again = migrate(&mut storage, 4, 2, false);
    assert_eq!(again.result, Ok(MigrationOutput { events_affected: 0 }));
    assert_eq!(again.sleeps, 0);
    assert_eq!(storage.assignments.len(), 2);
}

#[test]
fn failed_check_reports_its_window() {
    let mut storage = prepared_storage();
    storage.failing_check = Some(2);
    let report = migrate(&mut storage, 4, 2, false);
    assert_eq!(report.result, Err(MigrationError::Storage { range: range(2, 3) }));
    assert_eq!(report.phase, Some(Phase::Failed));
    // The first window stays migrated, the rest is as it was.
    assert_eq!(storage.rows, vec![0, 0, 7, 7, 7]);

    storage.failing_check = None;
    let retry = migrate(&mut storage, 4, 2, false);
    assert_eq!(retry.result, Ok(MigrationOutput { events_affected: 21 }));
}

#[test]
fn failed_assignment_reports_its_window() {
    let mut storage = prepared_storage();
    storage.failing_assignment = Some(4);
    let report = migrate(&mut storage, 4, 2, false);
    assert_eq!(report.result, Err(MigrationError::Storage { range: range(4, 4) }));
    assert_eq!(storage.rows, vec![0, 0, 0, 0, 7]);
}

#[test]
fn stop_after_the_last_chunk_is_a_completed_run() {
    let mut storage = prepared_storage();
    let report = migrate(&mut storage, 4, 5, true);
    assert_eq!(report.result, Ok(MigrationOutput { events_affected: 35 }));
    assert_eq!(report.phase, Some(Phase::Completed));
    assert_eq!(report.sleeps, 0);
}

#[test]
fn steps_of_one_chunk() {
    let mut migration = Migration::start(MiniblockNumber(9), 4).unwrap();
    assert_eq!(migration.phase(), Phase::Probing);
    assert_eq!(migration.action(), Action::CheckMigrated(range(0, 3)));
    assert_eq!(migration.step(Event::Migrated(false)), Action::AssignIndexes(range(0, 3)));
    assert_eq!(migration.step(Event::Assigned(11)), Action::PollStop);
    assert_eq!(migration.events_affected(), 11);
    assert_eq!(migration.step(Event::Stop(false)), Action::Sleep);
    assert_eq!(migration.step(Event::Slept), Action::CheckMigrated(range(4, 7)));
    assert_eq!(migration.step(Event::Migrated(true)), Action::PollStop);
    // A chunk that was skipped is not followed by a pause.
    assert_eq!(migration.step(Event::Stop(false)), Action::CheckMigrated(range(8, 9)));
    assert_eq!(migration.step(Event::Migrated(true)), Action::PollStop);
    assert_eq!(
        migration.step(Event::Stop(false)),
        Action::Finish(MigrationOutput { events_affected: 11 })
    );
    assert_eq!(migration.phase(), Phase::Completed);
    // A finished run stays finished.
    assert_eq!(
        migration.step(Event::Assigned(5)),
        Action::Finish(MigrationOutput { events_affected: 11 })
    );
}

#[test]
fn events_that_answer_nothing_are_ignored() {
    let mut migration = Migration::start(MiniblockNumber(3), 2).unwrap();
    assert_eq!(migration.step(Event::Slept), Action::CheckMigrated(range(0, 1)));
    assert_eq!(migration.step(Event::Assigned(5)), Action::CheckMigrated(range(0, 1)));
    assert_eq!(migration.step(Event::Stop(true)), Action::CheckMigrated(range(0, 1)));
    assert_eq!(migration.events_affected(), 0);
    assert_eq!(migration.step(Event::Migrated(false)), Action::AssignIndexes(range(0, 1)));
    assert_eq!(migration.step(Event::Migrated(true)), Action::AssignIndexes(range(0, 1)));
}

#[test]
fn count_stops_at_the_largest_u64() {
    let mut migration = Migration::start(MiniblockNumber(1), 1).unwrap();
    migration.step(Event::Migrated(false));
    migration.step(Event::Assigned(u64::MAX - 1));
    migration.step(Event::Stop(false));
    migration.step(Event::Slept);
    migration.step(Event::Migrated(false));
    migration.step(Event::Assigned(5));
    assert_eq!(
        migration.step(Event::Stop(true)),
        Action::Finish(MigrationOutput { events_affected: u64::MAX })
    );
}

#[test]
fn windows_at_the_end_of_the_range() {
    let mut migration = Migration::start(MiniblockNumber(u32::MAX), u32::MAX).unwrap();
    assert_eq!(migration.action(), Action::CheckMigrated(range(0, u32::MAX - 1)));
    migration.step(Event::Migrated(true));
    assert_eq!(
        migration.step(Event::Stop(false)),
        Action::CheckMigrated(range(u32::MAX, u32::MAX))
    );
    migration.step(Event::Migrated(true));
    assert_eq!(
        migration.step(Event::Stop(false)),
        Action::Finish(MigrationOutput { events_affected: 0 })
    );
}

#[test]
fn runs_end_within_their_bound() {
    for last in [0u32, 1, 4, 9] {
        for chunk_size in [1u32, 2, 3, 50] {
            let mut storage = Storage::new(vec![EVENTS; 10]);
            let report = migrate(&mut storage, last, chunk_size, false);
            assert_eq!(report.phase, Some(Phase::Completed));
            assert!(report.steps <= 4 * (u64::from(last) + 1) + 4);
            assert_eq!(report.result.unwrap().events_affected, EVENTS * (u64::from(last) + 1));
        }
    }
    // One miniblock per window, each migrated: four steps a window.
    let mut storage = prepared_storage();
    assert_eq!(migrate(&mut storage, 4, 1, false).steps, 20);
}

#[test]
fn single_block_run() {
    let mut storage = Storage::new(vec![4]);
    let report = migrate(&mut storage, 0, 3, false);
    assert_eq!(report.result, Ok(MigrationOutput { events_affected: 4 }));
    assert_eq!(storage.checks, vec![(0, 0)]);
}

#[test]
fn defaults_of_the_background_task() {
    assert_eq!(DEFAULT_CHUNK_SIZE, 100_000);
    assert_eq!(DEFAULT_SLEEP_SECS, 1);
    assert_eq!(MigrationOutput::default().events_affected, 0);
}
