//! The decisions of a migration run, as a machine that is told what the
//! storage, the stop signal and the clock answered and says what to do next.

use vstd::prelude::*;
use crate::identifiers::MiniblockNumber;

verus! {

/// Chunk size that the node uses when it migrates in the background.
pub const DEFAULT_CHUNK_SIZE: u32 = 100_000;

/// Seconds that the node waits after each chunk it had to migrate.
pub const DEFAULT_SLEEP_SECS: u64 = 1;

/// An inclusive window of miniblocks, handled as one atomic unit of work.
#[derive(Debug, Clone, Copy, PartialEq, Eq, Structural)]
pub struct MigrationRange {
    pub start: MiniblockNumber,
    pub end: MiniblockNumber,
}

/// What a run reports when it ends without a failure.
#[derive(Debug, Clone, Copy, PartialEq, Eq, Structural)]
pub struct MigrationOutput {
    /// Events whose indexes the run assigned.
    pub events_affected: u64,
}

impl Default for MigrationOutput {
    fn default() -> (output: Self)
        ensures
            output.events_affected == 0,
    {
        MigrationOutput { events_affected: 0 }
    }
}

/// Why a run did not produce an output.
#[derive(Debug, Clone, Copy, PartialEq, Eq, Structural)]
pub enum MigrationError {
    /// The chunk size was zero.
    InvalidConfig,
    /// The storage failed while the given window was being processed.
    Storage { range: MigrationRange },
}

/// Where a run stands.
#[derive(Debug, Clone, Copy, PartialEq, Eq, Structural)]
pub enum Phase {
    /// Waiting to hear whether the current window is already migrated.
    Probing,
    /// Waiting for the number of events assigned in the current window.
    Backfilling,
    /// The current window is done; waiting to hear the stop signal.
    /// `worked` tells whether the window had to be migrated.
    Polling { worked: bool },
    /// Waiting for the pause after a window that had to be migrated.
    Sleeping,
    /// Every window up to the last miniblock is done.
    Completed,
    /// Stopped on request before the last miniblock was reached.
    Cancelled,
    /// The storage failed.
    Failed,
}

/// What the caller is asked to do next.
#[derive(Debug, Clone, Copy, PartialEq, Eq, Structural)]
pub enum Action {
    /// Ask the storage whether the window is already migrated (read only).
    CheckMigrated(MigrationRange),
    /// Have the storage assign the indexes in the window, atomically.
    AssignIndexes(MigrationRange),
    /// Read the stop signal.
    PollStop,
    /// Pause for the configured delay.
    Sleep,
    /// The run is over: return this output.
    Finish(MigrationOutput),
    /// The run is over: report this error.
    Fail(MigrationError),
}

/// What the caller reports back.
#[derive(Debug, Clone, Copy, PartialEq, Eq, Structural)]
pub enum Event {
    /// Answer to `CheckMigrated`.
    Migrated(bool),
    /// Answer to `AssignIndexes`: the number of events affected.
    Assigned(u64),
    /// The storage failed on `CheckMigrated` or `AssignIndexes`.
    StorageFailed,
    /// Answer to `PollStop`: whether a stop was requested.
    Stop(bool),
    /// The pause asked for by `Sleep` is over.
    Slept,
}

/// The mathematical state of a run.
pub struct MigrationView {
    pub last_miniblock: nat,
    pub chunk_size: nat,
    pub chunk_start: nat,
    pub events_affected: nat,
    pub phase: Phase,
}

impl MigrationView {
    /// The state in which a run over `0..=last_miniblock` begins.
    pub open spec fn initial(last_miniblock: nat, chunk_size: nat) -> MigrationView {
        MigrationView {
            last_miniblock,
            chunk_size,
            chunk_start: 0,
            events_affected: 0,
            phase: Phase::Probing,
        }
    }

    /// The settings are in range, the chunk size is not zero, and the
    /// current window begins at or before the last miniblock unless the
    /// run has completed.
    pub open spec fn wf(self) -> bool {
        &&& 0 < self.chunk_size <= u32::MAX
        &&& self.last_miniblock <= u32::MAX
        &&& self.events_affected <= u64::MAX
        &&& self.chunk_start <= self.last_miniblock + 1
        &&& self.phase != Phase::Completed ==> self.chunk_start <= self.last_miniblock
    }

    /// No further event changes the state.
    pub open spec fn is_terminal(self) -> bool {
        self.phase == Phase::Completed || self.phase == Phase::Cancelled || self.phase
            == Phase::Failed
    }

    /// Last miniblock of the current window.
    pub open spec fn chunk_end(self) -> nat {
        if self.chunk_start + self.chunk_size - 1 < self.last_miniblock {
            (self.chunk_start + self.chunk_size - 1) as nat
        } else {
            self.last_miniblock
        }
    }

    /// The current window.
    pub open spec fn range(self) -> MigrationRange {
        MigrationRange {
            start: MiniblockNumber(self.chunk_start as u32),
            end: MiniblockNumber(self.chunk_end() as u32),
        }
    }

    /// What the run reports if it ends now.
    pub open spec fn output(self) -> MigrationOutput {
        MigrationOutput { events_affected: self.events_affected as u64 }
    }

    /// What this state asks of the caller.
    pub open spec fn action(self) -> Action {
        match self.phase {
            Phase::Probing => Action::CheckMigrated(self.range()),
            Phase::Backfilling => Action::AssignIndexes(self.range()),
            Phase::Polling { .. } => Action::PollStop,
            Phase::Sleeping => Action::Sleep,
            Phase::Completed | Phase::Cancelled => Action::Finish(self.output()),
            Phase::Failed => Action::Fail(MigrationError::Storage { range: self.range() }),
        }
    }

    /// The state with the given phase and everything else unchanged.
    pub open spec fn at(self, phase: Phase) -> MigrationView {
        MigrationView { phase, ..self }
    }

    /// The state after the current window: the next window, or completion.
    pub open spec fn advance(self) -> MigrationView {
        let next = self.chunk_end() + 1;
        MigrationView {
            chunk_start: next,
            phase: if next <= self.last_miniblock {
                Phase::Probing
            } else {
                Phase::Completed
            },
            ..self
        }
    }

    /// The count after `rows` more events, held at the largest `u64`.
    pub open spec fn count(self, rows: u64) -> nat {
        if self.events_affected + rows <= u64::MAX {
            (self.events_affected + rows) as nat
        } else {
            u64::MAX as nat
        }
    }

    /// The state after `event`. An event that does not answer `action()`
    /// is ignored.
    pub open spec fn step(self, event: Event) -> MigrationView {
        match (self.phase, event) {
            (Phase::Probing, Event::Migrated(true)) => self.at(Phase::Polling { worked: false }),
            (Phase::Probing, Event::Migrated(false)) => self.at(Phase::Backfilling),
            (Phase::Probing, Event::StorageFailed) => self.at(Phase::Failed),
            (Phase::Backfilling, Event::StorageFailed) => self.at(Phase::Failed),
            (Phase::Backfilling, Event::Assigned(rows)) => MigrationView {
                events_affected: self.count(rows),
                phase: Phase::Polling { worked: true },
                ..self
            },
            (Phase::Polling { .. }, Event::Stop(true)) => self.at(
                if self.chunk_end() == self.last_miniblock {
                    Phase::Completed
                } else {
                    Phase::Cancelled
                },
            ),
            (Phase::Polling { worked: true }, Event::Stop(false)) => self.at(Phase::Sleeping),
            (Phase::Polling { worked: false }, Event::Stop(false)) => self.advance(),
            (Phase::Sleeping, Event::Slept) => self.advance(),
            _ => self,
        }
    }
}

/// A migration run in progress.
#[derive(Debug)]
pub struct Migration {
    last_miniblock: u32,
    chunk_size: u32,
    chunk_start: u64,
    events_affected: u64,
    phase: Phase,
}

impl View for Migration {
    type V = MigrationView;

    closed spec fn view(&self) -> MigrationView {
        MigrationView {
            last_miniblock: self.last_miniblock as nat,
            chunk_size: self.chunk_size as nat,
            chunk_start: self.chunk_start as nat,
            events_affected: self.events_affected as nat,
            phase: self.phase,
        }
    }
}

impl Migration {
    #[verifier::type_invariant]
    spec fn inv(self) -> bool {
        self@.wf()
    }

    /// Begins a run over the miniblocks `0..=last_miniblock` in windows of
    /// `chunk_size` miniblocks. A chunk size of zero is refused before
    /// anything is asked of the storage.
    pub fn start(last_miniblock: MiniblockNumber, chunk_size: u32) -> (run: Result<
        Migration,
        MigrationError,
    >)
        ensures
            chunk_size == 0 ==> run == Err::<Migration, MigrationError>(
                MigrationError::InvalidConfig,
            ),
            chunk_size > 0 ==> run is Ok && run->Ok_0@ == MigrationView::initial(
                last_miniblock@,
                chunk_size as nat,
            ),
    {
        if chunk_size == 0 {
            return Err(MigrationError::InvalidConfig);
        }
        Ok(
            Migration {
                last_miniblock: last_miniblock.0,
                chunk_size,
                chunk_start: 0,
                events_affected: 0,
                phase: Phase::Probing,
            },
        )
    }

    fn chunk_end(&self) -> (end: u32)
        requires
            self@.wf(),
            self@.chunk_start <= self@.last_miniblock,
        ensures
            end == self@.chunk_end(),
    {
        let candidate: u64 = self.chunk_start + (self.chunk_size as u64 - 1);
        if candidate < self.last_miniblock as u64 {
            candidate as u32
        } else {
            self.last_miniblock
        }
    }

    /// Where the run stands.
    pub fn phase(&self) -> (phase: Phase)
        ensures
            phase == self@.phase,
    {
        self.phase
    }

    /// Events whose indexes the run has assigned so far.
    pub fn events_affected(&self) -> (count: u64)
        ensures
            count == self@.events_affected,
    {
        self.events_affected
    }

    /// What the run asks of the caller now.
    pub fn action(&self) -> (action: Action)
        ensures
            action == self@.action(),
    {
        proof {
            use_type_invariant(self);
        }
        match self.phase {
            Phase::Probing => Action::CheckMigrated(self.range()),
            Phase::Backfilling => Action::AssignIndexes(self.range()),
            Phase::Polling { .. } => Action::PollStop,
            Phase::Sleeping => Action::Sleep,
            Phase::Completed | Phase::Cancelled => Action::Finish(
                MigrationOutput { events_affected: self.events_affected },
            ),
            Phase::Failed => Action::Fail(MigrationError::Storage { range: self.range() }),
        }
    }

    fn range(&self) -> (range: MigrationRange)
        requires
            self@.wf(),
            self@.chunk_start <= self@.last_miniblock,
        ensures
            range == self@.range(),
    {
        MigrationRange {
            start: MiniblockNumber(self.chunk_start as u32),
            end: MiniblockNumber(self.chunk_end()),
        }
    }

    fn advance(&mut self)
        requires
            old(self)@.wf(),
            old(self)@.chunk_start <= old(self)@.last_miniblock,
        ensures
            final(self)@ == old(self)@.advance(),
            final(self)@.wf(),
    {
        let next: u64 = self.chunk_end() as u64 + 1;
        let phase = if next <= self.last_miniblock as u64 {
            Phase::Probing
        } else {
            Phase::Completed
        };
        *self = Migration {
            last_miniblock: self.last_miniblock,
            chunk_size: self.chunk_size,
            chunk_start: next,
            events_affected: self.events_affected,
            phase,
        };
    }

    /// Takes the answer to the outstanding action and returns the next one.
    pub fn step(&mut self, event: Event) -> (action: Action)
        ensures
            final(self)@ == old(self)@.step(event),
            action == final(self)@.action(),
    {
        proof {
            use_type_invariant(&*self);
        }
        match (self.phase, event) {
            (Phase::Probing, Event::Migrated(true)) => {
                self.phase = Phase::Polling { worked: false };
            },
            (Phase::Probing, Event::Migrated(false)) => {
                self.phase = Phase::Backfilling;
            },
            (Phase::Probing, Event::StorageFailed) | (Phase::Backfilling, Event::StorageFailed) => {
                self.phase = Phase::Failed;
            },
            (Phase::Backfilling, Event::Assigned(rows)) => {
                self.events_affected = self.events_affected.saturating_add(rows);
                self.phase = Phase::Polling { worked: true };
            },
            (Phase::Polling { .. }, Event::Stop(true)) => {
                if self.chunk_end() == self.last_miniblock {
                    self.phase = Phase::Completed;
                } else {
                    self.phase = Phase::Cancelled;
                }
            },
            (Phase::Polling { worked: true }, Event::Stop(false)) => {
                self.phase = Phase::Sleeping;
            },
            (Phase::Polling { worked: false }, Event::Stop(false)) | (
                Phase::Sleeping,
                Event::Slept,
            ) => {
                self.advance();
            },
            _ => {},
        }
        self.action()
    }
}

} // verus!
