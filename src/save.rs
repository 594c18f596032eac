use crate::catalog::{key_at, lemma_key_positions, SettingKey, SETTING_COUNT};
use crate::settings::{lemma_view_determines_fields, UnsavedSettings};
use crate::value::SettingValue;
use vstd::prelude::*;

verus! {

/// The process-wide run state.
#[derive(Clone, Copy, Debug, PartialEq, Eq, Structural)]
pub enum RunState {
    Initializing,
    Offline,
    Online,
    ShuttingDown,
}

/// The transition that brings the run state in line with the offline flag: to `Offline`
/// when the flag is set and the process is online, to `Online` when it is clear and the
/// process is offline, and none otherwise.
pub open spec fn spec_reconcile(offline: bool, current: RunState) -> Option<RunState> {
    if offline && current == RunState::Online {
        Some(RunState::Offline)
    } else if !offline && current == RunState::Offline {
        Some(RunState::Online)
    } else {
        None
    }
}

/// The run-state transition to announce after the offline flag `offline` was committed
/// while the process was in state `current`.
pub fn reconcile_run_state(offline: bool, current: RunState) -> (r: Option<RunState>)
    ensures
        r == spec_reconcile(offline, current),
{
    if offline && current == RunState::Online {
        Some(RunState::Offline)
    } else if !offline && current == RunState::Offline {
        Some(RunState::Online)
    } else {
        None
    }
}

/// Where a save failed. Nothing was committed in any of these cases.
#[derive(Clone, Copy, Debug, PartialEq, Eq, Structural)]
pub enum StoreError {
    TransactionOpen,
    Write(SettingKey),
    Commit,
}

/// What came of the action that a save session asked for last.
#[derive(Clone, Copy, Debug, PartialEq, Eq, Structural)]
pub enum SaveEvent {
    Succeeded,
    Failed,
    RunStateRead(RunState),
}

/// Where a save session stands.
#[derive(Clone, Copy, Debug)]
pub enum SavePhase {
    /// Waiting for a write transaction.
    Opening,
    /// Waiting for the write of the value at this catalog position.
    Writing(usize),
    Committing,
    ReadingRunState,
    Broadcasting,
    Finished(Result<(), StoreError>),
}

/// What a save session asks its driver to do next.
#[derive(Debug)]
pub enum SaveAction {
    BeginTransaction,
    /// Write the value under the key in the open transaction.
    Write(SettingKey, SettingValue),
    Commit,
    ReadRunState,
    /// Announce the run state; nobody listening is no failure.
    Broadcast(RunState),
    /// The save is over, with this outcome; the transaction is dropped unless committed.
    Finish(Result<(), StoreError>),
}

pub open spec fn finish(outcome: Result<(), StoreError>) -> (SavePhase, SaveAction) {
    (SavePhase::Finished(outcome), SaveAction::Finish(outcome))
}

/// The write of the value at catalog position `i`, or the commit once every position
/// was written.
pub open spec fn write_or_commit(values: Seq<SettingValue>, i: int) -> (SavePhase, SaveAction) {
    if i < values.len() {
        (SavePhase::Writing(i as usize), SaveAction::Write(key_at(i), values[i]))
    } else {
        (SavePhase::Committing, SaveAction::Commit)
    }
}

/// The next phase and action of a session that saves `values` (in catalog order) with
/// offline flag `offline`, in phase `phase`, on `event`.
pub open spec fn spec_next(
    values: Seq<SettingValue>,
    offline: bool,
    phase: SavePhase,
    event: SaveEvent,
) -> (SavePhase, SaveAction) {
    match phase {
        SavePhase::Opening => if event == SaveEvent::Succeeded {
            write_or_commit(values, 0)
        } else {
            finish(Err(StoreError::TransactionOpen))
        },
        SavePhase::Writing(i) => if event == SaveEvent::Succeeded {
            write_or_commit(values, i + 1)
        } else {
            finish(Err(StoreError::Write(key_at(i as int))))
        },
        SavePhase::Committing => if event == SaveEvent::Succeeded {
            (SavePhase::ReadingRunState, SaveAction::ReadRunState)
        } else {
            finish(Err(StoreError::Commit))
        },
        SavePhase::ReadingRunState => match event {
            SaveEvent::RunStateRead(current) => match spec_reconcile(offline, current) {
                Some(next) => (SavePhase::Broadcasting, SaveAction::Broadcast(next)),
                None => finish(Ok(())),
            },
            _ => finish(Ok(())),
        },
        SavePhase::Broadcasting => finish(Ok(())),
        SavePhase::Finished(outcome) => finish(outcome),
    }
}

/// The decisions of one save: open a transaction, write every value in catalog order,
/// commit, then bring the run state in line with the offline flag. The first failure
/// ends the session with nothing committed.
pub struct SaveSession {
    values: Vec<SettingValue>,
    offline: bool,
    phase: SavePhase,
}

impl SaveSession {
    /// The values to write, in catalog order.
    pub closed spec fn values(&self) -> Seq<SettingValue> {
        self.values@
    }

    pub closed spec fn offline(&self) -> bool {
        self.offline
    }

    pub closed spec fn phase(&self) -> SavePhase {
        self.phase
    }

    pub closed spec fn wf(&self) -> bool {
        &&& self.values@.len() == SETTING_COUNT
        &&& self.phase matches SavePhase::Writing(i) ==> i < SETTING_COUNT
    }

    /// Moves the session on by what came of its last action, and gives the next action.
    pub fn step(&mut self, event: SaveEvent) -> (r: SaveAction)
        requires
            old(self).wf(),
        ensures
            final(self).wf(),
            final(self).values() == old(self).values(),
            final(self).offline() == old(self).offline(),
            (final(self).phase(), r) == spec_next(
                old(self).values(),
                old(self).offline(),
                old(self).phase(),
                event,
            ),
    {
        let (phase, action) = match self.phase {
            SavePhase::Opening => if event == SaveEvent::Succeeded {
                self.write_or_commit(0)
            } else {
                Self::finish(Err(StoreError::TransactionOpen))
            },
            SavePhase::Writing(i) => if event == SaveEvent::Succeeded {
                self.write_or_commit(i + 1)
            } else {
                Self::finish(Err(StoreError::Write(SettingKey::from_index(i))))
            },
            SavePhase::Committing => if event == SaveEvent::Succeeded {
                (SavePhase::ReadingRunState, SaveAction::ReadRunState)
            } else {
                Self::finish(Err(StoreError::Commit))
            },
            SavePhase::ReadingRunState => match event {
                SaveEvent::RunStateRead(current) => match reconcile_run_state(
                    self.offline,
                    current,
                ) {
                    Some(next) => (SavePhase::Broadcasting, SaveAction::Broadcast(next)),
                    None => Self::finish(Ok(())),
                },
                _ => Self::finish(Ok(())),
            },
            SavePhase::Broadcasting => Self::finish(Ok(())),
            SavePhase::Finished(outcome) => Self::finish(outcome),
        };
        self.phase = phase;
        action
    }

    fn finish(outcome: Result<(), StoreError>) -> (r: (SavePhase, SaveAction))
        ensures
            r == finish(outcome),
    {
        (SavePhase::Finished(outcome), SaveAction::Finish(outcome))
    }

    fn write_or_commit(&self, i: usize) -> (r: (SavePhase, SaveAction))
        requires
            self.values@.len() == SETTING_COUNT,
            i <= SETTING_COUNT,
        ensures
            r == write_or_commit(self.values@, i as int),
            r.0 matches SavePhase::Writing(j) ==> j < SETTING_COUNT,
    {
        if i < self.values.len() {
            (SavePhase::Writing(i), SaveAction::Write(SettingKey::from_index(i), self.values[i].duplicate()))
        } else {
            (SavePhase::Committing, SaveAction::Commit)
        }
    }
}

impl UnsavedSettings {
    /// Starts saving the snapshot: gives the session that decides the save, and its first
    /// action, which opens the write transaction.
    pub fn save(&self) -> (r: (SaveSession, SaveAction))
        ensures
            r.0.wf(),
            r.0.values() == self@,
            r.0.offline() == self.offline,
            r.0.phase() == SavePhase::Opening,
            r.1 == SaveAction::BeginTransaction,
    {
        let mut values: Vec<SettingValue> = Vec::new();
        let mut i: usize = 0;
        while i < SETTING_COUNT
            invariant
                i <= SETTING_COUNT,
                values@.len() == i,
                forall|j: int| 0 <= j < i ==> #[trigger] values@[j] == self.spec_get(key_at(j)),
            decreases SETTING_COUNT - i,
        {
            values.push(self.get(SettingKey::from_index(i)));
            i = i + 1;
        }
        assert(values@ =~= self@);
        (SaveSession { values, offline: self.offline, phase: SavePhase::Opening }, SaveAction::BeginTransaction)
    }
}

/// The persisted keys as a save sees them: the committed values, in catalog order, and
/// the values that the open transaction would commit.
pub struct StoreModel {
    pub committed: Seq<SettingValue>,
    pub staged: Seq<SettingValue>,
}

/// What the store holds after it answered `action` with `event`. A transaction starts
/// from the committed values; a write changes only what the transaction would commit; a
/// commit publishes all of it at once. A failed or unanswered request changes nothing
/// that is committed, and a transaction that is never committed is dropped.
pub open spec fn store_after(store: StoreModel, action: SaveAction, event: SaveEvent) -> StoreModel {
    if event == SaveEvent::Succeeded {
        match action {
            SaveAction::BeginTransaction => StoreModel {
                committed: store.committed,
                staged: store.committed,
            },
            SaveAction::Write(key, value) => StoreModel {
                committed: store.committed,
                staged: store.staged.update(key.spec_index(), value),
            },
            SaveAction::Commit => StoreModel { committed: store.staged, staged: store.staged },
            _ => store,
        }
    } else {
        store
    }
}

/// A session in `phase` that asked for `action`, and the store, after `events` answered
/// one request each: the phase, the last action asked for, and the store.
pub open spec fn run(
    values: Seq<SettingValue>,
    offline: bool,
    phase: SavePhase,
    action: SaveAction,
    store: StoreModel,
    events: Seq<SaveEvent>,
) -> (SavePhase, SaveAction, StoreModel)
    decreases events.len(),
{
    if events.len() == 0 {
        (phase, action, store)
    } else {
        let next = spec_next(values, offline, phase, events[0]);
        run(values, offline, next.0, next.1, store_after(store, action, events[0]), events.drop_first())
    }
}

/// A save of `s`, from its start, against `store`, answered by `events`.
pub open spec fn run_save(s: UnsavedSettings, store: StoreModel, events: Seq<SaveEvent>) -> (
    SavePhase,
    SaveAction,
    StoreModel,
) {
    run(s@, s.offline, SavePhase::Opening, SaveAction::BeginTransaction, store, events)
}

/// `n` answers that each report success.
pub open spec fn all_succeeded(n: nat) -> Seq<SaveEvent> {
    Seq::new(n, |i: int| SaveEvent::Succeeded)
}

/// The number of successful answers that take a save from its start through the
/// transaction, every write and the commit.
pub open spec fn commit_answers() -> nat {
    SETTING_COUNT as nat + 2
}

/// From the write at position `i`, with the positions before it already written, the
/// remaining writes and the commit leave every value of the snapshot committed.
proof fn lemma_writes_then_commit(
    values: Seq<SettingValue>,
    offline: bool,
    i: int,
    store: StoreModel,
)
    requires
        values.len() == SETTING_COUNT,
        0 <= i < SETTING_COUNT,
        store.staged.len() == SETTING_COUNT,
        forall|j: int| 0 <= j < i ==> #[trigger] store.staged[j] == values[j],
    ensures
        run(
            values,
            offline,
            SavePhase::Writing(i as usize),
            SaveAction::Write(key_at(i), values[i]),
            store,
            all_succeeded((SETTING_COUNT - i + 1) as nat),
        ) == (SavePhase::ReadingRunState, SaveAction::ReadRunState, StoreModel {
            committed: values,
            staged: values,
        }),
    decreases SETTING_COUNT - i,
{
    lemma_key_positions();
    let events = all_succeeded((SETTING_COUNT - i + 1) as nat);
    let written = store_after(store, SaveAction::Write(key_at(i), values[i]), SaveEvent::Succeeded);
    assert(written.staged == store.staged.update(i, values[i]));
    assert(events.drop_first() =~= all_succeeded((SETTING_COUNT - i) as nat));
    assert(events[0] == SaveEvent::Succeeded);
    if i + 1 < SETTING_COUNT {
        lemma_writes_then_commit(values, offline, i + 1, written);
    } else {
        assert(written.staged =~= values);
        let rest = events.drop_first();
        assert(rest[0] == SaveEvent::Succeeded);
        assert(rest.drop_first() =~= Seq::<SaveEvent>::empty());
        reveal_with_fuel(run, 3);
    }
}

/// A save of `values` whose every request succeeds leaves exactly those values committed.
proof fn lemma_full_save(values: Seq<SettingValue>, offline: bool, store: StoreModel)
    requires
        values.len() == SETTING_COUNT,
        store.committed.len() == SETTING_COUNT,
    ensures
        run(
            values,
            offline,
            SavePhase::Opening,
            SaveAction::BeginTransaction,
            store,
            all_succeeded(commit_answers()),
        ).2.committed == values,
{
    let events = all_succeeded(commit_answers());
    let opened = store_after(store, SaveAction::BeginTransaction, SaveEvent::Succeeded);
    assert(events[0] == SaveEvent::Succeeded);
    assert(events.drop_first() =~= all_succeeded((SETTING_COUNT + 1) as nat));
    lemma_writes_then_commit(values, offline, 0, opened);
}

/// A save whose every request succeeds leaves exactly the snapshot's values committed,
/// and a load of what is committed gives back the snapshot, field for field.
pub proof fn lemma_save_then_load(s: UnsavedSettings, store: StoreModel)
    requires
        store.committed.len() == SETTING_COUNT,
    ensures
        run_save(s, store, all_succeeded(commit_answers())).2.committed == s@,
        forall|loaded: UnsavedSettings|
            loaded@ == run_save(s, store, all_succeeded(commit_answers())).2.committed
                ==> loaded == s,
{
    lemma_full_save(s@, s.offline, store);
    assert forall|loaded: UnsavedSettings| loaded@ == s@ implies loaded == s by {
        lemma_view_determines_fields(loaded, s);
    }
}

/// Saving the same snapshot twice leaves the store committed as saving it once does.
pub proof fn lemma_save_twice(s: UnsavedSettings, store: StoreModel)
    requires
        store.committed.len() == SETTING_COUNT,
    ensures
        ({
            let once = run_save(s, store, all_succeeded(commit_answers())).2;
            let twice = run_save(s, once, all_succeeded(commit_answers())).2;
            twice.committed == once.committed
        }),
{
    lemma_save_then_load(s, store);
    let once = run_save(s, store, all_succeeded(commit_answers())).2;
    lemma_save_then_load(s, once);
}

/// A finished session keeps its outcome and asks for nothing that changes the store,
/// whatever answers follow.
proof fn lemma_finished_stays(
    values: Seq<SettingValue>,
    offline: bool,
    outcome: Result<(), StoreError>,
    store: StoreModel,
    events: Seq<SaveEvent>,
)
    ensures
        run(
            values,
            offline,
            SavePhase::Finished(outcome),
            SaveAction::Finish(outcome),
            store,
            events,
        ) == (SavePhase::Finished(outcome), SaveAction::Finish(outcome), store),
    decreases events.len(),
{
    if events.len() > 0 {
        lemma_finished_stays(values, offline, outcome, store, events.drop_first());
    }
}

/// From the write at position `i`, when the writes up to position `j` succeed and the
/// write at `j` fails, the session ends with that failure and nothing new is committed.
proof fn lemma_failed_write(
    values: Seq<SettingValue>,
    offline: bool,
    i: int,
    j: int,
    store: StoreModel,
    rest: Seq<SaveEvent>,
)
    requires
        values.len() == SETTING_COUNT,
        0 <= i <= j < SETTING_COUNT,
    ensures
        ({
            let out = run(
                values,
                offline,
                SavePhase::Writing(i as usize),
                SaveAction::Write(key_at(i), values[i]),
                store,
                all_succeeded((j - i) as nat) + seq![SaveEvent::Failed] + rest,
            );
            &&& out.2.committed == store.committed
            &&& out.0 == SavePhase::Finished(Err(StoreError::Write(key_at(j))))
        }),
    decreases j - i,
{
    let events = all_succeeded((j - i) as nat) + seq![SaveEvent::Failed] + rest;
    if i < j {
        let written = store_after(store, SaveAction::Write(key_at(i), values[i]), SaveEvent::Succeeded);
        assert(events[0] == SaveEvent::Succeeded);
        assert(events.drop_first() =~= all_succeeded((j - i - 1) as nat) + seq![SaveEvent::Failed] + rest);
        lemma_failed_write(values, offline, i + 1, j, written, rest);
    } else {
        assert(events[0] == SaveEvent::Failed);
        assert(events.drop_first() =~= rest);
        lemma_finished_stays(values, offline, Err(StoreError::Write(key_at(j))), store, rest);
    }
}

/// When every request of a save succeeds until the write of the key at position `j`
/// fails, the save ends with that failure and the committed values are those from
/// before the save, for every key: also for the keys written before the failure.
pub proof fn lemma_failed_write_commits_nothing(
    s: UnsavedSettings,
    store: StoreModel,
    j: int,
    rest: Seq<SaveEvent>,
)
    requires
        0 <= j < SETTING_COUNT,
    ensures
        ({
            let out = run_save(s, store, all_succeeded((j + 1) as nat) + seq![SaveEvent::Failed] + rest);
            &&& out.2.committed == store.committed
            &&& out.0 == SavePhase::Finished(Err(StoreError::Write(key_at(j))))
        }),
{
    let events = all_succeeded((j + 1) as nat) + seq![SaveEvent::Failed] + rest;
    let opened = store_after(store, SaveAction::BeginTransaction, SaveEvent::Succeeded);
    assert(events[0] == SaveEvent::Succeeded);
    assert(events.drop_first() =~= all_succeeded(j as nat) + seq![SaveEvent::Failed] + rest);
    lemma_failed_write(s@, s.offline, 0, j, opened, rest);
}

} // verus!
