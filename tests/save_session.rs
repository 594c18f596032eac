use unsaved_settings::catalog::{SettingKey, ValueKind, SETTING_COUNT};
use unsaved_settings::save::{reconcile_run_state, RunState, SaveAction, SaveEvent, StoreError};
use unsaved_settings::settings::UnsavedSettings;
use unsaved_settings::table::SettingsTable;
use unsaved_settings::value::SettingValue;

fn value_for(kind: ValueKind, seed: usize) -> SettingValue {
    match kind {
        ValueKind::Bool => SettingValue::Bool(seed % 2 == 0),
        ValueKind::U8 => SettingValue::U8(seed as u8),
        ValueKind::U32 => SettingValue::U32(seed as u32),
        ValueKind::U64 => SettingValue::U64(seed as u64),
        ValueKind::Usize => SettingValue::Usize(seed),
        ValueKind::Text => SettingValue::Text(format!("v{}", seed)),
        ValueKind::OptionalU32 => SettingValue::OptionalU32(None),
        ValueKind::F32Bits => SettingValue::F32Bits(f32::to_bits(1.5)),
        ValueKind::OptionalPublicKey => SettingValue::OptionalPublicKey(None),
    }
}

fn values(seed: usize) -> Vec<SettingValue> {
    SettingKey::all()
        .iter()
        .map(|k| value_for(k.kind(), k.index() * 10 + seed))
        .collect()
}

/// A transactional store in memory: writes go to a copy that a commit publishes.
struct MemoryStore {
    committed: Vec<SettingValue>,
    staged: Option<Vec<SettingValue>>,
    fail_write_of: Option<SettingKey>,
    fail_open: bool,
    fail_commit: bool,
    run_state: RunState,
    broadcasts: Vec<RunState>,
    writes: usize,
}

impl MemoryStore {
    fn new(committed: Vec<SettingValue>, run_state: RunState) -> MemoryStore {
        MemoryStore {
            committed,
            staged: None,
            fail_write_of: None,
            fail_open: false,
            fail_commit: false,
            run_state,
            broadcasts: Vec::new(),
            writes: 0,
        }
    }

    fn load(&self) -> UnsavedSettings {
        UnsavedSettings::load(&SettingsTable::from_values(self.committed.clone()).unwrap())
    }

    fn save(&mut self, settings: &UnsavedSettings) -> Result<(), StoreError> {
        let (mut session, mut action) = settings.save();
        loop {
            let event = match action {
                SaveAction::BeginTransaction => {
                    if self.fail_open {
                        SaveEvent::Failed
                    } else {
                        self.staged = Some(self.committed.clone());
                        SaveEvent::Succeeded
                    }
                }
                SaveAction::Write(key, value) => {
                    if self.fail_write_of == Some(key) {
                        SaveEvent::Failed
                    } else {
                        self.writes += 1;
                        self.staged.as_mut().unwrap()[key.index()] = value;
                        SaveEvent::Succeeded
                    }
                }
                SaveAction::Commit => {
                    if self.fail_commit {
                        SaveEvent::Failed
                    } else {
                        self.committed = self.staged.take().unwrap();
                        SaveEvent::Succeeded
                    }
                }
                SaveAction::ReadRunState => SaveEvent::RunStateRead(self.run_state),
                SaveAction::Broadcast(state) => {
                    self.broadcasts.push(state);
                    self.run_state = state;
                    SaveEvent::Succeeded
                }
                SaveAction::Finish(outcome) => {
                    self.staged = None;
                    return outcome;
                }
            };
            action = session.step(event);
        }
    }
}

#[test]
fn save_then_load_gives_the_snapshot() {
    let defaults = SettingsTable::from_values(values(1)).unwrap();
    let s = UnsavedSettings::with_defaults(&defaults);
    let mut store = MemoryStore::new(values(2), RunState::Initializing);
    assert_eq!(store.save(&s), Ok(()));
    assert_eq!(store.writes, SETTING_COUNT);
    assert_eq!(store.load(), s);
}

#[test]
fn save_writes_every_changed_field() {
    let mut store = MemoryStore::new(values(3), RunState::Initializing);
    let mut s = store.load();
    s.max_relays = 9;
    s.blossom_servers = "https://blossom.example".to_string();
    s.override_dpi = Some(144);
    assert_eq!(store.save(&s), Ok(()));
    let loaded = store.load();
    assert_eq!(loaded.max_relays, 9);
    assert_eq!(loaded.blossom_servers, "https://blossom.example");
    assert_eq!(loaded.override_dpi, Some(144));
    assert_eq!(loaded, s);
}

#[test]
fn failed_write_commits_nothing() {
    let before = values(4);
    let mut store = MemoryStore::new(before.clone(), RunState::Online);
    let mut s = UnsavedSettings::load(&SettingsTable::from_values(values(5)).unwrap());
    s.offline = true;
    store.fail_write_of = Some(SettingKey::ThemeVariant);
    assert_eq!(store.save(&s), Err(StoreError::Write(SettingKey::ThemeVariant)));
    assert_eq!(store.writes, SettingKey::ThemeVariant.index());
    assert_eq!(store.committed, before);
    assert!(store.broadcasts.is_empty());
    assert_eq!(store.run_state, RunState::Online);
    assert!(s.offline);
}

#[test]
fn failed_first_and_last_writes_commit_nothing() {
    for key in [SettingKey::PublicKey, SettingKey::BlossomServers] {
        let before = values(6);
        let mut store = MemoryStore::new(before.clone(), RunState::Offline);
        store.fail_write_of = Some(key);
        let s = UnsavedSettings::load(&SettingsTable::from_values(values(7)).unwrap());
        assert_eq!(store.save(&s), Err(StoreError::Write(key)));
        assert_eq!(store.committed, before);
        assert!(store.broadcasts.is_empty());
    }
}

#[test]
fn failed_open_and_commit_commit_nothing() {
    let before = values(8);
    let s = UnsavedSettings::load(&SettingsTable::from_values(values(9)).unwrap());
    let mut store = MemoryStore::new(before.clone(), RunState::Online);
    store.fail_open = true;
    assert_eq!(store.save(&s), Err(StoreError::TransactionOpen));
    assert_eq!(store.writes, 0);
    assert_eq!(store.committed, before);
    let mut store = MemoryStore::new(before.clone(), RunState::Online);
    store.fail_commit = true;
    assert_eq!(store.save(&s), Err(StoreError::Commit));
    assert_eq!(store.committed, before);
    assert!(store.broadcasts.is_empty());
}

#[test]
fn saving_twice_equals_saving_once() {
    let s = UnsavedSettings::load(&SettingsTable::from_values(values(1)).unwrap());
    let mut once = MemoryStore::new(values(2), RunState::Initializing);
    assert_eq!(once.save(&s), Ok(()));
    let mut twice = MemoryStore::new(values(2), RunState::Initializing);
    assert_eq!(twice.save(&s), Ok(()));
    assert_eq!(twice.save(&s), Ok(()));
    assert_eq!(twice.committed, once.committed);
}

fn snapshot_with_offline(offline: bool) -> UnsavedSettings {
    let mut s = UnsavedSettings::load(&SettingsTable::from_values(values(0)).unwrap());
    s.offline = offline;
    s
}

#[test]
fn going_offline_is_announced_once() {
    let mut store = MemoryStore::new(values(0), RunState::Online);
    assert_eq!(store.save(&snapshot_with_offline(true)), Ok(()));
    assert_eq!(store.broadcasts, vec![RunState::Offline]);
}

#[test]
fn going_online_is_announced_once() {
    let mut store = MemoryStore::new(values(0), RunState::Offline);
    assert_eq!(store.save(&snapshot_with_offline(false)), Ok(()));
    assert_eq!(store.broadcasts, vec![RunState::Online]);
}

#[test]
fn consistent_run_state_is_left_alone() {
    let mut store = MemoryStore::new(values(0), RunState::Online);
    assert_eq!(store.save(&snapshot_with_offline(false)), Ok(()));
    assert!(store.broadcasts.is_empty());
    let mut store = MemoryStore::new(values(0), RunState::Offline);
    assert_eq!(store.save(&snapshot_with_offline(true)), Ok(()));
    assert!(store.broadcasts.is_empty());
}

#[test]
fn other_run_states_are_left_alone() {
    for state in [RunState::Initializing, RunState::ShuttingDown] {
        for offline in [false, true] {
            let mut store = MemoryStore::new(values(0), state);
            assert_eq!(store.save(&snapshot_with_offline(offline)), Ok(()));
            assert!(store.broadcasts.is_empty());
        }
    }
}

#[test]
fn reconcile_covers_every_combination() {
    assert_eq!(reconcile_run_state(true, RunState::Online), Some(RunState::Offline));
    assert_eq!(reconcile_run_state(false, RunState::Offline), Some(RunState::Online));
    assert_eq!(reconcile_run_state(false, RunState::Online), None);
    assert_eq!(reconcile_run_state(true, RunState::Offline), None);
    assert_eq!(reconcile_run_state(true, RunState::Initializing), None);
    assert_eq!(reconcile_run_state(false, RunState::ShuttingDown), None);
}

#[test]
fn finished_session_stays_finished() {
    let s = snapshot_with_offline(true);
    let (mut session, first) = s.save();
    assert!(matches!(first, SaveAction::BeginTransaction));
    let action = session.step(SaveEvent::Failed);
    assert!(matches!(action, SaveAction::Finish(Err(StoreError::TransactionOpen))));
    for event in [SaveEvent::Succeeded, SaveEvent::RunStateRead(RunState::Online)] {
        let action = session.step(event);
        assert!(matches!(action, SaveAction::Finish(Err(StoreError::TransactionOpen))));
    }
}

#[test]
fn writes_follow_catalog_order() {
    let s = snapshot_with_offline(false);
    let (mut session, _) = s.save();
    for i in 0..SETTING_COUNT {
        match session.step(SaveEvent::Succeeded) {
            SaveAction::Write(key, value) => {
                assert_eq!(key, SettingKey::from_index(i));
                assert_eq!(value, s.get(key));
            }
            other => panic!("expected a write, got {:?}", other),
        }
    }
    assert!(matches!(session.step(SaveEvent::Succeeded), SaveAction::Commit));
    assert!(matches!(session.step(SaveEvent::Succeeded), SaveAction::ReadRunState));
    let action = session.step(SaveEvent::RunStateRead(RunState::Offline));
    assert!(matches!(action, SaveAction::Broadcast(RunState::Online)));
    assert!(matches!(session.step(SaveEvent::Succeeded), SaveAction::Finish(Ok(()))));
}
