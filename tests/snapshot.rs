use nostr_types::PrivateKey;
use unsaved_settings::catalog::{SettingKey, ValueKind, SETTING_COUNT};
use unsaved_settings::settings::UnsavedSettings;
use unsaved_settings::table::SettingsTable;
use unsaved_settings::value::SettingValue;

/// A value of `kind` that differs for each `seed`.
fn sample(kind: ValueKind, seed: usize) -> SettingValue {
    match kind {
        ValueKind::Bool => SettingValue::Bool(seed % 2 == 1),
        ValueKind::U8 => SettingValue::U8(seed as u8),
        ValueKind::U32 => SettingValue::U32(seed as u32 * 3),
        ValueKind::U64 => SettingValue::U64(seed as u64 * 1000),
        ValueKind::Usize => SettingValue::Usize(seed * 7),
        ValueKind::Text => SettingValue::Text(format!("text-{}", seed)),
        ValueKind::OptionalU32 => SettingValue::OptionalU32(Some(seed as u32)),
        ValueKind::F32Bits => SettingValue::F32Bits(f32::to_bits(seed as f32 / 4.0)),
        ValueKind::OptionalPublicKey => {
            SettingValue::OptionalPublicKey(Some(PrivateKey::generate().public_key()))
        }
    }
}

fn sample_values(seed: usize) -> Vec<SettingValue> {
    SettingKey::all()
        .iter()
        .map(|k| sample(k.kind(), k.index() + seed))
        .collect()
}

fn table(values: Vec<SettingValue>) -> SettingsTable {
    SettingsTable::from_values(values).expect("well typed")
}

#[test]
fn catalog_has_one_position_per_key() {
    let keys = SettingKey::all();
    assert_eq!(keys.len(), SETTING_COUNT);
    assert_eq!(SETTING_COUNT, 69);
    for (i, k) in keys.iter().enumerate() {
        assert_eq!(k.index(), i);
        assert_eq!(SettingKey::from_index(i), *k);
    }
    let distinct: std::collections::HashSet<SettingKey> = keys.iter().copied().collect();
    assert_eq!(distinct.len(), SETTING_COUNT);
    assert_eq!(SettingKey::Offline.index(), 3);
    assert_eq!(SettingKey::CachePrunePeriodDays.index(), 67);
    assert_eq!(SettingKey::BlossomServers.index(), 68);
    assert_eq!(SettingKey::MouseAcceleration.kind(), ValueKind::F32Bits);
    assert_eq!(SettingKey::PublicKey.kind(), ValueKind::OptionalPublicKey);
}

#[test]
fn table_rejects_wrong_length() {
    let mut values = sample_values(0);
    values.pop();
    assert!(SettingsTable::from_values(values).is_none());
    assert!(SettingsTable::from_values(Vec::new()).is_none());
    let mut values = sample_values(0);
    values.push(SettingValue::Bool(true));
    assert!(SettingsTable::from_values(values).is_none());
}

#[test]
fn table_rejects_wrong_type() {
    let mut values = sample_values(0);
    values[SettingKey::Offline.index()] = SettingValue::U8(1);
    assert!(SettingsTable::from_values(values).is_none());
}

#[test]
fn table_gives_stored_values() {
    let values = sample_values(5);
    let t = table(values.clone());
    assert_eq!(t.get(SettingKey::LogN), &values[1]);
    assert_eq!(t.u8_of(SettingKey::LogN), 6);
    assert_eq!(t.text_of(SettingKey::BlossomServers), "text-73");
}

#[test]
fn load_takes_each_stored_value() {
    let values = sample_values(3);
    let s = UnsavedSettings::load(&table(values.clone()));
    for k in SettingKey::all() {
        assert_eq!(s.get(k), values[k.index()]);
    }
    assert_eq!(s.log_n, 4);
    assert!(!s.offline);
    assert_eq!(s.delegatee_tag, "text-35");
    assert_eq!(s.override_dpi, Some(43));
    assert_eq!(f32::from_bits(s.mouse_acceleration), 50.0 / 4.0);
    assert_eq!(s.cache_prune_period_days, 70_000);
}

#[test]
fn defaults_fill_every_field() {
    let values = sample_values(0);
    let s = UnsavedSettings::with_defaults(&table(values.clone()));
    for k in SettingKey::all() {
        if k != SettingKey::CachePrunePeriodDays {
            assert_eq!(s.get(k), values[k.index()]);
        }
    }
    assert_eq!(s.prune_period_days, 66_000);
}

#[test]
fn cache_prune_default_follows_prune_default() {
    let values = sample_values(0);
    assert_eq!(values[SettingKey::CachePrunePeriodDays.index()], SettingValue::U64(67_000));
    let s = UnsavedSettings::with_defaults(&table(values));
    assert_eq!(s.cache_prune_period_days, 66_000);
    assert_eq!(s.cache_prune_period_days, s.prune_period_days);
}

#[test]
fn duplicate_is_equal() {
    for v in sample_values(2) {
        assert_eq!(v.duplicate(), v);
    }
    let t = SettingValue::Text("abc".to_string());
    assert_eq!(t.duplicate(), SettingValue::Text("abc".to_string()));
    assert_eq!(t.kind(), ValueKind::Text);
}

#[test]
fn staged_changes_stay_in_the_snapshot() {
    let t = table(sample_values(0));
    let mut s = UnsavedSettings::load(&t);
    let before = s.offline;
    s.offline = !before;
    s.theme_variant = "Dark".to_string();
    assert_eq!(s.get(SettingKey::Offline), SettingValue::Bool(!before));
    assert_eq!(s.get(SettingKey::ThemeVariant), SettingValue::Text("Dark".to_string()));
    let again = UnsavedSettings::load(&t);
    assert_eq!(again.offline, before);
    assert_ne!(again, s);
}
