//! Settings: value transitions driving effects, baseline resets, and
//! configuration round trips.

use swqol::config::{ConfigError, ConfigTable, ConfigValue};
use swqol::injections::{Injection, NumberInjection, encode_le};
use swqol::memory::MemoryRegion;
use swqol::tweaks::{Defaults, Detour, TweakError};
use swqol::tweaks::settings::{Setting, SettingKind, SettingValue};
use swqol::tweaks::settings::slider::Slider;
use swqol::tweaks::settings::toggle::Toggle;

fn region(bytes: &[u8]) -> MemoryRegion {
    MemoryRegion::new(bytes.to_vec())
}

fn toggle_setting() -> Setting {
    // one plain patch at offset 0, one inverted patch at offset 2, one
    // detour
    let toggle = Toggle {
        label: "demo toggle".to_string(),
        tooltip: String::new(),
        injections: vec![
            (Injection::new(0, vec![0xAA]), false),
            (Injection::new(2, vec![0xBB]), true),
        ],
        detours: vec![(Detour::install(7, 1000), false)],
        listeners: vec!["demo_listener".to_string()],
    };
    Setting::new(
        SettingKind::Toggle(toggle),
        Defaults::new(SettingValue::Bool(true), SettingValue::Bool(false)),
        Some("demo".to_string()),
    )
}

#[test]
fn toggle_set_applies_plain_and_removes_inverted() {
    let mut mem = region(&[1, 2, 3, 4]);
    let mut s = toggle_setting();
    s.set(SettingValue::Bool(true), &mut mem).unwrap();
    assert_eq!(mem.read_bytes(0, 4), Some(vec![0xAA, 2, 3, 4]));
    s.set(SettingValue::Bool(false), &mut mem).unwrap();
    assert_eq!(mem.read_bytes(0, 4), Some(vec![1, 2, 0xBB, 4]));
}

#[test]
fn reset_to_default_then_vanilla_lands_on_vanilla() {
    let mut mem = region(&[1, 2, 3, 4]);
    let mut s = toggle_setting();
    s.reset_to_default(&mut mem).unwrap();
    s.reset_to_vanilla(&mut mem).unwrap();
    // vanilla is off: the plain patch is removed, the inverted one applied
    assert_eq!(s.value(), SettingValue::Bool(false));
    assert_eq!(mem.read_bytes(0, 4), Some(vec![1, 2, 0xBB, 4]));
}

#[test]
fn failed_set_is_transactional() {
    // the second patch lies outside the region, so nothing may change
    let mut mem = region(&[1, 2]);
    let mut s = toggle_setting();
    assert!(s.set(SettingValue::Bool(false), &mut mem).is_err());
    assert_eq!(s.value(), SettingValue::Bool(true));
    assert_eq!(mem.read_bytes(0, 2), Some(vec![1, 2]));
}

#[test]
fn slider_set_writes_the_encoding_into_both_patches() {
    // a slider over 0..=20 bound to two one-byte patches
    let mut mem = region(&[0, 0, 0, 0, 0, 0]);
    let slider = Slider {
        label: "demo slider".to_string(),
        tooltip: String::new(),
        min: 0,
        max: 20,
        injections: vec![
            NumberInjection::new(Injection::new(1, encode_le(0, 1))),
            NumberInjection::new(Injection::new(4, encode_le(0, 1))),
        ],
    };
    let mut s = Setting::new(
        SettingKind::Slider(slider),
        Defaults::new(SettingValue::Int(0), SettingValue::Int(0)),
        None,
    );
    s.set(SettingValue::Int(10), &mut mem).unwrap();
    assert_eq!(s.value(), SettingValue::Int(10));
    assert_eq!(mem.read_bytes(0, 6), Some(vec![0, 10, 0, 0, 10, 0]));
}

#[test]
fn setting_uninit_removes_effects_and_keeps_value() {
    let mut mem = region(&[1, 2, 3, 4]);
    let mut s = toggle_setting();
    s.set(SettingValue::Bool(true), &mut mem).unwrap();
    s.uninit(&mut mem).unwrap();
    assert_eq!(s.value(), SettingValue::Bool(true));
    assert_eq!(mem.read_bytes(0, 4), Some(vec![1, 2, 3, 4]));
}

#[test]
fn config_table_get_and_set() {
    let mut t = ConfigTable::new();
    assert_eq!(t.get(&"a".to_string()), None);
    t.set("a".to_string(), ConfigValue::Bool(true));
    t.set("b".to_string(), ConfigValue::Int(7));
    t.set("a".to_string(), ConfigValue::Bool(false));
    assert_eq!(t.get(&"a".to_string()), Some(ConfigValue::Bool(false)));
    assert_eq!(t.get(&"b".to_string()), Some(ConfigValue::Int(7)));
    assert_eq!(t.len(), 2);
}

#[test]
fn config_round_trip_reproduces_the_value() {
    let mut mem = region(&[1, 2, 3, 4]);
    let mut s = toggle_setting();
    s.set(SettingValue::Bool(false), &mut mem).unwrap();

    let mut table = ConfigTable::new();
    s.save_config(&mut table);

    // a fresh setting with the same key loads the saved value exactly
    let mut fresh = toggle_setting();
    fresh.load_config(&table, &mut mem).unwrap();
    assert_eq!(fresh.value(), SettingValue::Bool(false));
}

#[test]
fn config_round_trip_for_numeric_values() {
    let mut mem = region(&[0, 0]);
    let slider = Slider {
        label: "n".to_string(),
        tooltip: String::new(),
        min: 0,
        max: 100,
        injections: vec![NumberInjection::new(Injection::new(0, encode_le(0, 1)))],
    };
    let mut s = Setting::new(
        SettingKind::Slider(slider),
        Defaults::new(SettingValue::Int(1), SettingValue::Int(2)),
        Some("speed".to_string()),
    );
    s.set(SettingValue::Int(42), &mut mem).unwrap();
    let mut table = ConfigTable::new();
    s.save_config(&mut table);
    assert_eq!(table.get(&"speed".to_string()), Some(ConfigValue::Int(42)));

    let slider2 = Slider {
        label: "n".to_string(),
        tooltip: String::new(),
        min: 0,
        max: 100,
        injections: vec![NumberInjection::new(Injection::new(0, encode_le(0, 1)))],
    };
    let mut fresh = Setting::new(
        SettingKind::Slider(slider2),
        Defaults::new(SettingValue::Int(1), SettingValue::Int(2)),
        Some("speed".to_string()),
    );
    fresh.load_config(&table, &mut mem).unwrap();
    assert_eq!(fresh.value(), SettingValue::Int(42));
    assert_eq!(mem.read_bytes(0, 1), Some(vec![42]));
}

#[test]
fn config_type_mismatch_is_skipped_with_an_error() {
    let mut mem = region(&[1, 2, 3, 4]);
    let mut s = toggle_setting();
    let mut table = ConfigTable::new();
    table.set("demo".to_string(), ConfigValue::Int(3));
    let err = s.load_config(&table, &mut mem).unwrap_err();
    assert_eq!(err, TweakError::Config(ConfigError::TypeMismatch));
    // the setting stays at its value and nothing is written
    assert_eq!(s.value(), SettingValue::Bool(true));
    assert_eq!(mem.read_bytes(0, 4), Some(vec![1, 2, 3, 4]));
}

#[test]
fn config_out_of_range_is_skipped_with_an_error() {
    let mut mem = region(&[0]);
    let slider = Slider {
        label: "n".to_string(),
        tooltip: String::new(),
        min: 0,
        max: 20,
        injections: vec![NumberInjection::new(Injection::new(0, encode_le(0, 1)))],
    };
    let mut s = Setting::new(
        SettingKind::Slider(slider),
        Defaults::new(SettingValue::Int(0), SettingValue::Int(0)),
        Some("n".to_string()),
    );
    let mut table = ConfigTable::new();
    table.set("n".to_string(), ConfigValue::Int(500));
    let err = s.load_config(&table, &mut mem).unwrap_err();
    assert_eq!(err, TweakError::Config(ConfigError::OutOfRange));
    assert_eq!(s.value(), SettingValue::Int(0));
}

#[test]
fn setting_without_key_is_not_persisted() {
    let mut table = ConfigTable::new();
    let mut s = toggle_setting();
    s.config_key = None;
    s.save_config(&mut table);
    assert_eq!(table.len(), 0);
}

#[test]
fn listeners_ride_along_for_the_caller_to_notify() {
    let mut mem = region(&[1, 2, 3, 4]);
    let mut s = toggle_setting();
    assert_eq!(s.change_listeners(), vec!["demo_listener".to_string()]);
    // the listener set survives value transitions; the caller dispatches
    // one notification per name after each successful set
    s.set(SettingValue::Bool(true), &mut mem).unwrap();
    assert_eq!(s.change_listeners(), vec!["demo_listener".to_string()]);
}

#[test]
fn detour_toggles_only_the_redirection() {
    let mut d = Detour::install(0x100, 0x200);
    assert!(!d.enabled);
    d.enable().unwrap();
    assert!(d.enabled);
    d.enable().unwrap();
    assert!(d.enabled);
    d.disable().unwrap();
    assert!(!d.enabled);
    // target and hook survive every transition
    assert_eq!(d.target_address, 0x100);
    assert_eq!(d.hook_address, 0x200);
}
