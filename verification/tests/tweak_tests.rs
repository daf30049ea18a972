//! Tweak construction against synthetic module images, and the registry's
//! partial-activation and configuration behaviour.

use swqol::memory::MemoryRegion;
use swqol::registry::TweakRegistry;
use swqol::tweaks::dev_mode::DevModeTweak;
use swqol::tweaks::map_lag::MapLagTweak;
use swqol::tweaks::multithreaded_loading::MultithreadedLoadingTweak;
use swqol::tweaks::settings::SettingValue;
use swqol::tweaks::settings::toggle::ToggleBuilder;
use swqol::tweaks::transform_edit::{is_orthonormal, read_rel32_target};
use swqol::tweaks::{
    Defaults, HookTable, ScanAOBSingleError, TweakBuilder, TweakConfig, TweakError, TweakWrapper,
};
use swqol::injections::Injection;

/// A synthetic module image holding the developer-id check signature at
/// offset 2.
fn dev_mode_image() -> Vec<u8> {
    let mut bytes = vec![0x00, 0x00];
    bytes.extend_from_slice(&[0x48, 0x39, 0x34, 0xd0, 0x74, 0x05]);
    bytes.extend_from_slice(&[0x00, 0x00, 0x00]);
    bytes
}

/// A synthetic module image holding the map-screen sleep signature at
/// offset 1.
fn map_lag_image() -> Vec<u8> {
    let mut bytes = vec![0x11];
    bytes.extend_from_slice(&[
        0xB9, 0x0A, 0x00, 0x00, 0x00, 0xFF, 0x15, 0x01, 0x02, 0x03, 0x04, 0x48,
    ]);
    bytes
}

#[test]
fn dev_mode_builds_without_touching_memory() {
    let mut mem = MemoryRegion::new(dev_mode_image());
    let mut builder = TweakBuilder::new();
    DevModeTweak::new(&mut builder, &mut mem).unwrap();
    // off by default: the jump byte is untouched until the toggle goes on
    assert_eq!(mem.read_bytes(6, 1), Some(vec![0x74]));
    assert_eq!(builder.settings.len(), 1);

    let mut wrapper = TweakWrapper::new(DevModeTweak::config_id().to_string(), builder);
    wrapper.settings[0].set(SettingValue::Bool(true), &mut mem).unwrap();
    assert_eq!(mem.read_bytes(6, 1), Some(vec![0x75]));
    wrapper.settings[0].set(SettingValue::Bool(false), &mut mem).unwrap();
    assert_eq!(mem.read_bytes(6, 1), Some(vec![0x74]));
}

#[test]
fn dev_mode_fails_on_an_ambiguous_signature() {
    let mut bytes = dev_mode_image();
    bytes.extend_from_slice(&[0x48, 0x39, 0x34, 0xd0, 0x74, 0x07]);
    let mut mem = MemoryRegion::new(bytes);
    let mut builder = TweakBuilder::new();
    let err = DevModeTweak::new(&mut builder, &mut mem).unwrap_err();
    assert_eq!(err, TweakError::Scan(ScanAOBSingleError::MultipleMatches));
}

#[test]
fn map_lag_builds_and_drives_the_sleep_byte() {
    let mut mem = MemoryRegion::new(map_lag_image());
    let mut builder = TweakBuilder::new();
    MapLagTweak::new(&mut builder, &mut mem).unwrap();
    // the default of zero is written immediately over the vanilla ten
    assert_eq!(mem.read_bytes(2, 1), Some(vec![0]));

    let mut wrapper = TweakWrapper::new(MapLagTweak::config_id().to_string(), builder);
    wrapper.settings[0].set(SettingValue::Int(5), &mut mem).unwrap();
    assert_eq!(mem.read_bytes(2, 1), Some(vec![5]));
    // vanilla restores the original sleep duration
    wrapper.settings[0].reset_to_vanilla(&mut mem).unwrap();
    assert_eq!(mem.read_bytes(2, 1), Some(vec![10]));
}

#[test]
fn multithreaded_loading_requires_registered_hooks() {
    let mut mem = MemoryRegion::new(vec![0; 64]);
    let mut builder = TweakBuilder::new();
    let hooks = HookTable::new();
    let err = MultithreadedLoadingTweak::new(&mut builder, &hooks, &mut mem).unwrap_err();
    assert_eq!(err, TweakError::MissingHook);
}

#[test]
fn registry_keeps_the_successful_tweak_and_records_the_failure() {
    // two tweaks against an image that only holds the dev-mode signature:
    // the active set holds exactly the successful one, and the error list
    // exactly one entry keyed to the failed tweak's identity
    let mut registry = TweakRegistry::new(MemoryRegion::new(dev_mode_image()));

    let mut builder = TweakBuilder::new();
    let outcome = match DevModeTweak::new(&mut builder, &mut registry.region) {
        Ok(_) => Ok(()),
        Err(e) => Err(e),
    };
    registry.register(DevModeTweak::config_id().to_string(), builder, outcome);

    let mut builder = TweakBuilder::new();
    let outcome = match MapLagTweak::new(&mut builder, &mut registry.region) {
        Ok(_) => Ok(()),
        Err(e) => Err(e),
    };
    registry.register(MapLagTweak::config_id().to_string(), builder, outcome);

    assert_eq!(registry.tweaks.len(), 1);
    assert_eq!(registry.tweaks[0].title, "dev_mode_tweak");
    assert_eq!(registry.errors.len(), 1);
    assert_eq!(registry.errors[0].0, "map_lag_tweak");
    assert_eq!(
        registry.errors[0].1,
        TweakError::Scan(ScanAOBSingleError::NoMatches)
    );
}

#[test]
fn registry_config_round_trip_across_tweaks() {
    let mut registry = TweakRegistry::new(MemoryRegion::new(dev_mode_image()));
    let mut builder = TweakBuilder::new();
    let outcome = match DevModeTweak::new(&mut builder, &mut registry.region) {
        Ok(_) => Ok(()),
        Err(e) => Err(e),
    };
    registry.register(DevModeTweak::config_id().to_string(), builder, outcome);

    registry.tweaks[0].settings[0]
        .set(SettingValue::Bool(true), &mut registry.region)
        .unwrap();
    let doc = registry.save_config();
    assert_eq!(doc.len(), 1);
    assert_eq!(doc[0].0, "dev_mode_tweak");

    // a fresh registry over a fresh image reproduces the saved state
    let mut fresh = TweakRegistry::new(MemoryRegion::new(dev_mode_image()));
    let mut builder = TweakBuilder::new();
    let outcome = match DevModeTweak::new(&mut builder, &mut fresh.region) {
        Ok(_) => Ok(()),
        Err(e) => Err(e),
    };
    fresh.register(DevModeTweak::config_id().to_string(), builder, outcome);
    fresh.load_config(&doc);
    assert!(fresh.errors.is_empty());
    assert_eq!(fresh.tweaks[0].settings[0].value(), SettingValue::Bool(true));
    assert_eq!(fresh.region.read_bytes(6, 1), Some(vec![0x75]));
}

#[test]
fn registry_uninit_restores_the_image() {
    let original = map_lag_image();
    let mut registry = TweakRegistry::new(MemoryRegion::new(original.clone()));
    let mut builder = TweakBuilder::new();
    let outcome = match MapLagTweak::new(&mut builder, &mut registry.region) {
        Ok(_) => Ok(()),
        Err(e) => Err(e),
    };
    registry.register(MapLagTweak::config_id().to_string(), builder, outcome);
    assert_eq!(registry.region.read_bytes(2, 1), Some(vec![0]));

    let clean = registry.uninit_all();
    assert!(clean);
    assert_eq!(
        registry.region.read_bytes(0, original.len()),
        Some(original)
    );
}

#[test]
fn install_all_activates_what_the_image_offers() {
    // an image holding only the dev-mode and map-lag signatures: those two
    // tweaks activate, every other one is excluded with its own error
    let mut image = dev_mode_image();
    image.extend_from_slice(&map_lag_image());
    let mut registry = TweakRegistry::new(MemoryRegion::new(image));
    registry.register_hook("custom_fade".to_string(), 0x1000);
    registry.register_hook("custom_fade_1_12_6".to_string(), 0x1001);
    registry.register_hook("load_rom_hook".to_string(), 0x1002);
    registry.register_hook("load_save_hook".to_string(), 0x1003);
    registry.register_hook("update_quaternion_hook".to_string(), 0x1004);
    registry.register_hook("editor_destructor_hook".to_string(), 0x1005);
    registry.register_hook("safety_check".to_string(), 0x1006);
    registry.register_hook("hook_ctrl_click".to_string(), 0x1007);
    registry.install_all();

    let titles: Vec<&str> = registry.tweaks.iter().map(|t| t.title()).collect();
    assert_eq!(titles, vec!["map_lag_tweak", "dev_mode_tweak"]);
    assert_eq!(registry.errors.len(), 6);
    for (_, e) in &registry.errors {
        assert_eq!(*e, TweakError::Scan(ScanAOBSingleError::NoMatches));
    }
}

#[test]
fn toggle_builder_registers_an_applied_setting() {
    let mut mem = MemoryRegion::new(vec![1, 2, 3, 4]);
    let mut builder = TweakBuilder::new();
    ToggleBuilder::new("demo".to_string(), Defaults::new(true, false))
        .injection(Injection::new(1, vec![0xEE]), false)
        .build(&mut builder, &mut mem)
        .unwrap();
    assert_eq!(builder.settings.len(), 1);
    assert_eq!(builder.settings[0].value(), SettingValue::Bool(true));
    assert_eq!(mem.read_bytes(0, 4), Some(vec![1, 0xEE, 3, 4]));
}

#[test]
fn orthonormal_matrices_are_recognized() {
    assert!(is_orthonormal(&[1, 0, 0, 0, 1, 0, 0, 0, 1]));
    // a proper rotation by a quarter turn
    assert!(is_orthonormal(&[0, -1, 0, 1, 0, 0, 0, 0, 1]));
    // a reflection: orthonormal columns but negative determinant
    assert!(!is_orthonormal(&[0, 1, 0, 1, 0, 0, 0, 0, 1]));
    // a scaled axis is not normalized
    assert!(!is_orthonormal(&[2, 0, 0, 0, 1, 0, 0, 0, 1]));
    // non-orthogonal columns
    assert!(!is_orthonormal(&[1, 1, 0, 0, 1, 0, 0, 0, 1]));
}

#[test]
fn rel32_targets_resolve_forwards_and_backwards() {
    // a nine-byte site whose relative call displacement sits four bytes
    // before the last five; the target is measured from the call's end
    let mem = MemoryRegion::new(vec![0x10, 0x00, 0x00, 0x00, 0, 0, 0, 0, 0]);
    assert_eq!(read_rel32_target(&mem, 0, 9, 5), Some(0x14));
    let mem = MemoryRegion::new(vec![0xFC, 0xFF, 0xFF, 0xFF, 0, 0, 0, 0, 0]);
    assert_eq!(read_rel32_target(&mem, 0, 9, 5), Some(0));
}

#[test]
fn hook_table_first_registration_wins() {
    let mut hooks = HookTable::new();
    assert_eq!(hooks.get(&"a".to_string()), None);
    hooks.register("a".to_string(), 10);
    hooks.register("a".to_string(), 20);
    hooks.register("b".to_string(), 30);
    assert_eq!(hooks.get(&"a".to_string()), Some(10));
    assert_eq!(hooks.get(&"b".to_string()), Some(30));
}
