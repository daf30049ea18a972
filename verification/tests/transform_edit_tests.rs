//! Transform editing against a synthetic module image holding all six of
//! its code-site signatures.

use swqol::memory::MemoryRegion;
use swqol::registry::TweakRegistry;
use swqol::tweaks::transform_edit::{
    TransformEditTweak, flip_bits_to_apply, matrix_with_increment, should_copy_transform,
};
use swqol::tweaks::{HookTable, TweakBuilder, TweakError};
use swqol::types::{ComponentBase, FlipParent};

const PAD: u8 = 0xCC;
const WILD: u8 = 0xAA;

fn pad(bytes: &mut Vec<u8>, n: usize) {
    for _ in 0..n {
        bytes.push(PAD);
    }
}

/// The image layout: update-quaternion prologue at 4, editor destructor at
/// 44, quaternion-slerp call at 76, safety-check site at 95, ctrl-click
/// site at 114 (with a relative call displacement of 1), set-flip prologue
/// at 136.
fn transform_image() -> Vec<u8> {
    let mut b: Vec<u8> = Vec::new();
    pad(&mut b, 4);
    // update-quaternion prologue (38 bytes)
    b.extend_from_slice(&[0x40, 0x53, 0x48, 0x81, 0xec, 0x80, 0x00, 0x00, 0x00]);
    b.extend_from_slice(&[0x48, 0x8b, 0x05, WILD, WILD, WILD, WILD]);
    b.extend_from_slice(&[0x48, 0x33, 0xc4, 0x48, 0x89, 0x44, 0x24, 0x70, 0x48, 0x8b, 0xd9]);
    b.extend_from_slice(&[0xc7, 0x81, 0x1c, 0x01, 0x00, 0x00, 0x00, 0x00, 0x00, 0x00, 0x00]);
    pad(&mut b, 2);
    // editor destructor prologue (30 bytes)
    b.extend_from_slice(&[0x48, 0x89, 0x5c, 0x24, 0x08, 0x57, 0x48, 0x83, 0xec, 0x20]);
    b.extend_from_slice(&[0x8b, 0xda, 0x48, 0x8b, 0xf9, 0xe8, WILD, WILD, WILD, WILD]);
    b.extend_from_slice(&[0xf6, 0xc3, 0x01, 0x74, WILD, 0xba, 0xf8, 0x9c, 0x00, 0x00]);
    pad(&mut b, 2);
    // quaternion-slerp call (17 bytes)
    b.extend_from_slice(&[0x48, 0x8d, 0x93, 0xc0, 0x00, 0x00, 0x00]);
    b.extend_from_slice(&[0x48, 0x8d, 0x4c, 0x24, 0x20]);
    b.extend_from_slice(&[0xe8, WILD, WILD, WILD, WILD]);
    pad(&mut b, 2);
    // safety-check site (17 bytes)
    b.extend_from_slice(&[0x41, 0x03, 0xc6, 0x8b, 0x4d, 0x18, 0x41, 0x0f, 0xaf, 0xc9]);
    b.extend_from_slice(&[0x03, 0xc1, 0x99, 0x33, 0xc2, 0x2b, 0xc2]);
    pad(&mut b, 2);
    // ctrl-click site (20 bytes); the relative call displacement is 1
    b.extend_from_slice(&[0x48, 0x8b, 0x52, 0x58, 0x48, 0x8b, 0x12, 0x48, 0x8b, 0xce]);
    b.extend_from_slice(&[0xe8, 0x01, 0x00, 0x00, 0x00]);
    b.extend_from_slice(&[0x48, 0x8b, 0x4c, 0x24, 0x68]);
    pad(&mut b, 2);
    // set-flip prologue (31 bytes)
    b.extend_from_slice(&[0x48, 0x89, 0x5c, 0x24, 0x08, 0x48, 0x89, 0x6c, 0x24, 0x10]);
    b.extend_from_slice(&[0x48, 0x89, 0x74, 0x24, 0x18, 0x57, 0x41, 0x56, 0x41, 0x57]);
    b.extend_from_slice(&[0x48, 0x83, 0xec, 0x20, 0x0f, 0xb6, 0x81, 0xe8, 0x01, 0x00, 0x00]);
    pad(&mut b, 4);
    b
}

fn hooks() -> HookTable {
    let mut hooks = HookTable::new();
    hooks.register("safety_check".to_string(), 0x1000);
    hooks.register("hook_ctrl_click".to_string(), 0x2000);
    hooks.register("update_quaternion_hook".to_string(), 0x3000);
    hooks.register("editor_destructor_hook".to_string(), 0x4000);
    hooks
}

#[test]
fn transform_edit_resolves_every_site() {
    let mut mem = MemoryRegion::new(transform_image());
    let mut builder = TweakBuilder::new();
    let t = TransformEditTweak::new(&mut builder, &hooks(), &mut mem).unwrap();

    // the suppression patch waits at the tail of the slerp site
    assert!(!t.disable_quaternion_slerp);
    assert_eq!(t.disable_quaternion_slerp_injection.entry_point, 76 + 12);
    // the safety patch is armed immediately: the call stub starts at the
    // matched site
    assert_eq!(t.safety_check_inject.entry_point, 95);
    assert_eq!(mem.read_bytes(95, 2), Some(vec![0xff, 0x15]));
    // the relative call in the eyedrop site names set-placing-component:
    // one byte past the end of the call instruction
    assert_eq!(t.set_placing_component_addr, 114 + 20 - 5 + 1);
    assert_eq!(t.set_flip_addr, 136);
    // the eyedrop stub is applied, starting with the preserved RCX load
    assert_eq!(mem.read_bytes(114, 3), Some(vec![0x48, 0x8b, 0xce]));

    // both toggles were registered
    assert_eq!(builder.settings.len(), 2);
    assert_eq!(builder.settings[0].config_key.as_deref(), Some("shift_copies_transform"));
    assert_eq!(
        builder.settings[1].config_key.as_deref(),
        Some("placement_transform_editing")
    );
}

#[test]
fn transform_edit_tracks_orthonormality() {
    let mut mem = MemoryRegion::new(transform_image());
    let mut builder = TweakBuilder::new();
    let mut t = TransformEditTweak::new(&mut builder, &hooks(), &mut mem).unwrap();

    // a non-orthonormal matrix arms the suppression patch
    t.check_orthonormal(&[2, 0, 0, 0, 1, 0, 0, 0, 1], &mut mem).unwrap();
    assert!(t.disable_quaternion_slerp);
    assert_eq!(
        mem.read_bytes(88, 5),
        Some(vec![0x90, 0x90, 0x90, 0x90, 0x90])
    );

    // an orthonormal matrix withdraws it and restores the call
    t.check_orthonormal(&[1, 0, 0, 0, 1, 0, 0, 0, 1], &mut mem).unwrap();
    assert!(!t.disable_quaternion_slerp);
    assert_eq!(
        mem.read_bytes(88, 5),
        Some(vec![0xe8, WILD, WILD, WILD, WILD])
    );
}

#[test]
fn transform_edit_uninit_restores_its_spans() {
    let original = transform_image();
    let mut mem = MemoryRegion::new(original.clone());
    let mut builder = TweakBuilder::new();
    let mut t = TransformEditTweak::new(&mut builder, &hooks(), &mut mem).unwrap();
    t.check_orthonormal(&[2, 0, 0, 0, 1, 0, 0, 0, 1], &mut mem).unwrap();

    t.uninit(&mut mem).unwrap();
    assert_eq!(mem.read_bytes(76, 17), Some(original[76..93].to_vec()));
    assert_eq!(mem.read_bytes(95, 17), Some(original[95..112].to_vec()));
}

#[test]
fn transform_edit_reports_missing_hooks() {
    let mut mem = MemoryRegion::new(transform_image());
    let mut builder = TweakBuilder::new();
    let err = TransformEditTweak::new(&mut builder, &HookTable::new(), &mut mem).unwrap_err();
    assert_eq!(err, TweakError::MissingHook);
}

#[test]
fn flip_bits_compare_each_axis() {
    assert_eq!(flip_bits_to_apply(&FlipParent { cur_flip: 0b000 }, 0b101), vec![0x1, 0x4]);
    assert_eq!(flip_bits_to_apply(&FlipParent { cur_flip: 0b101 }, 0b101), Vec::<u8>::new());
    assert_eq!(flip_bits_to_apply(&FlipParent { cur_flip: 0b111 }, 0b010), vec![0x1, 0x4]);
    assert_eq!(flip_bits_to_apply(&FlipParent { cur_flip: 0b001 }, 0b011), vec![0x2]);
}

#[test]
fn keypad_increments_saturate() {
    let m = [1, 0, 0, 0, 1, 0, 0, 0, 1];
    let up = matrix_with_increment(&m, 1, 1);
    assert_eq!(up, [1, 1, 0, 0, 1, 0, 0, 0, 1]);
    let down = matrix_with_increment(&m, 0, -1);
    assert_eq!(down, [0, 0, 0, 0, 1, 0, 0, 0, 1]);
    let m2 = [i32::MAX, 0, 0, 0, 1, 0, 0, 0, 1];
    assert_eq!(matrix_with_increment(&m2, 0, 1)[0], i32::MAX);
    let m3 = [i32::MIN, 0, 0, 0, 1, 0, 0, 0, 1];
    assert_eq!(matrix_with_increment(&m3, 0, -1)[0], i32::MIN);
}

#[test]
fn eyedrop_copies_rotations_or_captured_transforms() {
    let rotation = ComponentBase { matrix: [0, -1, 0, 1, 0, 0, 0, 0, 1], flip_type: 0x40 };
    let skewed = ComponentBase { matrix: [1, 1, 0, 0, 1, 0, 0, 0, 1], flip_type: 0x40 };
    assert!(should_copy_transform(&rotation, false));
    assert!(!should_copy_transform(&skewed, false));
    assert!(should_copy_transform(&skewed, true));
}

#[test]
fn registry_teardown_restores_the_transform_patches() {
    // only the transform-editing signatures exist in this image; its own
    // safety patch must be restored by the registry-wide teardown
    let original = transform_image();
    let mut registry = TweakRegistry::new(MemoryRegion::new(original.clone()));
    registry.register_hook("safety_check".to_string(), 0x1000);
    registry.register_hook("hook_ctrl_click".to_string(), 0x2000);
    registry.register_hook("update_quaternion_hook".to_string(), 0x3000);
    registry.register_hook("editor_destructor_hook".to_string(), 0x4000);
    registry.install_all();
    assert!(registry.transform_edit.is_some());
    assert_ne!(registry.region.read_bytes(95, 2), Some(original[95..97].to_vec()));

    let clean = registry.uninit_all();
    assert!(clean);
    assert_eq!(registry.region.read_bytes(0, original.len()), Some(original));
    let t = registry.transform_edit.as_ref().unwrap();
    assert!(!t.safety_check_inject.applied());
}
