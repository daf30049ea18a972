//! Reversible patches: round trips, idempotence, and numeric encodings.

use swqol::injections::{Injection, NumberInjection, encode_le};
use swqol::memory::MemoryRegion;

fn region(bytes: &[u8]) -> MemoryRegion {
    MemoryRegion::new(bytes.to_vec())
}

#[test]
fn patch_enable_disable_restores_memory_byte_for_byte() {
    let mut mem = region(&[10, 20, 30, 40, 50]);
    let mut patch = Injection::new(1, vec![0xAB, 0xCD]);
    patch.inject(&mut mem).unwrap();
    assert_eq!(mem.read_bytes(0, 5), Some(vec![10, 0xAB, 0xCD, 40, 50]));
    patch.remove_injection(&mut mem).unwrap();
    assert_eq!(mem.read_bytes(0, 5), Some(vec![10, 20, 30, 40, 50]));
}

#[test]
fn patch_enable_twice_equals_enable_once() {
    let mut mem = region(&[1, 2, 3]);
    let mut patch = Injection::new(0, vec![9]);
    patch.inject(&mut mem).unwrap();
    patch.inject(&mut mem).unwrap();
    assert_eq!(mem.read_bytes(0, 3), Some(vec![9, 2, 3]));
    // the original byte was captured once, on the first enable
    patch.remove_injection(&mut mem).unwrap();
    assert_eq!(mem.read_bytes(0, 3), Some(vec![1, 2, 3]));
}

#[test]
fn patch_disable_without_enable_is_a_no_op() {
    let mut mem = region(&[4, 5]);
    let mut patch = Injection::new(0, vec![7]);
    patch.remove_injection(&mut mem).unwrap();
    assert_eq!(mem.read_bytes(0, 2), Some(vec![4, 5]));
}

#[test]
fn patch_out_of_bounds_fails_and_changes_nothing() {
    let mut mem = region(&[1, 2]);
    let mut patch = Injection::new(1, vec![8, 8]);
    let err = patch.inject(&mut mem).unwrap_err();
    assert_eq!(err.address, 1);
    assert_eq!(err.len, 2);
    assert!(!patch.applied());
    assert_eq!(mem.read_bytes(0, 2), Some(vec![1, 2]));
}

#[test]
fn set_replacement_reapplies_while_applied() {
    let mut mem = region(&[1, 2, 3]);
    let mut patch = Injection::new(1, vec![0x11]);
    patch.inject(&mut mem).unwrap();
    patch.set_replacement(vec![0x22], &mut mem).unwrap();
    assert_eq!(mem.read_bytes(0, 3), Some(vec![1, 0x22, 3]));
    // removal still restores the bytes displaced by the first enable
    patch.remove_injection(&mut mem).unwrap();
    assert_eq!(mem.read_bytes(0, 3), Some(vec![1, 2, 3]));
}

#[test]
fn encode_le_exact_values() {
    assert_eq!(encode_le(10, 1), vec![10]);
    assert_eq!(encode_le(0x0102, 2), vec![0x02, 0x01]);
    assert_eq!(encode_le(0xDEADBEEF, 4), vec![0xEF, 0xBE, 0xAD, 0xDE]);
    assert_eq!(
        encode_le(0x1122334455667788, 8),
        vec![0x88, 0x77, 0x66, 0x55, 0x44, 0x33, 0x22, 0x11]
    );
    assert_eq!(encode_le(0x0102, 1), vec![0x02]);
}

#[test]
fn number_injection_writes_the_encoding_and_restores() {
    let mut mem = region(&[1, 2, 3, 4]);
    let mut ni = NumberInjection::new(Injection::new(1, encode_le(0, 2)));
    ni.inject(0x0A0B, &mut mem).unwrap();
    assert_eq!(mem.read_bytes(0, 4), Some(vec![1, 0x0B, 0x0A, 4]));
    ni.inject(0x0C0D, &mut mem).unwrap();
    assert_eq!(mem.read_bytes(0, 4), Some(vec![1, 0x0D, 0x0C, 4]));
    ni.remove_injection(&mut mem).unwrap();
    assert_eq!(mem.read_bytes(0, 4), Some(vec![1, 2, 3, 4]));
}
