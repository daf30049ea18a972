//! Signature scanning over regions of known content.

use swqol::memory::{MemoryPattern, MemoryRegion};
use swqol::tweaks::ScanAOBSingleError;
use swqol::tweaks::{InjectAt, TweakBuilder};

fn region(bytes: &[u8]) -> MemoryRegion {
    MemoryRegion::new(bytes.to_vec())
}

#[test]
fn scan_all_finds_every_match_and_no_others() {
    let mem = region(&[0xAA, 0xBB, 0xAA, 0xBB, 0xAA]);
    let pat = MemoryPattern::new(vec![Some(0xAA), Some(0xBB)]);
    assert_eq!(mem.scan_aob_all_matches(&pat), vec![0, 2]);
}

#[test]
fn scan_all_wildcards_match_any_byte() {
    let mem = region(&[0x10, 0x55, 0x20, 0x10, 0x77, 0x20]);
    let pat = MemoryPattern::new(vec![Some(0x10), None, Some(0x20)]);
    assert_eq!(mem.scan_aob_all_matches(&pat), vec![0, 3]);
}

#[test]
fn scan_all_empty_when_absent() {
    let mem = region(&[1, 2, 3]);
    let pat = MemoryPattern::new(vec![Some(9)]);
    assert!(mem.scan_aob_all_matches(&pat).is_empty());
}

#[test]
fn scan_all_overlapping_matches() {
    let mem = region(&[7, 7, 7]);
    let pat = MemoryPattern::new(vec![Some(7), Some(7)]);
    assert_eq!(mem.scan_aob_all_matches(&pat), vec![0, 1]);
}

#[test]
fn scan_single_classifies_no_matches() {
    let mem = region(&[1, 2, 3]);
    let pat = MemoryPattern::new(vec![Some(9)]);
    assert_eq!(mem.scan_aob_single(&pat), Err(ScanAOBSingleError::NoMatches));
}

#[test]
fn scan_single_classifies_multiple_matches() {
    let mem = region(&[5, 5]);
    let pat = MemoryPattern::new(vec![Some(5)]);
    assert_eq!(mem.scan_aob_single(&pat), Err(ScanAOBSingleError::MultipleMatches));
}

#[test]
fn scan_single_returns_the_unique_offset() {
    let mem = region(&[1, 2, 3, 4]);
    let pat = MemoryPattern::new(vec![Some(3), Some(4)]);
    assert_eq!(mem.scan_aob_single(&pat), Ok(2));
}

#[test]
fn region_read_and_write_round_trip() {
    let mut mem = region(&[0, 1, 2, 3, 4]);
    assert_eq!(mem.read_bytes(1, 3), Some(vec![1, 2, 3]));
    assert!(mem.read_bytes(3, 3).is_none());
    assert!(mem.write_bytes(2, &vec![9, 8]).is_ok());
    assert_eq!(mem.read_bytes(0, 5), Some(vec![0, 1, 9, 8, 4]));
    let err = mem.write_bytes(4, &vec![1, 1]).unwrap_err();
    assert_eq!(err.address, 4);
    assert_eq!(err.len, 2);
    // a failed write changes nothing
    assert_eq!(mem.read_bytes(0, 5), Some(vec![0, 1, 9, 8, 4]));
}

#[test]
fn wildcard_signature_resolves_and_patch_reverts() {
    // a six-byte signature with two wildcards over a region of known
    // content: one match at offset zero; one byte replaced at an anchored
    // offset, then restored
    let mut mem = region(&[0x48, 0x39, 0xAA, 0xd0, 0x74, 0x05]);
    let pat = MemoryPattern::new(vec![
        Some(0x48),
        Some(0x39),
        None,
        Some(0xd0),
        Some(0x74),
        None,
    ]);
    assert_eq!(mem.scan_aob_all_matches(&pat), vec![0]);
    assert_eq!(mem.scan_aob_single(&pat), Ok(0));

    let builder = TweakBuilder::new();
    let mut inject = builder
        .injection(&mem, &pat, vec![0x75], InjectAt::StartOffset(4))
        .unwrap();
    assert_eq!(inject.entry_point, 4);
    inject.inject(&mut mem).unwrap();
    assert_eq!(mem.read_bytes(4, 1), Some(vec![0x75]));
    inject.remove_injection(&mut mem).unwrap();
    assert_eq!(mem.read_bytes(0, 6), Some(vec![0x48, 0x39, 0xAA, 0xd0, 0x74, 0x05]));
}

#[test]
fn anchor_modes_compute_their_offsets() {
    let mem = region(&[9, 9, 1, 2, 3, 4, 9, 9]);
    let pat = MemoryPattern::new(vec![Some(1), Some(2), Some(3), Some(4)]);
    let builder = TweakBuilder::new();
    let start = builder.injection(&mem, &pat, vec![0], InjectAt::Start).unwrap();
    assert_eq!(start.entry_point, 2);
    let start_ofs = builder
        .injection(&mem, &pat, vec![0], InjectAt::StartOffset(3))
        .unwrap();
    assert_eq!(start_ofs.entry_point, 5);
    let end = builder.injection(&mem, &pat, vec![0, 0], InjectAt::End).unwrap();
    assert_eq!(end.entry_point, 4);
    let end_ofs = builder
        .injection(&mem, &pat, vec![0, 0], InjectAt::EndOffset(-2))
        .unwrap();
    assert_eq!(end_ofs.entry_point, 2);
}

#[test]
fn out_of_region_anchor_is_rejected() {
    let mem = region(&[1, 2, 3]);
    let pat = MemoryPattern::new(vec![Some(2)]);
    let builder = TweakBuilder::new();
    let err = builder
        .injection(&mem, &pat, vec![0, 0, 0], InjectAt::StartOffset(1))
        .unwrap_err();
    assert_eq!(err, swqol::tweaks::TweakError::OutOfBounds);
    let err = builder
        .injection(&mem, &pat, vec![0], InjectAt::StartOffset(-2))
        .unwrap_err();
    assert_eq!(err, swqol::tweaks::TweakError::OutOfBounds);
}
