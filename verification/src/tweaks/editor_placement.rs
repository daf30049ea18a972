//! Disables the editor's placement-support and merge checks by making
//! each check function return true immediately.

use vstd::prelude::*;
use crate::memory::{
    MemoryPattern, MemoryRegion, lemma_write_all_singleton, pattern_matches_at, spec_write,
};
use crate::tweaks::settings::{SettingKind, SettingValue};
use crate::tweaks::settings::toggle::{
    ToggleBuilder, injection_toggle_writes, toggle_can_apply, toggle_writes_prefix,
};
use crate::tweaks::{
    Defaults, InjectAt, TweakBuilder, TweakConfig, TweakError, is_scan_single_result,
    lemma_scan_err_not_unique, settings_wf, unique_match,
};

verus! {

/// An early `return true`: MOV al,1 then RET.
pub open spec fn return_true_stub() -> Seq<u8> {
    seq![0xB0u8, 0x01u8, 0xC3u8]
}

/// The prologue of the function that decides whether a component placement
/// has support.
pub open spec fn support_check_pattern() -> Seq<Option<u8>> {
    seq![
        Some(0x4cu8),  // MOV R11,RSP
        Some(0x8bu8),
        Some(0xdcu8),
        Some(0x49u8),  // MOV qword ptr [R11 + local_res10],RBX
        Some(0x89u8),
        Some(0x5bu8),
        Some(0x10u8),
        Some(0x49u8),  // MOV qword ptr [R11 + local_res18],RBP
        Some(0x89u8),
        Some(0x6bu8),
        Some(0x18u8),
        Some(0x56u8),  // PUSH RSI
        Some(0x57u8),  // PUSH RDI
        Some(0x41u8),  // PUSH R12
        Some(0x54u8),
        Some(0x41u8),  // PUSH R14
        Some(0x56u8),
        Some(0x41u8),  // PUSH R15
        Some(0x57u8),
        Some(0x48u8),  // SUB RSP,0xb0
        Some(0x81u8),
        Some(0xecu8),
        Some(0xb0u8),
        Some(0x00u8),
        Some(0x00u8),
        Some(0x00u8),
    ]
}

/// The prologue of the function that decides whether a merge is valid.
pub open spec fn merge_check_pattern() -> Seq<Option<u8>> {
    seq![
        Some(0x48u8),  // MOV RAX,RSP
        Some(0x8bu8),
        Some(0xc4u8),
        Some(0x4cu8),  // MOV qword ptr [RAX + local_res18],R8
        Some(0x89u8),
        Some(0x40u8),
        Some(0x18u8),
        Some(0x48u8),  // MOV qword ptr [RAX + local_res10],RDX
        Some(0x89u8),
        Some(0x50u8),
        Some(0x10u8),
        Some(0x48u8),  // MOV qword ptr [RAX + local_res8],RCX
        Some(0x89u8),
        Some(0x48u8),
        Some(0x08u8),
        Some(0x55u8),  // PUSH RBP
        Some(0x56u8),  // PUSH RSI
        Some(0x57u8),  // PUSH RDI
        Some(0x41u8),  // PUSH R12
        Some(0x54u8),
        Some(0x48u8),  // SUB RSP,0xf8
        Some(0x81u8),
        Some(0xecu8),
        Some(0xf8u8),
        Some(0x00u8),
        Some(0x00u8),
        Some(0x00u8),
    ]
}

/// Do both check functions resolve to exactly one prologue each? The stubs
/// land inside their matches, so two unique matches are the whole success
/// condition.
pub open spec fn editor_placement_buildable(mem: Seq<u8>) -> bool {
    unique_match(mem, support_check_pattern()) && unique_match(mem, merge_check_pattern())
}

/// Short-circuits the placement-support and merge checks, one on-by-default
/// toggle each.
#[derive(Debug)]
pub struct EditorPlacementTweak;

impl TweakConfig for EditorPlacementTweak {
    open spec fn spec_config_id() -> Seq<char> {
        "editor_placement_tweak"@
    }

    fn config_id() -> (r: &'static str) {
        "editor_placement_tweak"
    }
}

impl EditorPlacementTweak {
    /// Locate both check functions on the unpatched region, then register
    /// one toggle for each. Both are on by default, so both stubs are
    /// written at once, in registration order.
    pub fn new(builder: &mut TweakBuilder, mem: &mut MemoryRegion) -> (r: Result<
        EditorPlacementTweak,
        TweakError,
    >)
        requires
            settings_wf(old(builder).settings@),
        ensures
            settings_wf(final(builder).settings@),
            r is Ok <==> editor_placement_buildable(old(mem)@),
            match r {
                Ok(_) => {
                    &&& final(builder).category matches Some(c) && c@ == "Editor"@
                    &&& final(builder).settings@.len() == old(builder).settings@.len() + 2
                    &&& forall|j: int|
                        0 <= j < old(builder).settings@.len() ==> final(builder).settings@[j]
                            == old(builder).settings@[j]
                    &&& {
                        let s1 = final(builder).settings@[final(builder).settings@.len() - 2];
                        let s2 = final(builder).settings@.last();
                        &&& s1.config_key is None
                        &&& s2.config_key is None
                        &&& s1.value == SettingValue::Bool(true)
                        &&& s2.value == SettingValue::Bool(true)
                        &&& s1.defaults.vanilla == SettingValue::Bool(false)
                        &&& s2.defaults.vanilla == SettingValue::Bool(false)
                        &&& s1.inner matches SettingKind::Toggle(t1) && {
                            &&& t1.injections@.len() == 1
                            &&& t1.injections@[0].0.is_applied()
                            &&& t1.injections@[0].0.replacement_bytes() == return_true_stub()
                            &&& exists|pos: int|
                                {
                                    &&& #[trigger] pattern_matches_at(
                                        old(mem)@,
                                        support_check_pattern(),
                                        pos,
                                    )
                                    &&& (forall|q: int|
                                        pattern_matches_at(old(mem)@, support_check_pattern(), q)
                                            ==> q == pos)
                                    &&& t1.injections@[0].0.entry_point as int == pos
                                }
                        }
                        &&& s2.inner matches SettingKind::Toggle(t2) && {
                            &&& t2.injections@.len() == 1
                            &&& t2.injections@[0].0.is_applied()
                            &&& t2.injections@[0].0.replacement_bytes() == return_true_stub()
                            &&& exists|pos: int|
                                {
                                    &&& #[trigger] pattern_matches_at(
                                        old(mem)@,
                                        merge_check_pattern(),
                                        pos,
                                    )
                                    &&& (forall|q: int|
                                        pattern_matches_at(old(mem)@, merge_check_pattern(), q)
                                            ==> q == pos)
                                    &&& t2.injections@[0].0.entry_point as int == pos
                                }
                        }
                        &&& (s1.inner matches SettingKind::Toggle(t1) && s2.inner
                            matches SettingKind::Toggle(t2) && final(mem)@ == spec_write(
                            spec_write(
                                old(mem)@,
                                t1.injections@[0].0.entry_point as int,
                                return_true_stub(),
                            ),
                            t2.injections@[0].0.entry_point as int,
                            return_true_stub(),
                        ))
                    }
                },
                Err(TweakError::Scan(e)) => {
                    &&& {
                        ||| is_scan_single_result(
                            old(mem)@,
                            support_check_pattern(),
                            Err::<usize, crate::tweaks::ScanAOBSingleError>(e),
                        )
                        ||| unique_match(old(mem)@, support_check_pattern())
                            && is_scan_single_result(
                            old(mem)@,
                            merge_check_pattern(),
                            Err::<usize, crate::tweaks::ScanAOBSingleError>(e),
                        )
                    }
                    &&& final(builder).settings@ == old(builder).settings@
                    &&& final(mem)@ == old(mem)@
                },
                Err(_) => false,
            },
    {
        builder.set_category(Some(String::from_str("Editor")));
        let support_pattern = MemoryPattern::new(
            vec![
                Some(0x4cu8),
                Some(0x8bu8),
                Some(0xdcu8),
                Some(0x49u8),
                Some(0x89u8),
                Some(0x5bu8),
                Some(0x10u8),
                Some(0x49u8),
                Some(0x89u8),
                Some(0x6bu8),
                Some(0x18u8),
                Some(0x56u8),
                Some(0x57u8),
                Some(0x41u8),
                Some(0x54u8),
                Some(0x41u8),
                Some(0x56u8),
                Some(0x41u8),
                Some(0x57u8),
                Some(0x48u8),
                Some(0x81u8),
                Some(0xecu8),
                Some(0xb0u8),
                Some(0x00u8),
                Some(0x00u8),
                Some(0x00u8),
            ],
        );
        proof {
            assert(support_pattern@ =~= support_check_pattern());
        }
        // early-exit `return true` over the support check
        let support_inject = match builder.injection(
            mem,
            &support_pattern,
            vec![0xB0u8, 0x01u8, 0xC3u8],
            InjectAt::Start,
        ) {
            Ok(inj) => inj,
            Err(e) => {
                proof {
                    // the stub lands inside the match, so only a scan
                    // failure can reach here
                    match e {
                        TweakError::Scan(se) => {
                            lemma_scan_err_not_unique(old(mem)@, support_check_pattern(), se);
                        },
                        _ => {},
                    }
                }
                return Err(e);
            },
        };
        let merge_pattern = MemoryPattern::new(
            vec![
                Some(0x48u8),
                Some(0x8bu8),
                Some(0xc4u8),
                Some(0x4cu8),
                Some(0x89u8),
                Some(0x40u8),
                Some(0x18u8),
                Some(0x48u8),
                Some(0x89u8),
                Some(0x50u8),
                Some(0x10u8),
                Some(0x48u8),
                Some(0x89u8),
                Some(0x48u8),
                Some(0x08u8),
                Some(0x55u8),
                Some(0x56u8),
                Some(0x57u8),
                Some(0x41u8),
                Some(0x54u8),
                Some(0x48u8),
                Some(0x81u8),
                Some(0xecu8),
                Some(0xf8u8),
                Some(0x00u8),
                Some(0x00u8),
                Some(0x00u8),
            ],
        );
        proof {
            assert(merge_pattern@ =~= merge_check_pattern());
        }
        // early-exit `return true` over the merge check
        let merge_inject = match builder.injection(
            mem,
            &merge_pattern,
            vec![0xB0u8, 0x01u8, 0xC3u8],
            InjectAt::Start,
        ) {
            Ok(inj) => inj,
            Err(e) => {
                proof {
                    match e {
                        TweakError::Scan(se) => {
                            lemma_scan_err_not_unique(old(mem)@, merge_check_pattern(), se);
                        },
                        _ => {},
                    }
                }
                return Err(e);
            },
        };
        proof {
            assert(support_inject.replacement_bytes() =~= return_true_stub());
            assert(merge_inject.replacement_bytes() =~= return_true_stub());
        }
        let support_toggle = ToggleBuilder::new(
            String::from_str("Disable Placement Support Check"),
            Defaults::new(true, false),
        ).tooltip(
            String::from_str(
                "Normally many parts (eg. pipes) need support on a side in order to place them.\nThis disables that check.",
            ),
        ).injection(support_inject, false);
        let ghost tb1 = support_toggle;
        let ghost mem_at_build_1 = mem@;
        match support_toggle.build(builder, mem) {
            Ok(()) => {},
            Err(e) => {
                proof {
                    let injs = tb1.toggle.injections@;
                    let rl = old(mem)@.len() as int;
                    if !toggle_can_apply(injs, true, rl) {
                        let j = choose|j: int|
                            0 <= j < injs.len() && ((true != injs[j].1)
                                != injs[j].0.is_applied()) && !injs[j].0.in_bounds(rl);
                        assert(j == 0);
                        assert(false);
                    }
                }
                return Err(e);
            },
        }
        proof {
            let injs = tb1.toggle.injections@;
            let w = (injs[0].0.entry_point as int, injs[0].0.replacement_bytes());
            assert(toggle_writes_prefix(injs, true, 0) =~= Seq::<(int, Seq<u8>)>::empty());
            assert(toggle_writes_prefix(injs, true, 1) =~= toggle_writes_prefix(injs, true, 0)
                + injection_toggle_writes(injs[0].0, true != injs[0].1));
            assert(toggle_writes_prefix(injs, true, 1) =~= seq![w]);
            lemma_write_all_singleton(mem_at_build_1, w);
        }
        let merge_toggle = ToggleBuilder::new(
            String::from_str("Disable Merge Check"),
            Defaults::new(true, false),
        ).tooltip(
            String::from_str(
                "Normally two subgrids must be touching in order to merge them.\nThis disables that check.",
            ),
        ).injection(merge_inject, false);
        let ghost tb2 = merge_toggle;
        let ghost mem_at_build_2 = mem@;
        match merge_toggle.build(builder, mem) {
            Ok(()) => {},
            Err(e) => {
                proof {
                    let injs = tb2.toggle.injections@;
                    let rl = old(mem)@.len() as int;
                    if !toggle_can_apply(injs, true, mem_at_build_2.len() as int) {
                        let j = choose|j: int|
                            0 <= j < injs.len() && ((true != injs[j].1)
                                != injs[j].0.is_applied()) && !injs[j].0.in_bounds(
                                mem_at_build_2.len() as int,
                            );
                        assert(j == 0);
                        assert(false);
                    }
                }
                return Err(e);
            },
        }
        proof {
            let injs = tb2.toggle.injections@;
            let w = (injs[0].0.entry_point as int, injs[0].0.replacement_bytes());
            assert(toggle_writes_prefix(injs, true, 0) =~= Seq::<(int, Seq<u8>)>::empty());
            assert(toggle_writes_prefix(injs, true, 1) =~= toggle_writes_prefix(injs, true, 0)
                + injection_toggle_writes(injs[0].0, true != injs[0].1));
            assert(toggle_writes_prefix(injs, true, 1) =~= seq![w]);
            lemma_write_all_singleton(mem_at_build_2, w);
        }
        Ok(EditorPlacementTweak)
    }
}

} // verus!
