//! Forces the editor to show components flagged as hidden, by disarming
//! the two conditional jumps that skip them.

use vstd::prelude::*;
use crate::memory::{
    MemoryPattern, MemoryRegion, lemma_write_all_concat, lemma_write_all_singleton,
    pattern_matches_at, spec_write,
};
use crate::tweaks::settings::{SettingKind, SettingValue};
use crate::tweaks::settings::toggle::{
    ToggleBuilder, injection_toggle_writes, toggle_can_apply, toggle_writes_prefix,
};
use crate::tweaks::{
    Defaults, InjectAt, TweakBuilder, TweakConfig, TweakError, is_scan_single_result,
    lemma_scan_err_not_unique, settings_wf, unique_match,
};

verus! {

/// A run of NOP bytes.
pub open spec fn nop_seq(n: nat) -> Seq<u8> {
    Seq::new(n, |i: int| 0x90u8)
}

/// The signature of the first hidden-flag check: a TEST on the component
/// flags followed by a JA past the draw call.
pub open spec fn show_hidden_pattern_1() -> Seq<Option<u8>> {
    seq![
        Some(0xf7u8),  // TEST dword ptr [RSI + 0x2a0],0x20000000
        Some(0x86u8),
        Some(0xa0u8),
        Some(0x02u8),
        Some(0x00u8),
        Some(0x00u8),
        Some(0x00u8),
        Some(0x00u8),
        Some(0x00u8),
        Some(0x20u8),
        Some(0x77u8),  // JA
        Some(0x67u8),
    ]
}

/// The signature of the second hidden-flag check: the same flag loaded and
/// tested, with a long JA.
pub open spec fn show_hidden_pattern_2() -> Seq<Option<u8>> {
    seq![
        Some(0x8bu8),  // MOV EAX,dword ptr [RSI + 0x2a0]
        Some(0x86u8),
        Some(0xa0u8),
        Some(0x02u8),
        Some(0x00u8),
        Some(0x00u8),
        Some(0xa9u8),  // TEST EAX,0x20000000
        Some(0x00u8),
        Some(0x00u8),
        Some(0x00u8),
        Some(0x20u8),
        Some(0x0fu8),  // JA (long form)
        Some(0x87u8),
        Some(0x14u8),
        Some(0x01u8),
        Some(0x00u8),
        Some(0x00u8),
    ]
}

/// Do both hidden-flag checks resolve to exactly one site each? The NOP
/// runs land inside their matches, so two unique matches are the whole
/// success condition.
pub open spec fn show_hidden_buildable(mem: Seq<u8>) -> bool {
    unique_match(mem, show_hidden_pattern_1()) && unique_match(mem, show_hidden_pattern_2())
}

/// NOPs out both hidden-component checks, exposed as an on-by-default
/// toggle.
#[derive(Debug)]
pub struct ShowHiddenComponents;

impl TweakConfig for ShowHiddenComponents {
    open spec fn spec_config_id() -> Seq<char> {
        "show_hidden_components_tweak"@
    }

    fn config_id() -> (r: &'static str) {
        "show_hidden_components_tweak"
    }
}

impl ShowHiddenComponents {
    /// Locate both hidden-flag checks and register the toggle that NOPs
    /// their jumps. On by default, so both patches are applied at once.
    pub fn new(builder: &mut TweakBuilder, mem: &mut MemoryRegion) -> (r: Result<
        ShowHiddenComponents,
        TweakError,
    >)
        requires
            settings_wf(old(builder).settings@),
        ensures
            settings_wf(final(builder).settings@),
            r is Ok <==> show_hidden_buildable(old(mem)@),
            match r {
                Ok(_) => {
                    &&& final(builder).category matches Some(c) && c@ == "Editor"@
                    &&& final(builder).settings@.len() == old(builder).settings@.len() + 1
                    &&& forall|j: int|
                        0 <= j < old(builder).settings@.len() ==> final(builder).settings@[j]
                            == old(builder).settings@[j]
                    &&& {
                        let s = final(builder).settings@.last();
                        &&& s.config_key matches Some(k) && k@ == "show_hidden_components"@
                        &&& s.value == SettingValue::Bool(true)
                        &&& s.defaults.default == SettingValue::Bool(true)
                        &&& s.defaults.vanilla == SettingValue::Bool(false)
                        &&& s.inner matches SettingKind::Toggle(t) && {
                            &&& t.injections@.len() == 2
                            &&& t.injections@[0].1 == false
                            &&& t.injections@[1].1 == false
                            &&& t.injections@[0].0.is_applied()
                            &&& t.injections@[1].0.is_applied()
                            &&& t.injections@[0].0.replacement_bytes() == nop_seq(2)
                            &&& t.injections@[1].0.replacement_bytes() == nop_seq(6)
                            &&& exists|pos: int|
                                {
                                    &&& #[trigger] pattern_matches_at(
                                        old(mem)@,
                                        show_hidden_pattern_1(),
                                        pos,
                                    )
                                    &&& (forall|q: int|
                                        pattern_matches_at(old(mem)@, show_hidden_pattern_1(), q)
                                            ==> q == pos)
                                    &&& t.injections@[0].0.entry_point as int == pos + 10
                                }
                            &&& exists|pos: int|
                                {
                                    &&& #[trigger] pattern_matches_at(
                                        old(mem)@,
                                        show_hidden_pattern_2(),
                                        pos,
                                    )
                                    &&& (forall|q: int|
                                        pattern_matches_at(old(mem)@, show_hidden_pattern_2(), q)
                                            ==> q == pos)
                                    &&& t.injections@[1].0.entry_point as int == pos + 11
                                }
                            &&& t.detours@.len() == 0
                            &&& final(mem)@ == spec_write(
                                spec_write(
                                    old(mem)@,
                                    t.injections@[0].0.entry_point as int,
                                    nop_seq(2),
                                ),
                                t.injections@[1].0.entry_point as int,
                                nop_seq(6),
                            )
                        }
                    }
                },
                Err(TweakError::Scan(e)) => {
                    &&& {
                        ||| is_scan_single_result(
                            old(mem)@,
                            show_hidden_pattern_1(),
                            Err::<usize, crate::tweaks::ScanAOBSingleError>(e),
                        )
                        ||| unique_match(old(mem)@, show_hidden_pattern_1())
                            && is_scan_single_result(
                            old(mem)@,
                            show_hidden_pattern_2(),
                            Err::<usize, crate::tweaks::ScanAOBSingleError>(e),
                        )
                    }
                    &&& final(builder).settings@ == old(builder).settings@
                    &&& final(mem)@ == old(mem)@
                },
                Err(_) => false,
            },
    {
        builder.set_category(Some(String::from_str("Editor")));
        let pattern_1 = MemoryPattern::new(
            vec![
                Some(0xf7u8),
                Some(0x86u8),
                Some(0xa0u8),
                Some(0x02u8),
                Some(0x00u8),
                Some(0x00u8),
                Some(0x00u8),
                Some(0x00u8),
                Some(0x00u8),
                Some(0x20u8),
                Some(0x77u8),
                Some(0x67u8),
            ],
        );
        proof {
            assert(pattern_1@ =~= show_hidden_pattern_1());
        }
        // NOP the short JA
        let injection_1 = match builder.injection(
            mem,
            &pattern_1,
            vec![0x90u8, 0x90u8],
            InjectAt::End,
        ) {
            Ok(inj) => inj,
            Err(e) => {
                proof {
                    // the NOP run lands inside the match, so only a scan
                    // failure can reach here
                    match e {
                        TweakError::Scan(se) => {
                            lemma_scan_err_not_unique(old(mem)@, show_hidden_pattern_1(), se);
                        },
                        _ => {},
                    }
                }
                return Err(e);
            },
        };
        let pattern_2 = MemoryPattern::new(
            vec![
                Some(0x8bu8),
                Some(0x86u8),
                Some(0xa0u8),
                Some(0x02u8),
                Some(0x00u8),
                Some(0x00u8),
                Some(0xa9u8),
                Some(0x00u8),
                Some(0x00u8),
                Some(0x00u8),
                Some(0x20u8),
                Some(0x0fu8),
                Some(0x87u8),
                Some(0x14u8),
                Some(0x01u8),
                Some(0x00u8),
                Some(0x00u8),
            ],
        );
        proof {
            assert(pattern_2@ =~= show_hidden_pattern_2());
        }
        // NOP the long JA
        let injection_2 = match builder.injection(
            mem,
            &pattern_2,
            vec![0x90u8, 0x90u8, 0x90u8, 0x90u8, 0x90u8, 0x90u8],
            InjectAt::End,
        ) {
            Ok(inj) => inj,
            Err(e) => {
                proof {
                    match e {
                        TweakError::Scan(se) => {
                            lemma_scan_err_not_unique(old(mem)@, show_hidden_pattern_2(), se);
                        },
                        _ => {},
                    }
                }
                return Err(e);
            },
        };
        proof {
            assert(injection_1.replacement_bytes() =~= nop_seq(2));
            assert(injection_2.replacement_bytes() =~= nop_seq(6));
        }
        let toggle = ToggleBuilder::new(
            String::from_str("Show Hidden Components (reload save)"),
            Defaults::new(true, false),
        ).tooltip(
            String::from_str(
                "Forces editor to show components flagged as hidden.\nChanging this setting requires reloading your save to apply.",
            ),
        ).config_key(String::from_str("show_hidden_components")).injection(
            injection_1,
            false,
        ).injection(injection_2, false);
        let ghost tb = toggle;
        let ghost mem_at_build = mem@;
        match toggle.build(builder, mem) {
            Ok(()) => {},
            Err(e) => {
                proof {
                    // both spans were just resolved inside the region, so
                    // the build cannot fail
                    let injs = tb.toggle.injections@;
                    let rl = old(mem)@.len() as int;
                    if !toggle_can_apply(injs, true, rl) {
                        let j = choose|j: int|
                            0 <= j < injs.len() && ((true != injs[j].1)
                                != injs[j].0.is_applied()) && !injs[j].0.in_bounds(rl);
                        assert(j == 0 || j == 1);
                        assert(false);
                    }
                }
                return Err(e);
            },
        }
        proof {
            // turning the toggle on applies both fresh patches in order
            let injs = tb.toggle.injections@;
            let w0 = (injs[0].0.entry_point as int, injs[0].0.replacement_bytes());
            let w1 = (injs[1].0.entry_point as int, injs[1].0.replacement_bytes());
            assert(injection_toggle_writes(injs[0].0, true != injs[0].1) =~= seq![w0]);
            assert(injection_toggle_writes(injs[1].0, true != injs[1].1) =~= seq![w1]);
            assert(toggle_writes_prefix(injs, true, 0) =~= Seq::<(int, Seq<u8>)>::empty());
            assert(toggle_writes_prefix(injs, true, 1) =~= toggle_writes_prefix(injs, true, 0)
                + injection_toggle_writes(injs[0].0, true != injs[0].1));
            assert(toggle_writes_prefix(injs, true, 1) =~= seq![w0]);
            assert(toggle_writes_prefix(injs, true, 2) =~= toggle_writes_prefix(injs, true, 1)
                + injection_toggle_writes(injs[1].0, true != injs[1].1));
            assert(toggle_writes_prefix(injs, true, 2) =~= seq![w0] + seq![w1]);
            lemma_write_all_concat(mem_at_build, seq![w0], seq![w1]);
            lemma_write_all_singleton(mem_at_build, w0);
            lemma_write_all_singleton(spec_write(mem_at_build, w0.0, w0.1), w1);
        }
        Ok(ShowHiddenComponents)
    }
}

} // verus!
