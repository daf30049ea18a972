//! Tames exclusive fullscreen: stops the window from minimizing on lost
//! focus, drops the forced topmost placement, and forces borderless mode.

use vstd::prelude::*;
use crate::memory::{
    MemoryPattern, MemoryRegion, lemma_write_all_concat, lemma_write_all_singleton,
    pattern_matches_at, spec_write,
};
use crate::tweaks::editor_show_hidden::nop_seq;
use crate::tweaks::settings::{SettingKind, SettingValue};
use crate::tweaks::settings::toggle::{
    ToggleBuilder, injection_toggle_writes, toggle_can_apply, toggle_writes_prefix,
};
use crate::tweaks::{
    Defaults, InjectAt, TweakBuilder, TweakConfig, TweakError, is_scan_single_result,
    lemma_scan_err_not_unique, settings_wf, unique_match,
};

verus! {

/// The code that minimizes the window when focus is lost: loading the
/// window handle, the minimize command, and the call through the import
/// table.
pub open spec fn minimize_pattern() -> Seq<Option<u8>> {
    seq![
        Some(0x48u8),  // MOV RCX,qword ptr [RSI + 0x348]
        Some(0x8bu8),
        Some(0x8eu8),
        Some(0x48u8),
        Some(0x03u8),
        Some(0x00u8),
        Some(0x00u8),
        Some(0xbau8),  // MOV EDX,0x6
        Some(0x06u8),
        Some(0x00u8),
        Some(0x00u8),
        Some(0x00u8),
        Some(0xffu8),  // CALL qword ptr [-> show window]
        Some(0x15u8),
        None,
        None,
        None,
        None,
    ]
}

/// The placement argument that forces the window to the topmost band.
pub open spec fn topmost_pattern() -> Seq<Option<u8>> {
    seq![
        Some(0x8bu8),  // MOV param_1,dword ptr [RBP + local]
        None,
        Some(0xe0u8),
        Some(0x48u8),  // MOV param_2,-0x1 (topmost)
        Some(0xc7u8),
        None,
        Some(0xffu8),
        Some(0xffu8),
        Some(0xffu8),
        Some(0xffu8),
    ]
}

/// The style flags loaded before the fullscreen window is (re)created.
pub open spec fn borderless_pattern() -> Seq<Option<u8>> {
    seq![
        None,  // CMP (unimportant)
        Some(0x83u8),
        None,
        None,
        None,
        Some(0x74u8),  // JZ (unimportant)
        None,
        Some(0xbbu8),  // MOV EBX, style flags
        Some(0x00u8),
        Some(0x00u8),
        Some(0x00u8),
        Some(0x86u8),
    ]
}

/// The not-topmost placement argument: -2 little-endian.
pub open spec fn notopmost_bytes() -> Seq<u8> {
    seq![0xFEu8, 0xFFu8, 0xFFu8, 0xFFu8]
}

/// The style flags with the popup bit cleared.
pub open spec fn borderless_bytes() -> Seq<u8> {
    seq![0x00u8, 0x00u8, 0x00u8, 0x06u8]
}

/// Do all three window-management sites resolve uniquely? Every patch
/// lands inside its match, so three unique matches are the whole success
/// condition.
pub open spec fn fullscreen_buildable(mem: Seq<u8>) -> bool {
    &&& unique_match(mem, minimize_pattern())
    &&& unique_match(mem, topmost_pattern())
    &&& unique_match(mem, borderless_pattern())
}

/// Two on-by-default toggles: one disarming minimize-on-lost-focus and the
/// forced topmost placement, one forcing borderless fullscreen.
#[derive(Debug)]
pub struct FullscreenTweak;

impl TweakConfig for FullscreenTweak {
    open spec fn spec_config_id() -> Seq<char> {
        "fullscreen_tweak"@
    }

    fn config_id() -> (r: &'static str) {
        "fullscreen_tweak"
    }
}

impl FullscreenTweak {
    /// Locate the three window-management sites on the unpatched region,
    /// then register the two toggles; both default to on, so all three
    /// patches are applied in registration order.
    pub fn new(builder: &mut TweakBuilder, mem: &mut MemoryRegion) -> (r: Result<
        FullscreenTweak,
        TweakError,
    >)
        requires
            settings_wf(old(builder).settings@),
        ensures
            settings_wf(final(builder).settings@),
            r is Ok <==> fullscreen_buildable(old(mem)@),
            match r {
                Ok(_) => {
                    &&& final(builder).settings@.len() == old(builder).settings@.len() + 2
                    &&& forall|j: int|
                        0 <= j < old(builder).settings@.len() ==> final(builder).settings@[j]
                            == old(builder).settings@[j]
                    &&& {
                        let s1 = final(builder).settings@[final(builder).settings@.len() - 2];
                        let s2 = final(builder).settings@.last();
                        &&& s1.config_key matches Some(k1) && k1@
                            == "disable_minimize_on_lost_focus"@
                        &&& s2.config_key matches Some(k2) && k2@ == "force_borderless_fullscreen"@
                        &&& s1.value == SettingValue::Bool(true)
                        &&& s2.value == SettingValue::Bool(true)
                        &&& s1.defaults.vanilla == SettingValue::Bool(false)
                        &&& s2.defaults.vanilla == SettingValue::Bool(false)
                        &&& s1.inner matches SettingKind::Toggle(t1) && {
                            &&& t1.injections@.len() == 2
                            &&& t1.injections@[0].0.is_applied()
                            &&& t1.injections@[1].0.is_applied()
                            &&& t1.injections@[0].0.replacement_bytes() == nop_seq(6)
                            &&& t1.injections@[1].0.replacement_bytes() == notopmost_bytes()
                            &&& exists|pos: int|
                                {
                                    &&& #[trigger] pattern_matches_at(
                                        old(mem)@,
                                        minimize_pattern(),
                                        pos,
                                    )
                                    &&& (forall|q: int|
                                        pattern_matches_at(old(mem)@, minimize_pattern(), q)
                                            ==> q == pos)
                                    &&& t1.injections@[0].0.entry_point as int == pos + 12
                                }
                            &&& exists|pos: int|
                                {
                                    &&& #[trigger] pattern_matches_at(
                                        old(mem)@,
                                        topmost_pattern(),
                                        pos,
                                    )
                                    &&& (forall|q: int|
                                        pattern_matches_at(old(mem)@, topmost_pattern(), q) ==> q
                                            == pos)
                                    &&& t1.injections@[1].0.entry_point as int == pos + 6
                                }
                        }
                        &&& s2.inner matches SettingKind::Toggle(t2) && {
                            &&& t2.injections@.len() == 1
                            &&& t2.injections@[0].0.is_applied()
                            &&& t2.injections@[0].0.replacement_bytes() == borderless_bytes()
                            &&& exists|pos: int|
                                {
                                    &&& #[trigger] pattern_matches_at(
                                        old(mem)@,
                                        borderless_pattern(),
                                        pos,
                                    )
                                    &&& (forall|q: int|
                                        pattern_matches_at(old(mem)@, borderless_pattern(), q)
                                            ==> q == pos)
                                    &&& t2.injections@[0].0.entry_point as int == pos + 8
                                }
                        }
                        &&& (s1.inner matches SettingKind::Toggle(t1) && s2.inner
                            matches SettingKind::Toggle(t2) && final(mem)@ == spec_write(
                            spec_write(
                                spec_write(
                                    old(mem)@,
                                    t1.injections@[0].0.entry_point as int,
                                    nop_seq(6),
                                ),
                                t1.injections@[1].0.entry_point as int,
                                notopmost_bytes(),
                            ),
                            t2.injections@[0].0.entry_point as int,
                            borderless_bytes(),
                        ))
                    }
                },
                Err(TweakError::Scan(e)) => {
                    &&& {
                        ||| is_scan_single_result(
                            old(mem)@,
                            minimize_pattern(),
                            Err::<usize, crate::tweaks::ScanAOBSingleError>(e),
                        )
                        ||| unique_match(old(mem)@, minimize_pattern())
                            && is_scan_single_result(
                            old(mem)@,
                            topmost_pattern(),
                            Err::<usize, crate::tweaks::ScanAOBSingleError>(e),
                        )
                        ||| unique_match(old(mem)@, minimize_pattern()) && unique_match(
                            old(mem)@,
                            topmost_pattern(),
                        ) && is_scan_single_result(
                            old(mem)@,
                            borderless_pattern(),
                            Err::<usize, crate::tweaks::ScanAOBSingleError>(e),
                        )
                    }
                    &&& final(builder).settings@ == old(builder).settings@
                    &&& final(mem)@ == old(mem)@
                },
                Err(_) => false,
            },
    {
        let minimize = MemoryPattern::new(
            vec![
                Some(0x48u8),
                Some(0x8bu8),
                Some(0x8eu8),
                Some(0x48u8),
                Some(0x03u8),
                Some(0x00u8),
                Some(0x00u8),
                Some(0xbau8),
                Some(0x06u8),
                Some(0x00u8),
                Some(0x00u8),
                Some(0x00u8),
                Some(0xffu8),
                Some(0x15u8),
                None,
                None,
                None,
                None,
            ],
        );
        proof {
            assert(minimize@ =~= minimize_pattern());
        }
        // NOP the show-window call
        let no_minimize_injection = match builder.injection(
            mem,
            &minimize,
            vec![0x90u8, 0x90u8, 0x90u8, 0x90u8, 0x90u8, 0x90u8],
            InjectAt::End,
        ) {
            Ok(inj) => inj,
            Err(e) => {
                proof {
                    // the patch lands inside the match, so only a scan
                    // failure can reach here
                    match e {
                        TweakError::Scan(se) => {
                            lemma_scan_err_not_unique(old(mem)@, minimize_pattern(), se);
                        },
                        _ => {},
                    }
                }
                return Err(e);
            },
        };
        let topmost = MemoryPattern::new(
            vec![
                Some(0x8bu8),
                None,
                Some(0xe0u8),
                Some(0x48u8),
                Some(0xc7u8),
                None,
                Some(0xffu8),
                Some(0xffu8),
                Some(0xffu8),
                Some(0xffu8),
            ],
        );
        proof {
            assert(topmost@ =~= topmost_pattern());
        }
        // change the topmost placement to not-topmost
        let no_topmost_injection = match builder.injection(
            mem,
            &topmost,
            vec![0xFEu8, 0xFFu8, 0xFFu8, 0xFFu8],
            InjectAt::End,
        ) {
            Ok(inj) => inj,
            Err(e) => {
                proof {
                    match e {
                        TweakError::Scan(se) => {
                            lemma_scan_err_not_unique(old(mem)@, topmost_pattern(), se);
                        },
                        _ => {},
                    }
                }
                return Err(e);
            },
        };
        let borderless = MemoryPattern::new(
            vec![
                None,
                Some(0x83u8),
                None,
                None,
                None,
                Some(0x74u8),
                None,
                Some(0xbbu8),
                Some(0x00u8),
                Some(0x00u8),
                Some(0x00u8),
                Some(0x86u8),
            ],
        );
        proof {
            assert(borderless@ =~= borderless_pattern());
        }
        // clear the popup style bit
        let borderless_injection = match builder.injection(
            mem,
            &borderless,
            vec![0x00u8, 0x00u8, 0x00u8, 0x06u8],
            InjectAt::End,
        ) {
            Ok(inj) => inj,
            Err(e) => {
                proof {
                    match e {
                        TweakError::Scan(se) => {
                            lemma_scan_err_not_unique(old(mem)@, borderless_pattern(), se);
                        },
                        _ => {},
                    }
                }
                return Err(e);
            },
        };
        proof {
            assert(no_minimize_injection.replacement_bytes() =~= nop_seq(6));
            assert(no_topmost_injection.replacement_bytes() =~= notopmost_bytes());
            assert(borderless_injection.replacement_bytes() =~= borderless_bytes());
        }
        let minimize_toggle = ToggleBuilder::new(
            String::from_str("Disable Minimize on Lost Focus"),
            Defaults::new(true, false),
        ).tooltip(
            String::from_str(
                "Prevents the window from automatically minimizing when you tab out in fullscreen.\nTurn fullscreen off and back on while enabled to fix window stuck on top",
            ),
        ).config_key(String::from_str("disable_minimize_on_lost_focus")).injection(
            no_minimize_injection,
            false,
        ).injection(no_topmost_injection, false);
        let ghost tb1 = minimize_toggle;
        let ghost mem_at_build_1 = mem@;
        match minimize_toggle.build(builder, mem) {
            Ok(()) => {},
            Err(e) => {
                proof {
                    let injs = tb1.toggle.injections@;
                    let rl = mem_at_build_1.len() as int;
                    if !toggle_can_apply(injs, true, rl) {
                        let j = choose|j: int|
                            0 <= j < injs.len() && ((true != injs[j].1)
                                != injs[j].0.is_applied()) && !injs[j].0.in_bounds(rl);
                        assert(j == 0 || j == 1);
                        assert(false);
                    }
                }
                return Err(e);
            },
        }
        proof {
            let injs = tb1.toggle.injections@;
            let w0 = (injs[0].0.entry_point as int, injs[0].0.replacement_bytes());
            let w1 = (injs[1].0.entry_point as int, injs[1].0.replacement_bytes());
            assert(toggle_writes_prefix(injs, true, 0) =~= Seq::<(int, Seq<u8>)>::empty());
            assert(toggle_writes_prefix(injs, true, 1) =~= toggle_writes_prefix(injs, true, 0)
                + injection_toggle_writes(injs[0].0, true != injs[0].1));
            assert(toggle_writes_prefix(injs, true, 1) =~= seq![w0]);
            assert(toggle_writes_prefix(injs, true, 2) =~= toggle_writes_prefix(injs, true, 1)
                + injection_toggle_writes(injs[1].0, true != injs[1].1));
            assert(toggle_writes_prefix(injs, true, 2) =~= seq![w0] + seq![w1]);
            lemma_write_all_concat(mem_at_build_1, seq![w0], seq![w1]);
            lemma_write_all_singleton(mem_at_build_1, w0);
            lemma_write_all_singleton(spec_write(mem_at_build_1, w0.0, w0.1), w1);
        }
        let borderless_toggle = ToggleBuilder::new(
            String::from_str("Force Borderless Fullscreen"),
            Defaults::new(true, false),
        ).tooltip(
            String::from_str(
                "Forces the window to open in borderless fullscreen instead of exclusive.\nYou need to toggle fullscreen for it to update.",
            ),
        ).config_key(String::from_str("force_borderless_fullscreen")).injection(
            borderless_injection,
            false,
        );
        let ghost tb2 = borderless_toggle;
        let ghost mem_at_build_2 = mem@;
        match borderless_toggle.build(builder, mem) {
            Ok(()) => {},
            Err(e) => {
                proof {
                    let injs = tb2.toggle.injections@;
                    let rl = mem_at_build_2.len() as int;
                    if !toggle_can_apply(injs, true, rl) {
                        let j = choose|j: int|
                            0 <= j < injs.len() && ((true != injs[j].1)
                                != injs[j].0.is_applied()) && !injs[j].0.in_bounds(rl);
                        assert(j == 0);
                        assert(false);
                    }
                }
                return Err(e);
            },
        }
        proof {
            let injs = tb2.toggle.injections@;
            let w = (injs[0].0.entry_point as int, injs[0].0.replacement_bytes());
            assert(toggle_writes_prefix(injs, true, 0) =~= Seq::<(int, Seq<u8>)>::empty());
            assert(toggle_writes_prefix(injs, true, 1) =~= toggle_writes_prefix(injs, true, 0)
                + injection_toggle_writes(injs[0].0, true != injs[0].1));
            assert(toggle_writes_prefix(injs, true, 1) =~= seq![w]);
            lemma_write_all_singleton(mem_at_build_2, w);
        }
        Ok(FullscreenTweak)
    }
}

} // verus!
