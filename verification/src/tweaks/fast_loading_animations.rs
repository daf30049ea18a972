//! Speeds the loading screens up: redirects the menu-fade counter bump to
//! a faster hook, and skips the progress bar's finish animation. Knows two
//! game builds whose fade counter lives at different displacements, and
//! falls back to the older one when the newer signature is absent.

use vstd::prelude::*;
use crate::injections::{encode_le, le_bytes};
use crate::memory::{
    MemoryPattern, MemoryRegion, lemma_write_all_singleton, pattern_matches_at, spec_write,
};
use crate::tweaks::editor_show_hidden::nop_seq;
use crate::tweaks::settings::{SettingKind, SettingValue};
use crate::tweaks::settings::toggle::{
    ToggleBuilder, injection_toggle_writes, toggle_can_apply, toggle_writes_prefix,
};
use crate::tweaks::{
    Defaults, HookTable, InjectAt, ScanAOBSingleError, TweakBuilder, TweakConfig, TweakError,
    hook_lookup, is_scan_single_result, lemma_scan_err_not_unique, settings_wf, unique_match,
};

verus! {

/// An absolute call into the hook at `hook`, laid over a sixteen-byte
/// site: CALL through the address embedded right behind the jump that
/// skips it.
pub open spec fn call_hook_stub(hook: u64) -> Seq<u8> {
    seq![0xffu8, 0x15u8, 0x02u8, 0x00u8, 0x00u8, 0x00u8, 0xebu8, 0x08u8] + le_bytes(hook, 8)
}

/// Build the sixteen-byte call stub into `hook`.
pub fn build_call_stub(hook: usize) -> (r: Vec<u8>)
    ensures
        r@ == call_hook_stub(hook as u64),
{
    let mut r: Vec<u8> = vec![0xffu8, 0x15u8, 0x02u8, 0x00u8, 0x00u8, 0x00u8, 0xebu8, 0x08u8];
    let mut addr = encode_le(hook as u64, 8);
    r.append(&mut addr);
    proof {
        assert(r@ =~= call_hook_stub(hook as u64));
    }
    r
}

/// The menu-fade counter bump of current game builds.
pub open spec fn menu_fade_pattern() -> Seq<Option<u8>> {
    seq![
        Some(0x49u8),  // MOV RDX,R12
        Some(0x8Bu8),
        Some(0xD4u8),
        Some(0xffu8),  // CALL qword ptr [RAX + 0xf0]
        Some(0x90u8),
        Some(0xf0u8),
        Some(0x00u8),
        Some(0x00u8),
        Some(0x00u8),
        Some(0x41u8),  // INC dword ptr [R15 + 0xbdb90]
        Some(0xffu8),
        Some(0x87u8),
        Some(0x90u8),
        Some(0xdbu8),
        Some(0x0bu8),
        Some(0x00u8),
    ]
}

/// The menu-fade counter bump of older game builds, whose counter lives
/// behind a different register and displacement.
pub open spec fn menu_fade_pattern_legacy() -> Seq<Option<u8>> {
    seq![
        Some(0x49u8),  // MOV RDX,R12
        Some(0x8Bu8),
        Some(0xD4u8),
        Some(0xffu8),  // CALL qword ptr [RAX + 0xf0]
        Some(0x90u8),
        Some(0xf0u8),
        Some(0x00u8),
        Some(0x00u8),
        Some(0x00u8),
        Some(0x41u8),  // INC dword ptr [R14 + 0xbdb80]
        Some(0xffu8),
        Some(0x86u8),
        Some(0x80u8),
        Some(0xdbu8),
        Some(0x0bu8),
        Some(0x00u8),
    ]
}

/// The comparison that holds the loading wheel until its animation reaches
/// the end.
pub open spec fn skip_load_finish_pattern() -> Seq<Option<u8>> {
    seq![
        Some(0x0fu8),  // UCOMISS XMM0,XMM6
        Some(0x2eu8),
        Some(0xc6u8),
        Some(0x7au8),  // JP +0x41
        Some(0x41u8),
        Some(0x75u8),  // JNZ +0x3f
        Some(0x3fu8),
    ]
}

/// Does some fade site resolve: the current build's uniquely, or — only
/// when the current signature is absent — the older build's uniquely?
pub open spec fn fade_site_resolves(mem: Seq<u8>) -> bool {
    ||| unique_match(mem, menu_fade_pattern())
    ||| (forall|q: int| !pattern_matches_at(mem, menu_fade_pattern(), q)) && unique_match(
        mem,
        menu_fade_pattern_legacy(),
    )
}

/// Are both fade hooks registered, a fade site resolved (with the
/// fallback policy), and the finish-animation check unique? All patches
/// land inside their matches, so this is the whole success condition.
pub open spec fn fast_loading_buildable(mem: Seq<u8>, hooks: Seq<(String, usize)>) -> bool {
    &&& hook_lookup(hooks, "custom_fade"@) is Some
    &&& hook_lookup(hooks, "custom_fade_1_12_6"@) is Some
    &&& fade_site_resolves(mem)
    &&& unique_match(mem, skip_load_finish_pattern())
}

/// Two on-by-default toggles: one calling a fast fade hook in place of the
/// menu-fade counter bump, one skipping the loading wheel's finish
/// animation.
#[derive(Debug)]
pub struct FastLoadingAnimationsTweak;

impl TweakConfig for FastLoadingAnimationsTweak {
    open spec fn spec_config_id() -> Seq<char> {
        "fast_loading_animations_tweak"@
    }

    fn config_id() -> (r: &'static str) {
        "fast_loading_animations_tweak"
    }
}

impl FastLoadingAnimationsTweak {
    /// Resolve the fade site — current build first, older build as a
    /// fallback when the current signature is absent — and the finish
    /// animation check, then register both toggles; both default to on.
    pub fn new(builder: &mut TweakBuilder, hooks: &HookTable, mem: &mut MemoryRegion) -> (r:
        Result<FastLoadingAnimationsTweak, TweakError>)
        requires
            settings_wf(old(builder).settings@),
        ensures
            settings_wf(final(builder).settings@),
            r is Ok <==> fast_loading_buildable(old(mem)@, hooks.entries@),
            match r {
                Ok(_) => {
                    &&& final(builder).category matches Some(c) && c@ == "Performance"@
                    &&& final(builder).settings@.len() == old(builder).settings@.len() + 2
                    &&& forall|j: int|
                        0 <= j < old(builder).settings@.len() ==> final(builder).settings@[j]
                            == old(builder).settings@[j]
                    &&& {
                        let s1 = final(builder).settings@[final(builder).settings@.len() - 2];
                        let s2 = final(builder).settings@.last();
                        &&& s1.config_key matches Some(k1) && k1@ == "fast_main_menu_fade"@
                        &&& s2.config_key matches Some(k2) && k2@
                            == "skip_loading_finish_animation"@
                        &&& s1.value == SettingValue::Bool(true)
                        &&& s2.value == SettingValue::Bool(true)
                        &&& s1.defaults.vanilla == SettingValue::Bool(false)
                        &&& s2.defaults.vanilla == SettingValue::Bool(false)
                        &&& s1.inner matches SettingKind::Toggle(t1) && {
                            &&& t1.injections@.len() == 1
                            &&& t1.injections@[0].0.is_applied()
                            &&& {
                                ||| exists|pos: int|
                                    {
                                        &&& #[trigger] pattern_matches_at(
                                            old(mem)@,
                                            menu_fade_pattern(),
                                            pos,
                                        )
                                        &&& (forall|q: int|
                                            pattern_matches_at(old(mem)@, menu_fade_pattern(), q)
                                                ==> q == pos)
                                        &&& t1.injections@[0].0.entry_point as int == pos
                                        &&& hook_lookup(hooks.entries@, "custom_fade"@)
                                            matches Some(h)
                                            && t1.injections@[0].0.replacement_bytes()
                                            == call_hook_stub(h as u64)
                                    }
                                ||| {
                                    &&& (forall|q: int|
                                        !pattern_matches_at(old(mem)@, menu_fade_pattern(), q))
                                    &&& exists|pos: int|
                                        {
                                            &&& #[trigger] pattern_matches_at(
                                                old(mem)@,
                                                menu_fade_pattern_legacy(),
                                                pos,
                                            )
                                            &&& (forall|q: int|
                                                pattern_matches_at(
                                                    old(mem)@,
                                                    menu_fade_pattern_legacy(),
                                                    q,
                                                ) ==> q == pos)
                                            &&& t1.injections@[0].0.entry_point as int == pos
                                            &&& hook_lookup(
                                                hooks.entries@,
                                                "custom_fade_1_12_6"@,
                                            ) matches Some(h)
                                                && t1.injections@[0].0.replacement_bytes()
                                                == call_hook_stub(h as u64)
                                        }
                                }
                            }
                        }
                        &&& s2.inner matches SettingKind::Toggle(t2) && {
                            &&& t2.injections@.len() == 1
                            &&& t2.injections@[0].0.is_applied()
                            &&& t2.injections@[0].0.replacement_bytes() == nop_seq(2)
                            &&& exists|pos: int|
                                {
                                    &&& #[trigger] pattern_matches_at(
                                        old(mem)@,
                                        skip_load_finish_pattern(),
                                        pos,
                                    )
                                    &&& (forall|q: int|
                                        pattern_matches_at(
                                            old(mem)@,
                                            skip_load_finish_pattern(),
                                            q,
                                        ) ==> q == pos)
                                    &&& t2.injections@[0].0.entry_point as int == pos + 5
                                }
                        }
                        &&& (s1.inner matches SettingKind::Toggle(t1) && s2.inner
                            matches SettingKind::Toggle(t2) && final(mem)@ == spec_write(
                            spec_write(
                                old(mem)@,
                                t1.injections@[0].0.entry_point as int,
                                t1.injections@[0].0.replacement_bytes(),
                            ),
                            t2.injections@[0].0.entry_point as int,
                            nop_seq(2),
                        ))
                    }
                },
                Err(TweakError::Scan(e)) => {
                    &&& hook_lookup(hooks.entries@, "custom_fade"@) is Some
                    &&& hook_lookup(hooks.entries@, "custom_fade_1_12_6"@) is Some
                    &&& {
                        ||| e is MultipleMatches && is_scan_single_result(
                            old(mem)@,
                            menu_fade_pattern(),
                            Err::<usize, ScanAOBSingleError>(e),
                        )
                        ||| (forall|q: int|
                            !pattern_matches_at(old(mem)@, menu_fade_pattern(), q))
                            && is_scan_single_result(
                            old(mem)@,
                            menu_fade_pattern_legacy(),
                            Err::<usize, ScanAOBSingleError>(e),
                        )
                        ||| fade_site_resolves(old(mem)@) && is_scan_single_result(
                            old(mem)@,
                            skip_load_finish_pattern(),
                            Err::<usize, ScanAOBSingleError>(e),
                        )
                    }
                    &&& final(builder).settings@ == old(builder).settings@
                    &&& final(mem)@ == old(mem)@
                },
                Err(TweakError::MissingHook) => {
                    &&& hook_lookup(hooks.entries@, "custom_fade"@) is None || hook_lookup(
                        hooks.entries@,
                        "custom_fade_1_12_6"@,
                    ) is None
                    &&& final(builder).settings@ == old(builder).settings@
                    &&& final(mem)@ == old(mem)@
                },
                Err(_) => false,
            },
    {
        builder.set_category(Some(String::from_str("Performance")));
        let fade_hook = match hooks.get(&String::from_str("custom_fade")) {
            Some(addr) => addr,
            None => {
                return Err(TweakError::MissingHook);
            },
        };
        let fade_hook_legacy = match hooks.get(&String::from_str("custom_fade_1_12_6")) {
            Some(addr) => addr,
            None => {
                return Err(TweakError::MissingHook);
            },
        };
        let fade_pattern = MemoryPattern::new(
            vec![
                Some(0x49u8),
                Some(0x8Bu8),
                Some(0xD4u8),
                Some(0xffu8),
                Some(0x90u8),
                Some(0xf0u8),
                Some(0x00u8),
                Some(0x00u8),
                Some(0x00u8),
                Some(0x41u8),
                Some(0xffu8),
                Some(0x87u8),
                Some(0x90u8),
                Some(0xdbu8),
                Some(0x0bu8),
                Some(0x00u8),
            ],
        );
        proof {
            assert(fade_pattern@ =~= menu_fade_pattern());
        }
        // call the fast fade hook over the counter bump; fall back to the
        // older build's site only when the current one is absent
        let menu_fade_injection = match builder.injection(
            mem,
            &fade_pattern,
            build_call_stub(fade_hook),
            InjectAt::Start,
        ) {
            Ok(inj) => inj,
            Err(TweakError::Scan(ScanAOBSingleError::NoMatches)) => {
                let fade_pattern_legacy = MemoryPattern::new(
                    vec![
                        Some(0x49u8),
                        Some(0x8Bu8),
                        Some(0xD4u8),
                        Some(0xffu8),
                        Some(0x90u8),
                        Some(0xf0u8),
                        Some(0x00u8),
                        Some(0x00u8),
                        Some(0x00u8),
                        Some(0x41u8),
                        Some(0xffu8),
                        Some(0x86u8),
                        Some(0x80u8),
                        Some(0xdbu8),
                        Some(0x0bu8),
                        Some(0x00u8),
                    ],
                );
                proof {
                    assert(fade_pattern_legacy@ =~= menu_fade_pattern_legacy());
                }
                match builder.injection(
                    mem,
                    &fade_pattern_legacy,
                    build_call_stub(fade_hook_legacy),
                    InjectAt::Start,
                ) {
                    Ok(inj) => inj,
                    Err(e) => {
                        proof {
                            // the stub fills the match exactly, so only a
                            // scan failure can reach here; the current
                            // signature already matched nowhere
                            match e {
                                TweakError::Scan(se) => {
                                    lemma_scan_err_not_unique(
                                        old(mem)@,
                                        menu_fade_pattern_legacy(),
                                        se,
                                    );
                                },
                                _ => {},
                            }
                        }
                        return Err(e);
                    },
                }
            },
            Err(e) => {
                proof {
                    // a current-signature failure other than a missing
                    // match is returned without trying the fallback
                    match e {
                        TweakError::Scan(se) => {
                            lemma_scan_err_not_unique(old(mem)@, menu_fade_pattern(), se);
                            let (q1, q2) = choose|q1: int, q2: int|
                                q1 != q2 && pattern_matches_at(
                                    old(mem)@,
                                    menu_fade_pattern(),
                                    q1,
                                ) && pattern_matches_at(old(mem)@, menu_fade_pattern(), q2);
                            assert(pattern_matches_at(old(mem)@, menu_fade_pattern(), q1));
                        },
                        _ => {},
                    }
                }
                return Err(e);
            },
        };
        let skip_pattern = MemoryPattern::new(
            vec![
                Some(0x0fu8),
                Some(0x2eu8),
                Some(0xc6u8),
                Some(0x7au8),
                Some(0x41u8),
                Some(0x75u8),
                Some(0x3fu8),
            ],
        );
        proof {
            assert(skip_pattern@ =~= skip_load_finish_pattern());
        }
        // NOP the JNZ that waits for the animation to reach the end
        let skip_load_finish_injection = match builder.injection(
            mem,
            &skip_pattern,
            vec![0x90u8, 0x90u8],
            InjectAt::End,
        ) {
            Ok(inj) => inj,
            Err(e) => {
                proof {
                    match e {
                        TweakError::Scan(se) => {
                            lemma_scan_err_not_unique(
                                old(mem)@,
                                skip_load_finish_pattern(),
                                se,
                            );
                        },
                        _ => {},
                    }
                }
                return Err(e);
            },
        };
        proof {
            assert(skip_load_finish_injection.replacement_bytes() =~= nop_seq(2));
        }
        let fade_toggle = ToggleBuilder::new(
            String::from_str("Fast Main Menu Fade"),
            Defaults::new(true, false),
        ).tooltip(String::from_str("Speeds up the main menu loading fade")).config_key(
            String::from_str("fast_main_menu_fade"),
        ).injection(menu_fade_injection, false);
        let ghost tb1 = fade_toggle;
        let ghost mem_at_build_1 = mem@;
        match fade_toggle.build(builder, mem) {
            Ok(()) => {},
            Err(e) => {
                proof {
                    let injs = tb1.toggle.injections@;
                    let rl = mem_at_build_1.len() as int;
                    if !toggle_can_apply(injs, true, rl) {
                        let j = choose|j: int|
                            0 <= j < injs.len() && ((true != injs[j].1)
                                != injs[j].0.is_applied()) && !injs[j].0.in_bounds(rl);
                        assert(j == 0);
                        assert(false);
                    }
                }
                return Err(e);
            },
        }
        proof {
            let injs = tb1.toggle.injections@;
            let w = (injs[0].0.entry_point as int, injs[0].0.replacement_bytes());
            assert(toggle_writes_prefix(injs, true, 0) =~= Seq::<(int, Seq<u8>)>::empty());
            assert(toggle_writes_prefix(injs, true, 1) =~= toggle_writes_prefix(injs, true, 0)
                + injection_toggle_writes(injs[0].0, true != injs[0].1));
            assert(toggle_writes_prefix(injs, true, 1) =~= seq![w]);
            lemma_write_all_singleton(mem_at_build_1, w);
        }
        let skip_toggle = ToggleBuilder::new(
            String::from_str("Skip Loading Finish Animation"),
            Defaults::new(true, false),
        ).tooltip(
            String::from_str("Skips the animation of the progress bar going to 100%"),
        ).config_key(String::from_str("skip_loading_finish_animation")).injection(
            skip_load_finish_injection,
            false,
        );
        let ghost tb2 = skip_toggle;
        let ghost mem_at_build_2 = mem@;
        match skip_toggle.build(builder, mem) {
            Ok(()) => {},
            Err(e) => {
                proof {
                    let injs = tb2.toggle.injections@;
                    let rl = mem_at_build_2.len() as int;
                    if !toggle_can_apply(injs, true, rl) {
                        let j = choose|j: int|
                            0 <= j < injs.len() && ((true != injs[j].1)
                                != injs[j].0.is_applied()) && !injs[j].0.in_bounds(rl);
                        assert(j == 0);
                        assert(false);
                    }
                }
                return Err(e);
            },
        }
        proof {
            let injs = tb2.toggle.injections@;
            let w = (injs[0].0.entry_point as int, injs[0].0.replacement_bytes());
            assert(toggle_writes_prefix(injs, true, 0) =~= Seq::<(int, Seq<u8>)>::empty());
            assert(toggle_writes_prefix(injs, true, 1) =~= toggle_writes_prefix(injs, true, 0)
                + injection_toggle_writes(injs[0].0, true != injs[0].1));
            assert(toggle_writes_prefix(injs, true, 1) =~= seq![w]);
            lemma_write_all_singleton(mem_at_build_2, w);
        }
        Ok(FastLoadingAnimationsTweak)
    }
}

} // verus!
