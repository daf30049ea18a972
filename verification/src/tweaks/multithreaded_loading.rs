//! Moves asset loading onto a separate thread by intercepting the ROM and
//! save loaders; the hooks themselves run in the platform layer, which
//! registers their addresses before construction.

use vstd::prelude::*;
use crate::memory::{MemoryPattern, MemoryRegion, pattern_matches_at};
use crate::tweaks::settings::{SettingKind, SettingValue};
use crate::tweaks::settings::toggle::ToggleBuilder;
use crate::tweaks::{
    Defaults, Detour, HookTable, TweakBuilder, TweakConfig, TweakError, hook_lookup,
    is_scan_single_result, lemma_scan_err_not_unique, settings_wf, unique_match,
};

verus! {

/// The prologue of the ROM-loading function.
pub open spec fn load_rom_pattern() -> Seq<Option<u8>> {
    seq![
        None,  // MOV qword ptr [RSP + 0x10],RBX
        Some(0x89u8),
        Some(0x5cu8),
        None,
        Some(0x10u8),
        None,  // MOV qword ptr [RSP + 0x20],R9
        Some(0x89u8),
        Some(0x4cu8),
        None,
        Some(0x20u8),
        None,  // a run of PUSHes
        None,
        None,
        None,
        None,
        None,
        None,
        None,
        None,
        None,
        None,
        None,  // LEA RBP,[RSP + -0x27]
        Some(0x8du8),
        Some(0x6cu8),
        None,
        Some(0xd9u8),
        Some(0x48u8),  // SUB RSP,0xa0
        Some(0x81u8),
        Some(0xecu8),
        Some(0xa0u8),
        Some(0x00u8),
        Some(0x00u8),
        Some(0x00u8),
    ]
}

/// The prologue of the save-loading function.
pub open spec fn load_save_pattern() -> Seq<Option<u8>> {
    seq![
        None,  // MOV qword ptr [RSP + 0x18],RBX
        Some(0x89u8),
        Some(0x5cu8),
        None,
        Some(0x18u8),
        None,  // MOV qword ptr [RSP + 0x10],RDX
        Some(0x89u8),
        Some(0x54u8),
        None,
        Some(0x10u8),
        None,  // a run of PUSHes
        None,
        None,
        None,
        None,
        None,
        None,
        None,
        None,
        None,
        None,
        None,  // LEA RBP,[RSP + -0x1f]
        Some(0x8du8),
        Some(0x6cu8),
        None,
        Some(0xe1u8),
        Some(0x48u8),  // SUB RSP (frame size varies across game builds)
        Some(0x81u8),
        Some(0xecu8),
        Some(0xf0u8),
        Some(0x00u8),
        Some(0x00u8),
        Some(0x00u8),
    ]
}

/// Are both loader hooks registered and both loader prologues unique?
/// Detours write nothing at install time, so this is the whole success
/// condition.
pub open spec fn multithreaded_loading_buildable(
    mem: Seq<u8>,
    hooks: Seq<(String, usize)>,
) -> bool {
    &&& hook_lookup(hooks, "load_rom_hook"@) is Some
    &&& hook_lookup(hooks, "load_save_hook"@) is Some
    &&& unique_match(mem, load_rom_pattern())
    &&& unique_match(mem, load_save_pattern())
}

/// Intercepts the ROM and save loaders behind one off-by-default toggle;
/// the hooks split the ROM load onto its own thread and join it before the
/// save load finishes.
#[derive(Debug)]
pub struct MultithreadedLoadingTweak;

impl TweakConfig for MultithreadedLoadingTweak {
    open spec fn spec_config_id() -> Seq<char> {
        "multithreaded_loading_tweak"@
    }

    fn config_id() -> (r: &'static str) {
        "multithreaded_loading_tweak"
    }
}

impl MultithreadedLoadingTweak {
    /// Locate both loader functions and register the toggle holding their
    /// interceptions. Off by default and writing no bytes in this model,
    /// construction leaves the region untouched.
    pub fn new(builder: &mut TweakBuilder, hooks: &HookTable, mem: &mut MemoryRegion) -> (r:
        Result<MultithreadedLoadingTweak, TweakError>)
        requires
            settings_wf(old(builder).settings@),
        ensures
            settings_wf(final(builder).settings@),
            final(mem)@ == old(mem)@,
            r is Ok <==> multithreaded_loading_buildable(old(mem)@, hooks.entries@),
            match r {
                Ok(_) => {
                    &&& final(builder).category matches Some(c) && c@ == "Performance"@
                    &&& final(builder).settings@.len() == old(builder).settings@.len() + 1
                    &&& forall|j: int|
                        0 <= j < old(builder).settings@.len() ==> final(builder).settings@[j]
                            == old(builder).settings@[j]
                    &&& {
                        let s = final(builder).settings@.last();
                        &&& s.config_key matches Some(k) && k@ == "multithreaded_loading"@
                        &&& s.value == SettingValue::Bool(false)
                        &&& s.defaults.default == SettingValue::Bool(false)
                        &&& s.defaults.vanilla == SettingValue::Bool(false)
                        &&& s.inner matches SettingKind::Toggle(t) && {
                            &&& t.injections@.len() == 0
                            &&& t.detours@.len() == 2
                            &&& !t.detours@[0].0.enabled
                            &&& !t.detours@[1].0.enabled
                            &&& t.detours@[0].1 == false
                            &&& t.detours@[1].1 == false
                            &&& hook_lookup(hooks.entries@, "load_rom_hook"@) == Some(
                                t.detours@[0].0.hook_address,
                            )
                            &&& hook_lookup(hooks.entries@, "load_save_hook"@) == Some(
                                t.detours@[1].0.hook_address,
                            )
                            &&& exists|pos: int|
                                {
                                    &&& #[trigger] pattern_matches_at(
                                        old(mem)@,
                                        load_rom_pattern(),
                                        pos,
                                    )
                                    &&& (forall|q: int|
                                        pattern_matches_at(old(mem)@, load_rom_pattern(), q) ==> q
                                            == pos)
                                    &&& t.detours@[0].0.target_address as int == pos
                                }
                            &&& exists|pos: int|
                                {
                                    &&& #[trigger] pattern_matches_at(
                                        old(mem)@,
                                        load_save_pattern(),
                                        pos,
                                    )
                                    &&& (forall|q: int|
                                        pattern_matches_at(old(mem)@, load_save_pattern(), q)
                                            ==> q == pos)
                                    &&& t.detours@[1].0.target_address as int == pos
                                }
                        }
                    }
                },
                Err(TweakError::Scan(e)) => {
                    &&& hook_lookup(hooks.entries@, "load_rom_hook"@) is Some
                    &&& hook_lookup(hooks.entries@, "load_save_hook"@) is Some
                    &&& {
                        ||| is_scan_single_result(
                            old(mem)@,
                            load_rom_pattern(),
                            Err::<usize, crate::tweaks::ScanAOBSingleError>(e),
                        )
                        ||| unique_match(old(mem)@, load_rom_pattern()) && is_scan_single_result(
                            old(mem)@,
                            load_save_pattern(),
                            Err::<usize, crate::tweaks::ScanAOBSingleError>(e),
                        )
                    }
                    &&& final(builder).settings@ == old(builder).settings@
                },
                Err(TweakError::MissingHook) => {
                    &&& hook_lookup(hooks.entries@, "load_rom_hook"@) is None || hook_lookup(
                        hooks.entries@,
                        "load_save_hook"@,
                    ) is None
                    &&& final(builder).settings@ == old(builder).settings@
                },
                Err(_) => false,
            },
    {
        builder.set_category(Some(String::from_str("Performance")));
        let load_rom_hook = match hooks.get(&String::from_str("load_rom_hook")) {
            Some(addr) => addr,
            None => {
                return Err(TweakError::MissingHook);
            },
        };
        let load_save_hook = match hooks.get(&String::from_str("load_save_hook")) {
            Some(addr) => addr,
            None => {
                return Err(TweakError::MissingHook);
            },
        };
        let load_rom = MemoryPattern::new(
            vec![
                None,
                Some(0x89u8),
                Some(0x5cu8),
                None,
                Some(0x10u8),
                None,
                Some(0x89u8),
                Some(0x4cu8),
                None,
                Some(0x20u8),
                None,
                None,
                None,
                None,
                None,
                None,
                None,
                None,
                None,
                None,
                None,
                None,
                Some(0x8du8),
                Some(0x6cu8),
                None,
                Some(0xd9u8),
                Some(0x48u8),
                Some(0x81u8),
                Some(0xecu8),
                Some(0xa0u8),
                Some(0x00u8),
                Some(0x00u8),
                Some(0x00u8),
            ],
        );
        proof {
            assert(load_rom@ =~= load_rom_pattern());
        }
        let load_rom_fn_addr = match mem.scan_aob_single(&load_rom) {
            Ok(pos) => pos,
            Err(e) => {
                proof {
                    lemma_scan_err_not_unique(old(mem)@, load_rom_pattern(), e);
                }
                return Err(TweakError::Scan(e));
            },
        };
        let load_save = MemoryPattern::new(
            vec![
                None,
                Some(0x89u8),
                Some(0x5cu8),
                None,
                Some(0x18u8),
                None,
                Some(0x89u8),
                Some(0x54u8),
                None,
                Some(0x10u8),
                None,
                None,
                None,
                None,
                None,
                None,
                None,
                None,
                None,
                None,
                None,
                None,
                Some(0x8du8),
                Some(0x6cu8),
                None,
                Some(0xe1u8),
                Some(0x48u8),
                Some(0x81u8),
                Some(0xecu8),
                Some(0xf0u8),
                Some(0x00u8),
                Some(0x00u8),
                Some(0x00u8),
            ],
        );
        proof {
            assert(load_save@ =~= load_save_pattern());
        }
        let load_save_fn_addr = match mem.scan_aob_single(&load_save) {
            Ok(pos) => pos,
            Err(e) => {
                proof {
                    lemma_scan_err_not_unique(old(mem)@, load_save_pattern(), e);
                }
                return Err(TweakError::Scan(e));
            },
        };
        let load_rom_detour = Detour::install(load_rom_fn_addr, load_rom_hook);
        let load_save_detour = Detour::install(load_save_fn_addr, load_save_hook);
        let toggle = ToggleBuilder::new(
            String::from_str("Multithreaded Loading (experimental)"),
            Defaults::new(false, false),
        ).tooltip(
            String::from_str(
                "EXPERIMENTAL!\nSplits asset loading into a separate thread, reducing world load time by ~40%.\nI haven't had any issues using this but I wouldn't be suprised if there are unknown edge cases.",
            ),
        ).config_key(String::from_str("multithreaded_loading")).detour(
            load_rom_detour,
            false,
        ).detour(load_save_detour, false);
        let ghost tb = toggle;
        match toggle.build(builder, mem) {
            Ok(()) => {},
            Err(e) => {
                proof {
                    // no patches are bound, so the build cannot fail
                    assert(false);
                }
                return Err(e);
            },
        }
        proof {
            assert(crate::tweaks::settings::toggle::toggle_writes_prefix(
                tb.toggle.injections@,
                false,
                0,
            ) =~= Seq::<(int, Seq<u8>)>::empty());
        }
        Ok(MultithreadedLoadingTweak)
    }
}

} // verus!
