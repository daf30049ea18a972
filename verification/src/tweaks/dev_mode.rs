//! Enables the developer tools on the main menu by flipping the
//! conditional jump of the developer-id check.

use vstd::prelude::*;
use crate::memory::{MemoryPattern, MemoryRegion, pattern_matches_at};
use crate::tweaks::settings::{SettingKind, SettingValue};
use crate::tweaks::settings::toggle::{
    ToggleBuilder, injection_toggle_writes, toggle_can_apply, toggle_writes_prefix,
};
use crate::tweaks::{Defaults, InjectAt, TweakBuilder, TweakConfig, TweakError, settings_wf};

verus! {

/// The signature of the developer-id check: a compare followed by a
/// conditional jump whose distance byte is free.
pub open spec fn dev_mode_pattern() -> Seq<Option<u8>> {
    seq![
        Some(0x48u8),  // CMP qword ptr [RAX + RDX*8],RSI
        Some(0x39u8),
        Some(0x34u8),
        Some(0xd0u8),
        Some(0x74u8),  // JZ
        None,
    ]
}

/// Does the region hold exactly one developer-id check site? The patch is
/// a single byte inside the match, so a unique match is the whole success
/// condition.
pub open spec fn dev_mode_buildable(mem: Seq<u8>) -> bool {
    crate::tweaks::unique_match(mem, dev_mode_pattern())
}

/// Swaps the developer-id check's JZ for a JNZ, exposed as an off-by-default
/// toggle.
#[derive(Debug)]
pub struct DevModeTweak;

impl TweakConfig for DevModeTweak {
    open spec fn spec_config_id() -> Seq<char> {
        "dev_mode_tweak"@
    }

    fn config_id() -> (r: &'static str) {
        "dev_mode_tweak"
    }
}

impl DevModeTweak {
    /// Locate the developer-id check and register the toggle that flips
    /// its jump. Off by default, so construction writes nothing.
    pub fn new(builder: &mut TweakBuilder, mem: &mut MemoryRegion) -> (r: Result<
        DevModeTweak,
        TweakError,
    >)
        requires
            settings_wf(old(builder).settings@),
        ensures
            settings_wf(final(builder).settings@),
            r is Ok <==> dev_mode_buildable(old(mem)@),
            match r {
                Ok(_) => {
                    &&& final(builder).settings@.len() == old(builder).settings@.len() + 1
                    &&& forall|j: int|
                        0 <= j < old(builder).settings@.len() ==> final(builder).settings@[j]
                            == old(builder).settings@[j]
                    &&& {
                        let s = final(builder).settings@.last();
                        &&& s.config_key matches Some(k) && k@ == "dev_mode"@
                        &&& s.value == SettingValue::Bool(false)
                        &&& s.defaults.default == SettingValue::Bool(false)
                        &&& s.defaults.vanilla == SettingValue::Bool(false)
                        &&& s.inner matches SettingKind::Toggle(t) && {
                            &&& t.injections@.len() == 1
                            &&& t.injections@[0].1 == false
                            &&& t.injections@[0].0.replacement_bytes() == seq![0x75u8]
                            &&& !t.injections@[0].0.is_applied()
                            &&& exists|pos: int|
                                {
                                    &&& #[trigger] pattern_matches_at(
                                        old(mem)@,
                                        dev_mode_pattern(),
                                        pos,
                                    )
                                    &&& (forall|q: int|
                                        pattern_matches_at(old(mem)@, dev_mode_pattern(), q)
                                            ==> q == pos)
                                    &&& t.injections@[0].0.entry_point as int == pos + 4
                                }
                            &&& t.detours@.len() == 0
                        }
                    }
                    &&& final(mem)@ == old(mem)@
                },
                Err(TweakError::Scan(e)) => {
                    &&& crate::tweaks::is_scan_single_result(
                        old(mem)@,
                        dev_mode_pattern(),
                        Err::<usize, crate::tweaks::ScanAOBSingleError>(e),
                    )
                    &&& *final(builder) == *old(builder)
                    &&& final(mem)@ == old(mem)@
                },
                Err(_) => false,
            },
    {
        let pattern = MemoryPattern::new(
            vec![Some(0x48u8), Some(0x39u8), Some(0x34u8), Some(0xd0u8), Some(0x74u8), None],
        );
        proof {
            assert(pattern@ =~= dev_mode_pattern());
        }
        // replace the JZ with a JNZ
        let inject = match builder.injection(mem, &pattern, vec![0x75u8], InjectAt::StartOffset(4)) {
            Ok(inj) => inj,
            Err(e) => {
                proof {
                    // the one-byte patch lies inside the six-byte match, so
                    // only a scan failure can reach here, and either scan
                    // failure rules a unique match out
                    if dev_mode_buildable(old(mem)@) {
                        let pos = choose|pos: int|
                            (#[trigger] pattern_matches_at(old(mem)@, dev_mode_pattern(), pos))
                                && (forall|q: int|
                                pattern_matches_at(old(mem)@, dev_mode_pattern(), q) ==> q == pos);
                        assert(false);
                    }
                }
                return Err(e);
            },
        };
        let toggle = ToggleBuilder::new(
            String::from_str("Dev Mode (reload main menu)"),
            Defaults::new(false, false),
        ).tooltip(
            String::from_str(
                "Enables developer tools on the main menu.\nOpen a save then quit to menu to reload.",
            ),
        ).config_key(String::from_str("dev_mode")).injection(inject, false);
        let ghost tb = toggle;
        match toggle.build(builder, mem) {
            Ok(()) => {},
            Err(e) => {
                proof {
                    // off by default: no patch has to change state, so the
                    // build cannot fail
                    let injs = tb.toggle.injections@;
                    let rl = old(mem)@.len() as int;
                    if !toggle_can_apply(injs, false, rl) {
                        let j = choose|j: int|
                            0 <= j < injs.len() && ((false != injs[j].1)
                                != injs[j].0.is_applied()) && !injs[j].0.in_bounds(rl);
                        assert(j == 0);
                        assert(false);
                    }
                }
                return Err(e);
            },
        }
        proof {
            // driving the fresh, off-by-default patch to "off" writes nothing
            let injs = tb.toggle.injections@;
            assert(injs.len() == 1);
            assert(injs[0].1 == false && !injs[0].0.is_applied());
            assert(injection_toggle_writes(injs[0].0, false != injs[0].1) =~= Seq::<
                (int, Seq<u8>),
            >::empty());
            assert(toggle_writes_prefix(injs, false, 1) =~= toggle_writes_prefix(injs, false, 0)
                + injection_toggle_writes(injs[0].0, false != injs[0].1));
            assert(toggle_writes_prefix(injs, false, 1) =~= Seq::<(int, Seq<u8>)>::empty());
        }
        Ok(DevModeTweak)
    }
}

} // verus!
