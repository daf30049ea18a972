//! Removes the artificial delay in the map screen by patching the argument
//! of its sleep call.

use vstd::prelude::*;
use crate::injections::le_bytes;
use crate::memory::{
    MemoryPattern, MemoryRegion, lemma_write_all_singleton, pattern_matches_at, spec_write,
};
use crate::tweaks::settings::{SettingKind, SettingValue};
use crate::tweaks::settings::slider::{SliderBuilder, slider_can_apply, slider_writes_prefix};
use crate::tweaks::{Defaults, InjectAt, TweakBuilder, TweakConfig, TweakError, settings_wf};

verus! {

/// The signature of the sleep call on the map screen: loading the
/// millisecond argument, then calling through the import table.
pub open spec fn map_lag_pattern() -> Seq<Option<u8>> {
    seq![
        Some(0xB9u8),  // MOV param_1,0xa
        Some(0x0Au8),
        Some(0x00u8),
        Some(0x00u8),
        Some(0x00u8),
        Some(0xFFu8),  // CALL qword ptr [-> sleep]
        Some(0x15u8),
        None,
        None,
        None,
        None,
        Some(0x48u8),  // MOV (unimportant)
    ]
}

/// Does the region hold exactly one map-screen sleep site? The patched
/// byte lies inside the match, so a unique match is the whole success
/// condition.
pub open spec fn map_lag_buildable(mem: Seq<u8>) -> bool {
    crate::tweaks::unique_match(mem, map_lag_pattern())
}

/// Makes the artificial map-screen delay adjustable: a slider over the
/// single byte holding the sleep duration.
#[derive(Debug)]
pub struct MapLagTweak;

impl TweakConfig for MapLagTweak {
    open spec fn spec_config_id() -> Seq<char> {
        "map_lag_tweak"@
    }

    fn config_id() -> (r: &'static str) {
        "map_lag_tweak"
    }
}

impl MapLagTweak {
    /// Locate the sleep call and register the slider over its duration
    /// byte. The default of zero is written immediately.
    pub fn new(builder: &mut TweakBuilder, mem: &mut MemoryRegion) -> (r: Result<
        MapLagTweak,
        TweakError,
    >)
        requires
            settings_wf(old(builder).settings@),
        ensures
            settings_wf(final(builder).settings@),
            final(builder).category matches Some(c) && c@ == "Performance"@,
            r is Ok <==> map_lag_buildable(old(mem)@),
            match r {
                Ok(_) => {
                    &&& final(builder).settings@.len() == old(builder).settings@.len() + 1
                    &&& forall|j: int|
                        0 <= j < old(builder).settings@.len() ==> final(builder).settings@[j]
                            == old(builder).settings@[j]
                    &&& {
                        let s = final(builder).settings@.last();
                        &&& s.config_key is None
                        &&& s.value == SettingValue::Int(0)
                        &&& s.defaults.default == SettingValue::Int(0)
                        &&& s.defaults.vanilla == SettingValue::Int(10)
                        &&& s.inner matches SettingKind::Slider(sl) && {
                            &&& sl.min == 0
                            &&& sl.max == 20
                            &&& sl.injections@.len() == 1
                            &&& sl.injections@[0].width() == 1
                            &&& sl.injections@[0].patch().is_applied()
                            &&& sl.injections@[0].patch().replacement_bytes() == le_bytes(0, 1)
                            &&& exists|pos: int|
                                {
                                    &&& #[trigger] pattern_matches_at(
                                        old(mem)@,
                                        map_lag_pattern(),
                                        pos,
                                    )
                                    &&& (forall|q: int|
                                        pattern_matches_at(old(mem)@, map_lag_pattern(), q)
                                            ==> q == pos)
                                    &&& sl.injections@[0].patch().entry_point as int == pos + 1
                                    &&& final(mem)@ == spec_write(old(mem)@, pos + 1, le_bytes(0, 1))
                                }
                        }
                    }
                },
                Err(TweakError::Scan(e)) => {
                    &&& crate::tweaks::is_scan_single_result(
                        old(mem)@,
                        map_lag_pattern(),
                        Err::<usize, crate::tweaks::ScanAOBSingleError>(e),
                    )
                    &&& final(mem)@ == old(mem)@
                },
                Err(_) => false,
            },
    {
        builder.set_category(Some(String::from_str("Performance")));
        let pattern = MemoryPattern::new(
            vec![
                Some(0xB9u8),
                Some(0x0Au8),
                Some(0x00u8),
                Some(0x00u8),
                Some(0x00u8),
                Some(0xFFu8),
                Some(0x15u8),
                None,
                None,
                None,
                None,
                Some(0x48u8),
            ],
        );
        proof {
            assert(pattern@ =~= map_lag_pattern());
        }
        let sleep_injection = match builder.number_injection(
            mem,
            &pattern,
            InjectAt::StartOffset(1),
            1,
        ) {
            Ok(ni) => ni,
            Err(e) => {
                proof {
                    // the one-byte slot lies inside the twelve-byte match,
                    // so only a scan failure can reach here, and either
                    // scan failure rules a unique match out
                    if map_lag_buildable(old(mem)@) {
                        let pos = choose|pos: int|
                            (#[trigger] pattern_matches_at(old(mem)@, map_lag_pattern(), pos))
                                && (forall|q: int|
                                pattern_matches_at(old(mem)@, map_lag_pattern(), q) ==> q == pos);
                        assert(false);
                    }
                }
                return Err(e);
            },
        };
        let slider = SliderBuilder::new(
            String::from_str("Map Sleep (ms)"),
            Defaults::new(0, 10),
            0,
            20,
        ).tooltip(
            String::from_str("Change the artificial delay in the map screen rendering"),
        ).injection(sleep_injection);
        let ghost sb = slider;
        let ghost mem_at_build = mem@;
        match slider.build(builder, mem) {
            Ok(()) => {},
            Err(e) => {
                proof {
                    // the span was just resolved inside the region, so the
                    // build cannot fail
                    let injs = sb.slider.injections@;
                    let rl = old(mem)@.len() as int;
                    if !slider_can_apply(injs, rl) {
                        let j = choose|j: int|
                            0 <= j < injs.len() && !(#[trigger] injs[j]).patch().in_bounds(rl);
                        assert(j == 0);
                        assert(false);
                    }
                }
                return Err(e);
            },
        }
        proof {
            // the default value is pushed into the single bound patch
            let injs = sb.slider.injections@;
            let w = (injs[0].patch().entry_point as int, le_bytes(0, injs[0].width()));
            assert(slider_writes_prefix(injs, 0, 1) =~= slider_writes_prefix(injs, 0, 0) + seq![
                w,
            ]);
            assert(slider_writes_prefix(injs, 0, 1) =~= seq![w]);
            lemma_write_all_singleton(mem_at_build, w);
        }
        Ok(MapLagTweak)
    }
}

} // verus!
