//! The numeric setting behaviour: a slider pushes the little-endian
//! encoding of its value into every bound numeric patch and re-applies it,
//! so the live bytes reflect the value immediately.

use vstd::prelude::*;
use crate::injections::{NumberInjection, le_bytes};
use crate::memory::{
    MemoryRegion, PermissionError, lemma_write_all_concat, lemma_write_all_singleton, write_all,
};
use crate::tweaks::{Defaults, TweakBuilder, TweakError};
use crate::tweaks::settings::{
    Setting, SettingKind, SettingValue, setting_applied_state, setting_can_apply, setting_writes,
};

verus! {

/// A slider: a named numeric behaviour bound to numeric patches, with an
/// allowed range for display and persistence.
pub struct Slider {
    /// The display label of the control.
    pub label: String,
    /// Explanatory text shown next to the control.
    pub tooltip: String,
    /// Smallest allowed value.
    pub min: i64,
    /// Largest allowed value.
    pub max: i64,
    /// Bound numeric patches.
    pub injections: Vec<NumberInjection>,
}

/// Every bound numeric patch is well-formed.
pub open spec fn slider_injections_wf(injections: Seq<NumberInjection>) -> bool {
    forall|j: int| 0 <= j < injections.len() ==> (#[trigger] injections[j]).wf()
}

/// The writes of pushing `value` into the first `k` bound patches, in
/// order: each patch receives the encoding at its own width.
pub open spec fn slider_writes_prefix(
    injections: Seq<NumberInjection>,
    value: u64,
    k: int,
) -> Seq<(int, Seq<u8>)>
    decreases k,
{
    if k <= 0 {
        Seq::empty()
    } else {
        slider_writes_prefix(injections, value, k - 1) + seq![
            (
                injections[k - 1].patch().entry_point as int,
                le_bytes(value, injections[k - 1].width()),
            ),
        ]
    }
}

/// The writes of pushing `value` into all bound patches.
pub open spec fn slider_writes(injections: Seq<NumberInjection>, value: u64) -> Seq<
    (int, Seq<u8>),
> {
    slider_writes_prefix(injections, value, injections.len() as int)
}

/// Does every bound patch span lie inside a region of `region_len` bytes?
pub open spec fn slider_can_apply(injections: Seq<NumberInjection>, region_len: int) -> bool {
    forall|j: int|
        0 <= j < injections.len() ==> (#[trigger] injections[j]).patch().in_bounds(region_len)
}

/// The stored original bytes after a slider transition: a patch that was
/// freshly applied holds exactly the bytes it displaced — the target span
/// of the region as it stood when that patch's turn came — and a patch
/// that was already applied keeps its stored originals.
pub open spec fn slider_originals(
    prev: Seq<NumberInjection>,
    next: Seq<NumberInjection>,
    value: u64,
    mem0: Seq<u8>,
) -> bool {
    forall|j: int|
        0 <= j < prev.len() ==> (#[trigger] next[j]).patch().original_bytes() == if prev[j].patch().is_applied() {
            prev[j].patch().original_bytes()
        } else {
            write_all(mem0, slider_writes_prefix(prev, value, j)).subrange(
                prev[j].patch().entry_point as int,
                prev[j].patch().end(),
            )
        }
}

/// The bound patches after a slider transition: same spans and widths, each
/// applied and holding the encoding of `value`.
pub open spec fn slider_applied_state(
    prev: Seq<NumberInjection>,
    next: Seq<NumberInjection>,
    value: u64,
) -> bool {
    &&& next.len() == prev.len()
    &&& forall|j: int|
        0 <= j < prev.len() ==> {
            &&& (#[trigger] next[j]).patch().entry_point == prev[j].patch().entry_point
            &&& next[j].width() == prev[j].width()
            &&& next[j].patch().is_applied()
            &&& next[j].patch().replacement_bytes() == le_bytes(value, prev[j].width())
            &&& next[j].wf()
        }
}

impl Slider {
    /// Push `value` into every bound patch and (re-)apply it. The
    /// transition is transactional: if any patch span does not fit the
    /// region, nothing is touched and the failing span is reported.
    pub fn set(&mut self, value: u64, mem: &mut MemoryRegion) -> (r: Result<
        (),
        PermissionError,
    >)
        requires
            slider_injections_wf(old(self).injections@),
        ensures
            final(mem)@.len() == old(mem)@.len(),
            final(self).label == old(self).label,
            final(self).tooltip == old(self).tooltip,
            final(self).min == old(self).min,
            final(self).max == old(self).max,
            slider_injections_wf(final(self).injections@),
            match r {
                Ok(()) => {
                    &&& slider_can_apply(old(self).injections@, old(mem)@.len() as int)
                    &&& slider_applied_state(old(self).injections@, final(self).injections@, value)
                    &&& slider_originals(
                        old(self).injections@,
                        final(self).injections@,
                        value,
                        old(mem)@,
                    )
                    &&& final(mem)@ == write_all(
                        old(mem)@,
                        slider_writes(old(self).injections@, value),
                    )
                },
                Err(_) => {
                    &&& !slider_can_apply(old(self).injections@, old(mem)@.len() as int)
                    &&& *final(self) == *old(self)
                    &&& final(mem)@ == old(mem)@
                },
            },
    {
        let n = self.injections.len();
        // transactional pre-check: every span must fit before anything is
        // written
        let mut j: usize = 0;
        while j < n
            invariant
                n == self.injections@.len(),
                j <= n,
                *self == *old(self),
                slider_injections_wf(self.injections@),
                forall|k: int|
                    0 <= k < j ==> (#[trigger] self.injections@[k]).patch().in_bounds(
                        mem@.len() as int,
                    ),
            decreases n - j,
        {
            if !self.injections[j].fits(mem) {
                let address = self.injections[j].injection.entry_point;
                let len = self.injections[j].injection.replacement.len();
                return Err(PermissionError { address, len });
            }
            j += 1;
        }
        // push the encoding into each patch; no write can fail now
        let ghost prev_injections = self.injections@;
        let ghost mem0 = mem@;
        let mut i: usize = 0;
        while i < n
            invariant
                n == prev_injections.len(),
                n == self.injections@.len(),
                i <= n,
                slider_injections_wf(prev_injections),
                slider_can_apply(prev_injections, mem0.len() as int),
                self.label == old(self).label,
                self.tooltip == old(self).tooltip,
                self.min == old(self).min,
                self.max == old(self).max,
                mem@.len() == mem0.len(),
                forall|k: int| i <= k < n ==> self.injections@[k] == prev_injections[k],
                forall|k: int|
                    0 <= k < i ==> {
                        &&& (#[trigger] self.injections@[k]).patch().entry_point
                            == prev_injections[k].patch().entry_point
                        &&& self.injections@[k].width() == prev_injections[k].width()
                        &&& self.injections@[k].patch().is_applied()
                        &&& self.injections@[k].patch().replacement_bytes() == le_bytes(
                            value,
                            prev_injections[k].width(),
                        )
                        &&& self.injections@[k].patch().original_bytes()
                            == if prev_injections[k].patch().is_applied() {
                            prev_injections[k].patch().original_bytes()
                        } else {
                            write_all(
                                mem0,
                                slider_writes_prefix(prev_injections, value, k),
                            ).subrange(
                                prev_injections[k].patch().entry_point as int,
                                prev_injections[k].patch().end(),
                            )
                        }
                        &&& self.injections@[k].wf()
                    },
                mem@ == write_all(mem0, slider_writes_prefix(prev_injections, value, i as int)),
            decreases n - i,
        {
            let ghost mem_before = mem@;
            let ghost pre_view = self.injections@;
            proof {
                assert(self.injections@[i as int] == prev_injections[i as int]);
                assert(prev_injections[i as int].wf());
                assert(prev_injections[i as int].patch().in_bounds(mem0.len() as int));
            }
            let mut inj = self.injections.remove(i);
            match inj.inject(value, mem) {
                Ok(()) => {},
                Err(_) => {
                    proof {
                        assert(false);
                    }
                },
            }
            self.injections.insert(i, inj);
            proof {
                assert(self.injections@ =~= pre_view.update(i as int, inj));
                assert(mem_before =~= write_all(
                    mem0,
                    slider_writes_prefix(prev_injections, value, i as int),
                ));
                assert(self.injections@[i as int].patch().original_bytes()
                    == if prev_injections[i as int].patch().is_applied() {
                    prev_injections[i as int].patch().original_bytes()
                } else {
                    mem_before.subrange(
                        prev_injections[i as int].patch().entry_point as int,
                        prev_injections[i as int].patch().end(),
                    )
                });
                let w = (
                    prev_injections[i as int].patch().entry_point as int,
                    le_bytes(value, prev_injections[i as int].width()),
                );
                assert(slider_writes_prefix(prev_injections, value, i + 1)
                    =~= slider_writes_prefix(prev_injections, value, i as int) + seq![w]);
                lemma_write_all_concat(
                    mem0,
                    slider_writes_prefix(prev_injections, value, i as int),
                    seq![w],
                );
                lemma_write_all_singleton(mem_before, w);
                assert(mem@ == write_all(mem0, slider_writes_prefix(prev_injections, value, i + 1)));
            }
            i += 1;
        }
        Ok(())
    }

    /// Remove every bound numeric patch: the teardown path. Safe to call
    /// when some patches were never applied. Transactional like `set`.
    pub fn remove_all(&mut self, mem: &mut MemoryRegion) -> (r: Result<(), PermissionError>)
        requires
            slider_injections_wf(old(self).injections@),
        ensures
            final(mem)@.len() == old(mem)@.len(),
            final(self).label == old(self).label,
            final(self).tooltip == old(self).tooltip,
            final(self).min == old(self).min,
            final(self).max == old(self).max,
            slider_injections_wf(final(self).injections@),
            match r {
                Ok(()) => {
                    &&& forall|j: int|
                        0 <= j < old(self).injections@.len() && (#[trigger] old(
                            self,
                        ).injections@[j]).patch().is_applied() ==> old(
                            self,
                        ).injections@[j].patch().in_bounds(old(mem)@.len() as int)
                    &&& slider_remove_state(old(self).injections@, final(self).injections@)
                    &&& final(mem)@ == write_all(
                        old(mem)@,
                        slider_remove_writes(old(self).injections@),
                    )
                },
                Err(_) => {
                    &&& exists|j: int|
                        0 <= j < old(self).injections@.len() && (#[trigger] old(self).injections@[j]).patch().is_applied()
                            && !old(self).injections@[j].patch().in_bounds(old(mem)@.len() as int)
                    &&& *final(self) == *old(self)
                    &&& final(mem)@ == old(mem)@
                },
            },
    {
        let n = self.injections.len();
        let mut j: usize = 0;
        while j < n
            invariant
                n == self.injections@.len(),
                j <= n,
                *self == *old(self),
                slider_injections_wf(self.injections@),
                forall|k: int|
                    0 <= k < j && (#[trigger] self.injections@[k]).patch().is_applied()
                        ==> self.injections@[k].patch().in_bounds(mem@.len() as int),
            decreases n - j,
        {
            if self.injections[j].injection.applied() && !self.injections[j].fits(mem) {
                let address = self.injections[j].injection.entry_point;
                let len = self.injections[j].injection.replacement.len();
                return Err(PermissionError { address, len });
            }
            j += 1;
        }
        let ghost prev_injections = self.injections@;
        let ghost mem0 = mem@;
        let mut i: usize = 0;
        while i < n
            invariant
                n == prev_injections.len(),
                n == self.injections@.len(),
                i <= n,
                slider_injections_wf(prev_injections),
                forall|k: int|
                    0 <= k < n && (#[trigger] prev_injections[k]).patch().is_applied()
                        ==> prev_injections[k].patch().in_bounds(mem0.len() as int),
                self.label == old(self).label,
                self.tooltip == old(self).tooltip,
                self.min == old(self).min,
                self.max == old(self).max,
                mem@.len() == mem0.len(),
                forall|k: int| i <= k < n ==> self.injections@[k] == prev_injections[k],
                forall|k: int|
                    0 <= k < i ==> {
                        &&& (#[trigger] self.injections@[k]).patch().entry_point
                            == prev_injections[k].patch().entry_point
                        &&& self.injections@[k].width() == prev_injections[k].width()
                        &&& self.injections@[k].patch().replacement_bytes()
                            == prev_injections[k].patch().replacement_bytes()
                        &&& self.injections@[k].patch().original_bytes()
                            == prev_injections[k].patch().original_bytes()
                        &&& !self.injections@[k].patch().is_applied()
                        &&& self.injections@[k].wf()
                    },
                mem@ == write_all(mem0, slider_remove_writes_prefix(prev_injections, i as int)),
            decreases n - i,
        {
            let ghost mem_before = mem@;
            let ghost pre_view = self.injections@;
            proof {
                assert(self.injections@[i as int] == prev_injections[i as int]);
                assert(prev_injections[i as int].wf());
                if prev_injections[i as int].patch().is_applied() {
                    assert(prev_injections[i as int].patch().in_bounds(mem0.len() as int));
                }
            }
            let mut inj = self.injections.remove(i);
            match inj.remove_injection(mem) {
                Ok(()) => {},
                Err(_) => {
                    proof {
                        assert(false);
                    }
                },
            }
            self.injections.insert(i, inj);
            proof {
                assert(self.injections@ =~= pre_view.update(i as int, inj));
                let itw = number_remove_writes(prev_injections[i as int]);
                assert(slider_remove_writes_prefix(prev_injections, i + 1)
                    =~= slider_remove_writes_prefix(prev_injections, i as int) + itw);
                lemma_write_all_concat(
                    mem0,
                    slider_remove_writes_prefix(prev_injections, i as int),
                    itw,
                );
                if itw.len() > 0 {
                    lemma_write_all_singleton(mem_before, itw[0]);
                }
            }
            i += 1;
        }
        Ok(())
    }
}

/// Assembles a slider setting: label, baselines, range, optional config
/// key, and the bound numeric patches, then registers the finished setting
/// with a tweak builder.
pub struct SliderBuilder {
    /// The two baseline values of the slider.
    pub defaults: Defaults<i64>,
    /// The key the setting persists under, if any.
    pub config_key: Option<String>,
    /// The slider being assembled.
    pub slider: Slider,
}

/// The setting a slider builder registers.
pub open spec fn slider_built_setting(b: SliderBuilder) -> Setting {
    Setting {
        value: SettingValue::Int(b.defaults.default),
        defaults: Defaults {
            default: SettingValue::Int(b.defaults.default),
            vanilla: SettingValue::Int(b.defaults.vanilla),
        },
        config_key: b.config_key,
        inner: SettingKind::Slider(b.slider),
    }
}

impl SliderBuilder {
    /// Start a slider with its label, baselines and range; no patches yet.
    pub fn new(label: String, defaults: Defaults<i64>, min: i64, max: i64) -> (r: SliderBuilder)
        ensures
            r.defaults == defaults,
            r.config_key is None,
            r.slider.label == label,
            r.slider.tooltip@.len() == 0,
            r.slider.min == min,
            r.slider.max == max,
            r.slider.injections@.len() == 0,
    {
        SliderBuilder {
            defaults,
            config_key: None,
            slider: Slider {
                label,
                tooltip: String::new(),
                min,
                max,
                injections: Vec::new(),
            },
        }
    }

    /// Attach explanatory text.
    pub fn tooltip(self, tooltip: String) -> (r: SliderBuilder)
        ensures
            r.slider.tooltip == tooltip,
            r.slider.label == self.slider.label,
            r.slider.min == self.slider.min,
            r.slider.max == self.slider.max,
            r.slider.injections == self.slider.injections,
            r.defaults == self.defaults,
            r.config_key == self.config_key,
    {
        let mut b = self;
        b.slider.tooltip = tooltip;
        b
    }

    /// Persist the setting under `config_key`.
    pub fn config_key(self, config_key: String) -> (r: SliderBuilder)
        ensures
            r.config_key == Some(config_key),
            r.slider == self.slider,
            r.defaults == self.defaults,
    {
        let mut b = self;
        b.config_key = Some(config_key);
        b
    }

    /// Bind a numeric patch that will hold the slider's encoded value.
    pub fn injection(self, injection: NumberInjection) -> (r: SliderBuilder)
        ensures
            r.slider.injections@ == self.slider.injections@.push(injection),
            r.slider.label == self.slider.label,
            r.slider.tooltip == self.slider.tooltip,
            r.slider.min == self.slider.min,
            r.slider.max == self.slider.max,
            r.defaults == self.defaults,
            r.config_key == self.config_key,
    {
        let mut b = self;
        b.slider.injections.push(injection);
        b
    }

    /// Register the finished setting: it is driven to its default value
    /// and kept by the tweak builder.
    pub fn build(self, builder: &mut TweakBuilder, mem: &mut MemoryRegion) -> (r: Result<
        (),
        TweakError,
    >)
        requires
            slider_injections_wf(self.slider.injections@),
            0 <= self.slider.min <= self.slider.max,
            self.slider.min <= self.defaults.default <= self.slider.max,
            self.slider.min <= self.defaults.vanilla <= self.slider.max,
            forall|j: int|
                0 <= j < self.slider.injections@.len() ==> self.slider.max
                    < crate::tweaks::settings::width_bound(
                    (#[trigger] self.slider.injections@[j]).width(),
                ),
            crate::tweaks::settings_wf(old(builder).settings@),
        ensures
            final(mem)@.len() == old(mem)@.len(),
            final(builder).category == old(builder).category,
            crate::tweaks::settings_wf(final(builder).settings@),
            match r {
                Ok(()) => {
                    &&& final(builder).settings@.len() == old(builder).settings@.len() + 1
                    &&& forall|j: int|
                        0 <= j < old(builder).settings@.len() ==> final(builder).settings@[j]
                            == old(builder).settings@[j]
                    &&& setting_applied_state(
                        slider_built_setting(self),
                        final(builder).settings@.last(),
                        SettingValue::Int(self.defaults.default),
                    )
                    &&& final(mem)@ == write_all(
                        old(mem)@,
                        setting_writes(
                            slider_built_setting(self),
                            SettingValue::Int(self.defaults.default),
                        ),
                    )
                },
                Err(TweakError::Permission(_)) => {
                    &&& !setting_can_apply(
                        slider_built_setting(self),
                        SettingValue::Int(self.defaults.default),
                        old(mem)@.len() as int,
                    )
                    &&& *final(builder) == *old(builder)
                    &&& final(mem)@ == old(mem)@
                },
                Err(_) => false,
            },
    {
        let default = SettingValue::Int(self.defaults.default);
        let vanilla = SettingValue::Int(self.defaults.vanilla);
        let setting = Setting::new(
            SettingKind::Slider(self.slider),
            Defaults::new(default, vanilla),
            self.config_key,
        );
        builder.add_setting(setting, mem)
    }
}

/// The write that removes one numeric patch: its original bytes if
/// applied, nothing otherwise.
pub open spec fn number_remove_writes(inj: NumberInjection) -> Seq<(int, Seq<u8>)> {
    if inj.patch().is_applied() {
        seq![(inj.patch().entry_point as int, inj.patch().original_bytes())]
    } else {
        Seq::empty()
    }
}

/// The writes of removing the first `k` bound numeric patches, in order.
pub open spec fn slider_remove_writes_prefix(injections: Seq<NumberInjection>, k: int) -> Seq<
    (int, Seq<u8>),
>
    decreases k,
{
    if k <= 0 {
        Seq::empty()
    } else {
        slider_remove_writes_prefix(injections, k - 1) + number_remove_writes(injections[k - 1])
    }
}

/// The writes of removing all bound numeric patches.
pub open spec fn slider_remove_writes(injections: Seq<NumberInjection>) -> Seq<(int, Seq<u8>)> {
    slider_remove_writes_prefix(injections, injections.len() as int)
}

/// The bound numeric patches after removal: same spans with their stored
/// originals, none applied.
pub open spec fn slider_remove_state(
    prev: Seq<NumberInjection>,
    next: Seq<NumberInjection>,
) -> bool {
    &&& next.len() == prev.len()
    &&& forall|j: int|
        0 <= j < prev.len() ==> {
            &&& (#[trigger] next[j]).patch().entry_point == prev[j].patch().entry_point
            &&& next[j].width() == prev[j].width()
            &&& next[j].patch().replacement_bytes() == prev[j].patch().replacement_bytes()
            &&& next[j].patch().original_bytes() == prev[j].patch().original_bytes()
            &&& !next[j].patch().is_applied()
            &&& next[j].wf()
        }
}

} // verus!
