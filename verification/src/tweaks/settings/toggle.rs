//! The boolean setting behaviour: a toggle drives each bound patch and
//! detour to the state implied by its value and the effect's invert flag.

use vstd::prelude::*;
use crate::injections::Injection;
use crate::memory::{
    MemoryRegion, PermissionError, lemma_write_all_concat, lemma_write_all_singleton, write_all,
};
use crate::tweaks::{Defaults, Detour, TweakBuilder, TweakError};
use crate::tweaks::settings::{
    Setting, SettingKind, SettingValue, setting_applied_state, setting_can_apply, setting_writes,
};

verus! {

/// A toggle: a named boolean behaviour bound to patches and detours, each
/// with an invert flag. Driving the toggle to `v` applies every effect
/// whose flag differs from `!v` and removes the rest.
pub struct Toggle {
    /// The display label of the control.
    pub label: String,
    /// Explanatory text shown next to the control.
    pub tooltip: String,
    /// Bound patches, each with its invert flag.
    pub injections: Vec<(Injection, bool)>,
    /// Bound detours, each with its invert flag.
    pub detours: Vec<(Detour, bool)>,
    /// Names of registered change listeners. After each successful `set`
    /// the caller dispatches one notification per name, carrying the
    /// committed value; the dispatch itself is the platform layer's work.
    pub listeners: Vec<String>,
}

/// Every bound patch is well-formed.
pub open spec fn toggle_wf(injections: Seq<(Injection, bool)>) -> bool {
    forall|j: int| 0 <= j < injections.len() ==> (#[trigger] injections[j]).0.wf()
}

/// The write that drives one patch to applied state `target`: its
/// replacement bytes when it must be applied, its original bytes when it
/// must be removed, nothing when it is already in the target state.
pub open spec fn injection_toggle_writes(inj: Injection, target: bool) -> Seq<(int, Seq<u8>)> {
    if target && !inj.is_applied() {
        seq![(inj.entry_point as int, inj.replacement_bytes())]
    } else if !target && inj.is_applied() {
        seq![(inj.entry_point as int, inj.original_bytes())]
    } else {
        Seq::empty()
    }
}

/// The writes of driving the first `k` bound patches to the states implied
/// by `value`, in order.
pub open spec fn toggle_writes_prefix(
    injections: Seq<(Injection, bool)>,
    value: bool,
    k: int,
) -> Seq<(int, Seq<u8>)>
    decreases k,
{
    if k <= 0 {
        Seq::empty()
    } else {
        toggle_writes_prefix(injections, value, k - 1) + injection_toggle_writes(
            injections[k - 1].0,
            value != injections[k - 1].1,
        )
    }
}

/// The writes of driving all bound patches to the states implied by
/// `value`.
pub open spec fn toggle_writes(injections: Seq<(Injection, bool)>, value: bool) -> Seq<
    (int, Seq<u8>),
> {
    toggle_writes_prefix(injections, value, injections.len() as int)
}

/// Can every patch that must change state be written inside a region of
/// `region_len` bytes?
pub open spec fn toggle_can_apply(
    injections: Seq<(Injection, bool)>,
    value: bool,
    region_len: int,
) -> bool {
    forall|j: int|
        0 <= j < injections.len() && ((value != (#[trigger] injections[j]).1)
            != injections[j].0.is_applied()) ==> injections[j].0.in_bounds(region_len)
}

/// The bound patches after a toggle transition: same patches, same invert
/// flags, each applied exactly when `value` differs from its invert flag.
pub open spec fn toggle_applied_state(
    prev: Seq<(Injection, bool)>,
    next: Seq<(Injection, bool)>,
    value: bool,
) -> bool {
    &&& next.len() == prev.len()
    &&& forall|j: int|
        0 <= j < prev.len() ==> {
            &&& (#[trigger] next[j]).1 == prev[j].1
            &&& next[j].0.entry_point == prev[j].0.entry_point
            &&& next[j].0.replacement_bytes() == prev[j].0.replacement_bytes()
            &&& next[j].0.is_applied() == (value != prev[j].1)
            &&& next[j].0.wf()
        }
}

/// The stored original bytes after a toggle transition: a patch that was
/// freshly applied holds exactly the bytes it displaced — the target span
/// of the region as it stood when that patch's turn came — and every other
/// patch keeps its stored originals.
pub open spec fn toggle_originals(
    prev: Seq<(Injection, bool)>,
    next: Seq<(Injection, bool)>,
    value: bool,
    mem0: Seq<u8>,
) -> bool {
    forall|j: int|
        0 <= j < prev.len() ==> (#[trigger] next[j]).0.original_bytes() == if (value
            != prev[j].1) && !prev[j].0.is_applied() {
            write_all(mem0, toggle_writes_prefix(prev, value, j)).subrange(
                prev[j].0.entry_point as int,
                prev[j].0.end(),
            )
        } else {
            prev[j].0.original_bytes()
        }
}

/// The bound detours after a toggle transition: same interceptions, each
/// enabled exactly when `value` differs from its invert flag.
pub open spec fn toggle_detour_state(
    prev: Seq<(Detour, bool)>,
    next: Seq<(Detour, bool)>,
    value: bool,
) -> bool {
    &&& next.len() == prev.len()
    &&& forall|j: int|
        0 <= j < prev.len() ==> {
            &&& (#[trigger] next[j]).1 == prev[j].1
            &&& next[j].0.target_address == prev[j].0.target_address
            &&& next[j].0.hook_address == prev[j].0.hook_address
            &&& next[j].0.enabled == (value != prev[j].1)
        }
}

impl Toggle {
    /// Drive every bound effect to the state implied by `value`. The
    /// transition is transactional: if any patch that must change state
    /// does not fit the region, nothing is touched and the failing span is
    /// reported.
    pub fn set(&mut self, value: bool, mem: &mut MemoryRegion) -> (r: Result<
        (),
        PermissionError,
    >)
        requires
            toggle_wf(old(self).injections@),
        ensures
            final(mem)@.len() == old(mem)@.len(),
            final(self).label == old(self).label,
            final(self).tooltip == old(self).tooltip,
            final(self).listeners == old(self).listeners,
            toggle_wf(final(self).injections@),
            match r {
                Ok(()) => {
                    &&& toggle_can_apply(old(self).injections@, value, old(mem)@.len() as int)
                    &&& toggle_applied_state(old(self).injections@, final(self).injections@, value)
                    &&& toggle_originals(
                        old(self).injections@,
                        final(self).injections@,
                        value,
                        old(mem)@,
                    )
                    &&& toggle_detour_state(old(self).detours@, final(self).detours@, value)
                    &&& final(mem)@ == write_all(
                        old(mem)@,
                        toggle_writes(old(self).injections@, value),
                    )
                },
                Err(_) => {
                    &&& !toggle_can_apply(old(self).injections@, value, old(mem)@.len() as int)
                    &&& *final(self) == *old(self)
                    &&& final(mem)@ == old(mem)@
                },
            },
    {
        let n = self.injections.len();
        // transactional pre-check: find any patch that must change state
        // but cannot be written, before touching anything
        let mut j: usize = 0;
        while j < n
            invariant
                n == self.injections@.len(),
                j <= n,
                *self == *old(self),
                toggle_wf(self.injections@),
                forall|k: int|
                    0 <= k < j && ((value != (#[trigger] self.injections@[k]).1)
                        != self.injections@[k].0.is_applied())
                        ==> self.injections@[k].0.in_bounds(mem@.len() as int),
            decreases n - j,
        {
            let needs_change = (value != self.injections[j].1) != self.injections[j].0.applied();
            if needs_change && !self.injections[j].0.fits(mem) {
                let address = self.injections[j].0.entry_point;
                let len = self.injections[j].0.len();
                return Err(PermissionError { address, len });
            }
            j += 1;
        }
        // drive the patches; no write can fail now
        let ghost prev_injections = self.injections@;
        let ghost mem0 = mem@;
        let mut i: usize = 0;
        while i < n
            invariant
                n == prev_injections.len(),
                n == self.injections@.len(),
                i <= n,
                toggle_wf(prev_injections),
                toggle_can_apply(prev_injections, value, mem0.len() as int),
                self.label == old(self).label,
                self.tooltip == old(self).tooltip,
                self.listeners == old(self).listeners,
                self.detours == old(self).detours,
                mem@.len() == mem0.len(),
                forall|k: int| i <= k < n ==> self.injections@[k] == prev_injections[k],
                forall|k: int|
                    0 <= k < i ==> {
                        &&& (#[trigger] self.injections@[k]).1 == prev_injections[k].1
                        &&& self.injections@[k].0.entry_point == prev_injections[k].0.entry_point
                        &&& self.injections@[k].0.replacement_bytes()
                            == prev_injections[k].0.replacement_bytes()
                        &&& self.injections@[k].0.is_applied() == (value != prev_injections[k].1)
                        &&& self.injections@[k].0.wf()
                        &&& self.injections@[k].0.original_bytes() == if (value
                            != prev_injections[k].1) && !prev_injections[k].0.is_applied() {
                            write_all(
                                mem0,
                                toggle_writes_prefix(prev_injections, value, k),
                            ).subrange(
                                prev_injections[k].0.entry_point as int,
                                prev_injections[k].0.end(),
                            )
                        } else {
                            prev_injections[k].0.original_bytes()
                        }
                    },
                mem@ == write_all(mem0, toggle_writes_prefix(prev_injections, value, i as int)),
            decreases n - i,
        {
            let ghost mem_before = mem@;
            let ghost pre_view = self.injections@;
            proof {
                assert(self.injections@[i as int] == prev_injections[i as int]);
                assert(prev_injections[i as int].0.wf());
                if (value != prev_injections[i as int].1) != prev_injections[i as int].0.is_applied() {
                    assert(prev_injections[i as int].0.in_bounds(mem0.len() as int));
                }
            }
            let (mut inj, invert) = self.injections.remove(i);
            let target = value != invert;
            if target {
                match inj.inject(mem) {
                    Ok(()) => {},
                    Err(_) => {
                        proof {
                            assert(false);
                        }
                    },
                }
            } else {
                match inj.remove_injection(mem) {
                    Ok(()) => {},
                    Err(_) => {
                        proof {
                            assert(false);
                        }
                    },
                }
            }
            self.injections.insert(i, (inj, invert));
            proof {
                assert(self.injections@ =~= pre_view.update(i as int, (inj, invert)));
                let itw = injection_toggle_writes(prev_injections[i as int].0, target);
                assert(toggle_writes_prefix(prev_injections, value, i + 1)
                    =~= toggle_writes_prefix(prev_injections, value, i as int) + itw);
                lemma_write_all_concat(
                    mem0,
                    toggle_writes_prefix(prev_injections, value, i as int),
                    itw,
                );
                if itw.len() > 0 {
                    lemma_write_all_singleton(mem_before, itw[0]);
                }
                assert(mem@ == write_all(mem0, toggle_writes_prefix(prev_injections, value, i + 1)));
            }
            i += 1;
        }
        // drive the detours; these toggle only the redirection and never fail
        let ghost prev_detours = self.detours@;
        let ghost injections_done = self.injections@;
        let ghost mem_done = mem@;
        let dn = self.detours.len();
        let mut d: usize = 0;
        while d < dn
            invariant
                dn == prev_detours.len(),
                dn == self.detours@.len(),
                d <= dn,
                self.label == old(self).label,
                self.tooltip == old(self).tooltip,
                self.listeners == old(self).listeners,
                self.injections@ == injections_done,
                mem@ == mem_done,
                toggle_applied_state(prev_injections, injections_done, value),
                toggle_originals(prev_injections, injections_done, value, mem0),
                toggle_wf(injections_done),
                mem_done == write_all(mem0, toggle_writes(prev_injections, value)),
                forall|k: int| d <= k < dn ==> self.detours@[k] == prev_detours[k],
                forall|k: int|
                    0 <= k < d ==> {
                        &&& (#[trigger] self.detours@[k]).1 == prev_detours[k].1
                        &&& self.detours@[k].0.target_address == prev_detours[k].0.target_address
                        &&& self.detours@[k].0.hook_address == prev_detours[k].0.hook_address
                        &&& self.detours@[k].0.enabled == (value != prev_detours[k].1)
                    },
            decreases dn - d,
        {
            let (mut det, invert) = self.detours.remove(d);
            if value != invert {
                let _ = det.enable();
            } else {
                let _ = det.disable();
            }
            self.detours.insert(d, (det, invert));
            d += 1;
        }
        Ok(())
    }

    /// Remove every bound patch and disable every bound detour, whatever
    /// the invert flags say: the teardown path. Safe to call when some
    /// effects were never applied. Transactional like `set`.
    pub fn disable_all(&mut self, mem: &mut MemoryRegion) -> (r: Result<(), PermissionError>)
        requires
            toggle_wf(old(self).injections@),
        ensures
            final(mem)@.len() == old(mem)@.len(),
            final(self).label == old(self).label,
            final(self).tooltip == old(self).tooltip,
            final(self).listeners == old(self).listeners,
            toggle_wf(final(self).injections@),
            match r {
                Ok(()) => {
                    &&& forall|j: int|
                        0 <= j < old(self).injections@.len() && (#[trigger] old(
                            self,
                        ).injections@[j]).0.is_applied() ==> old(self).injections@[j].0.in_bounds(
                            old(mem)@.len() as int,
                        )
                    &&& toggle_remove_state(old(self).injections@, final(self).injections@)
                    &&& forall|j: int|
                        0 <= j < final(self).detours@.len() ==> {
                            &&& !(#[trigger] final(self).detours@[j]).0.enabled
                            &&& final(self).detours@[j].1 == old(self).detours@[j].1
                            &&& final(self).detours@[j].0.target_address == old(self).detours@[j].0.target_address
                            &&& final(self).detours@[j].0.hook_address == old(self).detours@[j].0.hook_address
                        }
                    &&& final(self).detours@.len() == old(self).detours@.len()
                    &&& final(mem)@ == write_all(
                        old(mem)@,
                        toggle_remove_writes(old(self).injections@),
                    )
                },
                Err(_) => {
                    &&& exists|j: int|
                        0 <= j < old(self).injections@.len() && (#[trigger] old(self).injections@[j]).0.is_applied() && !old(self).injections@[j].0.in_bounds(
                            old(mem)@.len() as int,
                        )
                    &&& *final(self) == *old(self)
                    &&& final(mem)@ == old(mem)@
                },
            },
    {
        let n = self.injections.len();
        let mut j: usize = 0;
        while j < n
            invariant
                n == self.injections@.len(),
                j <= n,
                *self == *old(self),
                toggle_wf(self.injections@),
                forall|k: int|
                    0 <= k < j && (#[trigger] self.injections@[k]).0.is_applied()
                        ==> self.injections@[k].0.in_bounds(mem@.len() as int),
            decreases n - j,
        {
            if self.injections[j].0.applied() && !self.injections[j].0.fits(mem) {
                let address = self.injections[j].0.entry_point;
                let len = self.injections[j].0.len();
                return Err(PermissionError { address, len });
            }
            j += 1;
        }
        let ghost prev_injections = self.injections@;
        let ghost mem0 = mem@;
        let mut i: usize = 0;
        while i < n
            invariant
                n == prev_injections.len(),
                n == self.injections@.len(),
                i <= n,
                toggle_wf(prev_injections),
                forall|k: int|
                    0 <= k < n && (#[trigger] prev_injections[k]).0.is_applied()
                        ==> prev_injections[k].0.in_bounds(mem0.len() as int),
                self.label == old(self).label,
                self.tooltip == old(self).tooltip,
                self.listeners == old(self).listeners,
                self.detours == old(self).detours,
                mem@.len() == mem0.len(),
                forall|k: int| i <= k < n ==> self.injections@[k] == prev_injections[k],
                forall|k: int|
                    0 <= k < i ==> {
                        &&& (#[trigger] self.injections@[k]).1 == prev_injections[k].1
                        &&& self.injections@[k].0.entry_point == prev_injections[k].0.entry_point
                        &&& self.injections@[k].0.replacement_bytes()
                            == prev_injections[k].0.replacement_bytes()
                        &&& self.injections@[k].0.original_bytes()
                            == prev_injections[k].0.original_bytes()
                        &&& !self.injections@[k].0.is_applied()
                        &&& self.injections@[k].0.wf()
                    },
                mem@ == write_all(mem0, toggle_remove_writes_prefix(prev_injections, i as int)),
            decreases n - i,
        {
            let ghost mem_before = mem@;
            let ghost pre_view = self.injections@;
            proof {
                assert(self.injections@[i as int] == prev_injections[i as int]);
                assert(prev_injections[i as int].0.wf());
                if prev_injections[i as int].0.is_applied() {
                    assert(prev_injections[i as int].0.in_bounds(mem0.len() as int));
                }
            }
            let (mut inj, invert) = self.injections.remove(i);
            match inj.remove_injection(mem) {
                Ok(()) => {},
                Err(_) => {
                    proof {
                        assert(false);
                    }
                },
            }
            self.injections.insert(i, (inj, invert));
            proof {
                assert(self.injections@ =~= pre_view.update(i as int, (inj, invert)));
                let itw = injection_remove_writes(prev_injections[i as int].0);
                assert(toggle_remove_writes_prefix(prev_injections, i + 1)
                    =~= toggle_remove_writes_prefix(prev_injections, i as int) + itw);
                lemma_write_all_concat(
                    mem0,
                    toggle_remove_writes_prefix(prev_injections, i as int),
                    itw,
                );
                if itw.len() > 0 {
                    lemma_write_all_singleton(mem_before, itw[0]);
                }
            }
            i += 1;
        }
        let ghost prev_detours = self.detours@;
        let ghost injections_done = self.injections@;
        let ghost mem_done = mem@;
        let dn = self.detours.len();
        let mut d: usize = 0;
        while d < dn
            invariant
                dn == prev_detours.len(),
                dn == self.detours@.len(),
                d <= dn,
                self.label == old(self).label,
                self.tooltip == old(self).tooltip,
                self.listeners == old(self).listeners,
                self.injections@ == injections_done,
                mem@ == mem_done,
                toggle_remove_state(prev_injections, injections_done),
                toggle_wf(injections_done),
                mem_done == write_all(mem0, toggle_remove_writes(prev_injections)),
                forall|k: int| d <= k < dn ==> self.detours@[k] == prev_detours[k],
                forall|k: int|
                    0 <= k < d ==> {
                        &&& !(#[trigger] self.detours@[k]).0.enabled
                        &&& self.detours@[k].1 == prev_detours[k].1
                        &&& self.detours@[k].0.target_address == prev_detours[k].0.target_address
                        &&& self.detours@[k].0.hook_address == prev_detours[k].0.hook_address
                    },
            decreases dn - d,
        {
            let (mut det, invert) = self.detours.remove(d);
            let _ = det.disable();
            self.detours.insert(d, (det, invert));
            d += 1;
        }
        Ok(())
    }
}

/// Assembles a toggle setting: label, baselines, optional config key, and
/// the bound effects, then registers the finished setting with a tweak
/// builder.
pub struct ToggleBuilder {
    /// The two baseline values of the toggle.
    pub defaults: Defaults<bool>,
    /// The key the setting persists under, if any.
    pub config_key: Option<String>,
    /// The toggle being assembled.
    pub toggle: Toggle,
}

/// The setting a toggle builder registers.
pub open spec fn toggle_built_setting(b: ToggleBuilder) -> Setting {
    Setting {
        value: SettingValue::Bool(b.defaults.default),
        defaults: Defaults {
            default: SettingValue::Bool(b.defaults.default),
            vanilla: SettingValue::Bool(b.defaults.vanilla),
        },
        config_key: b.config_key,
        inner: SettingKind::Toggle(b.toggle),
    }
}

impl ToggleBuilder {
    /// Start a toggle with its label and baselines; no effects yet.
    pub fn new(label: String, defaults: Defaults<bool>) -> (r: ToggleBuilder)
        ensures
            r.defaults == defaults,
            r.config_key is None,
            r.toggle.label == label,
            r.toggle.tooltip@.len() == 0,
            r.toggle.injections@.len() == 0,
            r.toggle.detours@.len() == 0,
            r.toggle.listeners@.len() == 0,
    {
        ToggleBuilder {
            defaults,
            config_key: None,
            toggle: Toggle {
                label,
                tooltip: String::new(),
                injections: Vec::new(),
                detours: Vec::new(),
                listeners: Vec::new(),
            },
        }
    }

    /// Attach explanatory text.
    pub fn tooltip(self, tooltip: String) -> (r: ToggleBuilder)
        ensures
            r.toggle.tooltip == tooltip,
            r.toggle.label == self.toggle.label,
            r.toggle.injections == self.toggle.injections,
            r.toggle.detours == self.toggle.detours,
            r.defaults == self.defaults,
            r.config_key == self.config_key,
    {
        let mut b = self;
        b.toggle.tooltip = tooltip;
        b
    }

    /// Persist the setting under `config_key`.
    pub fn config_key(self, config_key: String) -> (r: ToggleBuilder)
        ensures
            r.config_key == Some(config_key),
            r.toggle == self.toggle,
            r.defaults == self.defaults,
    {
        let mut b = self;
        b.config_key = Some(config_key);
        b
    }

    /// Bind a patch; with `invert` set, the patch is applied when the
    /// toggle is off rather than on.
    pub fn injection(self, injection: Injection, invert: bool) -> (r: ToggleBuilder)
        ensures
            r.toggle.injections@ == self.toggle.injections@.push((injection, invert)),
            r.toggle.label == self.toggle.label,
            r.toggle.tooltip == self.toggle.tooltip,
            r.toggle.detours == self.toggle.detours,
            r.defaults == self.defaults,
            r.config_key == self.config_key,
    {
        let mut b = self;
        b.toggle.injections.push((injection, invert));
        b
    }

    /// Bind a detour; with `invert` set, the detour is enabled when the
    /// toggle is off rather than on.
    pub fn detour(self, detour: Detour, invert: bool) -> (r: ToggleBuilder)
        ensures
            r.toggle.detours@ == self.toggle.detours@.push((detour, invert)),
            r.toggle.label == self.toggle.label,
            r.toggle.tooltip == self.toggle.tooltip,
            r.toggle.injections == self.toggle.injections,
            r.defaults == self.defaults,
            r.config_key == self.config_key,
    {
        let mut b = self;
        b.toggle.detours.push((detour, invert));
        b
    }

    /// Register a named change listener: after each successful value
    /// change the caller dispatches one notification under this name with
    /// the committed value.
    pub fn on_value_changed(self, listener: String) -> (r: ToggleBuilder)
        ensures
            r.toggle.listeners@ == self.toggle.listeners@.push(listener),
            r.toggle.label == self.toggle.label,
            r.toggle.tooltip == self.toggle.tooltip,
            r.toggle.injections == self.toggle.injections,
            r.toggle.detours == self.toggle.detours,
            r.defaults == self.defaults,
            r.config_key == self.config_key,
    {
        let mut b = self;
        b.toggle.listeners.push(listener);
        b
    }

    /// Register the finished setting: it is driven to its default value and
    /// kept by the tweak builder.
    pub fn build(self, builder: &mut TweakBuilder, mem: &mut MemoryRegion) -> (r: Result<
        (),
        TweakError,
    >)
        requires
            toggle_wf(self.toggle.injections@),
            crate::tweaks::settings_wf(old(builder).settings@),
        ensures
            final(mem)@.len() == old(mem)@.len(),
            final(builder).category == old(builder).category,
            crate::tweaks::settings_wf(final(builder).settings@),
            match r {
                Ok(()) => {
                    &&& final(builder).settings@.len() == old(builder).settings@.len() + 1
                    &&& forall|j: int|
                        0 <= j < old(builder).settings@.len() ==> final(builder).settings@[j]
                            == old(builder).settings@[j]
                    &&& setting_applied_state(
                        toggle_built_setting(self),
                        final(builder).settings@.last(),
                        SettingValue::Bool(self.defaults.default),
                    )
                    &&& final(mem)@ == write_all(
                        old(mem)@,
                        setting_writes(
                            toggle_built_setting(self),
                            SettingValue::Bool(self.defaults.default),
                        ),
                    )
                },
                Err(TweakError::Permission(_)) => {
                    &&& !setting_can_apply(
                        toggle_built_setting(self),
                        SettingValue::Bool(self.defaults.default),
                        old(mem)@.len() as int,
                    )
                    &&& *final(builder) == *old(builder)
                    &&& final(mem)@ == old(mem)@
                },
                Err(_) => false,
            },
    {
        let default = SettingValue::Bool(self.defaults.default);
        let vanilla = SettingValue::Bool(self.defaults.vanilla);
        let setting = Setting::new(
            SettingKind::Toggle(self.toggle),
            Defaults::new(default, vanilla),
            self.config_key,
        );
        builder.add_setting(setting, mem)
    }
}

/// The write that removes one patch: its original bytes if applied,
/// nothing otherwise.
pub open spec fn injection_remove_writes(inj: Injection) -> Seq<(int, Seq<u8>)> {
    if inj.is_applied() {
        seq![(inj.entry_point as int, inj.original_bytes())]
    } else {
        Seq::empty()
    }
}

/// The writes of removing the first `k` bound patches, in order.
pub open spec fn toggle_remove_writes_prefix(
    injections: Seq<(Injection, bool)>,
    k: int,
) -> Seq<(int, Seq<u8>)>
    decreases k,
{
    if k <= 0 {
        Seq::empty()
    } else {
        toggle_remove_writes_prefix(injections, k - 1) + injection_remove_writes(
            injections[k - 1].0,
        )
    }
}

/// The writes of removing all bound patches.
pub open spec fn toggle_remove_writes(injections: Seq<(Injection, bool)>) -> Seq<(int, Seq<u8>)> {
    toggle_remove_writes_prefix(injections, injections.len() as int)
}

/// The bound patches after removal: same patches with their stored
/// originals, none applied.
pub open spec fn toggle_remove_state(
    prev: Seq<(Injection, bool)>,
    next: Seq<(Injection, bool)>,
) -> bool {
    &&& next.len() == prev.len()
    &&& forall|j: int|
        0 <= j < prev.len() ==> {
            &&& (#[trigger] next[j]).1 == prev[j].1
            &&& next[j].0.entry_point == prev[j].0.entry_point
            &&& next[j].0.replacement_bytes() == prev[j].0.replacement_bytes()
            &&& next[j].0.original_bytes() == prev[j].0.original_bytes()
            &&& !next[j].0.is_applied()
            &&& next[j].0.wf()
        }
}

} // verus!
