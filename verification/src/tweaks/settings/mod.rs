//! Settings: user-facing, persistable values. A setting owns one behaviour
//! — a boolean toggle or a numeric slider — and drives that behaviour's
//! bound effects whenever its value changes; a setting with a config key
//! round-trips its value through the configuration store.

use vstd::prelude::*;
use crate::config::{ConfigError, ConfigTable, ConfigValue};
use crate::memory::{MemoryRegion, PermissionError, write_all};
use crate::tweaks::{Defaults, TweakError};

pub mod slider;
pub mod toggle;

use slider::{
    Slider, slider_applied_state, slider_can_apply, slider_injections_wf, slider_originals,
    slider_remove_state, slider_remove_writes, slider_writes,
};
use toggle::{
    Toggle, toggle_applied_state, toggle_can_apply, toggle_detour_state, toggle_originals,
    toggle_remove_state, toggle_remove_writes, toggle_wf, toggle_writes,
};

verus! {

/// The current value of a setting: one scalar, of the shape its behaviour
/// expects.
#[derive(Clone, Copy, PartialEq, Eq, Structural, Debug)]
pub enum SettingValue {
    /// A toggle state.
    Bool(bool),
    /// A slider value.
    Int(i64),
}

/// The behaviour a setting drives.
pub enum SettingKind {
    /// A boolean toggle over patches and detours.
    Toggle(Toggle),
    /// A numeric slider over numeric patches.
    Slider(Slider),
}

/// Does `value` have the shape `kind` expects, and lie in its range?
pub open spec fn value_fits(kind: SettingKind, value: SettingValue) -> bool {
    match (kind, value) {
        (SettingKind::Toggle(_), SettingValue::Bool(_)) => true,
        (SettingKind::Slider(s), SettingValue::Int(x)) => s.min <= x <= s.max,
        _ => false,
    }
}

/// A user-facing, persistable value bound to one behaviour.
pub struct Setting {
    /// The current value; mutated only through `set`.
    pub value: SettingValue,
    /// The two baseline values.
    pub defaults: Defaults<SettingValue>,
    /// The key this setting persists under, if any.
    pub config_key: Option<String>,
    /// The behaviour driven by value changes.
    pub inner: SettingKind,
}

/// The smallest value that does not fit on `width` bytes.
pub open spec fn width_bound(width: nat) -> int {
    if width == 1 {
        0x100
    } else if width == 2 {
        0x1_0000
    } else if width == 3 {
        0x100_0000
    } else if width == 4 {
        0x1_0000_0000
    } else if width == 5 {
        0x100_0000_0000
    } else if width == 6 {
        0x1_0000_0000_0000
    } else if width == 7 {
        0x100_0000_0000_0000
    } else {
        0x1_0000_0000_0000_0000
    }
}

/// The setting's invariant: its behaviour's effects are well-formed, a
/// slider's range is sane and every value in it fits each bound patch's
/// width, and the current value and both baselines fit the behaviour.
pub open spec fn setting_wf(s: Setting) -> bool {
    &&& match s.inner {
        SettingKind::Toggle(t) => toggle_wf(t.injections@),
        SettingKind::Slider(sl) => {
            &&& slider_injections_wf(sl.injections@)
            &&& 0 <= sl.min <= sl.max
            &&& forall|j: int|
                0 <= j < sl.injections@.len() ==> sl.max < width_bound(
                    (#[trigger] sl.injections@[j]).width(),
                )
        },
    }
    &&& value_fits(s.inner, s.value)
    &&& value_fits(s.inner, s.defaults.default)
    &&& value_fits(s.inner, s.defaults.vanilla)
}

/// The writes driving the behaviour of `s` to `value` performs, in order.
pub open spec fn setting_writes(s: Setting, value: SettingValue) -> Seq<(int, Seq<u8>)> {
    match (s.inner, value) {
        (SettingKind::Toggle(t), SettingValue::Bool(b)) => toggle_writes(t.injections@, b),
        (SettingKind::Slider(sl), SettingValue::Int(x)) => slider_writes(
            sl.injections@,
            x as u64,
        ),
        _ => Seq::empty(),
    }
}

/// Can the behaviour of `s` be driven to `value` inside a region of
/// `region_len` bytes?
pub open spec fn setting_can_apply(s: Setting, value: SettingValue, region_len: int) -> bool {
    match (s.inner, value) {
        (SettingKind::Toggle(t), SettingValue::Bool(b)) => toggle_can_apply(
            t.injections@,
            b,
            region_len,
        ),
        (SettingKind::Slider(sl), SettingValue::Int(_)) => slider_can_apply(
            sl.injections@,
            region_len,
        ),
        _ => true,
    }
}

/// The setting after a successful `set(value)`: the committed value is
/// `value`, the identity (defaults, key, labels) is unchanged, and every
/// bound effect is in the state implied by `value` and its invert flag.
pub open spec fn setting_applied_state(prev: Setting, next: Setting, value: SettingValue) -> bool {
    &&& next.value == value
    &&& next.defaults == prev.defaults
    &&& next.config_key == prev.config_key
    &&& match (prev.inner, next.inner, value) {
        (SettingKind::Toggle(t0), SettingKind::Toggle(t1), SettingValue::Bool(b)) => {
            &&& t1.label == t0.label
            &&& t1.tooltip == t0.tooltip
            &&& toggle_applied_state(t0.injections@, t1.injections@, b)
            &&& toggle_detour_state(t0.detours@, t1.detours@, b)
        },
        (SettingKind::Slider(s0), SettingKind::Slider(s1), SettingValue::Int(x)) => {
            &&& s1.label == s0.label
            &&& s1.tooltip == s0.tooltip
            &&& s1.min == s0.min
            &&& s1.max == s0.max
            &&& slider_applied_state(s0.injections@, s1.injections@, x as u64)
        },
        _ => false,
    }
}

/// The stored original bytes after a successful `set(value)` against a
/// region that held `mem0`: each freshly applied patch holds exactly the
/// bytes it displaced, and every other patch keeps its stored originals.
pub open spec fn setting_originals(
    prev: Setting,
    next: Setting,
    value: SettingValue,
    mem0: Seq<u8>,
) -> bool {
    match (prev.inner, next.inner, value) {
        (SettingKind::Toggle(t0), SettingKind::Toggle(t1), SettingValue::Bool(b)) =>
            toggle_originals(t0.injections@, t1.injections@, b, mem0),
        (SettingKind::Slider(s0), SettingKind::Slider(s1), SettingValue::Int(x)) =>
            slider_originals(s0.injections@, s1.injections@, x as u64, mem0),
        _ => true,
    }
}

impl Setting {
    /// A fresh setting holding its default value; no effect is driven until
    /// `set` is called.
    pub fn new(inner: SettingKind, defaults: Defaults<SettingValue>, config_key: Option<String>)
        -> (r: Setting)
        ensures
            r.value == defaults.default,
            r.defaults == defaults,
            r.config_key == config_key,
            r.inner == inner,
    {
        Setting { value: defaults.default, defaults, config_key, inner }
    }

    /// Commit `value` and drive every bound effect to the state it implies.
    /// Transactional: on failure neither the value, nor any effect, nor the
    /// region has changed.
    pub fn set(&mut self, value: SettingValue, mem: &mut MemoryRegion) -> (r: Result<
        (),
        PermissionError,
    >)
        requires
            setting_wf(*old(self)),
            value_fits(old(self).inner, value),
        ensures
            final(mem)@.len() == old(mem)@.len(),
            setting_wf(*final(self)),
            match r {
                Ok(()) => {
                    &&& setting_can_apply(*old(self), value, old(mem)@.len() as int)
                    &&& setting_applied_state(*old(self), *final(self), value)
                    &&& setting_originals(*old(self), *final(self), value, old(mem)@)
                    &&& final(mem)@ == write_all(old(mem)@, setting_writes(*old(self), value))
                },
                Err(_) => {
                    &&& !setting_can_apply(*old(self), value, old(mem)@.len() as int)
                    &&& *final(self) == *old(self)
                    &&& final(mem)@ == old(mem)@
                },
            },
    {
        let result = match &mut self.inner {
            SettingKind::Toggle(t) => {
                match value {
                    SettingValue::Bool(b) => t.set(b, mem),
                    SettingValue::Int(_) => {
                        proof {
                            assert(false);
                        }
                        Ok(())
                    },
                }
            },
            SettingKind::Slider(s) => {
                match value {
                    SettingValue::Int(x) => s.set(x as u64, mem),
                    SettingValue::Bool(_) => {
                        proof {
                            assert(false);
                        }
                        Ok(())
                    },
                }
            },
        };
        match result {
            Ok(()) => {
                self.value = value;
                Ok(())
            },
            Err(e) => Err(e),
        }
    }

    /// Drive the setting back to the tool's recommended value.
    pub fn reset_to_default(&mut self, mem: &mut MemoryRegion) -> (r: Result<
        (),
        PermissionError,
    >)
        requires
            setting_wf(*old(self)),
        ensures
            final(mem)@.len() == old(mem)@.len(),
            setting_wf(*final(self)),
            match r {
                Ok(()) => {
                    &&& setting_can_apply(
                        *old(self),
                        old(self).defaults.default,
                        old(mem)@.len() as int,
                    )
                    &&& setting_applied_state(
                        *old(self),
                        *final(self),
                        old(self).defaults.default,
                    )
                    &&& setting_originals(
                        *old(self),
                        *final(self),
                        old(self).defaults.default,
                        old(mem)@,
                    )
                    &&& final(mem)@ == write_all(
                        old(mem)@,
                        setting_writes(*old(self), old(self).defaults.default),
                    )
                },
                Err(_) => {
                    &&& !setting_can_apply(
                        *old(self),
                        old(self).defaults.default,
                        old(mem)@.len() as int,
                    )
                    &&& *final(self) == *old(self)
                    &&& final(mem)@ == old(mem)@
                },
            },
    {
        let value = self.defaults.default;
        self.set(value, mem)
    }

    /// Drive the setting back to the unmodified original behaviour.
    pub fn reset_to_vanilla(&mut self, mem: &mut MemoryRegion) -> (r: Result<
        (),
        PermissionError,
    >)
        requires
            setting_wf(*old(self)),
        ensures
            final(mem)@.len() == old(mem)@.len(),
            setting_wf(*final(self)),
            match r {
                Ok(()) => {
                    &&& setting_can_apply(
                        *old(self),
                        old(self).defaults.vanilla,
                        old(mem)@.len() as int,
                    )
                    &&& setting_applied_state(
                        *old(self),
                        *final(self),
                        old(self).defaults.vanilla,
                    )
                    &&& setting_originals(
                        *old(self),
                        *final(self),
                        old(self).defaults.vanilla,
                        old(mem)@,
                    )
                    &&& final(mem)@ == write_all(
                        old(mem)@,
                        setting_writes(*old(self), old(self).defaults.vanilla),
                    )
                },
                Err(_) => {
                    &&& !setting_can_apply(
                        *old(self),
                        old(self).defaults.vanilla,
                        old(mem)@.len() as int,
                    )
                    &&& *final(self) == *old(self)
                    &&& final(mem)@ == old(mem)@
                },
            },
    {
        let value = self.defaults.vanilla;
        self.set(value, mem)
    }
}

/// The writes that tearing the setting's effects down performs, in order.
pub open spec fn setting_uninit_writes(s: Setting) -> Seq<(int, Seq<u8>)> {
    match s.inner {
        SettingKind::Toggle(t) => toggle_remove_writes(t.injections@),
        SettingKind::Slider(sl) => slider_remove_writes(sl.injections@),
    }
}

/// The setting after teardown: value and identity unchanged, every patch
/// removed, every detour disabled.
pub open spec fn setting_uninit_state(prev: Setting, next: Setting) -> bool {
    &&& next.value == prev.value
    &&& next.defaults == prev.defaults
    &&& next.config_key == prev.config_key
    &&& match (prev.inner, next.inner) {
        (SettingKind::Toggle(t0), SettingKind::Toggle(t1)) => {
            &&& t1.label == t0.label
            &&& t1.tooltip == t0.tooltip
            &&& toggle_remove_state(t0.injections@, t1.injections@)
            &&& t1.detours@.len() == t0.detours@.len()
            &&& forall|j: int|
                0 <= j < t0.detours@.len() ==> !(#[trigger] t1.detours@[j]).0.enabled
        },
        (SettingKind::Slider(s0), SettingKind::Slider(s1)) => {
            &&& s1.label == s0.label
            &&& s1.tooltip == s0.tooltip
            &&& s1.min == s0.min
            &&& s1.max == s0.max
            &&& slider_remove_state(s0.injections@, s1.injections@)
        },
        _ => false,
    }
}

/// Teardown cannot proceed: some applied patch no longer lies inside the
/// region.
pub open spec fn setting_uninit_blocked(s: Setting, region_len: int) -> bool {
    match s.inner {
        SettingKind::Toggle(t) => exists|j: int|
            0 <= j < t.injections@.len() && (#[trigger] t.injections@[j]).0.is_applied()
                && !t.injections@[j].0.in_bounds(region_len),
        SettingKind::Slider(sl) => exists|j: int|
            0 <= j < sl.injections@.len() && (#[trigger] sl.injections@[j]).patch().is_applied()
                && !sl.injections@[j].patch().in_bounds(region_len),
    }
}

impl Setting {
    /// Tear the setting's effects down: remove every patch and disable
    /// every detour, leaving the in-memory value as it is. Safe to call
    /// when some effects were never applied.
    pub fn uninit(&mut self, mem: &mut MemoryRegion) -> (r: Result<(), PermissionError>)
        requires
            setting_wf(*old(self)),
        ensures
            final(mem)@.len() == old(mem)@.len(),
            setting_wf(*final(self)),
            match r {
                Ok(()) => {
                    &&& !setting_uninit_blocked(*old(self), old(mem)@.len() as int)
                    &&& setting_uninit_state(*old(self), *final(self))
                    &&& final(mem)@ == write_all(old(mem)@, setting_uninit_writes(*old(self)))
                },
                Err(_) => {
                    &&& setting_uninit_blocked(*old(self), old(mem)@.len() as int)
                    &&& *final(self) == *old(self)
                    &&& final(mem)@ == old(mem)@
                },
            },
    {
        match &mut self.inner {
            SettingKind::Toggle(t) => t.disable_all(mem),
            SettingKind::Slider(s) => s.remove_all(mem),
        }
    }
}

impl Setting {
    /// The current value, for display: rendering is a pure projection of
    /// the setting and never mutates it directly.
    pub fn value(&self) -> (r: SettingValue)
        ensures
            r == self.value,
    {
        self.value
    }

    /// The two baseline values, for display next to the control.
    pub fn defaults(&self) -> (r: Defaults<SettingValue>)
        ensures
            r == self.defaults,
    {
        self.defaults
    }

    /// The display label of the control.
    pub fn label(&self) -> (r: &String)
        ensures
            r == match self.inner {
                SettingKind::Toggle(t) => t.label,
                SettingKind::Slider(s) => s.label,
            },
    {
        match &self.inner {
            SettingKind::Toggle(t) => &t.label,
            SettingKind::Slider(s) => &s.label,
        }
    }

    /// The explanatory text of the control.
    pub fn tooltip(&self) -> (r: &String)
        ensures
            r == match self.inner {
                SettingKind::Toggle(t) => t.tooltip,
                SettingKind::Slider(s) => s.tooltip,
            },
    {
        match &self.inner {
            SettingKind::Toggle(t) => &t.tooltip,
            SettingKind::Slider(s) => &s.tooltip,
        }
    }

    /// The names of registered change listeners, for the caller to notify
    /// with the committed value after each successful `set`; empty for
    /// sliders.
    pub fn change_listeners(&self) -> (r: Vec<String>)
        ensures
            r@ == match self.inner {
                SettingKind::Toggle(t) => t.listeners@,
                SettingKind::Slider(_) => Seq::<String>::empty(),
            },
    {
        match &self.inner {
            SettingKind::Toggle(t) => t.listeners.clone(),
            SettingKind::Slider(_) => Vec::new(),
        }
    }

    /// The allowed range, when the behaviour is a slider.
    pub fn slider_range(&self) -> (r: Option<(i64, i64)>)
        ensures
            r == match self.inner {
                SettingKind::Toggle(_) => None::<(i64, i64)>,
                SettingKind::Slider(s) => Some((s.min, s.max)),
            },
    {
        match &self.inner {
            SettingKind::Toggle(_) => None,
            SettingKind::Slider(s) => Some((s.min, s.max)),
        }
    }
}

/// The scalar a setting's value persists as.
pub open spec fn config_encode(value: SettingValue) -> ConfigValue {
    match value {
        SettingValue::Bool(b) => ConfigValue::Bool(b),
        SettingValue::Int(x) => ConfigValue::Int(x),
    }
}

/// The value a stored scalar loads as into a behaviour of kind `kind`:
/// `None` when its shape or range does not fit.
pub open spec fn config_decode(kind: SettingKind, cv: ConfigValue) -> Option<SettingValue> {
    match (kind, cv) {
        (SettingKind::Toggle(_), ConfigValue::Bool(b)) => Some(SettingValue::Bool(b)),
        (SettingKind::Slider(s), ConfigValue::Int(x)) => if s.min <= x <= s.max {
            Some(SettingValue::Int(x))
        } else {
            None
        },
        _ => None,
    }
}

/// Why a stored scalar does not load into a behaviour of kind `kind`.
pub open spec fn config_decode_err(kind: SettingKind, cv: ConfigValue) -> ConfigError {
    match (kind, cv) {
        (SettingKind::Slider(_), ConfigValue::Int(_)) => ConfigError::OutOfRange,
        _ => ConfigError::TypeMismatch,
    }
}

/// The scalar stored for this setting in `table`, if any: settings without
/// a config key are not persisted.
pub open spec fn stored_value(s: Setting, table: Map<Seq<char>, ConfigValue>) -> Option<
    ConfigValue,
> {
    match s.config_key {
        Some(k) => if table.contains_key(k@) {
            Some(table[k@])
        } else {
            None
        },
        None => None,
    }
}

/// The value this setting receives from `table`: the decoded stored
/// scalar, or `None` when nothing is stored or the stored scalar does not
/// fit.
pub open spec fn setting_load_value(s: Setting, table: Map<Seq<char>, ConfigValue>) -> Option<
    SettingValue,
> {
    match stored_value(s, table) {
        Some(cv) => config_decode(s.inner, cv),
        None => None,
    }
}

/// The writes loading this setting from `table` performs.
pub open spec fn setting_load_writes(s: Setting, table: Map<Seq<char>, ConfigValue>) -> Seq<
    (int, Seq<u8>),
> {
    match setting_load_value(s, table) {
        Some(v) => setting_writes(s, v),
        None => Seq::empty(),
    }
}

/// The setting after loading from `table`: driven to the decoded stored
/// value, or untouched when nothing loads.
pub open spec fn setting_load_state(
    prev: Setting,
    next: Setting,
    table: Map<Seq<char>, ConfigValue>,
) -> bool {
    match setting_load_value(prev, table) {
        Some(v) => setting_applied_state(prev, next, v),
        None => next == prev,
    }
}

/// A stored scalar exists for this setting but does not fit it: the load
/// skips the setting and reports a config error.
pub open spec fn setting_load_fails(s: Setting, table: Map<Seq<char>, ConfigValue>) -> bool {
    match stored_value(s, table) {
        Some(cv) => config_decode(s.inner, cv) is None,
        None => false,
    }
}

/// The stored original bytes after loading from `table` against a region
/// that held `mem0`: tracked exactly when a stored value loads, trivial
/// otherwise (nothing was driven).
pub open spec fn setting_load_originals(
    prev: Setting,
    next: Setting,
    table: Map<Seq<char>, ConfigValue>,
    mem0: Seq<u8>,
) -> bool {
    match setting_load_value(prev, table) {
        Some(v) => setting_originals(prev, next, v, mem0),
        None => true,
    }
}

/// The store after this setting saves into it: its key bound to the
/// encoding of its value, or the store unchanged if it has no key.
pub open spec fn setting_save(
    m: Map<Seq<char>, ConfigValue>,
    s: Setting,
) -> Map<Seq<char>, ConfigValue> {
    match s.config_key {
        Some(k) => m.insert(k@, config_encode(s.value)),
        None => m,
    }
}

impl Setting {
    /// Load this setting's value from the store and drive its effects: a
    /// missing key or absent entry leaves everything as it is; a stored
    /// value of the wrong shape or range is skipped with a config error,
    /// also leaving everything as it is.
    pub fn load_config(&mut self, table: &ConfigTable, mem: &mut MemoryRegion) -> (r: Result<
        (),
        TweakError,
    >)
        requires
            setting_wf(*old(self)),
            table.wf(),
        ensures
            final(mem)@.len() == old(mem)@.len(),
            setting_wf(*final(self)),
            match r {
                Ok(()) => match stored_value(*old(self), table@) {
                    Some(cv) => {
                        &&& config_decode(old(self).inner, cv) matches Some(v)
                        &&& setting_can_apply(
                            *old(self),
                            config_decode(old(self).inner, cv)->Some_0,
                            old(mem)@.len() as int,
                        )
                        &&& setting_applied_state(
                            *old(self),
                            *final(self),
                            config_decode(old(self).inner, cv)->Some_0,
                        )
                        &&& setting_originals(
                            *old(self),
                            *final(self),
                            config_decode(old(self).inner, cv)->Some_0,
                            old(mem)@,
                        )
                        &&& final(mem)@ == write_all(
                            old(mem)@,
                            setting_writes(*old(self), config_decode(old(self).inner, cv)->Some_0),
                        )
                    },
                    None => *final(self) == *old(self) && final(mem)@ == old(mem)@,
                },
                Err(TweakError::Config(e)) => {
                    &&& stored_value(*old(self), table@) matches Some(cv)
                    &&& config_decode(
                        old(self).inner,
                        stored_value(*old(self), table@)->Some_0,
                    ) is None
                    &&& e == config_decode_err(
                        old(self).inner,
                        stored_value(*old(self), table@)->Some_0,
                    )
                    &&& *final(self) == *old(self)
                    &&& final(mem)@ == old(mem)@
                },
                Err(TweakError::Permission(_)) => {
                    &&& setting_load_value(*old(self), table@) matches Some(v)
                    &&& !setting_can_apply(
                        *old(self),
                        setting_load_value(*old(self), table@)->Some_0,
                        old(mem)@.len() as int,
                    )
                    &&& *final(self) == *old(self)
                    &&& final(mem)@ == old(mem)@
                },
                Err(_) => false,
            },
    {
        let key = match &self.config_key {
            Some(k) => k.clone(),
            None => {
                return Ok(());
            },
        };
        let cv = match table.get(&key) {
            Some(cv) => cv,
            None => {
                return Ok(());
            },
        };
        let decoded: Result<SettingValue, ConfigError> = match &self.inner {
            SettingKind::Toggle(_) => {
                match cv {
                    ConfigValue::Bool(b) => Ok(SettingValue::Bool(b)),
                    ConfigValue::Int(_) => Err(ConfigError::TypeMismatch),
                }
            },
            SettingKind::Slider(s) => {
                match cv {
                    ConfigValue::Int(x) => if x < s.min || x > s.max {
                        Err(ConfigError::OutOfRange)
                    } else {
                        Ok(SettingValue::Int(x))
                    },
                    ConfigValue::Bool(_) => Err(ConfigError::TypeMismatch),
                }
            },
        };
        match decoded {
            Ok(v) => {
                match self.set(v, mem) {
                    Ok(()) => Ok(()),
                    Err(e) => Err(TweakError::Permission(e)),
                }
            },
            Err(e) => Err(TweakError::Config(e)),
        }
    }

    /// Store this setting's value under its config key; a setting without a
    /// key is excluded from persistence.
    pub fn save_config(&self, into: &mut ConfigTable)
        requires
            old(into).wf(),
        ensures
            final(into).wf(),
            final(into)@ == match self.config_key {
                Some(k) => old(into)@.insert(k@, config_encode(self.value)),
                None => old(into)@,
            },
    {
        match &self.config_key {
            Some(k) => {
                let cv = match self.value {
                    SettingValue::Bool(b) => ConfigValue::Bool(b),
                    SettingValue::Int(x) => ConfigValue::Int(x),
                };
                into.set(k.clone(), cv);
            },
            None => {},
        }
    }
}

/// Law: the configuration round-trips scalars exactly. Saving a
/// well-formed setting binds its key to the encoding of its value; a fresh
/// setting with the same key and behaviour that loads from that store finds
/// the entry, decodes it successfully, and receives exactly the saved
/// value.
pub proof fn lemma_config_round_trip(s: Setting, table: Map<Seq<char>, ConfigValue>, k: Seq<char>)
    requires
        setting_wf(s),
        s.config_key matches Some(key) && key@ == k,
    ensures
        table.insert(k, config_encode(s.value)).contains_key(k),
        table.insert(k, config_encode(s.value))[k] == config_encode(s.value),
        config_decode(s.inner, config_encode(s.value)) == Some(s.value),
{
}

/// Law: resetting to default and then immediately to vanilla leaves the
/// value equal to the vanilla baseline and every bound effect in the state
/// that value and its invert flags imply — regardless of the state before.
pub proof fn lemma_reset_default_then_vanilla(s0: Setting, s1: Setting, s2: Setting)
    requires
        setting_applied_state(s0, s1, s0.defaults.default),
        setting_applied_state(s1, s2, s1.defaults.vanilla),
    ensures
        s2.value == s0.defaults.vanilla,
        setting_applied_state(s1, s2, s0.defaults.vanilla),
{
}

} // verus!
