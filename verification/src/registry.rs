//! The tweak registry: owns the scanned region and every built tweak,
//! attributes construction and runtime errors to the tweak they came from,
//! and drives resets, teardown and configuration across all tweaks.
//!
//! Construction follows a partial-activation model: a tweak whose
//! signatures no longer match the module is excluded and reported, and the
//! rest of the registry is unaffected.

use vstd::prelude::*;
use crate::config::{ConfigTable, ConfigValue};
use crate::memory::{MemoryRegion, lemma_write_all_concat, write_all};
use crate::tweaks::dev_mode::{DevModeTweak, dev_mode_buildable};
use crate::tweaks::editor_placement::{EditorPlacementTweak, editor_placement_buildable};
use crate::tweaks::editor_show_hidden::{ShowHiddenComponents, show_hidden_buildable};
use crate::tweaks::fast_loading_animations::{
    FastLoadingAnimationsTweak, fast_loading_buildable,
};
use crate::tweaks::fullscreen::{FullscreenTweak, fullscreen_buildable};
use crate::tweaks::map_lag::{MapLagTweak, map_lag_buildable};
use crate::tweaks::multithreaded_loading::{
    MultithreadedLoadingTweak, multithreaded_loading_buildable,
};
use crate::tweaks::transform_edit::{
    TransformEditTweak, transform_edit_buildable, transform_edit_wf,
};
use crate::tweaks::{
    HookTable, TweakBuilder, TweakConfig, TweakError, TweakWrapper, settings_wf,
    wrapper_default_writes_prefix, wrapper_uninit_writes_prefix, wrapper_vanilla_writes_prefix,
};
use crate::tweaks::settings::{
    setting_applied_state, setting_can_apply, setting_load_fails, setting_load_state,
    setting_load_value, setting_originals, setting_uninit_blocked, setting_uninit_state,
};

verus! {

/// The persisted form of the whole registry: one section per tweak, keyed
/// by the tweak's identity.
pub type ConfigDoc = Vec<(String, ConfigTable)>;

/// Every registered tweak's settings are well-formed.
pub open spec fn registry_wf(tweaks: Seq<TweakWrapper>) -> bool {
    forall|j: int| 0 <= j < tweaks.len() ==> settings_wf((#[trigger] tweaks[j]).settings@)
}

/// Every setting of `next` has been driven to its default value from
/// `prev`.
pub open spec fn wrapper_defaulted(prev: TweakWrapper, next: TweakWrapper) -> bool {
    &&& next.title == prev.title
    &&& next.category == prev.category
    &&& next.settings@.len() == prev.settings@.len()
    &&& forall|j: int|
        0 <= j < prev.settings@.len() ==> setting_applied_state(
            #[trigger] prev.settings@[j],
            next.settings@[j],
            prev.settings@[j].defaults.default,
        )
}

/// Every setting of `next` has been driven to its vanilla value from
/// `prev`.
pub open spec fn wrapper_vanillaed(prev: TweakWrapper, next: TweakWrapper) -> bool {
    &&& next.title == prev.title
    &&& next.category == prev.category
    &&& next.settings@.len() == prev.settings@.len()
    &&& forall|j: int|
        0 <= j < prev.settings@.len() ==> setting_applied_state(
            #[trigger] prev.settings@[j],
            next.settings@[j],
            prev.settings@[j].defaults.vanilla,
        )
}

/// Every setting of `next` has had its effects torn down from `prev`.
pub open spec fn wrapper_uninited(prev: TweakWrapper, next: TweakWrapper) -> bool {
    &&& next.title == prev.title
    &&& next.category == prev.category
    &&& next.settings@.len() == prev.settings@.len()
    &&& forall|j: int|
        0 <= j < prev.settings@.len() ==> setting_uninit_state(
            #[trigger] prev.settings@[j],
            next.settings@[j],
        )
}

/// The writes of driving the first `k` tweaks' settings to their default
/// values, in order.
pub open spec fn registry_default_writes_prefix(tweaks: Seq<TweakWrapper>, k: int) -> Seq<
    (int, Seq<u8>),
>
    decreases k,
{
    if k <= 0 {
        Seq::empty()
    } else {
        registry_default_writes_prefix(tweaks, k - 1) + wrapper_default_writes_prefix(
            tweaks[k - 1].settings@,
            tweaks[k - 1].settings@.len() as int,
        )
    }
}

/// The writes of driving the first `k` tweaks' settings to their vanilla
/// values, in order.
pub open spec fn registry_vanilla_writes_prefix(tweaks: Seq<TweakWrapper>, k: int) -> Seq<
    (int, Seq<u8>),
>
    decreases k,
{
    if k <= 0 {
        Seq::empty()
    } else {
        registry_vanilla_writes_prefix(tweaks, k - 1) + wrapper_vanilla_writes_prefix(
            tweaks[k - 1].settings@,
            tweaks[k - 1].settings@.len() as int,
        )
    }
}

/// The writes of tearing the first `k` tweaks' effects down, in order.
pub open spec fn registry_uninit_writes_prefix(tweaks: Seq<TweakWrapper>, k: int) -> Seq<
    (int, Seq<u8>),
>
    decreases k,
{
    if k <= 0 {
        Seq::empty()
    } else {
        registry_uninit_writes_prefix(tweaks, k - 1) + wrapper_uninit_writes_prefix(
            tweaks[k - 1].settings@,
            tweaks[k - 1].settings@.len() as int,
        )
    }
}

/// Can every setting of `w` be driven to its default value inside a
/// region of `rl` bytes? Exactly the condition under which its reset
/// succeeds.
pub open spec fn wrapper_can_default(w: TweakWrapper, rl: int) -> bool {
    forall|j: int|
        0 <= j < w.settings@.len() ==> setting_can_apply(
            #[trigger] w.settings@[j],
            w.settings@[j].defaults.default,
            rl,
        )
}

/// Can every setting of `w` be driven to its vanilla value inside a
/// region of `rl` bytes?
pub open spec fn wrapper_can_vanilla(w: TweakWrapper, rl: int) -> bool {
    forall|j: int|
        0 <= j < w.settings@.len() ==> setting_can_apply(
            #[trigger] w.settings@[j],
            w.settings@[j].defaults.vanilla,
            rl,
        )
}

/// Can every applied patch of `w` be restored inside a region of `rl`
/// bytes? Exactly the condition under which its teardown succeeds.
pub open spec fn wrapper_can_uninit(w: TweakWrapper, rl: int) -> bool {
    forall|j: int|
        0 <= j < w.settings@.len() ==> !setting_uninit_blocked(#[trigger] w.settings@[j], rl)
}

/// How many of the first `k` flags are false.
pub open spec fn count_false(flags: Seq<bool>, k: int) -> int
    decreases k,
{
    if k <= 0 {
        0
    } else {
        count_false(flags, k - 1) + if flags[k - 1] {
            0int
        } else {
            1int
        }
    }
}

/// Counting false flags never decreases along a prefix.
proof fn lemma_count_false_mono(flags: Seq<bool>, a: int, b: int)
    requires
        a <= b,
    ensures
        count_false(flags, a) <= count_false(flags, b),
    decreases b - a,
{
    if a < b {
        lemma_count_false_mono(flags, a, b - 1);
    }
}

/// Per-tweak reset-to-default success flags.
pub open spec fn default_flags(tweaks: Seq<TweakWrapper>, rl: int) -> Seq<bool> {
    Seq::new(tweaks.len(), |k: int| wrapper_can_default(tweaks[k], rl))
}

/// Per-tweak reset-to-vanilla success flags.
pub open spec fn vanilla_flags(tweaks: Seq<TweakWrapper>, rl: int) -> Seq<bool> {
    Seq::new(tweaks.len(), |k: int| wrapper_can_vanilla(tweaks[k], rl))
}

/// Per-tweak teardown success flags.
pub open spec fn uninit_flags(tweaks: Seq<TweakWrapper>, rl: int) -> Seq<bool> {
    Seq::new(tweaks.len(), |k: int| wrapper_can_uninit(tweaks[k], rl))
}

/// The stored originals of every setting of `next`, driven to defaults
/// from `prev` against a region that held `mem0`.
pub open spec fn wrapper_defaulted_originals(
    prev: TweakWrapper,
    next: TweakWrapper,
    mem0: Seq<u8>,
) -> bool {
    forall|j: int|
        0 <= j < prev.settings@.len() ==> setting_originals(
            #[trigger] prev.settings@[j],
            next.settings@[j],
            prev.settings@[j].defaults.default,
            write_all(mem0, wrapper_default_writes_prefix(prev.settings@, j)),
        )
}

/// The stored originals of every setting of `next`, driven to vanilla
/// values from `prev` against a region that held `mem0`.
pub open spec fn wrapper_vanillaed_originals(
    prev: TweakWrapper,
    next: TweakWrapper,
    mem0: Seq<u8>,
) -> bool {
    forall|j: int|
        0 <= j < prev.settings@.len() ==> setting_originals(
            #[trigger] prev.settings@[j],
            next.settings@[j],
            prev.settings@[j].defaults.vanilla,
            write_all(mem0, wrapper_vanilla_writes_prefix(prev.settings@, j)),
        )
}

/// Can the transform-editing tweak's own patches be restored inside a
/// region of `rl` bytes? Exactly the condition under which its teardown
/// succeeds.
pub open spec fn transform_can_uninit(t: TransformEditTweak, rl: int) -> bool {
    &&& !(t.disable_quaternion_slerp_injection.is_applied()
        && !t.disable_quaternion_slerp_injection.in_bounds(rl))
    &&& !(t.safety_check_inject.is_applied() && !t.safety_check_inject.in_bounds(rl))
}

/// The extra teardown failure the transform-editing tweak's own patches
/// contribute, if it is present.
pub open spec fn transform_uninit_failures(t: Option<TransformEditTweak>, rl: int) -> int {
    match t {
        Some(te) => if transform_can_uninit(te, rl) {
            0int
        } else {
            1int
        },
        None => 0,
    }
}

/// The first section of the document keyed by `title`, if any.
pub open spec fn doc_section(doc: Seq<(String, ConfigTable)>, title: Seq<char>) -> Option<
    ConfigTable,
>
    decreases doc.len(),
{
    if doc.len() == 0 {
        None
    } else if doc.first().0@ == title {
        Some(doc.first().1)
    } else {
        doc_section(doc.drop_first(), title)
    }
}

/// Can every stored value of `w`'s settings in `t` be applied inside a
/// region of `rl` bytes?
pub open spec fn wrapper_can_load(w: TweakWrapper, t: Map<Seq<char>, ConfigValue>, rl: int) -> bool {
    forall|j: int|
        0 <= j < w.settings@.len() ==> match setting_load_value(#[trigger] w.settings@[j], t) {
            Some(v) => setting_can_apply(w.settings@[j], v, rl),
            None => true,
        }
}

/// Does every stored value of `w`'s settings in `t` fit its setting?
pub open spec fn wrapper_load_fits(w: TweakWrapper, t: Map<Seq<char>, ConfigValue>) -> bool {
    forall|j: int| 0 <= j < w.settings@.len() ==> !setting_load_fails(#[trigger] w.settings@[j], t)
}

/// Per-tweak load success flags: a tweak without a section loads
/// trivially; one with a section succeeds exactly when every stored value
/// fits and can be applied.
pub open spec fn load_flags(
    tweaks: Seq<TweakWrapper>,
    doc: Seq<(String, ConfigTable)>,
    rl: int,
) -> Seq<bool> {
    Seq::new(
        tweaks.len(),
        |k: int|
            match doc_section(doc, tweaks[k].title@) {
                None => true,
                Some(t) => wrapper_can_load(tweaks[k], t@, rl) && wrapper_load_fits(tweaks[k], t@),
            },
    )
}

/// Owns the scanned region, the hook registrations, the active tweaks and
/// the aggregate error list.
pub struct TweakRegistry {
    /// The writable view of the target module.
    pub region: MemoryRegion,
    /// Registered hook addresses, looked up by tweak constructors.
    pub hooks: HookTable,
    /// The active tweaks, in registration order.
    pub tweaks: Vec<TweakWrapper>,
    /// The transform-editing tweak's own state, when it built successfully;
    /// the only tweak that keeps state outside its settings.
    pub transform_edit: Option<TransformEditTweak>,
    /// Errors, each keyed to the identity of the tweak it came from.
    pub errors: Vec<(String, TweakError)>,
}

impl TweakRegistry {
    /// A registry over `region` with no tweaks, no hooks and no errors.
    pub fn new(region: MemoryRegion) -> (r: TweakRegistry)
        ensures
            r.region@ == region@,
            r.hooks.entries@.len() == 0,
            r.tweaks@.len() == 0,
            r.errors@.len() == 0,
            registry_wf(r.tweaks@),
    {
        TweakRegistry {
            region,
            hooks: HookTable::new(),
            tweaks: Vec::new(),
            transform_edit: None,
            errors: Vec::new(),
        }
    }

    /// Register a hook function's address under a name, for tweak
    /// constructors to look up.
    pub fn register_hook(&mut self, name: String, addr: usize)
        ensures
            final(self).hooks.entries@ == old(self).hooks.entries@.push((name, addr)),
            final(self).region == old(self).region,
            final(self).tweaks == old(self).tweaks,
            final(self).transform_edit == old(self).transform_edit,
            final(self).errors == old(self).errors,
    {
        self.hooks.register(name, addr);
    }

    fn install_editor_placement(&mut self)
        requires
            registry_wf(old(self).tweaks@),
        ensures
            registry_wf(final(self).tweaks@),
            final(self).hooks == old(self).hooks,
            final(self).region@.len() == old(self).region@.len(),
            final(self).transform_edit == old(self).transform_edit,
            forall|k: int|
                0 <= k < old(self).tweaks@.len() ==> final(self).tweaks@[k] == old(
                    self,
                ).tweaks@[k],
            forall|k: int|
                0 <= k < old(self).errors@.len() ==> final(self).errors@[k] == old(self).errors@[k],
            editor_placement_buildable(old(self).region@) ==> {
                &&& final(self).tweaks@.len() == old(self).tweaks@.len() + 1
                &&& final(self).tweaks@.last().title@ == EditorPlacementTweak::spec_config_id()
                &&& final(self).errors@ == old(self).errors@
            },
            !(editor_placement_buildable(old(self).region@)) ==> {
                &&& final(self).tweaks@ == old(self).tweaks@
                &&& final(self).errors@.len() == old(self).errors@.len() + 1
                &&& final(self).errors@.last().0@ == EditorPlacementTweak::spec_config_id()
            },
    {
        let mut builder = TweakBuilder::new();
        let outcome = match EditorPlacementTweak::new(&mut builder, &mut self.region) {
            Ok(_) => Ok(()),
            Err(e) => Err(e),
        };
        self.register(String::from_str(EditorPlacementTweak::config_id()), builder, outcome);
    }

    fn install_editor_show_hidden(&mut self)
        requires
            registry_wf(old(self).tweaks@),
        ensures
            registry_wf(final(self).tweaks@),
            final(self).hooks == old(self).hooks,
            final(self).region@.len() == old(self).region@.len(),
            final(self).transform_edit == old(self).transform_edit,
            forall|k: int|
                0 <= k < old(self).tweaks@.len() ==> final(self).tweaks@[k] == old(
                    self,
                ).tweaks@[k],
            forall|k: int|
                0 <= k < old(self).errors@.len() ==> final(self).errors@[k] == old(self).errors@[k],
            show_hidden_buildable(old(self).region@) ==> {
                &&& final(self).tweaks@.len() == old(self).tweaks@.len() + 1
                &&& final(self).tweaks@.last().title@ == ShowHiddenComponents::spec_config_id()
                &&& final(self).errors@ == old(self).errors@
            },
            !(show_hidden_buildable(old(self).region@)) ==> {
                &&& final(self).tweaks@ == old(self).tweaks@
                &&& final(self).errors@.len() == old(self).errors@.len() + 1
                &&& final(self).errors@.last().0@ == ShowHiddenComponents::spec_config_id()
            },
    {
        let mut builder = TweakBuilder::new();
        let outcome = match ShowHiddenComponents::new(&mut builder, &mut self.region) {
            Ok(_) => Ok(()),
            Err(e) => Err(e),
        };
        self.register(String::from_str(ShowHiddenComponents::config_id()), builder, outcome);
    }

    fn install_map_lag(&mut self)
        requires
            registry_wf(old(self).tweaks@),
        ensures
            registry_wf(final(self).tweaks@),
            final(self).hooks == old(self).hooks,
            final(self).region@.len() == old(self).region@.len(),
            final(self).transform_edit == old(self).transform_edit,
            forall|k: int|
                0 <= k < old(self).tweaks@.len() ==> final(self).tweaks@[k] == old(
                    self,
                ).tweaks@[k],
            forall|k: int|
                0 <= k < old(self).errors@.len() ==> final(self).errors@[k] == old(self).errors@[k],
            map_lag_buildable(old(self).region@) ==> {
                &&& final(self).tweaks@.len() == old(self).tweaks@.len() + 1
                &&& final(self).tweaks@.last().title@ == MapLagTweak::spec_config_id()
                &&& final(self).errors@ == old(self).errors@
            },
            !(map_lag_buildable(old(self).region@)) ==> {
                &&& final(self).tweaks@ == old(self).tweaks@
                &&& final(self).errors@.len() == old(self).errors@.len() + 1
                &&& final(self).errors@.last().0@ == MapLagTweak::spec_config_id()
            },
    {
        let mut builder = TweakBuilder::new();
        let outcome = match MapLagTweak::new(&mut builder, &mut self.region) {
            Ok(_) => Ok(()),
            Err(e) => Err(e),
        };
        self.register(String::from_str(MapLagTweak::config_id()), builder, outcome);
    }

    fn install_fast_loading_animations(&mut self)
        requires
            registry_wf(old(self).tweaks@),
        ensures
            registry_wf(final(self).tweaks@),
            final(self).hooks == old(self).hooks,
            final(self).region@.len() == old(self).region@.len(),
            final(self).transform_edit == old(self).transform_edit,
            forall|k: int|
                0 <= k < old(self).tweaks@.len() ==> final(self).tweaks@[k] == old(
                    self,
                ).tweaks@[k],
            forall|k: int|
                0 <= k < old(self).errors@.len() ==> final(self).errors@[k] == old(self).errors@[k],
            fast_loading_buildable(old(self).region@, old(self).hooks.entries@) ==> {
                &&& final(self).tweaks@.len() == old(self).tweaks@.len() + 1
                &&& final(self).tweaks@.last().title@ == FastLoadingAnimationsTweak::spec_config_id()
                &&& final(self).errors@ == old(self).errors@
            },
            !(fast_loading_buildable(old(self).region@, old(self).hooks.entries@)) ==> {
                &&& final(self).tweaks@ == old(self).tweaks@
                &&& final(self).errors@.len() == old(self).errors@.len() + 1
                &&& final(self).errors@.last().0@ == FastLoadingAnimationsTweak::spec_config_id()
            },
    {
        let mut builder = TweakBuilder::new();
        let outcome = match FastLoadingAnimationsTweak::new(&mut builder, &self.hooks, &mut self.region) {
            Ok(_) => Ok(()),
            Err(e) => Err(e),
        };
        self.register(String::from_str(FastLoadingAnimationsTweak::config_id()), builder, outcome);
    }

    fn install_multithreaded_loading(&mut self)
        requires
            registry_wf(old(self).tweaks@),
        ensures
            registry_wf(final(self).tweaks@),
            final(self).hooks == old(self).hooks,
            final(self).region@.len() == old(self).region@.len(),
            final(self).transform_edit == old(self).transform_edit,
            forall|k: int|
                0 <= k < old(self).tweaks@.len() ==> final(self).tweaks@[k] == old(
                    self,
                ).tweaks@[k],
            forall|k: int|
                0 <= k < old(self).errors@.len() ==> final(self).errors@[k] == old(self).errors@[k],
            multithreaded_loading_buildable(old(self).region@, old(self).hooks.entries@) ==> {
                &&& final(self).tweaks@.len() == old(self).tweaks@.len() + 1
                &&& final(self).tweaks@.last().title@ == MultithreadedLoadingTweak::spec_config_id()
                &&& final(self).errors@ == old(self).errors@
            },
            !(multithreaded_loading_buildable(old(self).region@, old(self).hooks.entries@)) ==> {
                &&& final(self).tweaks@ == old(self).tweaks@
                &&& final(self).errors@.len() == old(self).errors@.len() + 1
                &&& final(self).errors@.last().0@ == MultithreadedLoadingTweak::spec_config_id()
            },
    {
        let mut builder = TweakBuilder::new();
        let outcome = match MultithreadedLoadingTweak::new(&mut builder, &self.hooks, &mut self.region) {
            Ok(_) => Ok(()),
            Err(e) => Err(e),
        };
        self.register(String::from_str(MultithreadedLoadingTweak::config_id()), builder, outcome);
    }

    fn install_fullscreen(&mut self)
        requires
            registry_wf(old(self).tweaks@),
        ensures
            registry_wf(final(self).tweaks@),
            final(self).hooks == old(self).hooks,
            final(self).region@.len() == old(self).region@.len(),
            final(self).transform_edit == old(self).transform_edit,
            forall|k: int|
                0 <= k < old(self).tweaks@.len() ==> final(self).tweaks@[k] == old(
                    self,
                ).tweaks@[k],
            forall|k: int|
                0 <= k < old(self).errors@.len() ==> final(self).errors@[k] == old(self).errors@[k],
            fullscreen_buildable(old(self).region@) ==> {
                &&& final(self).tweaks@.len() == old(self).tweaks@.len() + 1
                &&& final(self).tweaks@.last().title@ == FullscreenTweak::spec_config_id()
                &&& final(self).errors@ == old(self).errors@
            },
            !(fullscreen_buildable(old(self).region@)) ==> {
                &&& final(self).tweaks@ == old(self).tweaks@
                &&& final(self).errors@.len() == old(self).errors@.len() + 1
                &&& final(self).errors@.last().0@ == FullscreenTweak::spec_config_id()
            },
    {
        let mut builder = TweakBuilder::new();
        let outcome = match FullscreenTweak::new(&mut builder, &mut self.region) {
            Ok(_) => Ok(()),
            Err(e) => Err(e),
        };
        self.register(String::from_str(FullscreenTweak::config_id()), builder, outcome);
    }

    fn install_dev_mode(&mut self)
        requires
            registry_wf(old(self).tweaks@),
        ensures
            registry_wf(final(self).tweaks@),
            final(self).hooks == old(self).hooks,
            final(self).region@.len() == old(self).region@.len(),
            final(self).transform_edit == old(self).transform_edit,
            forall|k: int|
                0 <= k < old(self).tweaks@.len() ==> final(self).tweaks@[k] == old(
                    self,
                ).tweaks@[k],
            forall|k: int|
                0 <= k < old(self).errors@.len() ==> final(self).errors@[k] == old(self).errors@[k],
            dev_mode_buildable(old(self).region@) ==> {
                &&& final(self).tweaks@.len() == old(self).tweaks@.len() + 1
                &&& final(self).tweaks@.last().title@ == DevModeTweak::spec_config_id()
                &&& final(self).errors@ == old(self).errors@
            },
            !(dev_mode_buildable(old(self).region@)) ==> {
                &&& final(self).tweaks@ == old(self).tweaks@
                &&& final(self).errors@.len() == old(self).errors@.len() + 1
                &&& final(self).errors@.last().0@ == DevModeTweak::spec_config_id()
            },
    {
        let mut builder = TweakBuilder::new();
        let outcome = match DevModeTweak::new(&mut builder, &mut self.region) {
            Ok(_) => Ok(()),
            Err(e) => Err(e),
        };
        self.register(String::from_str(DevModeTweak::config_id()), builder, outcome);
    }

    fn install_transform_edit(&mut self)
        requires
            registry_wf(old(self).tweaks@),
        ensures
            registry_wf(final(self).tweaks@),
            final(self).hooks == old(self).hooks,
            final(self).region@.len() == old(self).region@.len(),
            forall|k: int|
                0 <= k < old(self).tweaks@.len() ==> final(self).tweaks@[k] == old(
                    self,
                ).tweaks@[k],
            forall|k: int|
                0 <= k < old(self).errors@.len() ==> final(self).errors@[k] == old(self).errors@[k],
            transform_edit_buildable(old(self).region@, old(self).hooks.entries@) ==> {
                &&& final(self).tweaks@.len() == old(self).tweaks@.len() + 1
                &&& final(self).tweaks@.last().title@ == TransformEditTweak::spec_config_id()
                &&& final(self).errors@ == old(self).errors@
                &&& final(self).transform_edit matches Some(t) && transform_edit_wf(t)
            },
            !transform_edit_buildable(old(self).region@, old(self).hooks.entries@) ==> {
                &&& final(self).tweaks@ == old(self).tweaks@
                &&& final(self).errors@.len() == old(self).errors@.len() + 1
                &&& final(self).errors@.last().0@ == TransformEditTweak::spec_config_id()
                &&& final(self).transform_edit is None
            },
    {
        let mut builder = TweakBuilder::new();
        let outcome = match TransformEditTweak::new(&mut builder, &self.hooks, &mut self.region) {
            Ok(t) => {
                self.transform_edit = Some(t);
                Ok(())
            },
            Err(e) => {
                self.transform_edit = None;
                Err(e)
            },
        };
        self.register(String::from_str(TransformEditTweak::config_id()), builder, outcome);
    }

    /// Build every known tweak against the region, in order; each either
    /// joins the active set or has its construction error recorded under
    /// its identity, and no failure stops the others (partial activation).
    pub fn install_all(&mut self)
        requires
            registry_wf(old(self).tweaks@),
        ensures
            registry_wf(final(self).tweaks@),
            final(self).hooks == old(self).hooks,
            final(self).region@.len() == old(self).region@.len(),
            final(self).tweaks@.len() + final(self).errors@.len() == old(self).tweaks@.len()
                + old(self).errors@.len() + 8,
            final(self).transform_edit matches Some(t) ==> transform_edit_wf(t),
    {
        self.install_editor_placement();
        self.install_editor_show_hidden();
        self.install_map_lag();
        self.install_fast_loading_animations();
        self.install_multithreaded_loading();
        self.install_fullscreen();
        self.install_dev_mode();
        self.install_transform_edit();
    }

    /// Take a tweak construction outcome under the tweak's identity: a
    /// successful build joins the active set with the settings its builder
    /// registered; a failed one is excluded, its error keyed to its
    /// identity, and the rest of the registry is unaffected.
    pub fn register(&mut self, title: String, builder: TweakBuilder, outcome: Result<
        (),
        TweakError,
    >)
        requires
            settings_wf(builder.settings@),
            registry_wf(old(self).tweaks@),
        ensures
            final(self).region == old(self).region,
            final(self).hooks == old(self).hooks,
            final(self).transform_edit == old(self).transform_edit,
            registry_wf(final(self).tweaks@),
            match outcome {
                Ok(()) => {
                    &&& final(self).tweaks@.len() == old(self).tweaks@.len() + 1
                    &&& forall|j: int|
                        0 <= j < old(self).tweaks@.len() ==> final(self).tweaks@[j] == old(self).tweaks@[j]
                    &&& final(self).tweaks@.last().title == title
                    &&& final(self).tweaks@.last().settings == builder.settings
                    &&& final(self).tweaks@.last().category == builder.category
                    &&& final(self).errors == old(self).errors
                },
                Err(e) => {
                    &&& final(self).tweaks == old(self).tweaks
                    &&& final(self).errors@ == old(self).errors@.push((title, e))
                },
            },
    {
        match outcome {
            Ok(()) => {
                let ghost prev = self.tweaks@;
                let wrapper = TweakWrapper::new(title, builder);
                self.tweaks.push(wrapper);
                proof {
                    assert forall|j: int|
                        0 <= j < self.tweaks@.len() implies settings_wf(
                        (#[trigger] self.tweaks@[j]).settings@,
                    ) by {
                        if j < self.tweaks@.len() - 1 {
                            assert(self.tweaks@[j] == prev[j]);
                            assert(settings_wf(prev[j].settings@));
                        }
                    }
                }
            },
            Err(e) => {
                self.errors.push((title, e));
            },
        }
    }

    /// Drive every setting of every tweak back to its default value. A
    /// tweak fails exactly when some of its settings cannot be applied
    /// inside the region; each failure appends one error keyed to that
    /// tweak's identity, in tweak order, and the rest are still driven.
    #[verifier::rlimit(100)]
    pub fn reset_all_to_default(&mut self)
        requires
            registry_wf(old(self).tweaks@),
        ensures
            registry_wf(final(self).tweaks@),
            final(self).hooks == old(self).hooks,
            final(self).transform_edit == old(self).transform_edit,
            final(self).tweaks@.len() == old(self).tweaks@.len(),
            final(self).region@.len() == old(self).region@.len(),
            forall|k: int|
                0 <= k < old(self).errors@.len() ==> final(self).errors@[k] == old(self).errors@[k],
            final(self).errors@.len() == old(self).errors@.len() + count_false(
                default_flags(old(self).tweaks@, old(self).region@.len() as int),
                old(self).tweaks@.len() as int,
            ),
            forall|k: int|
                0 <= k < old(self).tweaks@.len() && wrapper_can_default(
                    #[trigger] old(self).tweaks@[k],
                    old(self).region@.len() as int,
                ) ==> wrapper_defaulted(old(self).tweaks@[k], final(self).tweaks@[k]),
            forall|k: int|
                0 <= k < old(self).tweaks@.len() && !wrapper_can_default(
                    #[trigger] old(self).tweaks@[k],
                    old(self).region@.len() as int,
                ) ==> {
                    let e = old(self).errors@.len() + count_false(
                        default_flags(old(self).tweaks@, old(self).region@.len() as int),
                        k,
                    );
                    &&& final(self).errors@[e].0@ == old(self).tweaks@[k].title@
                    &&& final(self).errors@[e].1 is Permission
                },
            final(self).errors@.len() == old(self).errors@.len() ==> final(self).region@
                == write_all(
                old(self).region@,
                registry_default_writes_prefix(old(self).tweaks@, old(self).tweaks@.len() as int),
            ),
            final(self).errors@.len() == old(self).errors@.len() ==> forall|k: int|
                0 <= k < old(self).tweaks@.len() ==> wrapper_defaulted_originals(
                    #[trigger] old(self).tweaks@[k],
                    final(self).tweaks@[k],
                    write_all(old(self).region@, registry_default_writes_prefix(old(self).tweaks@, k)),
                ),
    {
        let ghost prev_tweaks = self.tweaks@;
        let ghost prev_errors = self.errors@;
        let ghost region0 = self.region@;
        let ghost flags = default_flags(prev_tweaks, region0.len() as int);
        let n = self.tweaks.len();
        let mut i: usize = 0;
        while i < n
            invariant
                n == prev_tweaks.len(),
                n == self.tweaks@.len(),
                i <= n,
                prev_tweaks == old(self).tweaks@,
                prev_errors == old(self).errors@,
                region0 == old(self).region@,
                flags == default_flags(prev_tweaks, region0.len() as int),
                registry_wf(prev_tweaks),
                registry_wf(self.tweaks@),
                self.hooks == old(self).hooks,
                self.transform_edit == old(self).transform_edit,
                self.region@.len() == old(self).region@.len(),
                forall|k: int| 0 <= k < prev_errors.len() ==> self.errors@[k] == prev_errors[k],
                self.errors@.len() == prev_errors.len() + count_false(flags, i as int),
                forall|k: int| i <= k < n ==> self.tweaks@[k] == prev_tweaks[k],
                forall|k: int|
                    0 <= k < i && wrapper_can_default(
                        #[trigger] prev_tweaks[k],
                        region0.len() as int,
                    ) ==> wrapper_defaulted(prev_tweaks[k], self.tweaks@[k]),
                forall|k: int|
                    0 <= k < i && !wrapper_can_default(
                        #[trigger] prev_tweaks[k],
                        region0.len() as int,
                    ) ==> {
                        let e = prev_errors.len() + count_false(flags, k);
                        &&& self.errors@[e].0@ == prev_tweaks[k].title@
                        &&& self.errors@[e].1 is Permission
                    },
                self.errors@.len() == prev_errors.len() ==> self.region@ == write_all(
                    region0,
                    registry_default_writes_prefix(prev_tweaks, i as int),
                ),
                self.errors@.len() == prev_errors.len() ==> forall|k: int|
                    0 <= k < i ==> wrapper_defaulted_originals(
                        #[trigger] prev_tweaks[k],
                        self.tweaks@[k],
                        write_all(region0, registry_default_writes_prefix(prev_tweaks, k)),
                    ),
            decreases n - i,
        {
            let ghost pre_view = self.tweaks@;
            let ghost errs_before = self.errors@;
            proof {
                assert(self.tweaks@[i as int] == prev_tweaks[i as int]);
                assert(settings_wf(prev_tweaks[i as int].settings@));
            }
            let mut tw = self.tweaks.remove(i);
            let step = tw.reset_to_default(&mut self.region);
            let ghost failed = step is Err;
            match step {
                Ok(()) => {},
                Err(e) => {
                    let key = String::from_str(tw.title());
                    let ghost pre_push = self.errors@;
                    self.errors.push((key, e));
                    proof {
                        assert(pre_push == errs_before);
                        assert(self.errors@ == errs_before.push((key, e)));
                        assert(forall|x: int|
                            0 <= x < errs_before.len() ==> self.errors@[x] == errs_before[x]);
                    }
                },
            }
            self.tweaks.insert(i, tw);
            proof {
                assert(self.tweaks@ =~= pre_view.update(i as int, self.tweaks@[i as int]));
                lemma_count_false_mono(flags, 0, i as int);
                assert(self.errors@.len() == errs_before.len() + if failed {
                    1int
                } else {
                    0int
                });
                assert(forall|x: int|
                    0 <= x < errs_before.len() ==> self.errors@[x] == errs_before[x]);
                if !failed {
                    assert(self.errors@ == errs_before);
                }
                assert(flags[i as int] == wrapper_can_default(prev_tweaks[i as int], region0.len() as int));
                if failed {
                    assert(!wrapper_can_default(prev_tweaks[i as int], region0.len() as int));
                } else {
                    assert(wrapper_can_default(prev_tweaks[i as int], region0.len() as int));
                }
                assert forall|k: int|
                    0 <= k < i + 1 && !wrapper_can_default(
                        #[trigger] prev_tweaks[k],
                        region0.len() as int,
                    ) implies {
                    let e = prev_errors.len() + count_false(flags, k);
                    &&& self.errors@[e].0@ == prev_tweaks[k].title@
                    &&& self.errors@[e].1 is Permission
                } by {
                    let e = prev_errors.len() + count_false(flags, k);
                    lemma_count_false_mono(flags, 0, k);
                    assert(count_false(flags, k) >= 0);
                    if k < i {
                        assert(count_false(flags, k + 1) == count_false(flags, k) + 1);
                        lemma_count_false_mono(flags, k + 1, i as int);
                        assert(e < errs_before.len());
                        assert(self.errors@[e] == errs_before[e]);
                    } else {
                        assert(e == errs_before.len());
                    }
                }
                if self.errors@.len() == prev_errors.len() {
                    let ww = wrapper_default_writes_prefix(
                        prev_tweaks[i as int].settings@,
                        prev_tweaks[i as int].settings@.len() as int,
                    );
                    assert(registry_default_writes_prefix(prev_tweaks, i + 1) =~= registry_default_writes_prefix(prev_tweaks, i as int) + ww);
                    lemma_write_all_concat(region0, registry_default_writes_prefix(prev_tweaks, i as int), ww);
                }
            }
            i += 1;
        }
    }

    /// Drive every setting of every tweak back to its vanilla value. A
    /// tweak fails exactly when some of its settings cannot be applied
    /// inside the region; each failure appends one error keyed to that
    /// tweak's identity, in tweak order, and the rest are still driven.
    #[verifier::rlimit(100)]
    pub fn reset_all_to_vanilla(&mut self)
        requires
            registry_wf(old(self).tweaks@),
        ensures
            registry_wf(final(self).tweaks@),
            final(self).hooks == old(self).hooks,
            final(self).transform_edit == old(self).transform_edit,
            final(self).tweaks@.len() == old(self).tweaks@.len(),
            final(self).region@.len() == old(self).region@.len(),
            forall|k: int|
                0 <= k < old(self).errors@.len() ==> final(self).errors@[k] == old(self).errors@[k],
            final(self).errors@.len() == old(self).errors@.len() + count_false(
                vanilla_flags(old(self).tweaks@, old(self).region@.len() as int),
                old(self).tweaks@.len() as int,
            ),
            forall|k: int|
                0 <= k < old(self).tweaks@.len() && wrapper_can_vanilla(
                    #[trigger] old(self).tweaks@[k],
                    old(self).region@.len() as int,
                ) ==> wrapper_vanillaed(old(self).tweaks@[k], final(self).tweaks@[k]),
            forall|k: int|
                0 <= k < old(self).tweaks@.len() && !wrapper_can_vanilla(
                    #[trigger] old(self).tweaks@[k],
                    old(self).region@.len() as int,
                ) ==> {
                    let e = old(self).errors@.len() + count_false(
                        vanilla_flags(old(self).tweaks@, old(self).region@.len() as int),
                        k,
                    );
                    &&& final(self).errors@[e].0@ == old(self).tweaks@[k].title@
                    &&& final(self).errors@[e].1 is Permission
                },
            final(self).errors@.len() == old(self).errors@.len() ==> final(self).region@
                == write_all(
                old(self).region@,
                registry_vanilla_writes_prefix(old(self).tweaks@, old(self).tweaks@.len() as int),
            ),
            final(self).errors@.len() == old(self).errors@.len() ==> forall|k: int|
                0 <= k < old(self).tweaks@.len() ==> wrapper_vanillaed_originals(
                    #[trigger] old(self).tweaks@[k],
                    final(self).tweaks@[k],
                    write_all(old(self).region@, registry_vanilla_writes_prefix(old(self).tweaks@, k)),
                ),
    {
        let ghost prev_tweaks = self.tweaks@;
        let ghost prev_errors = self.errors@;
        let ghost region0 = self.region@;
        let ghost flags = vanilla_flags(prev_tweaks, region0.len() as int);
        let n = self.tweaks.len();
        let mut i: usize = 0;
        while i < n
            invariant
                n == prev_tweaks.len(),
                n == self.tweaks@.len(),
                i <= n,
                prev_tweaks == old(self).tweaks@,
                prev_errors == old(self).errors@,
                region0 == old(self).region@,
                flags == vanilla_flags(prev_tweaks, region0.len() as int),
                registry_wf(prev_tweaks),
                registry_wf(self.tweaks@),
                self.hooks == old(self).hooks,
                self.transform_edit == old(self).transform_edit,
                self.region@.len() == old(self).region@.len(),
                forall|k: int| 0 <= k < prev_errors.len() ==> self.errors@[k] == prev_errors[k],
                self.errors@.len() == prev_errors.len() + count_false(flags, i as int),
                forall|k: int| i <= k < n ==> self.tweaks@[k] == prev_tweaks[k],
                forall|k: int|
                    0 <= k < i && wrapper_can_vanilla(
                        #[trigger] prev_tweaks[k],
                        region0.len() as int,
                    ) ==> wrapper_vanillaed(prev_tweaks[k], self.tweaks@[k]),
                forall|k: int|
                    0 <= k < i && !wrapper_can_vanilla(
                        #[trigger] prev_tweaks[k],
                        region0.len() as int,
                    ) ==> {
                        let e = prev_errors.len() + count_false(flags, k);
                        &&& self.errors@[e].0@ == prev_tweaks[k].title@
                        &&& self.errors@[e].1 is Permission
                    },
                self.errors@.len() == prev_errors.len() ==> self.region@ == write_all(
                    region0,
                    registry_vanilla_writes_prefix(prev_tweaks, i as int),
                ),
                self.errors@.len() == prev_errors.len() ==> forall|k: int|
                    0 <= k < i ==> wrapper_vanillaed_originals(
                        #[trigger] prev_tweaks[k],
                        self.tweaks@[k],
                        write_all(region0, registry_vanilla_writes_prefix(prev_tweaks, k)),
                    ),
            decreases n - i,
        {
            let ghost pre_view = self.tweaks@;
            let ghost errs_before = self.errors@;
            proof {
                assert(self.tweaks@[i as int] == prev_tweaks[i as int]);
                assert(settings_wf(prev_tweaks[i as int].settings@));
            }
            let mut tw = self.tweaks.remove(i);
            let step = tw.reset_to_vanilla(&mut self.region);
            let ghost failed = step is Err;
            match step {
                Ok(()) => {},
                Err(e) => {
                    let key = String::from_str(tw.title());
                    self.errors.push((key, e));
                },
            }
            self.tweaks.insert(i, tw);
            proof {
                assert(self.tweaks@ =~= pre_view.update(i as int, self.tweaks@[i as int]));
                lemma_count_false_mono(flags, 0, i as int);
                assert(self.errors@.len() == errs_before.len() + if failed {
                    1int
                } else {
                    0int
                });
                assert(forall|x: int|
                    0 <= x < errs_before.len() ==> self.errors@[x] == errs_before[x]);
                if !failed {
                    assert(self.errors@ == errs_before);
                }
                assert(flags[i as int] == wrapper_can_vanilla(prev_tweaks[i as int], region0.len() as int));
                if failed {
                    assert(!wrapper_can_vanilla(prev_tweaks[i as int], region0.len() as int));
                } else {
                    assert(wrapper_can_vanilla(prev_tweaks[i as int], region0.len() as int));
                }
                assert forall|k: int|
                    0 <= k < i + 1 && !wrapper_can_vanilla(
                        #[trigger] prev_tweaks[k],
                        region0.len() as int,
                    ) implies {
                    let e = prev_errors.len() + count_false(flags, k);
                    &&& self.errors@[e].0@ == prev_tweaks[k].title@
                    &&& self.errors@[e].1 is Permission
                } by {
                    let e = prev_errors.len() + count_false(flags, k);
                    lemma_count_false_mono(flags, 0, k);
                    assert(count_false(flags, k) >= 0);
                    if k < i {
                        assert(count_false(flags, k + 1) == count_false(flags, k) + 1);
                        lemma_count_false_mono(flags, k + 1, i as int);
                        assert(e < errs_before.len());
                        assert(self.errors@[e] == errs_before[e]);
                    } else {
                        assert(e == errs_before.len());
                    }
                }
                if self.errors@.len() == prev_errors.len() {
                    let ww = wrapper_vanilla_writes_prefix(
                        prev_tweaks[i as int].settings@,
                        prev_tweaks[i as int].settings@.len() as int,
                    );
                    assert(registry_vanilla_writes_prefix(prev_tweaks, i + 1) =~= registry_vanilla_writes_prefix(prev_tweaks, i as int) + ww);
                    lemma_write_all_concat(region0, registry_vanilla_writes_prefix(prev_tweaks, i as int), ww);
                }
            }
            i += 1;
        }
    }

    /// Tear down every tweak's effects, leaving values as they are; safe
    /// to call when some effects were never enabled. A tweak — or the
    /// transform-editing state — fails exactly when some applied patch no
    /// longer fits the region; each failure appends one error keyed to its
    /// identity, and the rest are still torn down. Returns whether
    /// everything tore down cleanly, so the caller knows the registry is
    /// ready for full teardown.
    #[verifier::rlimit(100)]
    pub fn uninit_all(&mut self) -> (clean: bool)
        requires
            registry_wf(old(self).tweaks@),
            old(self).transform_edit matches Some(t) ==> transform_edit_wf(t),
        ensures
            registry_wf(final(self).tweaks@),
            final(self).hooks == old(self).hooks,
            final(self).tweaks@.len() == old(self).tweaks@.len(),
            final(self).region@.len() == old(self).region@.len(),
            forall|k: int|
                0 <= k < old(self).errors@.len() ==> final(self).errors@[k] == old(self).errors@[k],
            final(self).errors@.len() == old(self).errors@.len() + count_false(
                uninit_flags(old(self).tweaks@, old(self).region@.len() as int),
                old(self).tweaks@.len() as int,
            ) + transform_uninit_failures(
                old(self).transform_edit,
                old(self).region@.len() as int,
            ),
            forall|k: int|
                0 <= k < old(self).tweaks@.len() && wrapper_can_uninit(
                    #[trigger] old(self).tweaks@[k],
                    old(self).region@.len() as int,
                ) ==> wrapper_uninited(old(self).tweaks@[k], final(self).tweaks@[k]),
            forall|k: int|
                0 <= k < old(self).tweaks@.len() && !wrapper_can_uninit(
                    #[trigger] old(self).tweaks@[k],
                    old(self).region@.len() as int,
                ) ==> {
                    let e = old(self).errors@.len() + count_false(
                        uninit_flags(old(self).tweaks@, old(self).region@.len() as int),
                        k,
                    );
                    &&& final(self).errors@[e].0@ == old(self).tweaks@[k].title@
                    &&& final(self).errors@[e].1 is Permission
                },
            match old(self).transform_edit {
                Some(t) => {
                    &&& final(self).transform_edit matches Some(t2)
                    &&& if transform_can_uninit(t, old(self).region@.len() as int) {
                        &&& !final(self).transform_edit->Some_0.disable_quaternion_slerp
                        &&& !final(self).transform_edit->Some_0.disable_quaternion_slerp_injection.is_applied()
                        &&& !final(self).transform_edit->Some_0.safety_check_inject.is_applied()
                    } else {
                        &&& final(self).transform_edit == old(self).transform_edit
                        &&& final(self).errors@.last().0@
                            == TransformEditTweak::spec_config_id()
                        &&& final(self).errors@.last().1 is Permission
                    }
                },
                None => final(self).transform_edit is None,
            },
            clean <==> final(self).errors@.len() == old(self).errors@.len(),
    {
        let ghost prev_tweaks = self.tweaks@;
        let ghost prev_errors = self.errors@;
        let ghost region0 = self.region@;
        let ghost flags = uninit_flags(prev_tweaks, region0.len() as int);
        let n = self.tweaks.len();
        let mut clean = true;
        let mut i: usize = 0;
        while i < n
            invariant
                n == prev_tweaks.len(),
                n == self.tweaks@.len(),
                i <= n,
                prev_tweaks == old(self).tweaks@,
                prev_errors == old(self).errors@,
                region0 == old(self).region@,
                flags == uninit_flags(prev_tweaks, region0.len() as int),
                registry_wf(prev_tweaks),
                registry_wf(self.tweaks@),
                self.hooks == old(self).hooks,
                self.transform_edit == old(self).transform_edit,
                self.region@.len() == old(self).region@.len(),
                forall|k: int| 0 <= k < prev_errors.len() ==> self.errors@[k] == prev_errors[k],
                self.errors@.len() == prev_errors.len() + count_false(flags, i as int),
                clean <==> self.errors@.len() == prev_errors.len(),
                forall|k: int| i <= k < n ==> self.tweaks@[k] == prev_tweaks[k],
                forall|k: int|
                    0 <= k < i && wrapper_can_uninit(
                        #[trigger] prev_tweaks[k],
                        region0.len() as int,
                    ) ==> wrapper_uninited(prev_tweaks[k], self.tweaks@[k]),
                forall|k: int|
                    0 <= k < i && !wrapper_can_uninit(
                        #[trigger] prev_tweaks[k],
                        region0.len() as int,
                    ) ==> {
                        let e = prev_errors.len() + count_false(flags, k);
                        &&& self.errors@[e].0@ == prev_tweaks[k].title@
                        &&& self.errors@[e].1 is Permission
                    },
            decreases n - i,
        {
            let ghost pre_view = self.tweaks@;
            let ghost errs_before = self.errors@;
            proof {
                assert(self.tweaks@[i as int] == prev_tweaks[i as int]);
                assert(settings_wf(prev_tweaks[i as int].settings@));
            }
            let mut tw = self.tweaks.remove(i);
            let step = tw.uninit(&mut self.region);
            let ghost failed = step is Err;
            match step {
                Ok(()) => {},
                Err(e) => {
                    let key = String::from_str(tw.title());
                    self.errors.push((key, e));
                    clean = false;
                },
            }
            self.tweaks.insert(i, tw);
            proof {
                assert(self.tweaks@ =~= pre_view.update(i as int, self.tweaks@[i as int]));
                lemma_count_false_mono(flags, 0, i as int);
                assert(self.errors@.len() == errs_before.len() + if failed {
                    1int
                } else {
                    0int
                });
                assert(forall|x: int|
                    0 <= x < errs_before.len() ==> self.errors@[x] == errs_before[x]);
                if !failed {
                    assert(self.errors@ == errs_before);
                }
                assert(flags[i as int] == wrapper_can_uninit(
                    prev_tweaks[i as int],
                    region0.len() as int,
                ));
                if failed {
                    assert(!wrapper_can_uninit(prev_tweaks[i as int], region0.len() as int));
                } else {
                    assert(wrapper_can_uninit(prev_tweaks[i as int], region0.len() as int));
                }
                assert forall|k: int|
                    0 <= k < i + 1 && !wrapper_can_uninit(
                        #[trigger] prev_tweaks[k],
                        region0.len() as int,
                    ) implies {
                    let e = prev_errors.len() + count_false(flags, k);
                    &&& self.errors@[e].0@ == prev_tweaks[k].title@
                    &&& self.errors@[e].1 is Permission
                } by {
                    let e = prev_errors.len() + count_false(flags, k);
                    lemma_count_false_mono(flags, 0, k);
                    assert(count_false(flags, k) >= 0);
                    if k < i {
                        assert(count_false(flags, k + 1) == count_false(flags, k) + 1);
                        lemma_count_false_mono(flags, k + 1, i as int);
                        assert(e < errs_before.len());
                        assert(self.errors@[e] == errs_before[e]);
                    } else {
                        assert(e == errs_before.len());
                    }
                }
            }
            i += 1;
        }
        // the transform-editing tweak keeps two patches of its own outside
        // any setting; tear them down too
        let ghost errs_after_loop = self.errors@;
        proof {
            lemma_count_false_mono(flags, 0, n as int);
        }
        match &mut self.transform_edit {
            Some(t) => {
                match t.uninit(&mut self.region) {
                    Ok(()) => {},
                    Err(e) => {
                        let key = String::from_str(TransformEditTweak::config_id());
                        self.errors.push((key, TweakError::Permission(e)));
                        clean = false;
                    },
                }
            },
            None => {},
        }
        proof {
            assert(forall|x: int|
                0 <= x < errs_after_loop.len() ==> self.errors@[x] == errs_after_loop[x]);
            assert forall|k: int|
                0 <= k < n && !wrapper_can_uninit(
                    #[trigger] prev_tweaks[k],
                    region0.len() as int,
                ) implies {
                let e = prev_errors.len() + count_false(flags, k);
                &&& self.errors@[e].0@ == prev_tweaks[k].title@
                &&& self.errors@[e].1 is Permission
            } by {
                let e = prev_errors.len() + count_false(flags, k);
                lemma_count_false_mono(flags, 0, k);
                assert(count_false(flags, k + 1) == count_false(flags, k) + 1);
                lemma_count_false_mono(flags, k + 1, n as int);
                assert(e < errs_after_loop.len());
                assert(self.errors@[e] == errs_after_loop[e]);
            }
        }
        clean
    }

    /// Store every tweak's settings into a fresh document, one section per
    /// tweak, keyed by the tweak's identity.
    pub fn save_config(&self) -> (r: ConfigDoc)
        ensures
            r@.len() == self.tweaks@.len(),
            forall|j: int|
                0 <= j < self.tweaks@.len() ==> {
                    &&& (#[trigger] r@[j]).0@ == self.tweaks@[j].title@
                    &&& r@[j].1.wf()
                    &&& r@[j].1@ == crate::tweaks::wrapper_saved_map_prefix(
                        self.tweaks@[j].settings@,
                        self.tweaks@[j].settings@.len() as int,
                    )
                },
    {
        let mut doc: ConfigDoc = Vec::new();
        let n = self.tweaks.len();
        let mut i: usize = 0;
        while i < n
            invariant
                n == self.tweaks@.len(),
                i <= n,
                doc@.len() == i,
                forall|j: int|
                    0 <= j < i ==> {
                        &&& (#[trigger] doc@[j]).0@ == self.tweaks@[j].title@
                        &&& doc@[j].1.wf()
                        &&& doc@[j].1@ == crate::tweaks::wrapper_saved_map_prefix(
                            self.tweaks@[j].settings@,
                            self.tweaks@[j].settings@.len() as int,
                        )
                    },
            decreases n - i,
        {
            let table = self.tweaks[i].save_config();
            let key = String::from_str(self.tweaks[i].title());
            doc.push((key, table));
            i += 1;
        }
        doc
    }

    /// Load every tweak's settings from the first section of the document
    /// keyed by its identity, if one exists; tweaks without a section are
    /// left as they are. A tweak fails exactly when some stored value does
    /// not fit its setting or cannot be applied; each failure appends one
    /// error keyed to that tweak's identity, and the rest still load.
    #[verifier::rlimit(100)]
    pub fn load_config(&mut self, doc: &ConfigDoc)
        requires
            registry_wf(old(self).tweaks@),
            forall|j: int| 0 <= j < doc@.len() ==> (#[trigger] doc@[j]).1.wf(),
        ensures
            registry_wf(final(self).tweaks@),
            final(self).hooks == old(self).hooks,
            final(self).transform_edit == old(self).transform_edit,
            final(self).tweaks@.len() == old(self).tweaks@.len(),
            final(self).region@.len() == old(self).region@.len(),
            forall|k: int|
                0 <= k < old(self).errors@.len() ==> final(self).errors@[k] == old(self).errors@[k],
            final(self).errors@.len() == old(self).errors@.len() + count_false(
                load_flags(old(self).tweaks@, doc@, old(self).region@.len() as int),
                old(self).tweaks@.len() as int,
            ),
            forall|k: int|
                0 <= k < old(self).tweaks@.len() && doc_section(
                    doc@,
                    (#[trigger] old(self).tweaks@[k]).title@,
                ) is None ==> final(self).tweaks@[k] == old(self).tweaks@[k],
            forall|k: int|
                0 <= k < old(self).tweaks@.len() && (doc_section(
                    doc@,
                    (#[trigger] old(self).tweaks@[k]).title@,
                ) matches Some(t)) && wrapper_can_load(
                    old(self).tweaks@[k],
                    doc_section(doc@, old(self).tweaks@[k].title@)->Some_0@,
                    old(self).region@.len() as int,
                ) ==> {
                    &&& final(self).tweaks@[k].title == old(self).tweaks@[k].title
                    &&& final(self).tweaks@[k].category == old(self).tweaks@[k].category
                    &&& final(self).tweaks@[k].settings@.len() == old(
                        self,
                    ).tweaks@[k].settings@.len()
                    &&& forall|j: int|
                        0 <= j < old(self).tweaks@[k].settings@.len() ==> setting_load_state(
                            #[trigger] old(self).tweaks@[k].settings@[j],
                            final(self).tweaks@[k].settings@[j],
                            doc_section(doc@, old(self).tweaks@[k].title@)->Some_0@,
                        )
                },
            forall|k: int|
                0 <= k < old(self).tweaks@.len() && !load_flags(
                    old(self).tweaks@,
                    doc@,
                    old(self).region@.len() as int,
                )[k] ==> {
                    let e = old(self).errors@.len() + count_false(
                        load_flags(old(self).tweaks@, doc@, old(self).region@.len() as int),
                        k,
                    );
                    (#[trigger] old(self).tweaks@[k]).title@ == final(self).errors@[e].0@
                },
    {
        let ghost prev_tweaks = self.tweaks@;
        let ghost prev_errors = self.errors@;
        let ghost region0 = self.region@;
        let ghost flags = load_flags(prev_tweaks, doc@, region0.len() as int);
        let n = self.tweaks.len();
        let mut i: usize = 0;
        while i < n
            invariant
                n == prev_tweaks.len(),
                n == self.tweaks@.len(),
                i <= n,
                prev_tweaks == old(self).tweaks@,
                prev_errors == old(self).errors@,
                region0 == old(self).region@,
                flags == load_flags(prev_tweaks, doc@, region0.len() as int),
                registry_wf(prev_tweaks),
                registry_wf(self.tweaks@),
                forall|j: int| 0 <= j < doc@.len() ==> (#[trigger] doc@[j]).1.wf(),
                self.hooks == old(self).hooks,
                self.transform_edit == old(self).transform_edit,
                self.region@.len() == old(self).region@.len(),
                forall|k: int| 0 <= k < prev_errors.len() ==> self.errors@[k] == prev_errors[k],
                self.errors@.len() == prev_errors.len() + count_false(flags, i as int),
                forall|k: int| i <= k < n ==> self.tweaks@[k] == prev_tweaks[k],
                forall|k: int|
                    0 <= k < i && doc_section(doc@, (#[trigger] prev_tweaks[k]).title@) is None
                        ==> self.tweaks@[k] == prev_tweaks[k],
                forall|k: int|
                    0 <= k < i && (doc_section(doc@, (#[trigger] prev_tweaks[k]).title@)
                        matches Some(t)) && wrapper_can_load(
                        prev_tweaks[k],
                        doc_section(doc@, prev_tweaks[k].title@)->Some_0@,
                        region0.len() as int,
                    ) ==> {
                        &&& self.tweaks@[k].title == prev_tweaks[k].title
                        &&& self.tweaks@[k].category == prev_tweaks[k].category
                        &&& self.tweaks@[k].settings@.len() == prev_tweaks[k].settings@.len()
                        &&& forall|j: int|
                            0 <= j < prev_tweaks[k].settings@.len() ==> setting_load_state(
                                #[trigger] prev_tweaks[k].settings@[j],
                                self.tweaks@[k].settings@[j],
                                doc_section(doc@, prev_tweaks[k].title@)->Some_0@,
                            )
                    },
                forall|k: int|
                    0 <= k < i && !flags[k] ==> {
                        let e = prev_errors.len() + count_false(flags, k);
                        (#[trigger] prev_tweaks[k]).title@ == self.errors@[e].0@
                    },
            decreases n - i,
        {
            let ghost pre_view = self.tweaks@;
            let ghost errs_before = self.errors@;
            proof {
                assert(self.tweaks@[i as int] == prev_tweaks[i as int]);
                assert(settings_wf(prev_tweaks[i as int].settings@));
            }
            let mut tw = self.tweaks.remove(i);
            // find this tweak's section, if any: the first with its title
            let dn = doc.len();
            let mut found: Option<usize> = None;
            let mut d: usize = 0;
            proof {
                assert(doc@.skip(0) =~= doc@);
            }
            while d < dn
                invariant
                    dn == doc@.len(),
                    d <= dn,
                    match found {
                        Some(x) => x < dn && doc@[x as int].0@ == tw.title@ && doc_section(
                            doc@,
                            tw.title@,
                        ) == Some(doc@[x as int].1),
                        None => doc_section(doc@, tw.title@) == doc_section(
                            doc@.skip(d as int),
                            tw.title@,
                        ),
                    },
                decreases dn - d,
            {
                if found.is_none() {
                    proof {
                        assert(doc@.skip(d as int).first() == doc@[d as int]);
                        assert(doc@.skip(d as int).drop_first() =~= doc@.skip(d + 1));
                    }
                    if doc[d].0 == tw.title {
                        found = Some(d);
                    }
                }
                d += 1;
            }
            let ghost failed = false;
            let mut step_failed = false;
            match found {
                Some(x) => {
                    let step = tw.load_config(&doc[x].1, &mut self.region);
                    match step {
                        Ok(()) => {},
                        Err(_) => {
                            step_failed = true;
                            let key = String::from_str(tw.title());
                            let e = match step {
                                Ok(()) => TweakError::OutOfBounds,
                                Err(er) => er,
                            };
                            self.errors.push((key, e));
                        },
                    }
                },
                None => {
                    proof {
                        assert(doc_section(doc@.skip(dn as int), tw.title@) is None);
                    }
                },
            }
            self.tweaks.insert(i, tw);
            proof {
                assert(self.tweaks@ =~= pre_view.update(i as int, self.tweaks@[i as int]));
                lemma_count_false_mono(flags, 0, i as int);
                assert(self.errors@.len() == errs_before.len() + if step_failed {
                    1int
                } else {
                    0int
                });
                assert(forall|x: int|
                    0 <= x < errs_before.len() ==> self.errors@[x] == errs_before[x]);
                assert(flags[i as int] == match doc_section(doc@, prev_tweaks[i as int].title@) {
                    None => true,
                    Some(t) => wrapper_can_load(
                        prev_tweaks[i as int],
                        t@,
                        region0.len() as int,
                    ) && wrapper_load_fits(prev_tweaks[i as int], t@),
                });
                assert(step_failed == !flags[i as int]);
                assert forall|k: int|
                    0 <= k < i + 1 && !flags[k] implies {
                    let e = prev_errors.len() + count_false(flags, k);
                    (#[trigger] prev_tweaks[k]).title@ == self.errors@[e].0@
                } by {
                    let e = prev_errors.len() + count_false(flags, k);
                    lemma_count_false_mono(flags, 0, k);
                    assert(count_false(flags, k) >= 0);
                    if k < i {
                        assert(count_false(flags, k + 1) == count_false(flags, k) + 1);
                        lemma_count_false_mono(flags, k + 1, i as int);
                        assert(e < errs_before.len());
                        assert(self.errors@[e] == errs_before[e]);
                    } else {
                        assert(e == errs_before.len());
                    }
                }
            }
            i += 1;
        }
    }
}

} // verus!
