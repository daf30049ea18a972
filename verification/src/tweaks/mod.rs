//! Tweaks: named bundles of settings and effects built once against a
//! scanned memory region, plus the builder that resolves signatures into
//! patch addresses.

use vstd::prelude::*;
use crate::config::ConfigTable;
use crate::injections::{Injection, NumberInjection, encode_le, le_bytes};
use crate::memory::{
    MemoryPattern, MemoryRegion, PermissionError, is_scan_result, lemma_write_all_concat,
    lemma_write_all_len, pattern_matches_at, write_all,
};

pub mod dev_mode;
pub mod editor_placement;
pub mod editor_show_hidden;
pub mod fast_loading_animations;
pub mod fullscreen;
pub mod map_lag;
pub mod multithreaded_loading;
pub mod settings;
pub mod transform_edit;

use settings::{
    Setting, setting_applied_state, setting_can_apply, setting_load_originals,
    setting_load_state, setting_load_value, setting_load_writes, setting_originals, setting_save,
    setting_uninit_state, setting_uninit_writes, setting_wf, setting_writes,
};

verus! {

/// Failure of a scan that must resolve a signature to exactly one offset:
/// the target module's layout no longer matches this tool's assumptions.
#[derive(Clone, Copy, PartialEq, Eq, Structural, Debug)]
pub enum ScanAOBSingleError {
    /// The signature matched nowhere.
    NoMatches,
    /// The signature matched at more than one offset.
    MultipleMatches,
}

/// `r` classifies the offsets of `mem` matching `pat`: the unique matching
/// offset, or the reason there is no unique one.
pub open spec fn is_scan_single_result(
    mem: Seq<u8>,
    pat: Seq<Option<u8>>,
    r: Result<usize, ScanAOBSingleError>,
) -> bool {
    match r {
        Ok(pos) => pattern_matches_at(mem, pat, pos as int) && (forall|q: int|
            pattern_matches_at(mem, pat, q) ==> q == pos),
        Err(ScanAOBSingleError::NoMatches) => forall|q: int| !pattern_matches_at(mem, pat, q),
        Err(ScanAOBSingleError::MultipleMatches) => exists|q1: int, q2: int|
            q1 != q2 && pattern_matches_at(mem, pat, q1) && pattern_matches_at(mem, pat, q2),
    }
}

impl MemoryRegion {
    /// The unique offset where `pat` matches this region; `NoMatches` if it
    /// matches nowhere and `MultipleMatches` if the signature is ambiguous.
    pub fn scan_aob_single(&self, pat: &MemoryPattern) -> (r: Result<usize, ScanAOBSingleError>)
        ensures
            is_scan_single_result(self@, pat@, r),
    {
        // pins the region's length under the machine word size, which the
        // offset casts below rely on
        let region_len = self.len();
        let matches = self.scan_aob_all_matches(pat);
        if matches.len() == 0 {
            proof {
                assert forall|q: int| !pattern_matches_at(self@, pat@, q) by {
                    if pattern_matches_at(self@, pat@, q) {
                        assert(matches@.contains(q as usize));
                    }
                }
            }
            Err(ScanAOBSingleError::NoMatches)
        } else if matches.len() == 1 {
            proof {
                assert forall|q: int| pattern_matches_at(self@, pat@, q) implies q
                    == matches@[0] by {
                    let j = choose|j: int|
                        0 <= j < matches@.len() && matches@[j] == q as usize;
                    assert(matches@[j] == q as usize);
                }
            }
            Ok(matches[0])
        } else {
            proof {
                assert(matches@[0] < matches@[1]);
                assert(pattern_matches_at(self@, pat@, matches@[0] as int));
                assert(pattern_matches_at(self@, pat@, matches@[1] as int));
            }
            Err(ScanAOBSingleError::MultipleMatches)
        }
    }
}

/// Law: the unique-scan classification agrees with the full scan. For any
/// region and signature, `NoMatches` comes exactly when the full scan is
/// empty, `MultipleMatches` exactly when it holds more than one offset, and
/// a single-offset scan yields that offset.
pub proof fn lemma_scan_single_matches_scan_all(
    mem: Seq<u8>,
    pat: Seq<Option<u8>>,
    all: Seq<usize>,
    single: Result<usize, ScanAOBSingleError>,
)
    requires
        mem.len() <= usize::MAX,
        is_scan_result(mem, pat, all),
        is_scan_single_result(mem, pat, single),
    ensures
        single == Err::<usize, ScanAOBSingleError>(ScanAOBSingleError::NoMatches) <==> all.len()
            == 0,
        single == Err::<usize, ScanAOBSingleError>(ScanAOBSingleError::MultipleMatches)
            <==> all.len() > 1,
        all.len() == 1 ==> single == Ok::<usize, ScanAOBSingleError>(all[0]),
{
    if all.len() == 0 {
        assert forall|q: int| !pattern_matches_at(mem, pat, q) by {
            if pattern_matches_at(mem, pat, q) {
                assert(all.contains(q as usize));
            }
        }
        match single {
            Ok(pos) => {
                assert(false);
            },
            Err(ScanAOBSingleError::NoMatches) => {},
            Err(ScanAOBSingleError::MultipleMatches) => {
                let (q1, q2) = choose|q1: int, q2: int|
                    q1 != q2 && pattern_matches_at(mem, pat, q1) && pattern_matches_at(
                        mem,
                        pat,
                        q2,
                    );
                assert(false);
            },
        }
    } else if all.len() == 1 {
        assert(pattern_matches_at(mem, pat, all[0] as int));
        match single {
            Ok(pos) => {
                assert(pos == all[0]);
            },
            Err(ScanAOBSingleError::NoMatches) => {
                assert(false);
            },
            Err(ScanAOBSingleError::MultipleMatches) => {
                let (q1, q2) = choose|q1: int, q2: int|
                    q1 != q2 && pattern_matches_at(mem, pat, q1) && pattern_matches_at(
                        mem,
                        pat,
                        q2,
                    );
                let j1 = choose|j: int| 0 <= j < all.len() && all[j] == q1 as usize;
                let j2 = choose|j: int| 0 <= j < all.len() && all[j] == q2 as usize;
                assert(j1 == 0 && j2 == 0);
                assert(false);
            },
        }
    } else {
        assert(all[0] < all[1]);
        assert(pattern_matches_at(mem, pat, all[0] as int));
        assert(pattern_matches_at(mem, pat, all[1] as int));
        match single {
            Ok(pos) => {
                assert(all[0] as int == pos && all[1] as int == pos);
                assert(false);
            },
            Err(ScanAOBSingleError::NoMatches) => {
                assert(false);
            },
            Err(ScanAOBSingleError::MultipleMatches) => {},
        }
    }
}

/// Does `pat` match `mem` at exactly one offset?
pub open spec fn unique_match(mem: Seq<u8>, pat: Seq<Option<u8>>) -> bool {
    exists|pos: int|
        (#[trigger] pattern_matches_at(mem, pat, pos)) && (forall|q: int|
            pattern_matches_at(mem, pat, q) ==> q == pos)
}

/// A scan that failed rules a unique match out.
pub proof fn lemma_scan_err_not_unique(mem: Seq<u8>, pat: Seq<Option<u8>>, e: ScanAOBSingleError)
    requires
        is_scan_single_result(mem, pat, Err::<usize, ScanAOBSingleError>(e)),
    ensures
        !unique_match(mem, pat),
{
    if unique_match(mem, pat) {
        let pos = choose|pos: int|
            (#[trigger] pattern_matches_at(mem, pat, pos)) && (forall|q: int|
                pattern_matches_at(mem, pat, q) ==> q == pos);
        match e {
            ScanAOBSingleError::NoMatches => {
                assert(false);
            },
            ScanAOBSingleError::MultipleMatches => {
                let (q1, q2) = choose|q1: int, q2: int|
                    q1 != q2 && pattern_matches_at(mem, pat, q1) && pattern_matches_at(
                        mem,
                        pat,
                        q2,
                    );
                assert(false);
            },
        }
    }
}

/// The two baseline values of a setting: the tool's recommended value and
/// the unmodified original behaviour.
#[derive(Debug, Clone, Copy, PartialEq, Eq)]
pub struct Defaults<T> {
    /// The tool's opinionated default.
    pub default: T,
    /// The value matching the unmodified original behaviour.
    pub vanilla: T,
}

impl<T> Defaults<T> {
    /// Bundle the two baseline values.
    pub fn new(default: T, vanilla: T) -> (r: Defaults<T>)
        ensures
            r.default == default,
            r.vanilla == vanilla,
    {
        Defaults { default, vanilla }
    }
}

/// Where a patch lands relative to a matched signature.
#[derive(Debug, Clone, Copy, PartialEq, Eq)]
pub enum InjectAt {
    /// At the first byte of the match.
    Start,
    /// A signed offset from the first byte of the match.
    StartOffset(isize),
    /// At the end of the match, minus the length of the injected bytes.
    End,
    /// A signed offset from that end position.
    EndOffset(isize),
}

/// The patch offset implied by anchoring mode `at`, for a signature of
/// `pat_len` bytes matched at `pos` and an injection of `inject_len` bytes.
pub open spec fn inject_entry(pos: int, pat_len: int, inject_len: int, at: InjectAt) -> int {
    match at {
        InjectAt::Start => pos,
        InjectAt::StartOffset(o) => pos + o,
        InjectAt::End => pos + pat_len - inject_len,
        InjectAt::EndOffset(o) => pos + pat_len - inject_len + o,
    }
}

/// Failure to install a function interception.
#[derive(Clone, Copy, PartialEq, Eq, Structural, Debug)]
pub struct DetourError;

/// A function interception by enable/disable state: `enable` redirects
/// control flow at the target to the hook, `disable` restores it. The
/// trampoline — the replayed original prologue — stays callable in both
/// states, so in-flight calls that captured it keep resolving.
pub trait DetourUntyped {
    /// Whether the redirection is currently in force.
    spec fn detour_enabled(&self) -> bool;

    /// Put the redirection in force.
    fn enable(&mut self) -> (r: Result<(), DetourError>)
        ensures
            match r {
                Ok(()) => final(self).detour_enabled(),
                Err(_) => final(self).detour_enabled() == old(self).detour_enabled(),
            },
    ;

    /// Withdraw the redirection.
    fn disable(&mut self) -> (r: Result<(), DetourError>)
        ensures
            match r {
                Ok(()) => !final(self).detour_enabled(),
                Err(_) => final(self).detour_enabled() == old(self).detour_enabled(),
            },
    ;
}

/// The interception state for one detoured function: which address is
/// intercepted, where its hook lives, and whether the redirection is in
/// force. The instruction-level rewriting of the function prologue, and the
/// generated trampoline thunk, are the platform layer's concern; this state
/// machine decides what that layer must hold at any moment.
pub struct Detour {
    /// Offset of the intercepted function's entry within the region.
    pub target_address: usize,
    /// Address of the replacement logic control flow is redirected to.
    pub hook_address: usize,
    /// Whether calls to the target are currently redirected to the hook.
    pub enabled: bool,
}

impl Detour {
    /// Capture an interception of `target_address` by `hook_address`,
    /// initially disabled. The trampoline to the original code is captured
    /// at install time and remains valid in both states.
    pub fn install(target_address: usize, hook_address: usize) -> (r: Detour)
        ensures
            r.target_address == target_address,
            r.hook_address == hook_address,
            !r.enabled,
    {
        Detour { target_address, hook_address, enabled: false }
    }

    /// Put the redirection in force; idempotent.
    pub fn enable(&mut self) -> (r: Result<(), DetourError>)
        ensures
            r == Ok::<(), DetourError>(()),
            final(self).enabled,
            final(self).target_address == old(self).target_address,
            final(self).hook_address == old(self).hook_address,
    {
        self.enabled = true;
        Ok(())
    }

    /// Withdraw the redirection; idempotent. The trampoline stays callable.
    pub fn disable(&mut self) -> (r: Result<(), DetourError>)
        ensures
            r == Ok::<(), DetourError>(()),
            !final(self).enabled,
            final(self).target_address == old(self).target_address,
            final(self).hook_address == old(self).hook_address,
    {
        self.enabled = false;
        Ok(())
    }
}

impl DetourUntyped for Detour {
    open spec fn detour_enabled(&self) -> bool {
        self.enabled
    }

    fn enable(&mut self) -> (r: Result<(), DetourError>) {
        Detour::enable(self)
    }

    fn disable(&mut self) -> (r: Result<(), DetourError>) {
        Detour::disable(self)
    }
}

/// Why a tweak could not be built or driven: the error taxonomy of
/// construction and runtime toggling, attributed to one tweak at the
/// registry level.
#[derive(Clone, Copy, PartialEq, Eq, Structural, Debug)]
pub enum TweakError {
    /// A signature did not resolve to exactly one offset.
    Scan(ScanAOBSingleError),
    /// A resolved patch span does not lie inside the region.
    OutOfBounds,
    /// Write access to a patch span could not be obtained.
    Permission(PermissionError),
    /// A required hook address was never registered.
    MissingHook,
    /// A function interception could not be installed.
    Detour(DetourError),
    /// A persisted value did not fit the setting it is keyed to.
    Config(crate::config::ConfigError),
}

/// Gives a tweak type the identity its configuration section and its
/// errors are keyed by.
pub trait TweakConfig {
    /// The identity of the tweak, as a specification value.
    spec fn spec_config_id() -> Seq<char>;

    /// The identity of the tweak.
    fn config_id() -> (r: &'static str)
        ensures
            r@ == Self::spec_config_id(),
    ;
}

/// The address a hook table binds to `name`: the first registration wins.
pub open spec fn hook_lookup(entries: Seq<(String, usize)>, name: Seq<char>) -> Option<usize>
    decreases entries.len(),
{
    if entries.len() == 0 {
        None
    } else if entries.first().0@ == name {
        Some(entries.first().1)
    } else {
        hook_lookup(entries.drop_first(), name)
    }
}

/// The controlled registration step for hook functions: the platform layer
/// registers each hook's address under a name before tweaks are built, and
/// construction looks the addresses up instead of reaching for ambient
/// globals.
pub struct HookTable {
    /// Name/address pairs, in registration order.
    pub entries: Vec<(String, usize)>,
}

impl HookTable {
    /// An empty table.
    pub fn new() -> (r: HookTable)
        ensures
            r.entries@.len() == 0,
    {
        HookTable { entries: Vec::new() }
    }

    /// Register `addr` under `name`.
    pub fn register(&mut self, name: String, addr: usize)
        ensures
            final(self).entries@ == old(self).entries@.push((name, addr)),
    {
        self.entries.push((name, addr));
    }

    /// Look a hook address up by name.
    pub fn get(&self, name: &String) -> (r: Option<usize>)
        ensures
            r == hook_lookup(self.entries@, name@),
    {
        let n = self.entries.len();
        proof {
            assert(self.entries@.skip(0) =~= self.entries@);
        }
        let mut i: usize = 0;
        while i < n
            invariant
                n == self.entries@.len(),
                i <= n,
                hook_lookup(self.entries@, name@) == hook_lookup(
                    self.entries@.skip(i as int),
                    name@,
                ),
            decreases n - i,
        {
            proof {
                assert(self.entries@.skip(i as int).first() == self.entries@[i as int]);
                assert(self.entries@.skip(i as int).drop_first() =~= self.entries@.skip(i + 1));
            }
            if self.entries[i].0 == *name {
                return Some(self.entries[i].1);
            }
            i += 1;
        }
        proof {
            assert(self.entries@.skip(n as int).len() == 0);
        }
        None
    }
}

/// Accumulates the settings and category of one tweak while its
/// constructor scans the region and builds its effects.
pub struct TweakBuilder {
    /// The settings registered so far, in registration order.
    pub settings: Vec<Setting>,
    /// The category label of the tweak under construction.
    pub category: Option<String>,
}

/// Every registered setting is well-formed.
pub open spec fn settings_wf(ss: Seq<Setting>) -> bool {
    forall|j: int| 0 <= j < ss.len() ==> setting_wf(#[trigger] ss[j])
}

impl TweakBuilder {
    /// A fresh builder with no settings and no category.
    pub fn new() -> (r: TweakBuilder)
        ensures
            r.settings@.len() == 0,
            r.category is None,
            settings_wf(r.settings@),
    {
        TweakBuilder { settings: Vec::new(), category: None }
    }

    /// Set the category label shown for this tweak.
    pub fn set_category(&mut self, category: Option<String>)
        ensures
            final(self).category == category,
            final(self).settings == old(self).settings,
    {
        self.category = category;
    }

    /// Resolve `scan_pattern` to its unique match in `mem` and build a
    /// patch that writes `inject` at the offset the anchor mode `at`
    /// implies. Fails when the signature is absent or ambiguous, or when
    /// the patch span would not lie inside the region.
    pub fn injection(
        &self,
        mem: &MemoryRegion,
        scan_pattern: &MemoryPattern,
        inject: Vec<u8>,
        at: InjectAt,
    ) -> (r: Result<Injection, TweakError>)
        ensures
            match r {
                Ok(inj) => {
                    &&& exists|pos: int|
                        {
                            &&& #[trigger] pattern_matches_at(mem@, scan_pattern@, pos)
                            &&& (forall|q: int|
                                pattern_matches_at(mem@, scan_pattern@, q) ==> q == pos)
                            &&& inj.entry_point as int == inject_entry(
                                pos,
                                scan_pattern@.len() as int,
                                inj.replacement_bytes().len() as int,
                                at,
                            )
                        }
                    &&& inj.replacement_bytes() == inject@
                    &&& !inj.is_applied()
                    &&& inj.wf()
                    &&& inj.in_bounds(mem@.len() as int)
                },
                Err(TweakError::Scan(e)) => is_scan_single_result(
                    mem@,
                    scan_pattern@,
                    Err::<usize, ScanAOBSingleError>(e),
                ),
                Err(TweakError::OutOfBounds) => exists|pos: int|
                    {
                        &&& #[trigger] pattern_matches_at(mem@, scan_pattern@, pos)
                        &&& (forall|q: int|
                            pattern_matches_at(mem@, scan_pattern@, q) ==> q == pos)
                        &&& {
                            let entry = inject_entry(
                                pos,
                                scan_pattern@.len() as int,
                                inject@.len() as int,
                                at,
                            );
                            entry < 0 || entry + inject@.len() > mem@.len()
                        }
                    },
                Err(_) => false,
            },
    {
        let pos = match mem.scan_aob_single(scan_pattern) {
            Ok(p) => p,
            Err(e) => {
                return Err(TweakError::Scan(e));
            },
        };
        let psize = scan_pattern.size();
        let ilen = inject.len();
        let entry_wide: i128 = match at {
            InjectAt::Start => pos as i128,
            InjectAt::StartOffset(o) => pos as i128 + o as i128,
            InjectAt::End => pos as i128 + psize as i128 - ilen as i128,
            InjectAt::EndOffset(o) => pos as i128 + psize as i128 - ilen as i128 + o as i128,
        };
        let mlen = mem.len();
        if entry_wide < 0 || entry_wide > mlen as i128 - ilen as i128 {
            return Err(TweakError::OutOfBounds);
        }
        let entry = entry_wide as usize;
        Ok(Injection::new(entry, inject))
    }

    /// Resolve `scan_pattern` as `injection` does and build a numeric
    /// patch of `width` bytes there, with a zero placeholder encoding.
    pub fn number_injection(
        &self,
        mem: &MemoryRegion,
        scan_pattern: &MemoryPattern,
        at: InjectAt,
        width: usize,
    ) -> (r: Result<NumberInjection, TweakError>)
        requires
            1 <= width <= 8,
        ensures
            match r {
                Ok(ni) => {
                    &&& exists|pos: int|
                        {
                            &&& #[trigger] pattern_matches_at(mem@, scan_pattern@, pos)
                            &&& (forall|q: int|
                                pattern_matches_at(mem@, scan_pattern@, q) ==> q == pos)
                            &&& ni.patch().entry_point as int == inject_entry(
                                pos,
                                scan_pattern@.len() as int,
                                width as int,
                                at,
                            )
                        }
                    &&& ni.width() == width
                    &&& ni.patch().replacement_bytes() == le_bytes(0, width as nat)
                    &&& !ni.patch().is_applied()
                    &&& ni.wf()
                    &&& ni.patch().in_bounds(mem@.len() as int)
                },
                Err(TweakError::Scan(e)) => is_scan_single_result(
                    mem@,
                    scan_pattern@,
                    Err::<usize, ScanAOBSingleError>(e),
                ),
                Err(TweakError::OutOfBounds) => exists|pos: int|
                    {
                        &&& #[trigger] pattern_matches_at(mem@, scan_pattern@, pos)
                        &&& (forall|q: int|
                            pattern_matches_at(mem@, scan_pattern@, q) ==> q == pos)
                        &&& {
                            let entry = inject_entry(
                                pos,
                                scan_pattern@.len() as int,
                                width as int,
                                at,
                            );
                            entry < 0 || entry + width > mem@.len()
                        }
                    },
                Err(_) => false,
            },
    {
        let placeholder = encode_le(0, width);
        match self.injection(mem, scan_pattern, placeholder, at) {
            Ok(inj) => Ok(NumberInjection::new(inj)),
            Err(e) => Err(e),
        }
    }

    /// Register a finished setting: drive it to its default value, then
    /// keep it. On failure the setting is dropped and nothing has changed.
    pub fn add_setting(&mut self, setting: Setting, mem: &mut MemoryRegion) -> (r: Result<
        (),
        TweakError,
    >)
        requires
            setting_wf(setting),
            settings_wf(old(self).settings@),
        ensures
            final(mem)@.len() == old(mem)@.len(),
            final(self).category == old(self).category,
            settings_wf(final(self).settings@),
            match r {
                Ok(()) => {
                    &&& final(self).settings@.len() == old(self).settings@.len() + 1
                    &&& forall|j: int|
                        0 <= j < old(self).settings@.len() ==> final(self).settings@[j] == old(self).settings@[j]
                    &&& setting_applied_state(
                        setting,
                        final(self).settings@.last(),
                        setting.defaults.default,
                    )
                    &&& final(mem)@ == write_all(
                        old(mem)@,
                        setting_writes(setting, setting.defaults.default),
                    )
                },
                Err(TweakError::Permission(_)) => {
                    &&& !setting_can_apply(
                        setting,
                        setting.defaults.default,
                        old(mem)@.len() as int,
                    )
                    &&& *final(self) == *old(self)
                    &&& final(mem)@ == old(mem)@
                },
                Err(_) => false,
            },
    {
        let mut setting = setting;
        match setting.reset_to_default(mem) {
            Ok(()) => {
                let ghost applied = setting;
                self.settings.push(setting);
                proof {
                    assert(self.settings@ == old(self).settings@.push(applied));
                    assert(self.settings@.last() == applied);
                    assert forall|j: int|
                        0 <= j < self.settings@.len() implies setting_wf(
                        #[trigger] self.settings@[j],
                    ) by {
                        if j < self.settings@.len() - 1 {
                            assert(self.settings@[j] == old(self).settings@[j]);
                            assert(setting_wf(old(self).settings@[j]));
                        }
                    }
                }
                Ok(())
            },
            Err(e) => Err(TweakError::Permission(e)),
        }
    }
}

/// The writes of driving the first `k` settings to their default values.
pub open spec fn wrapper_default_writes_prefix(ss: Seq<Setting>, k: int) -> Seq<(int, Seq<u8>)>
    decreases k,
{
    if k <= 0 {
        Seq::empty()
    } else {
        wrapper_default_writes_prefix(ss, k - 1) + setting_writes(
            ss[k - 1],
            ss[k - 1].defaults.default,
        )
    }
}

/// The writes of driving the first `k` settings to their vanilla values.
pub open spec fn wrapper_vanilla_writes_prefix(ss: Seq<Setting>, k: int) -> Seq<(int, Seq<u8>)>
    decreases k,
{
    if k <= 0 {
        Seq::empty()
    } else {
        wrapper_vanilla_writes_prefix(ss, k - 1) + setting_writes(
            ss[k - 1],
            ss[k - 1].defaults.vanilla,
        )
    }
}

/// The writes of tearing the first `k` settings' effects down.
pub open spec fn wrapper_uninit_writes_prefix(ss: Seq<Setting>, k: int) -> Seq<(int, Seq<u8>)>
    decreases k,
{
    if k <= 0 {
        Seq::empty()
    } else {
        wrapper_uninit_writes_prefix(ss, k - 1) + setting_uninit_writes(ss[k - 1])
    }
}

/// The writes of loading the first `k` settings from `table`.
pub open spec fn wrapper_load_writes_prefix(
    ss: Seq<Setting>,
    table: Map<Seq<char>, crate::config::ConfigValue>,
    k: int,
) -> Seq<(int, Seq<u8>)>
    decreases k,
{
    if k <= 0 {
        Seq::empty()
    } else {
        wrapper_load_writes_prefix(ss, table, k - 1) + setting_load_writes(ss[k - 1], table)
    }
}

/// The store after the first `k` settings save into an empty table.
pub open spec fn wrapper_saved_map_prefix(ss: Seq<Setting>, k: int) -> Map<
    Seq<char>,
    crate::config::ConfigValue,
>
    decreases k,
{
    if k <= 0 {
        Map::empty()
    } else {
        setting_save(wrapper_saved_map_prefix(ss, k - 1), ss[k - 1])
    }
}

/// No two keyed settings share a config key.
pub open spec fn distinct_config_keys(ss: Seq<Setting>) -> bool {
    forall|i: int, j: int|
        (0 <= i < j < ss.len() && ((#[trigger] ss[i]).config_key matches Some(ki)) && ((
        #[trigger] ss[j]).config_key matches Some(kj))) ==> ss[i].config_key->Some_0@
            != ss[j].config_key->Some_0@
}

/// A keyed setting's binding survives the rest of the save, provided no
/// later setting shares its key.
proof fn lemma_saved_map_keeps_binding(ss: Seq<Setting>, j: int, k: int)
    requires
        distinct_config_keys(ss),
        0 <= j < k <= ss.len(),
        ss[j].config_key matches Some(key),
    ensures
        wrapper_saved_map_prefix(ss, k).contains_key(ss[j].config_key->Some_0@),
        wrapper_saved_map_prefix(ss, k)[ss[j].config_key->Some_0@] == settings::config_encode(
            ss[j].value,
        ),
    decreases k - j,
{
    if k == j + 1 {
    } else {
        lemma_saved_map_keeps_binding(ss, j, k - 1);
        match ss[k - 1].config_key {
            Some(other) => {
                assert(ss[j].config_key->Some_0@ != other@);
            },
            None => {},
        }
    }
}

/// Law: the configuration round-trips a whole set of settings. Saving
/// settings whose config keys are distinct binds each keyed setting's key
/// to the encoding of its value, and that encoding decodes back to exactly
/// the saved value for a fresh setting with the same key and behaviour.
pub proof fn lemma_wrapper_config_round_trip(ss: Seq<Setting>, j: int)
    requires
        distinct_config_keys(ss),
        0 <= j < ss.len(),
        ss[j].config_key matches Some(key),
        setting_wf(ss[j]),
    ensures
        wrapper_saved_map_prefix(ss, ss.len() as int).contains_key(ss[j].config_key->Some_0@),
        wrapper_saved_map_prefix(ss, ss.len() as int)[ss[j].config_key->Some_0@]
            == settings::config_encode(ss[j].value),
        settings::config_decode(
            ss[j].inner,
            wrapper_saved_map_prefix(ss, ss.len() as int)[ss[j].config_key->Some_0@],
        ) == Some(ss[j].value),
{
    lemma_saved_map_keeps_binding(ss, j, ss.len() as int);
}

/// One built tweak: its settings, its category, and the identity its
/// errors and configuration are keyed by.
pub struct TweakWrapper {
    /// The settings registered by the tweak's constructor.
    pub settings: Vec<Setting>,
    /// The category label the tweak is grouped under.
    pub category: Option<String>,
    /// The identity of the tweak, used as its config section key.
    pub title: String,
}

impl TweakWrapper {
    /// Wrap what a tweak's constructor registered under its identity.
    pub fn new(title: String, builder: TweakBuilder) -> (r: TweakWrapper)
        ensures
            r.settings == builder.settings,
            r.category == builder.category,
            r.title == title,
    {
        TweakWrapper { settings: builder.settings, category: builder.category, title }
    }

    /// The category label the tweak is grouped under.
    pub fn category(&self) -> (r: &Option<String>)
        ensures
            r == &self.category,
    {
        &self.category
    }

    /// The identity of the tweak.
    pub fn title(&self) -> (r: &str)
        ensures
            r@ == self.title@,
    {
        self.title.as_str()
    }

    /// Drive every setting back to its default value, in order; stops at
    /// the first setting whose effects cannot be applied, leaving that
    /// setting and the rest untouched.
    #[verifier::rlimit(50)]
    pub fn reset_to_default(&mut self, mem: &mut MemoryRegion) -> (r: Result<(), TweakError>)
        requires
            settings_wf(old(self).settings@),
        ensures
            final(self).category == old(self).category,
            final(self).title == old(self).title,
            settings_wf(final(self).settings@),
            final(self).settings@.len() == old(self).settings@.len(),
            final(mem)@.len() == old(mem)@.len(),
            match r {
                Ok(()) => {
                    &&& forall|j: int|
                        0 <= j < old(self).settings@.len() ==> setting_can_apply(
                            #[trigger] old(self).settings@[j],
                            old(self).settings@[j].defaults.default,
                            old(mem)@.len() as int,
                        )
                    &&& forall|j: int|
                        0 <= j < old(self).settings@.len() ==> setting_applied_state(
                            #[trigger] old(self).settings@[j],
                            final(self).settings@[j],
                            old(self).settings@[j].defaults.default,
                        )
                    &&& forall|j: int|
                        0 <= j < old(self).settings@.len() ==> setting_originals(
                            #[trigger] old(self).settings@[j],
                            final(self).settings@[j],
                            old(self).settings@[j].defaults.default,
                            write_all(
                                old(mem)@,
                                wrapper_default_writes_prefix(old(self).settings@, j),
                            ),
                        )
                    &&& final(mem)@ == write_all(
                        old(mem)@,
                        wrapper_default_writes_prefix(
                            old(self).settings@,
                            old(self).settings@.len() as int,
                        ),
                    )
                },
                Err(TweakError::Permission(_)) => !(forall|j: int|
                    0 <= j < old(self).settings@.len() ==> setting_can_apply(
                        #[trigger] old(self).settings@[j],
                        old(self).settings@[j].defaults.default,
                        old(mem)@.len() as int,
                    )) && exists|j: int|
                    {
                        &&& 0 <= j < old(self).settings@.len()
                        &&& !setting_can_apply(
                            #[trigger] old(self).settings@[j],
                            old(self).settings@[j].defaults.default,
                            old(mem)@.len() as int,
                        )
                        &&& forall|k: int|
                            0 <= k < j ==> setting_applied_state(
                                #[trigger] old(self).settings@[k],
                                final(self).settings@[k],
                                old(self).settings@[k].defaults.default,
                            )
                        &&& forall|k: int|
                            j <= k < old(self).settings@.len()
                                ==> final(self).settings@[k] == old(self).settings@[k]
                        &&& final(mem)@ == write_all(
                            old(mem)@,
                            wrapper_default_writes_prefix(old(self).settings@, j),
                        )
                    },
                Err(_) => false,
            },
    {
        let ghost prev_settings = self.settings@;
        let ghost mem0 = mem@;
        let n = self.settings.len();
        let mut i: usize = 0;
        while i < n
            invariant
                n == prev_settings.len(),
                n == self.settings@.len(),
                i <= n,
                prev_settings == old(self).settings@,
                mem0 == old(mem)@,
                settings_wf(prev_settings),
                self.category == old(self).category,
                self.title == old(self).title,
                mem@.len() == mem0.len(),
                forall|k: int| i <= k < n ==> self.settings@[k] == prev_settings[k],
                forall|k: int|
                    0 <= k < i ==> setting_can_apply(
                        #[trigger] prev_settings[k],
                        prev_settings[k].defaults.default,
                        mem0.len() as int,
                    ),
                forall|k: int|
                    0 <= k < i ==> setting_applied_state(
                        #[trigger] prev_settings[k],
                        self.settings@[k],
                        prev_settings[k].defaults.default,
                    ),
                forall|k: int|
                    0 <= k < i ==> setting_originals(
                        #[trigger] prev_settings[k],
                        self.settings@[k],
                        prev_settings[k].defaults.default,
                        write_all(mem0, wrapper_default_writes_prefix(prev_settings, k)),
                    ),
                settings_wf(self.settings@),
                mem@ == write_all(mem0, wrapper_default_writes_prefix(prev_settings, i as int)),
            decreases n - i,
        {
            let ghost mem_before = mem@;
            let ghost pre_view = self.settings@;
            proof {
                assert(self.settings@[i as int] == prev_settings[i as int]);
                assert(setting_wf(prev_settings[i as int]));
            }
            let mut s = self.settings.remove(i);
            match s.reset_to_default(mem) {
                Ok(()) => {},
                Err(e) => {
                    self.settings.insert(i, s);
                    proof {
                        assert(self.settings@ =~= pre_view);
                    }
                    return Err(TweakError::Permission(e));
                },
            }
            self.settings.insert(i, s);
            proof {
                assert(self.settings@ =~= pre_view.update(i as int, self.settings@[i as int]));
                let sw = setting_writes(
                    prev_settings[i as int],
                    prev_settings[i as int].defaults.default,
                );
                lemma_write_all_len(mem_before, sw);
                assert(wrapper_default_writes_prefix(prev_settings, i + 1)
                    =~= wrapper_default_writes_prefix(prev_settings, i as int) + sw);
                lemma_write_all_concat(
                    mem0,
                    wrapper_default_writes_prefix(prev_settings, i as int),
                    sw,
                );
            }
            i += 1;
        }
        Ok(())
    }

    /// Drive every setting back to the unmodified original behaviour, in
    /// order; stops at the first setting whose effects cannot be applied.
    #[verifier::rlimit(50)]
    pub fn reset_to_vanilla(&mut self, mem: &mut MemoryRegion) -> (r: Result<(), TweakError>)
        requires
            settings_wf(old(self).settings@),
        ensures
            final(self).category == old(self).category,
            final(self).title == old(self).title,
            settings_wf(final(self).settings@),
            final(self).settings@.len() == old(self).settings@.len(),
            final(mem)@.len() == old(mem)@.len(),
            match r {
                Ok(()) => {
                    &&& forall|j: int|
                        0 <= j < old(self).settings@.len() ==> setting_can_apply(
                            #[trigger] old(self).settings@[j],
                            old(self).settings@[j].defaults.vanilla,
                            old(mem)@.len() as int,
                        )
                    &&& forall|j: int|
                        0 <= j < old(self).settings@.len() ==> setting_applied_state(
                            #[trigger] old(self).settings@[j],
                            final(self).settings@[j],
                            old(self).settings@[j].defaults.vanilla,
                        )
                    &&& forall|j: int|
                        0 <= j < old(self).settings@.len() ==> setting_originals(
                            #[trigger] old(self).settings@[j],
                            final(self).settings@[j],
                            old(self).settings@[j].defaults.vanilla,
                            write_all(
                                old(mem)@,
                                wrapper_vanilla_writes_prefix(old(self).settings@, j),
                            ),
                        )
                    &&& final(mem)@ == write_all(
                        old(mem)@,
                        wrapper_vanilla_writes_prefix(
                            old(self).settings@,
                            old(self).settings@.len() as int,
                        ),
                    )
                },
                Err(TweakError::Permission(_)) => !(forall|j: int|
                    0 <= j < old(self).settings@.len() ==> setting_can_apply(
                        #[trigger] old(self).settings@[j],
                        old(self).settings@[j].defaults.vanilla,
                        old(mem)@.len() as int,
                    )) && exists|j: int|
                    {
                        &&& 0 <= j < old(self).settings@.len()
                        &&& !setting_can_apply(
                            #[trigger] old(self).settings@[j],
                            old(self).settings@[j].defaults.vanilla,
                            old(mem)@.len() as int,
                        )
                        &&& forall|k: int|
                            0 <= k < j ==> setting_applied_state(
                                #[trigger] old(self).settings@[k],
                                final(self).settings@[k],
                                old(self).settings@[k].defaults.vanilla,
                            )
                        &&& forall|k: int|
                            j <= k < old(self).settings@.len()
                                ==> final(self).settings@[k] == old(self).settings@[k]
                        &&& final(mem)@ == write_all(
                            old(mem)@,
                            wrapper_vanilla_writes_prefix(old(self).settings@, j),
                        )
                    },
                Err(_) => false,
            },
    {
        let ghost prev_settings = self.settings@;
        let ghost mem0 = mem@;
        let n = self.settings.len();
        let mut i: usize = 0;
        while i < n
            invariant
                n == prev_settings.len(),
                n == self.settings@.len(),
                i <= n,
                prev_settings == old(self).settings@,
                mem0 == old(mem)@,
                settings_wf(prev_settings),
                self.category == old(self).category,
                self.title == old(self).title,
                mem@.len() == mem0.len(),
                forall|k: int| i <= k < n ==> self.settings@[k] == prev_settings[k],
                forall|k: int|
                    0 <= k < i ==> setting_can_apply(
                        #[trigger] prev_settings[k],
                        prev_settings[k].defaults.vanilla,
                        mem0.len() as int,
                    ),
                forall|k: int|
                    0 <= k < i ==> setting_applied_state(
                        #[trigger] prev_settings[k],
                        self.settings@[k],
                        prev_settings[k].defaults.vanilla,
                    ),
                forall|k: int|
                    0 <= k < i ==> setting_originals(
                        #[trigger] prev_settings[k],
                        self.settings@[k],
                        prev_settings[k].defaults.vanilla,
                        write_all(mem0, wrapper_vanilla_writes_prefix(prev_settings, k)),
                    ),
                settings_wf(self.settings@),
                mem@ == write_all(mem0, wrapper_vanilla_writes_prefix(prev_settings, i as int)),
            decreases n - i,
        {
            let ghost mem_before = mem@;
            let ghost pre_view = self.settings@;
            proof {
                assert(self.settings@[i as int] == prev_settings[i as int]);
                assert(setting_wf(prev_settings[i as int]));
            }
            let mut s = self.settings.remove(i);
            match s.reset_to_vanilla(mem) {
                Ok(()) => {},
                Err(e) => {
                    self.settings.insert(i, s);
                    proof {
                        assert(self.settings@ =~= pre_view);
                    }
                    return Err(TweakError::Permission(e));
                },
            }
            self.settings.insert(i, s);
            proof {
                assert(self.settings@ =~= pre_view.update(i as int, self.settings@[i as int]));
                let sw = setting_writes(
                    prev_settings[i as int],
                    prev_settings[i as int].defaults.vanilla,
                );
                lemma_write_all_len(mem_before, sw);
                assert(wrapper_vanilla_writes_prefix(prev_settings, i + 1)
                    =~= wrapper_vanilla_writes_prefix(prev_settings, i as int) + sw);
                lemma_write_all_concat(
                    mem0,
                    wrapper_vanilla_writes_prefix(prev_settings, i as int),
                    sw,
                );
            }
            i += 1;
        }
        Ok(())
    }

    /// Tear every setting's effects down, in order: remove every patch and
    /// disable every detour, leaving values as they are. Safe to call when
    /// some effects were never enabled; stops at the first setting whose
    /// applied patches cannot be restored.
    #[verifier::rlimit(50)]
    pub fn uninit(&mut self, mem: &mut MemoryRegion) -> (r: Result<(), TweakError>)
        requires
            settings_wf(old(self).settings@),
        ensures
            final(self).category == old(self).category,
            final(self).title == old(self).title,
            settings_wf(final(self).settings@),
            final(self).settings@.len() == old(self).settings@.len(),
            final(mem)@.len() == old(mem)@.len(),
            match r {
                Ok(()) => {
                    &&& forall|j: int|
                        0 <= j < old(self).settings@.len() ==> !settings::setting_uninit_blocked(
                            #[trigger] old(self).settings@[j],
                            old(mem)@.len() as int,
                        )
                    &&& forall|j: int|
                        0 <= j < old(self).settings@.len() ==> setting_uninit_state(
                            #[trigger] old(self).settings@[j],
                            final(self).settings@[j],
                        )
                    &&& final(mem)@ == write_all(
                        old(mem)@,
                        wrapper_uninit_writes_prefix(
                            old(self).settings@,
                            old(self).settings@.len() as int,
                        ),
                    )
                },
                Err(TweakError::Permission(_)) => !(forall|j: int|
                    0 <= j < old(self).settings@.len() ==> !settings::setting_uninit_blocked(
                        #[trigger] old(self).settings@[j],
                        old(mem)@.len() as int,
                    )) && exists|j: int|
                    {
                        &&& 0 <= j < old(self).settings@.len()
                        &&& settings::setting_uninit_blocked(
                            #[trigger] old(self).settings@[j],
                            old(mem)@.len() as int,
                        )
                        &&& forall|k: int|
                            0 <= k < j ==> setting_uninit_state(
                                #[trigger] old(self).settings@[k],
                                final(self).settings@[k],
                            )
                        &&& forall|k: int|
                            j <= k < old(self).settings@.len()
                                ==> final(self).settings@[k] == old(self).settings@[k]
                        &&& final(mem)@ == write_all(
                            old(mem)@,
                            wrapper_uninit_writes_prefix(old(self).settings@, j),
                        )
                    },
                Err(_) => false,
            },
    {
        let ghost prev_settings = self.settings@;
        let ghost mem0 = mem@;
        let n = self.settings.len();
        let mut i: usize = 0;
        while i < n
            invariant
                n == prev_settings.len(),
                n == self.settings@.len(),
                i <= n,
                prev_settings == old(self).settings@,
                mem0 == old(mem)@,
                settings_wf(prev_settings),
                self.category == old(self).category,
                self.title == old(self).title,
                mem@.len() == mem0.len(),
                forall|k: int| i <= k < n ==> self.settings@[k] == prev_settings[k],
                forall|k: int|
                    0 <= k < i ==> !settings::setting_uninit_blocked(
                        #[trigger] prev_settings[k],
                        mem0.len() as int,
                    ),
                forall|k: int|
                    0 <= k < i ==> setting_uninit_state(
                        #[trigger] prev_settings[k],
                        self.settings@[k],
                    ),
                settings_wf(self.settings@),
                mem@ == write_all(mem0, wrapper_uninit_writes_prefix(prev_settings, i as int)),
            decreases n - i,
        {
            let ghost mem_before = mem@;
            let ghost pre_view = self.settings@;
            proof {
                assert(self.settings@[i as int] == prev_settings[i as int]);
                assert(setting_wf(prev_settings[i as int]));
            }
            let mut s = self.settings.remove(i);
            match s.uninit(mem) {
                Ok(()) => {},
                Err(e) => {
                    self.settings.insert(i, s);
                    proof {
                        assert(self.settings@ =~= pre_view);
                    }
                    return Err(TweakError::Permission(e));
                },
            }
            self.settings.insert(i, s);
            proof {
                assert(self.settings@ =~= pre_view.update(i as int, self.settings@[i as int]));
                let sw = setting_uninit_writes(prev_settings[i as int]);
                lemma_write_all_len(mem_before, sw);
                assert(wrapper_uninit_writes_prefix(prev_settings, i + 1)
                    =~= wrapper_uninit_writes_prefix(prev_settings, i as int) + sw);
                lemma_write_all_concat(
                    mem0,
                    wrapper_uninit_writes_prefix(prev_settings, i as int),
                    sw,
                );
            }
            i += 1;
        }
        Ok(())
    }

    /// Load every setting's value from the store, in order. A setting
    /// whose stored value does not fit is skipped — left at its current
    /// value — and the first such mismatch is reported after all settings
    /// have been processed; a patch that cannot be written stops the load
    /// at that setting.
    #[verifier::rlimit(50)]
    pub fn load_config(&mut self, table: &ConfigTable, mem: &mut MemoryRegion) -> (r: Result<
        (),
        TweakError,
    >)
        requires
            settings_wf(old(self).settings@),
            table.wf(),
        ensures
            final(self).category == old(self).category,
            final(self).title == old(self).title,
            settings_wf(final(self).settings@),
            final(self).settings@.len() == old(self).settings@.len(),
            final(mem)@.len() == old(mem)@.len(),
            match r {
                Ok(()) => {
                    &&& forall|j: int|
                        0 <= j < old(self).settings@.len() ==> match setting_load_value(
                            #[trigger] old(self).settings@[j],
                            table@,
                        ) {
                            Some(v) => setting_can_apply(
                                old(self).settings@[j],
                                v,
                                old(mem)@.len() as int,
                            ),
                            None => true,
                        }
                    &&& forall|j: int|
                        0 <= j < old(self).settings@.len() ==> setting_load_state(
                            #[trigger] old(self).settings@[j],
                            final(self).settings@[j],
                            table@,
                        )
                    &&& forall|j: int|
                        0 <= j < old(self).settings@.len() ==> setting_load_originals(
                            #[trigger] old(self).settings@[j],
                            final(self).settings@[j],
                            table@,
                            write_all(
                                old(mem)@,
                                wrapper_load_writes_prefix(old(self).settings@, table@, j),
                            ),
                        )
                    &&& forall|j: int|
                        0 <= j < old(self).settings@.len() ==> !settings::setting_load_fails(
                            #[trigger] old(self).settings@[j],
                            table@,
                        )
                    &&& final(mem)@ == write_all(
                        old(mem)@,
                        wrapper_load_writes_prefix(
                            old(self).settings@,
                            table@,
                            old(self).settings@.len() as int,
                        ),
                    )
                },
                Err(TweakError::Config(e)) => {
                    &&& forall|j: int|
                        0 <= j < old(self).settings@.len() ==> match setting_load_value(
                            #[trigger] old(self).settings@[j],
                            table@,
                        ) {
                            Some(v) => setting_can_apply(
                                old(self).settings@[j],
                                v,
                                old(mem)@.len() as int,
                            ),
                            None => true,
                        }
                    &&& forall|j: int|
                        0 <= j < old(self).settings@.len() ==> setting_load_state(
                            #[trigger] old(self).settings@[j],
                            final(self).settings@[j],
                            table@,
                        )
                    &&& forall|j: int|
                        0 <= j < old(self).settings@.len() ==> setting_load_originals(
                            #[trigger] old(self).settings@[j],
                            final(self).settings@[j],
                            table@,
                            write_all(
                                old(mem)@,
                                wrapper_load_writes_prefix(old(self).settings@, table@, j),
                            ),
                        )
                    &&& exists|j: int|
                        {
                            &&& 0 <= j < old(self).settings@.len()
                            &&& settings::setting_load_fails(
                                #[trigger] old(self).settings@[j],
                                table@,
                            )
                            &&& forall|k: int|
                                0 <= k < j ==> !settings::setting_load_fails(
                                    #[trigger] old(self).settings@[k],
                                    table@,
                                )
                        }
                    &&& final(mem)@ == write_all(
                        old(mem)@,
                        wrapper_load_writes_prefix(
                            old(self).settings@,
                            table@,
                            old(self).settings@.len() as int,
                        ),
                    )
                },
                Err(TweakError::Permission(_)) => !(forall|j: int|
                    0 <= j < old(self).settings@.len() ==> match setting_load_value(
                        #[trigger] old(self).settings@[j],
                        table@,
                    ) {
                        Some(v) => setting_can_apply(
                            old(self).settings@[j],
                            v,
                            old(mem)@.len() as int,
                        ),
                        None => true,
                    }) && exists|j: int|
                    {
                        &&& 0 <= j < old(self).settings@.len()
                        &&& setting_load_value(#[trigger] old(self).settings@[j], table@)
                            matches Some(v)
                        &&& !setting_can_apply(
                            old(self).settings@[j],
                            setting_load_value(old(self).settings@[j], table@)->Some_0,
                            old(mem)@.len() as int,
                        )
                        &&& forall|k: int|
                            0 <= k < j ==> setting_load_state(
                                #[trigger] old(self).settings@[k],
                                final(self).settings@[k],
                                table@,
                            )
                        &&& forall|k: int|
                            j <= k < old(self).settings@.len()
                                ==> final(self).settings@[k] == old(self).settings@[k]
                        &&& final(mem)@ == write_all(
                            old(mem)@,
                            wrapper_load_writes_prefix(old(self).settings@, table@, j),
                        )
                    },
                Err(_) => false,
            },
    {
        let ghost prev_settings = self.settings@;
        let ghost mem0 = mem@;
        let n = self.settings.len();
        let mut first_err: Option<crate::config::ConfigError> = None;
        let mut i: usize = 0;
        while i < n
            invariant
                n == prev_settings.len(),
                n == self.settings@.len(),
                i <= n,
                prev_settings == old(self).settings@,
                mem0 == old(mem)@,
                settings_wf(prev_settings),
                table.wf(),
                self.category == old(self).category,
                self.title == old(self).title,
                mem@.len() == mem0.len(),
                forall|k: int| i <= k < n ==> self.settings@[k] == prev_settings[k],
                forall|k: int|
                    0 <= k < i ==> match setting_load_value(#[trigger] prev_settings[k], table@) {
                        Some(v) => setting_can_apply(prev_settings[k], v, mem0.len() as int),
                        None => true,
                    },
                forall|k: int|
                    0 <= k < i ==> setting_load_state(
                        #[trigger] prev_settings[k],
                        self.settings@[k],
                        table@,
                    ),
                forall|k: int|
                    0 <= k < i ==> setting_load_originals(
                        #[trigger] prev_settings[k],
                        self.settings@[k],
                        table@,
                        write_all(mem0, wrapper_load_writes_prefix(prev_settings, table@, k)),
                    ),
                settings_wf(self.settings@),
                match first_err {
                    None => forall|k: int|
                        0 <= k < i ==> !settings::setting_load_fails(
                            #[trigger] prev_settings[k],
                            table@,
                        ),
                    Some(_) => exists|j: int|
                        {
                            &&& 0 <= j < i
                            &&& settings::setting_load_fails(#[trigger] prev_settings[j], table@)
                            &&& forall|k: int|
                                0 <= k < j ==> !settings::setting_load_fails(
                                    #[trigger] prev_settings[k],
                                    table@,
                                )
                        },
                },
                mem@ == write_all(
                    mem0,
                    wrapper_load_writes_prefix(prev_settings, table@, i as int),
                ),
            decreases n - i,
        {
            let ghost mem_before = mem@;
            let ghost pre_view = self.settings@;
            proof {
                assert(self.settings@[i as int] == prev_settings[i as int]);
                assert(setting_wf(prev_settings[i as int]));
            }
            let mut s = self.settings.remove(i);
            let step = s.load_config(table, mem);
            self.settings.insert(i, s);
            proof {
                assert(self.settings@ =~= pre_view.update(i as int, self.settings@[i as int]));
                let sw = setting_load_writes(prev_settings[i as int], table@);
                assert(wrapper_load_writes_prefix(prev_settings, table@, i + 1)
                    =~= wrapper_load_writes_prefix(prev_settings, table@, i as int) + sw);
                lemma_write_all_concat(
                    mem0,
                    wrapper_load_writes_prefix(prev_settings, table@, i as int),
                    sw,
                );
                lemma_write_all_len(mem_before, sw);
            }
            match step {
                Ok(()) => {},
                Err(TweakError::Config(e)) => {
                    if first_err.is_none() {
                        first_err = Some(e);
                    }
                },
                Err(TweakError::Permission(p)) => {
                    return Err(TweakError::Permission(p));
                },
                Err(_) => {
                    proof {
                        assert(false);
                    }
                },
            }
            i += 1;
        }
        match first_err {
            None => Ok(()),
            Some(e) => Err(TweakError::Config(e)),
        }
    }

    /// Store every setting's value under its key, into a fresh table.
    pub fn save_config(&self) -> (r: ConfigTable)
        ensures
            r.wf(),
            r@ == wrapper_saved_map_prefix(self.settings@, self.settings@.len() as int),
    {
        let mut table = ConfigTable::new();
        let n = self.settings.len();
        let mut i: usize = 0;
        while i < n
            invariant
                n == self.settings@.len(),
                i <= n,
                table.wf(),
                table@ == wrapper_saved_map_prefix(self.settings@, i as int),
            decreases n - i,
        {
            self.settings[i].save_config(&mut table);
            i += 1;
        }
        table
    }
}

} // verus!
