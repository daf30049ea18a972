//! Placement transform editing: intercepts the quaternion update and the
//! editor teardown, lets an eyedropped component's transform be copied, and
//! — while the edited matrix is not orthonormal — suppresses the quaternion
//! interpolation and arms a division-safety patch so hand-written matrices
//! cannot hang the renderer.

use vstd::prelude::*;
use crate::injections::Injection;
use crate::memory::{
    MemoryPattern, MemoryRegion, PermissionError, lemma_write_all_singleton, pattern_matches_at,
    spec_write,
};
use crate::tweaks::editor_show_hidden::nop_seq;
use crate::tweaks::fast_loading_animations::{build_call_stub, call_hook_stub};
use crate::tweaks::settings::{SettingKind, SettingValue};
use crate::tweaks::settings::toggle::{
    ToggleBuilder, injection_toggle_writes, toggle_can_apply, toggle_writes_prefix,
};
use crate::tweaks::{
    Defaults, Detour, HookTable, InjectAt, TweakBuilder, TweakConfig, TweakError, hook_lookup,
    is_scan_single_result, lemma_scan_err_not_unique, settings_wf, unique_match,
};
use crate::types::{ComponentBase, FlipParent};

verus! {

/// The dot product of columns `a` and `b` of the row-major 3x3 matrix `m`.
pub open spec fn mat_col_dot(m: Seq<i32>, a: int, b: int) -> int {
    m[a] * m[b] + m[a + 3] * m[b + 3] + m[a + 6] * m[b + 6]
}

/// The determinant of the row-major 3x3 matrix `m`.
pub open spec fn mat_det(m: Seq<i32>) -> int {
    m[0] * (m[4] * m[8] - m[7] * m[5]) - m[1] * (m[3] * m[8] - m[5] * m[6]) + m[2] * (m[3] * m[7]
        - m[4] * m[6])
}

/// Is `m` a proper rotation of the integer lattice: unit columns, mutually
/// orthogonal, with non-negative orientation?
pub open spec fn is_orthonormal_spec(m: Seq<i32>) -> bool {
    &&& mat_col_dot(m, 0, 0) == 1
    &&& mat_col_dot(m, 1, 1) == 1
    &&& mat_col_dot(m, 2, 2) == 1
    &&& mat_col_dot(m, 0, 1) == 0
    &&& mat_col_dot(m, 0, 2) == 0
    &&& mat_col_dot(m, 1, 2) == 0
    &&& mat_det(m) >= 0
}

/// Whether the 3x3 rotation matrix has orthonormal columns and a
/// non-negative determinant; such matrices are safe to hand to the game's
/// own quaternion pipeline.
/// The product of two values bounded by the 32-bit range stays far inside
/// the 128-bit range.
proof fn lemma_i32_product_bound(a: i128, b: i128)
    by (nonlinear_arith)
    requires
        -0x8000_0000 <= a <= 0x8000_0000,
        -0x8000_0000 <= b <= 0x8000_0000,
    ensures
        -0x4000_0000_0000_0000 <= a * b <= 0x4000_0000_0000_0000,
{
}

/// The product of a 32-bit-bounded value and a 64-bit-bounded value stays
/// inside the 128-bit range.
proof fn lemma_det_product_bound(a: i128, b: i128)
    by (nonlinear_arith)
    requires
        -0x8000_0000 <= a <= 0x8000_0000,
        -0x8000_0000_0000_0000 <= b <= 0x8000_0000_0000_0000,
    ensures
        -0x4000_0000_0000_0000_0000_0000 <= a * b <= 0x4000_0000_0000_0000_0000_0000,
{
}

pub fn is_orthonormal(matrix: &[i32; 9]) -> (r: bool)
    ensures
        r == is_orthonormal_spec(matrix@),
{
    let m0 = matrix[0] as i128;
    let m1 = matrix[1] as i128;
    let m2 = matrix[2] as i128;
    let m3 = matrix[3] as i128;
    let m4 = matrix[4] as i128;
    let m5 = matrix[5] as i128;
    let m6 = matrix[6] as i128;
    let m7 = matrix[7] as i128;
    let m8 = matrix[8] as i128;
    proof {
        lemma_i32_product_bound(m0, m0);
        lemma_i32_product_bound(m1, m1);
        lemma_i32_product_bound(m2, m2);
        lemma_i32_product_bound(m3, m3);
        lemma_i32_product_bound(m4, m4);
        lemma_i32_product_bound(m5, m5);
        lemma_i32_product_bound(m6, m6);
        lemma_i32_product_bound(m7, m7);
        lemma_i32_product_bound(m8, m8);
        lemma_i32_product_bound(m0, m1);
        lemma_i32_product_bound(m3, m4);
        lemma_i32_product_bound(m6, m7);
        lemma_i32_product_bound(m0, m2);
        lemma_i32_product_bound(m3, m5);
        lemma_i32_product_bound(m6, m8);
        lemma_i32_product_bound(m1, m2);
        lemma_i32_product_bound(m4, m5);
        lemma_i32_product_bound(m7, m8);
        lemma_i32_product_bound(m4, m8);
        lemma_i32_product_bound(m7, m5);
        lemma_i32_product_bound(m3, m8);
        lemma_i32_product_bound(m5, m6);
        lemma_i32_product_bound(m3, m7);
        lemma_i32_product_bound(m4, m6);
    }
    let is_normalized = m0 * m0 + m3 * m3 + m6 * m6 == 1 && m1 * m1 + m4 * m4 + m7 * m7 == 1 && m2
        * m2 + m5 * m5 + m8 * m8 == 1;
    let is_orthogonal = m0 * m1 + m3 * m4 + m6 * m7 == 0 && m0 * m2 + m3 * m5 + m6 * m8 == 0 && m1
        * m2 + m4 * m5 + m7 * m8 == 0;
    let d0 = m4 * m8 - m7 * m5;
    let d1 = m3 * m8 - m5 * m6;
    let d2 = m3 * m7 - m4 * m6;
    proof {
        lemma_det_product_bound(m0, d0);
        lemma_det_product_bound(m1, d1);
        lemma_det_product_bound(m2, d2);
    }
    let det = m0 * d0 - m1 * d1 + m2 * d2;
    is_normalized && is_orthogonal && det >= 0
}

/// The prologue of the function that rebuilds the placement quaternion
/// from the transform.
pub open spec fn update_quaternion_pattern() -> Seq<Option<u8>> {
    seq![
        Some(0x40u8),  // PUSH RBX
        Some(0x53u8),
        Some(0x48u8),  // SUB RSP,0x80
        Some(0x81u8),
        Some(0xecu8),
        Some(0x80u8),
        Some(0x00u8),
        Some(0x00u8),
        Some(0x00u8),
        Some(0x48u8),  // MOV RAX,qword ptr [stack cookie]
        Some(0x8bu8),
        Some(0x05u8),
        None,
        None,
        None,
        None,
        Some(0x48u8),  // XOR RAX,RSP
        Some(0x33u8),
        Some(0xc4u8),
        Some(0x48u8),  // MOV qword ptr [RSP + local],RAX
        Some(0x89u8),
        Some(0x44u8),
        Some(0x24u8),
        Some(0x70u8),
        Some(0x48u8),  // MOV RBX,transform
        Some(0x8bu8),
        Some(0xd9u8),
        Some(0xc7u8),  // MOV dword ptr [RCX + 0x11c],0x0
        Some(0x81u8),
        Some(0x1cu8),
        Some(0x01u8),
        Some(0x00u8),
        Some(0x00u8),
        Some(0x00u8),
        Some(0x00u8),
        Some(0x00u8),
        Some(0x00u8),
    ]
}

/// The prologue of the vehicle editor's destructor.
pub open spec fn editor_destructor_pattern() -> Seq<Option<u8>> {
    seq![
        Some(0x48u8),  // MOV qword ptr [RSP + local_res8],RBX
        Some(0x89u8),
        Some(0x5cu8),
        Some(0x24u8),
        Some(0x08u8),
        Some(0x57u8),  // PUSH RDI
        Some(0x48u8),  // SUB RSP,0x20
        Some(0x83u8),
        Some(0xecu8),
        Some(0x20u8),
        Some(0x8bu8),  // MOV EBX,param_2
        Some(0xdau8),
        Some(0x48u8),  // MOV RDI,param_1
        Some(0x8bu8),
        Some(0xf9u8),
        Some(0xe8u8),  // CALL _
        None,
        None,
        None,
        None,
        Some(0xf6u8),  // TEST BL,0x1
        Some(0xc3u8),
        Some(0x01u8),
        Some(0x74u8),  // JZ _
        None,
        Some(0xbau8),  // MOV param_2, allocation size
        Some(0xf8u8),
        Some(0x9cu8),
        Some(0x00u8),
        Some(0x00u8),
    ]
}

/// The call that overwrites the display matrix with the interpolated
/// quaternion.
pub open spec fn quaternion_slerp_pattern() -> Seq<Option<u8>> {
    seq![
        Some(0x48u8),  // LEA RDX,[RBX + 0xc0]
        Some(0x8du8),
        Some(0x93u8),
        Some(0xc0u8),
        Some(0x00u8),
        Some(0x00u8),
        Some(0x00u8),
        Some(0x48u8),  // LEA RCX,[RSP + 0x20]
        Some(0x8du8),
        Some(0x4cu8),
        Some(0x24u8),
        Some(0x20u8),
        Some(0xe8u8),  // CALL quaternion to matrix
        None,
        None,
        None,
        None,
    ]
}

/// The increment computation whose zero result hangs a renderer loop on
/// hand-written matrices.
pub open spec fn safety_check_pattern() -> Seq<Option<u8>> {
    seq![
        Some(0x41u8),  // ADD EAX,R14D
        Some(0x03u8),
        Some(0xc6u8),
        Some(0x8bu8),  // MOV ECX,dword ptr [RBP + 0x18]
        Some(0x4du8),
        Some(0x18u8),
        Some(0x41u8),  // IMUL ECX,R9D
        Some(0x0fu8),
        Some(0xafu8),
        Some(0xc9u8),
        Some(0x03u8),  // ADD EAX,ECX
        Some(0xc1u8),
        Some(0x99u8),  // CDQ
        Some(0x33u8),  // XOR EAX,EDX
        Some(0xc2u8),
        Some(0x2bu8),  // SUB EAX,EDX
        Some(0xc2u8),
    ]
}

/// The eyedrop site: loading the component record and calling
/// set-placing-component.
pub open spec fn ctrl_click_pattern() -> Seq<Option<u8>> {
    seq![
        Some(0x48u8),  // MOV RDX,qword ptr [RDX + 0x58]
        Some(0x8bu8),
        Some(0x52u8),
        Some(0x58u8),
        Some(0x48u8),  // MOV RDX,qword ptr [RDX]
        Some(0x8bu8),
        Some(0x12u8),
        Some(0x48u8),  // MOV RCX,RSI
        Some(0x8bu8),
        Some(0xceu8),
        Some(0xe8u8),  // CALL set_placing_component
        None,
        None,
        None,
        None,
        Some(0x48u8),  // MOV RCX,qword ptr [RSP + 0x68]
        Some(0x8bu8),
        Some(0x4cu8),
        Some(0x24u8),
        Some(0x68u8),
    ]
}

/// The prologue of the set-flip function.
pub open spec fn set_flip_pattern() -> Seq<Option<u8>> {
    seq![
        Some(0x48u8),  // MOV qword ptr [RSP + 0x8],RBX
        Some(0x89u8),
        Some(0x5cu8),
        Some(0x24u8),
        Some(0x08u8),
        Some(0x48u8),  // MOV qword ptr [RSP + 0x10],RBP
        Some(0x89u8),
        Some(0x6cu8),
        Some(0x24u8),
        Some(0x10u8),
        Some(0x48u8),  // MOV qword ptr [RSP + 0x18],RSI
        Some(0x89u8),
        Some(0x74u8),
        Some(0x24u8),
        Some(0x18u8),
        Some(0x57u8),  // PUSH RDI
        Some(0x41u8),  // PUSH R14
        Some(0x56u8),
        Some(0x41u8),  // PUSH R15
        Some(0x57u8),
        Some(0x48u8),  // SUB RSP,0x20
        Some(0x83u8),
        Some(0xecu8),
        Some(0x20u8),
        Some(0x0fu8),  // MOVZX EAX,byte ptr [RCX + 0x1e8]
        Some(0xb6u8),
        Some(0x81u8),
        Some(0xe8u8),
        Some(0x01u8),
        Some(0x00u8),
        Some(0x00u8),
    ]
}

/// Are all four hooks registered, all six code sites unique, and the
/// eyedrop site's relative call target inside the address space? Every
/// patch lands inside its match, so this is the whole success condition.
pub open spec fn transform_edit_buildable(mem: Seq<u8>, hooks: Seq<(String, usize)>) -> bool {
    &&& hook_lookup(hooks, "safety_check"@) is Some
    &&& hook_lookup(hooks, "hook_ctrl_click"@) is Some
    &&& hook_lookup(hooks, "update_quaternion_hook"@) is Some
    &&& hook_lookup(hooks, "editor_destructor_hook"@) is Some
    &&& unique_match(mem, update_quaternion_pattern())
    &&& unique_match(mem, editor_destructor_pattern())
    &&& unique_match(mem, quaternion_slerp_pattern())
    &&& unique_match(mem, safety_check_pattern())
    &&& unique_match(mem, ctrl_click_pattern())
    &&& {
        let pos = choose|pos: int| pattern_matches_at(mem, ctrl_click_pattern(), pos);
        0 <= rel32_target(mem, pos, 20, 5) <= usize::MAX
    }
    &&& unique_match(mem, set_flip_pattern())
}

/// The transform-editing tweak's own state: the interpolation suppression
/// and renderer safety patches it arms while the edited matrix is not
/// orthonormal, and the resolved addresses its hooks call through.
#[derive(Debug)]
pub struct TransformEditTweak {
    /// Whether the quaternion interpolation is currently suppressed.
    pub disable_quaternion_slerp: bool,
    /// NOPs the interpolated-matrix copy while suppressed.
    pub disable_quaternion_slerp_injection: Injection,
    /// Forces the renderer's increments to at least one while suppressed.
    pub safety_check_inject: Injection,
    /// Resolved address of the game's set-placing-component function.
    pub set_placing_component_addr: usize,
    /// Resolved address of the game's set-flip function.
    pub set_flip_addr: usize,
}

impl TweakConfig for TransformEditTweak {
    open spec fn spec_config_id() -> Seq<char> {
        "transform_edit_tweak"@
    }

    fn config_id() -> (r: &'static str) {
        "transform_edit_tweak"
    }
}

/// The tweak's own two patches are well-formed and mirror the suppression
/// flag.
pub open spec fn transform_edit_wf(t: TransformEditTweak) -> bool {
    &&& t.disable_quaternion_slerp_injection.wf()
    &&& t.safety_check_inject.wf()
    &&& t.disable_quaternion_slerp_injection.is_applied() == t.disable_quaternion_slerp
}

impl TransformEditTweak {
    /// Resolve every code site on the unpatched region, register the two
    /// toggles (eyedrop transform copying and transform editing, both on
    /// by default), arm the renderer safety patch, and keep the
    /// interpolation suppression patch disarmed until a non-orthonormal
    /// matrix appears.
    pub fn new(builder: &mut TweakBuilder, hooks: &HookTable, mem: &mut MemoryRegion) -> (r:
        Result<TransformEditTweak, TweakError>)
        requires
            settings_wf(old(builder).settings@),
        ensures
            settings_wf(final(builder).settings@),
            final(mem)@.len() == old(mem)@.len(),
            r is Ok <==> transform_edit_buildable(old(mem)@, hooks.entries@),
            match r {
                Ok(t) => {
                    &&& transform_edit_wf(t)
                    &&& !t.disable_quaternion_slerp
                    &&& !t.disable_quaternion_slerp_injection.is_applied()
                    &&& t.disable_quaternion_slerp_injection.replacement_bytes() == nop_seq(5)
                    &&& t.safety_check_inject.is_applied()
                    &&& exists|pos: int|
                        {
                            &&& #[trigger] pattern_matches_at(
                                old(mem)@,
                                quaternion_slerp_pattern(),
                                pos,
                            )
                            &&& (forall|q: int|
                                pattern_matches_at(old(mem)@, quaternion_slerp_pattern(), q) ==> q
                                    == pos)
                            &&& t.disable_quaternion_slerp_injection.entry_point as int == pos + 12
                        }
                    &&& exists|pos: int|
                        {
                            &&& #[trigger] pattern_matches_at(
                                old(mem)@,
                                safety_check_pattern(),
                                pos,
                            )
                            &&& (forall|q: int|
                                pattern_matches_at(old(mem)@, safety_check_pattern(), q) ==> q
                                    == pos)
                            &&& t.safety_check_inject.entry_point as int == pos
                        }
                    &&& hook_lookup(hooks.entries@, "safety_check"@) matches Some(h)
                        && t.safety_check_inject.replacement_bytes() == call_hook_stub(h as u64)
                        + seq![0x90u8]
                    &&& final(builder).category matches Some(c) && c@ == "Editor"@
                    &&& final(builder).settings@.len() == old(builder).settings@.len() + 2
                    &&& forall|j: int|
                        0 <= j < old(builder).settings@.len() ==> final(builder).settings@[j]
                            == old(builder).settings@[j]
                    &&& {
                        let s1 = final(builder).settings@[final(builder).settings@.len() - 2];
                        let s2 = final(builder).settings@.last();
                        &&& s1.config_key matches Some(k1) && k1@ == "shift_copies_transform"@
                        &&& s2.config_key matches Some(k2) && k2@ == "placement_transform_editing"@
                        &&& s1.value == SettingValue::Bool(true)
                        &&& s2.value == SettingValue::Bool(true)
                        &&& s1.inner matches SettingKind::Toggle(t1) && {
                            &&& t1.injections@.len() == 1
                            &&& t1.injections@[0].0.is_applied()
                            &&& hook_lookup(hooks.entries@, "hook_ctrl_click"@) matches Some(h)
                                && t1.injections@[0].0.replacement_bytes() == seq![
                                0x48u8,
                                0x8bu8,
                                0xceu8,
                            ] + call_hook_stub(h as u64) + seq![0x90u8]
                        }
                        &&& s1.inner matches SettingKind::Toggle(t1) && exists|pos: int|
                            {
                                &&& #[trigger] pattern_matches_at(
                                    old(mem)@,
                                    ctrl_click_pattern(),
                                    pos,
                                )
                                &&& (forall|q: int|
                                    pattern_matches_at(old(mem)@, ctrl_click_pattern(), q) ==> q
                                        == pos)
                                &&& t1.injections@[0].0.entry_point as int == pos
                            }
                        &&& s2.inner matches SettingKind::Toggle(t2) && {
                            &&& t2.injections@.len() == 0
                            &&& t2.detours@.len() == 2
                            &&& t2.detours@[0].0.enabled
                            &&& t2.detours@[1].0.enabled
                            &&& hook_lookup(hooks.entries@, "update_quaternion_hook"@) == Some(
                                t2.detours@[0].0.hook_address,
                            )
                            &&& hook_lookup(hooks.entries@, "editor_destructor_hook"@) == Some(
                                t2.detours@[1].0.hook_address,
                            )
                            &&& exists|pos: int|
                                {
                                    &&& #[trigger] pattern_matches_at(
                                        old(mem)@,
                                        update_quaternion_pattern(),
                                        pos,
                                    )
                                    &&& (forall|q: int|
                                        pattern_matches_at(
                                            old(mem)@,
                                            update_quaternion_pattern(),
                                            q,
                                        ) ==> q == pos)
                                    &&& t2.detours@[0].0.target_address as int == pos
                                }
                            &&& exists|pos: int|
                                {
                                    &&& #[trigger] pattern_matches_at(
                                        old(mem)@,
                                        editor_destructor_pattern(),
                                        pos,
                                    )
                                    &&& (forall|q: int|
                                        pattern_matches_at(
                                            old(mem)@,
                                            editor_destructor_pattern(),
                                            q,
                                        ) ==> q == pos)
                                    &&& t2.detours@[1].0.target_address as int == pos
                                }
                        }
                        &&& exists|pos: int|
                            {
                                &&& #[trigger] pattern_matches_at(
                                    old(mem)@,
                                    set_flip_pattern(),
                                    pos,
                                )
                                &&& (forall|q: int|
                                    pattern_matches_at(old(mem)@, set_flip_pattern(), q) ==> q
                                        == pos)
                                &&& t.set_flip_addr as int == pos
                            }
                        &&& (s1.inner matches SettingKind::Toggle(t1) && final(mem)@
                            == spec_write(
                            spec_write(
                                old(mem)@,
                                t.safety_check_inject.entry_point as int,
                                t.safety_check_inject.replacement_bytes(),
                            ),
                            t1.injections@[0].0.entry_point as int,
                            t1.injections@[0].0.replacement_bytes(),
                        ))
                    }
                },
                Err(TweakError::Scan(e)) => {
                    &&& hook_lookup(hooks.entries@, "safety_check"@) is Some
                    &&& hook_lookup(hooks.entries@, "hook_ctrl_click"@) is Some
                    &&& hook_lookup(hooks.entries@, "update_quaternion_hook"@) is Some
                    &&& hook_lookup(hooks.entries@, "editor_destructor_hook"@) is Some
                    &&& {
                        ||| is_scan_single_result(
                            old(mem)@,
                            update_quaternion_pattern(),
                            Err::<usize, crate::tweaks::ScanAOBSingleError>(e),
                        )
                        ||| unique_match(old(mem)@, update_quaternion_pattern())
                            && is_scan_single_result(
                            old(mem)@,
                            editor_destructor_pattern(),
                            Err::<usize, crate::tweaks::ScanAOBSingleError>(e),
                        )
                        ||| unique_match(old(mem)@, update_quaternion_pattern()) && unique_match(
                            old(mem)@,
                            editor_destructor_pattern(),
                        ) && is_scan_single_result(
                            old(mem)@,
                            quaternion_slerp_pattern(),
                            Err::<usize, crate::tweaks::ScanAOBSingleError>(e),
                        )
                        ||| unique_match(old(mem)@, quaternion_slerp_pattern())
                            && is_scan_single_result(
                            old(mem)@,
                            safety_check_pattern(),
                            Err::<usize, crate::tweaks::ScanAOBSingleError>(e),
                        )
                        ||| unique_match(old(mem)@, safety_check_pattern())
                            && is_scan_single_result(
                            old(mem)@,
                            ctrl_click_pattern(),
                            Err::<usize, crate::tweaks::ScanAOBSingleError>(e),
                        )
                        ||| unique_match(old(mem)@, ctrl_click_pattern())
                            && is_scan_single_result(
                            old(mem)@,
                            set_flip_pattern(),
                            Err::<usize, crate::tweaks::ScanAOBSingleError>(e),
                        )
                    }
                    &&& final(builder).settings@ == old(builder).settings@
                    &&& final(mem)@ == old(mem)@
                },
                Err(TweakError::OutOfBounds) => {
                    &&& unique_match(old(mem)@, ctrl_click_pattern())
                    &&& {
                        let pos = choose|pos: int|
                            pattern_matches_at(old(mem)@, ctrl_click_pattern(), pos);
                        rel32_target(old(mem)@, pos, 20, 5) < 0 || rel32_target(
                            old(mem)@,
                            pos,
                            20,
                            5,
                        ) > usize::MAX
                    }
                    &&& final(builder).settings@ == old(builder).settings@
                    &&& final(mem)@ == old(mem)@
                },
                Err(TweakError::MissingHook) => {
                    &&& {
                        ||| hook_lookup(hooks.entries@, "safety_check"@) is None
                        ||| hook_lookup(hooks.entries@, "hook_ctrl_click"@) is None
                        ||| hook_lookup(hooks.entries@, "update_quaternion_hook"@) is None
                        ||| hook_lookup(hooks.entries@, "editor_destructor_hook"@) is None
                    }
                    &&& final(builder).settings@ == old(builder).settings@
                    &&& final(mem)@ == old(mem)@
                },
                Err(_) => false,
            },
    {
        builder.set_category(Some(String::from_str("Editor")));
        let safety_hook = match hooks.get(&String::from_str("safety_check")) {
            Some(addr) => addr,
            None => {
                return Err(TweakError::MissingHook);
            },
        };
        let ctrl_click_hook = match hooks.get(&String::from_str("hook_ctrl_click")) {
            Some(addr) => addr,
            None => {
                return Err(TweakError::MissingHook);
            },
        };
        let update_quaternion_hook = match hooks.get(&String::from_str("update_quaternion_hook")) {
            Some(addr) => addr,
            None => {
                return Err(TweakError::MissingHook);
            },
        };
        let editor_destructor_hook = match hooks.get(
            &String::from_str("editor_destructor_hook"),
        ) {
            Some(addr) => addr,
            None => {
                return Err(TweakError::MissingHook);
            },
        };
        // resolve the two detour targets
        let uq_pattern = MemoryPattern::new(
            vec![
                Some(0x40u8),
                Some(0x53u8),
                Some(0x48u8),
                Some(0x81u8),
                Some(0xecu8),
                Some(0x80u8),
                Some(0x00u8),
                Some(0x00u8),
                Some(0x00u8),
                Some(0x48u8),
                Some(0x8bu8),
                Some(0x05u8),
                None,
                None,
                None,
                None,
                Some(0x48u8),
                Some(0x33u8),
                Some(0xc4u8),
                Some(0x48u8),
                Some(0x89u8),
                Some(0x44u8),
                Some(0x24u8),
                Some(0x70u8),
                Some(0x48u8),
                Some(0x8bu8),
                Some(0xd9u8),
                Some(0xc7u8),
                Some(0x81u8),
                Some(0x1cu8),
                Some(0x01u8),
                Some(0x00u8),
                Some(0x00u8),
                Some(0x00u8),
                Some(0x00u8),
                Some(0x00u8),
                Some(0x00u8),
            ],
        );
        proof {
            assert(uq_pattern@ =~= update_quaternion_pattern());
        }
        let update_quaternion_fn_addr = match mem.scan_aob_single(&uq_pattern) {
            Ok(pos) => pos,
            Err(e) => {
                proof {
                    lemma_scan_err_not_unique(old(mem)@, update_quaternion_pattern(), e);
                }
                return Err(TweakError::Scan(e));
            },
        };
        let ed_pattern = MemoryPattern::new(
            vec![
                Some(0x48u8),
                Some(0x89u8),
                Some(0x5cu8),
                Some(0x24u8),
                Some(0x08u8),
                Some(0x57u8),
                Some(0x48u8),
                Some(0x83u8),
                Some(0xecu8),
                Some(0x20u8),
                Some(0x8bu8),
                Some(0xdau8),
                Some(0x48u8),
                Some(0x8bu8),
                Some(0xf9u8),
                Some(0xe8u8),
                None,
                None,
                None,
                None,
                Some(0xf6u8),
                Some(0xc3u8),
                Some(0x01u8),
                Some(0x74u8),
                None,
                Some(0xbau8),
                Some(0xf8u8),
                Some(0x9cu8),
                Some(0x00u8),
                Some(0x00u8),
            ],
        );
        proof {
            assert(ed_pattern@ =~= editor_destructor_pattern());
        }
        let editor_destructor_fn_addr = match mem.scan_aob_single(&ed_pattern) {
            Ok(pos) => pos,
            Err(e) => {
                proof {
                    lemma_scan_err_not_unique(old(mem)@, editor_destructor_pattern(), e);
                }
                return Err(TweakError::Scan(e));
            },
        };
        // the patch that suppresses the interpolated-matrix copy; kept
        // disarmed until a non-orthonormal matrix appears
        let slerp_pattern = MemoryPattern::new(
            vec![
                Some(0x48u8),
                Some(0x8du8),
                Some(0x93u8),
                Some(0xc0u8),
                Some(0x00u8),
                Some(0x00u8),
                Some(0x00u8),
                Some(0x48u8),
                Some(0x8du8),
                Some(0x4cu8),
                Some(0x24u8),
                Some(0x20u8),
                Some(0xe8u8),
                None,
                None,
                None,
                None,
            ],
        );
        proof {
            assert(slerp_pattern@ =~= quaternion_slerp_pattern());
        }
        let disable_quaternion_slerp_injection = match builder.injection(
            mem,
            &slerp_pattern,
            vec![0x90u8, 0x90u8, 0x90u8, 0x90u8, 0x90u8],
            InjectAt::End,
        ) {
            Ok(inj) => inj,
            Err(e) => {
                proof {
                    // the patch lands inside the match, so only a scan
                    // failure can reach here
                    match e {
                        TweakError::Scan(se) => {
                            lemma_scan_err_not_unique(old(mem)@, quaternion_slerp_pattern(), se);
                        },
                        _ => {},
                    }
                }
                return Err(e);
            },
        };
        proof {
            assert(disable_quaternion_slerp_injection.replacement_bytes() =~= nop_seq(5));
        }
        // the renderer safety patch: calls a hook that keeps the loop
        // increments at least one
        let safety_pattern = MemoryPattern::new(
            vec![
                Some(0x41u8),
                Some(0x03u8),
                Some(0xc6u8),
                Some(0x8bu8),
                Some(0x4du8),
                Some(0x18u8),
                Some(0x41u8),
                Some(0x0fu8),
                Some(0xafu8),
                Some(0xc9u8),
                Some(0x03u8),
                Some(0xc1u8),
                Some(0x99u8),
                Some(0x33u8),
                Some(0xc2u8),
                Some(0x2bu8),
                Some(0xc2u8),
            ],
        );
        proof {
            assert(safety_pattern@ =~= safety_check_pattern());
        }
        let mut safety_stub = build_call_stub(safety_hook);
        safety_stub.push(0x90u8);
        let mut safety_check_inject = match builder.injection(
            mem,
            &safety_pattern,
            safety_stub,
            InjectAt::Start,
        ) {
            Ok(inj) => inj,
            Err(e) => {
                proof {
                    // the patch lands inside the match, so only a scan
                    // failure can reach here
                    match e {
                        TweakError::Scan(se) => {
                            lemma_scan_err_not_unique(old(mem)@, safety_check_pattern(), se);
                        },
                        _ => {},
                    }
                }
                return Err(e);
            },
        };
        // the eyedrop site: redirect into the ctrl-click hook, preserving
        // the RCX load it replaces
        let ctrl_pattern = MemoryPattern::new(
            vec![
                Some(0x48u8),
                Some(0x8bu8),
                Some(0x52u8),
                Some(0x58u8),
                Some(0x48u8),
                Some(0x8bu8),
                Some(0x12u8),
                Some(0x48u8),
                Some(0x8bu8),
                Some(0xceu8),
                Some(0xe8u8),
                None,
                None,
                None,
                None,
                Some(0x48u8),
                Some(0x8bu8),
                Some(0x4cu8),
                Some(0x24u8),
                Some(0x68u8),
            ],
        );
        proof {
            assert(ctrl_pattern@ =~= ctrl_click_pattern());
        }
        let mut ctrl_stub: Vec<u8> = vec![0x48u8, 0x8bu8, 0xceu8];
        let mut call_part = build_call_stub(ctrl_click_hook);
        ctrl_stub.append(&mut call_part);
        ctrl_stub.push(0x90u8);
        let ghost ctrl_stub_view = ctrl_stub@;
        let hook_ctrl_click_injection = match builder.injection(
            mem,
            &ctrl_pattern,
            ctrl_stub,
            InjectAt::Start,
        ) {
            Ok(inj) => inj,
            Err(e) => {
                proof {
                    // the patch lands inside the match, so only a scan
                    // failure can reach here
                    match e {
                        TweakError::Scan(se) => {
                            lemma_scan_err_not_unique(old(mem)@, ctrl_click_pattern(), se);
                        },
                        _ => {},
                    }
                }
                return Err(e);
            },
        };
        // the call the stub replaces names set_placing_component by a
        // relative displacement; resolve it before anything is overwritten
        let ctrl_entry = hook_ctrl_click_injection.entry_point;
        let set_placing_component_addr = match read_rel32_target(mem, ctrl_entry, 20, 5) {
            Some(addr) => addr,
            None => {
                proof {
                    // the site lies inside the region, so only a target
                    // outside the address space can reach here; any chosen
                    // match offset is the unique one
                    let pos = choose|pos: int|
                        pattern_matches_at(old(mem)@, ctrl_click_pattern(), pos);
                    assert(pos == ctrl_entry as int);
                }
                return Err(TweakError::OutOfBounds);
            },
        };
        // the set-flip function the eyedrop hook calls
        let sf_pattern = MemoryPattern::new(
            vec![
                Some(0x48u8),
                Some(0x89u8),
                Some(0x5cu8),
                Some(0x24u8),
                Some(0x08u8),
                Some(0x48u8),
                Some(0x89u8),
                Some(0x6cu8),
                Some(0x24u8),
                Some(0x10u8),
                Some(0x48u8),
                Some(0x89u8),
                Some(0x74u8),
                Some(0x24u8),
                Some(0x18u8),
                Some(0x57u8),
                Some(0x41u8),
                Some(0x56u8),
                Some(0x41u8),
                Some(0x57u8),
                Some(0x48u8),
                Some(0x83u8),
                Some(0xecu8),
                Some(0x20u8),
                Some(0x0fu8),
                Some(0xb6u8),
                Some(0x81u8),
                Some(0xe8u8),
                Some(0x01u8),
                Some(0x00u8),
                Some(0x00u8),
            ],
        );
        proof {
            assert(sf_pattern@ =~= set_flip_pattern());
        }
        let set_flip_addr = match mem.scan_aob_single(&sf_pattern) {
            Ok(pos) => pos,
            Err(e) => {
                proof {
                    lemma_scan_err_not_unique(old(mem)@, set_flip_pattern(), e);
                }
                return Err(TweakError::Scan(e));
            },
        };
        // arm the renderer safety patch now; it stays on for the tweak's
        // lifetime except while removed by an orthonormal transition
        match safety_check_inject.inject(mem) {
            Ok(()) => {},
            Err(_) => {
                proof {
                    // the span was just resolved inside the region
                    assert(false);
                }
            },
        }
        let ghost mem_after_safety = mem@;
        let shift_toggle = ToggleBuilder::new(
            String::from_str("Shift Copies Transform"),
            Defaults::new(true, false),
        ).tooltip(
            String::from_str(
                "If enabled, holding Shift while using Ctrl+Click to eyedrop component will copy the component's transform.",
            ),
        ).config_key(String::from_str("shift_copies_transform")).injection(
            hook_ctrl_click_injection,
            false,
        );
        let ghost tb1 = shift_toggle;
        let ghost mem_at_build_1 = mem@;
        match shift_toggle.build(builder, mem) {
            Ok(()) => {},
            Err(e) => {
                proof {
                    let injs = tb1.toggle.injections@;
                    let rl = mem_at_build_1.len() as int;
                    if !toggle_can_apply(injs, true, rl) {
                        let j = choose|j: int|
                            0 <= j < injs.len() && ((true != injs[j].1)
                                != injs[j].0.is_applied()) && !injs[j].0.in_bounds(rl);
                        assert(j == 0);
                        assert(false);
                    }
                }
                return Err(e);
            },
        }
        proof {
            // turning the eyedrop toggle on applies its single fresh patch
            let injs = tb1.toggle.injections@;
            let w = (injs[0].0.entry_point as int, injs[0].0.replacement_bytes());
            assert(toggle_writes_prefix(injs, true, 0) =~= Seq::<(int, Seq<u8>)>::empty());
            assert(toggle_writes_prefix(injs, true, 1) =~= toggle_writes_prefix(injs, true, 0)
                + injection_toggle_writes(injs[0].0, true != injs[0].1));
            assert(toggle_writes_prefix(injs, true, 1) =~= seq![w]);
            lemma_write_all_singleton(mem_after_safety, w);
        }
        let edit_toggle = ToggleBuilder::new(
            String::from_str("Placement Transform Editing"),
            Defaults::new(true, false),
        ).tooltip(
            String::from_str(
                "If enabled, allows editing the placement transform.\nA grid of numbers allow you to edit the 3x3 rotation matrix of the component being placed (same as in xml).\nYou can also increment (or hold Alt to decrement) using Numpad 1-9 (make sure NumLock is on).\nNumpad 0 resets the matrix.\n(You may have to rotate a component in-editor once before it works)",
            ),
        ).config_key(String::from_str("placement_transform_editing")).detour(
            Detour::install(update_quaternion_fn_addr, update_quaternion_hook),
            false,
        ).detour(Detour::install(editor_destructor_fn_addr, editor_destructor_hook), false);
        let ghost tb2 = edit_toggle;
        match edit_toggle.build(builder, mem) {
            Ok(()) => {},
            Err(e) => {
                proof {
                    // no patches are bound to this toggle
                    assert(false);
                }
                return Err(e);
            },
        }
        proof {
            // the editing toggle binds only detours, so its build writes
            // nothing
            assert(toggle_writes_prefix(tb2.toggle.injections@, true, 0) =~= Seq::<
                (int, Seq<u8>),
            >::empty());
        }
        Ok(
            TransformEditTweak {
                disable_quaternion_slerp: false,
                disable_quaternion_slerp_injection,
                safety_check_inject,
                set_placing_component_addr,
                set_flip_addr,
            },
        )
    }

    /// Track the edited matrix: when it stops being orthonormal, suppress
    /// the quaternion interpolation and arm the safety patch; when it
    /// becomes orthonormal again, withdraw both so the game's own pipeline
    /// takes over.
    pub fn check_orthonormal(&mut self, matrix: &[i32; 9], mem: &mut MemoryRegion) -> (r: Result<
        (),
        PermissionError,
    >)
        requires
            transform_edit_wf(*old(self)),
        ensures
            final(self).set_placing_component_addr == old(self).set_placing_component_addr,
            final(self).set_flip_addr == old(self).set_flip_addr,
            final(mem)@.len() == old(mem)@.len(),
            match r {
                Ok(()) => {
                    &&& transform_edit_wf(*final(self))
                    &&& final(self).disable_quaternion_slerp == !is_orthonormal_spec(matrix@)
                    &&& final(self).disable_quaternion_slerp_injection.is_applied()
                        == !is_orthonormal_spec(matrix@)
                    &&& if old(self).disable_quaternion_slerp == !is_orthonormal_spec(matrix@) {
                        // no transition: nothing is touched
                        *final(self) == *old(self) && final(mem)@ == old(mem)@
                    } else if !is_orthonormal_spec(matrix@) {
                        // matrix left the orthonormal set: both patches armed,
                        // the suppression NOPs written, then the safety stub
                        // unless it was already in place
                        &&& final(self).safety_check_inject.is_applied()
                        &&& {
                            let m1 = spec_write(
                                old(mem)@,
                                old(self).disable_quaternion_slerp_injection.entry_point as int,
                                old(self).disable_quaternion_slerp_injection.replacement_bytes(),
                            );
                            final(mem)@ == if old(self).safety_check_inject.is_applied() {
                                m1
                            } else {
                                spec_write(
                                    m1,
                                    old(self).safety_check_inject.entry_point as int,
                                    old(self).safety_check_inject.replacement_bytes(),
                                )
                            }
                        }
                    } else {
                        // matrix is orthonormal again: both patches withdrawn
                        // and their displaced bytes restored
                        &&& !final(self).safety_check_inject.is_applied()
                        &&& {
                            let m1 = spec_write(
                                old(mem)@,
                                old(self).disable_quaternion_slerp_injection.entry_point as int,
                                old(self).disable_quaternion_slerp_injection.original_bytes(),
                            );
                            final(mem)@ == if old(self).safety_check_inject.is_applied() {
                                spec_write(
                                    m1,
                                    old(self).safety_check_inject.entry_point as int,
                                    old(self).safety_check_inject.original_bytes(),
                                )
                            } else {
                                m1
                            }
                        }
                    }
                },
                Err(_) => {
                    // a transition was needed and some span that must
                    // change does not lie inside the region
                    &&& old(self).disable_quaternion_slerp == is_orthonormal_spec(matrix@)
                    &&& if !is_orthonormal_spec(matrix@) {
                        !old(self).disable_quaternion_slerp_injection.in_bounds(
                            old(mem)@.len() as int,
                        ) || !old(self).safety_check_inject.in_bounds(old(mem)@.len() as int)
                    } else {
                        (old(self).disable_quaternion_slerp_injection.is_applied() && !old(
                            self,
                        ).disable_quaternion_slerp_injection.in_bounds(old(mem)@.len() as int))
                            || (old(self).safety_check_inject.is_applied() && !old(
                            self,
                        ).safety_check_inject.in_bounds(old(mem)@.len() as int))
                    }
                    &&& *final(self) == *old(self)
                    &&& final(mem)@ == old(mem)@
                },
            },
    {
        let orthonormal = is_orthonormal(matrix);
        if orthonormal == self.disable_quaternion_slerp {
            if !self.disable_quaternion_slerp {
                // matrix left the orthonormal set: arm both patches
                if !self.disable_quaternion_slerp_injection.fits(mem) {
                    return Err(
                        PermissionError {
                            address: self.disable_quaternion_slerp_injection.entry_point,
                            len: self.disable_quaternion_slerp_injection.len(),
                        },
                    );
                }
                if !self.safety_check_inject.fits(mem) {
                    return Err(
                        PermissionError {
                            address: self.safety_check_inject.entry_point,
                            len: self.safety_check_inject.len(),
                        },
                    );
                }
                match self.disable_quaternion_slerp_injection.inject(mem) {
                    Ok(()) => {},
                    Err(_) => {
                        proof {
                            assert(false);
                        }
                    },
                }
                match self.safety_check_inject.inject(mem) {
                    Ok(()) => {},
                    Err(_) => {
                        proof {
                            assert(false);
                        }
                    },
                }
                self.disable_quaternion_slerp = true;
            } else {
                // matrix is orthonormal again: withdraw the suppression
                if self.disable_quaternion_slerp_injection.applied()
                    && !self.disable_quaternion_slerp_injection.fits(mem) {
                    return Err(
                        PermissionError {
                            address: self.disable_quaternion_slerp_injection.entry_point,
                            len: self.disable_quaternion_slerp_injection.len(),
                        },
                    );
                }
                if self.safety_check_inject.applied() && !self.safety_check_inject.fits(mem) {
                    return Err(
                        PermissionError {
                            address: self.safety_check_inject.entry_point,
                            len: self.safety_check_inject.len(),
                        },
                    );
                }
                match self.disable_quaternion_slerp_injection.remove_injection(mem) {
                    Ok(()) => {},
                    Err(_) => {
                        proof {
                            assert(false);
                        }
                    },
                }
                match self.safety_check_inject.remove_injection(mem) {
                    Ok(()) => {},
                    Err(_) => {
                        proof {
                            assert(false);
                        }
                    },
                }
                self.disable_quaternion_slerp = false;
            }
        }
        Ok(())
    }

    /// Tear the tweak's own patches down, restoring both spans
    /// byte-for-byte from their stored originals.
    pub fn uninit(&mut self, mem: &mut MemoryRegion) -> (r: Result<(), PermissionError>)
        requires
            transform_edit_wf(*old(self)),
        ensures
            final(self).set_placing_component_addr == old(self).set_placing_component_addr,
            final(self).set_flip_addr == old(self).set_flip_addr,
            match r {
                Ok(()) => {
                    &&& !(old(self).disable_quaternion_slerp_injection.is_applied() && !old(
                        self,
                    ).disable_quaternion_slerp_injection.in_bounds(old(mem)@.len() as int))
                    &&& !(old(self).safety_check_inject.is_applied() && !old(
                        self,
                    ).safety_check_inject.in_bounds(old(mem)@.len() as int))
                    &&& transform_edit_wf(*final(self))
                    &&& !final(self).disable_quaternion_slerp
                    &&& !final(self).disable_quaternion_slerp_injection.is_applied()
                    &&& !final(self).safety_check_inject.is_applied()
                    &&& final(self).disable_quaternion_slerp_injection.entry_point == old(
                        self,
                    ).disable_quaternion_slerp_injection.entry_point
                    &&& final(self).safety_check_inject.entry_point == old(
                        self,
                    ).safety_check_inject.entry_point
                    &&& {
                        let m1 = if old(self).disable_quaternion_slerp_injection.is_applied() {
                            spec_write(
                                old(mem)@,
                                old(self).disable_quaternion_slerp_injection.entry_point as int,
                                old(self).disable_quaternion_slerp_injection.original_bytes(),
                            )
                        } else {
                            old(mem)@
                        };
                        final(mem)@ == if old(self).safety_check_inject.is_applied() {
                            spec_write(
                                m1,
                                old(self).safety_check_inject.entry_point as int,
                                old(self).safety_check_inject.original_bytes(),
                            )
                        } else {
                            m1
                        }
                    }
                },
                Err(_) => {
                    &&& (old(self).disable_quaternion_slerp_injection.is_applied() && !old(
                        self,
                    ).disable_quaternion_slerp_injection.in_bounds(old(mem)@.len() as int)) || (
                    old(self).safety_check_inject.is_applied() && !old(
                        self,
                    ).safety_check_inject.in_bounds(old(mem)@.len() as int))
                    &&& *final(self) == *old(self)
                    &&& final(mem)@ == old(mem)@
                },
            },
    {
        if self.disable_quaternion_slerp_injection.applied()
            && !self.disable_quaternion_slerp_injection.fits(mem) {
            return Err(
                PermissionError {
                    address: self.disable_quaternion_slerp_injection.entry_point,
                    len: self.disable_quaternion_slerp_injection.len(),
                },
            );
        }
        if self.safety_check_inject.applied() && !self.safety_check_inject.fits(mem) {
            return Err(
                PermissionError {
                    address: self.safety_check_inject.entry_point,
                    len: self.safety_check_inject.len(),
                },
            );
        }
        match self.disable_quaternion_slerp_injection.remove_injection(mem) {
            Ok(()) => {},
            Err(_) => {
                proof {
                    assert(false);
                }
            },
        }
        match self.safety_check_inject.remove_injection(mem) {
            Ok(()) => {},
            Err(_) => {
                proof {
                    assert(false);
                }
            },
        }
        self.disable_quaternion_slerp = false;
        Ok(())
    }
}

/// `x + d`, clamped to the 32-bit range.
pub open spec fn saturating_add_spec(x: int, d: int) -> int {
    if x + d > i32::MAX as int {
        i32::MAX as int
    } else if x + d < i32::MIN as int {
        i32::MIN as int
    } else {
        x + d
    }
}

/// The edited matrix after one keypad step: the entry at `idx` moved by
/// `delta`, saturating at the 32-bit bounds, every other entry unchanged.
pub fn matrix_with_increment(matrix: &[i32; 9], idx: usize, delta: i32) -> (r: [i32; 9])
    requires
        idx < 9,
    ensures
        r@ == matrix@.update(idx as int, r@[idx as int]),
        r@[idx as int] as int == saturating_add_spec(matrix@[idx as int] as int, delta as int),
{
    let mut r = *matrix;
    let x = matrix[idx] as i64;
    let sum = x + delta as i64;
    let clamped: i32 = if sum > i32::MAX as i64 {
        i32::MAX
    } else if sum < i32::MIN as i64 {
        i32::MIN
    } else {
        sum as i32
    };
    r[idx] = clamped;
    proof {
        assert(r@ =~= matrix@.update(idx as int, r@[idx as int]));
    }
    r
}

/// Which flip bits the eyedropped component's flip differs in from the
/// current one, in the order the flip chain must be walked: each returned
/// bit selects one flip-type indirection for the platform layer to apply.
pub fn flip_bits_to_apply(parent: &FlipParent, flip: u8) -> (r: Vec<u8>)
    ensures
        r@ == flip_bits_spec(parent.cur_flip, flip),
{
    let mut r: Vec<u8> = Vec::new();
    if parent.cur_flip & 0x1 != flip & 0x1 {
        r.push(0x1);
    }
    if parent.cur_flip & 0x2 != flip & 0x2 {
        r.push(0x2);
    }
    if parent.cur_flip & 0x4 != flip & 0x4 {
        r.push(0x4);
    }
    proof {
        assert(r@ =~= flip_bits_spec(parent.cur_flip, flip));
    }
    r
}

/// The flip bits that differ between `cur` and `flip`, low bit first.
pub open spec fn flip_bits_spec(cur: u8, flip: u8) -> Seq<u8> {
    (if cur & 0x1 != flip & 0x1 {
        seq![0x1u8]
    } else {
        Seq::empty()
    }) + (if cur & 0x2 != flip & 0x2 {
        seq![0x2u8]
    } else {
        Seq::empty()
    }) + (if cur & 0x4 != flip & 0x4 {
        seq![0x4u8]
    } else {
        Seq::empty()
    })
}

/// Should the eyedrop copy the component's transform? Exactly when its
/// matrix is a proper rotation, or a transform was already captured for
/// editing.
pub fn should_copy_transform(component: &ComponentBase, transform_captured: bool) -> (r: bool)
    ensures
        r == (is_orthonormal_spec(component.matrix@) || transform_captured),
{
    is_orthonormal(&component.matrix) || transform_captured
}

/// The four little-endian bytes at `at` read as an unsigned number.
pub open spec fn rel32_disp(mem: Seq<u8>, at: int) -> int {
    mem[at] + 0x100 * mem[at + 1] + 0x1_0000 * mem[at + 2] + 0x100_0000 * mem[at + 3]
}

/// The absolute target of a relative CALL inside a matched site: the four
/// displacement bytes end `call_end` bytes before the end of the
/// `site_len`-byte site, are sign-extended, and are taken from the
/// instruction's end.
pub open spec fn rel32_target(mem: Seq<u8>, entry: int, site_len: int, call_end: int) -> int {
    let base = entry + site_len - call_end;
    let d = rel32_disp(mem, base - 4);
    base + (if d >= 0x8000_0000 {
        d - 0x1_0000_0000
    } else {
        d
    })
}

/// Resolve the absolute target of a relative CALL inside a matched site:
/// `Some` exactly when the site lies inside the region and the target lies
/// inside the address space.
pub fn read_rel32_target(mem: &MemoryRegion, entry: usize, site_len: usize, call_end: usize) -> (r:
    Option<usize>)
    requires
        call_end + 4 <= site_len,
    ensures
        match r {
            Some(addr) => {
                &&& entry + site_len <= mem@.len()
                &&& addr as int == rel32_target(mem@, entry as int, site_len as int, call_end as int)
            },
            None => {
                ||| entry + site_len > mem@.len()
                ||| rel32_target(mem@, entry as int, site_len as int, call_end as int) < 0
                ||| rel32_target(mem@, entry as int, site_len as int, call_end as int)
                    > usize::MAX
            },
        },
{
    if site_len > mem.len() || entry > mem.len() - site_len {
        return None;
    }
    let disp_at = entry + site_len - call_end - 4;
    let bytes = match mem.read_bytes(disp_at, 4) {
        Some(b) => b,
        None => {
            proof {
                assert(false);
            }
            return None;
        },
    };
    let b0 = bytes[0];
    let b1 = bytes[1];
    let b2 = bytes[2];
    let b3 = bytes[3];
    let d: u64 = b0 as u64 | ((b1 as u64) << 8u64) | ((b2 as u64) << 16u64) | ((b3 as u64)
        << 24u64);
    proof {
        assert(d == b0 as u64 + 0x100 * (b1 as u64) + 0x1_0000 * (b2 as u64) + 0x100_0000 * (
        b3 as u64) && d < 0x1_0000_0000) by (bit_vector)
            requires
                d == b0 as u64 | ((b1 as u64) << 8u64) | ((b2 as u64) << 16u64) | ((b3 as u64)
                    << 24u64),
        ;
        assert(d as int == rel32_disp(mem@, disp_at as int));
    }
    let signed: i128 = if d >= 0x8000_0000 {
        d as i128 - 0x1_0000_0000i128
    } else {
        d as i128
    };
    let base: i128 = (entry + site_len - call_end) as i128;
    let target = base + signed;
    proof {
        assert(target as int == rel32_target(
            mem@,
            entry as int,
            site_len as int,
            call_end as int,
        ));
    }
    if target < 0 || target > usize::MAX as i128 {
        return None;
    }
    Some(target as usize)
}

} // verus!
