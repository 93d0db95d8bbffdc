//! Turning a declared barrier into stage and access masks, and refusing the
//! stages this host has no equivalent for.
//!
//! [`BarrierPlan`] is the one answer, in `synchronization2`'s vocabulary, and
//! [`BarrierPlan::legacy`] maps it for a host that needs the older masks. The
//! older form is coarser: `synchronization2` split the old `SHADER_READ` into
//! sampled and storage reads. The map is total. A bit with no row widens to
//! `ALL_COMMANDS` or to `MEMORY_READ | MEMORY_WRITE` rather than vanishing,
//! because too strong costs throughput and too weak is a race.
//!
//! A stage this host cannot express is refused by name. Metal's tile stage has
//! no core Vulkan equivalent, and its object and mesh stages need
//! `VK_EXT_mesh_shader`. Undeclared bits are refused too.
//!
//! A stage mask and an access mask are one answer, not two: Vulkan performs
//! each access at particular stages, so each half of a plan keeps only the
//! access its own stages perform. An access a stage cannot perform did not
//! happen in that stage, so this removes nothing the guest asked for.

use crate::flags::{
    contains, holds, holds_u32, lemma_empty_has_none, lemma_empty_has_none_u32,
    lemma_holds_union, lemma_holds_union_u32, lemma_lowest_is_held, lemma_outside,
    lemma_same_flags, lemma_single_has_itself, lowest, pick, single,
};
use crate::guest::{BarrierOp, BarrierScope, BarrierTarget, RenderStages};
use crate::layout::{access_of, stages_of, Use};
use crate::text::{hexadecimal, push_hexadecimal, push_text};
use crate::vulkan::{
    access, access2, stage, stage2, AccessFlags, AccessFlags2, PipelineStageFlags,
    PipelineStageFlags2,
};
use vstd::prelude::*;

verus! {

broadcast use {
    lemma_holds_union,
    lemma_holds_union_u32,
    lemma_empty_has_none,
    lemma_empty_has_none_u32,
};

/// What this host can express, as capabilities rather than names.
#[derive(Clone, Copy, Debug, Default, PartialEq, Eq, Structural)]
pub struct StageSupport {
    /// `VK_EXT_mesh_shader` is present and enabled, so the object and mesh
    /// stages have equivalents.
    pub mesh_shader: bool,
}

/// Why a barrier could not be translated.
#[derive(Clone, Copy, Debug, PartialEq, Eq, Structural)]
pub enum Decline {
    /// The scope named bits the API does not declare.
    UndeclaredScopeBits { bits: u32 },
    /// The stage mask named bits the API does not declare.
    UndeclaredStageBits { bits: u32 },
    /// The guest named the tile stage. Metal's tile shading has no core Vulkan
    /// equivalent.
    TileStage,
    /// The guest named the object or mesh stage and this host has no mesh
    /// shading. A capability answer, not a device one.
    MeshStagesUnavailable { stages: u32 },
}

impl Decline {
    /// The slug of each decline.
    pub open spec fn slug_text(self) -> Seq<char> {
        match self {
            Decline::UndeclaredScopeBits { .. } => "vk_barrier_undeclared_scope_bits"@,
            Decline::UndeclaredStageBits { .. } => "vk_barrier_undeclared_stage_bits"@,
            Decline::TileStage => "vk_barrier_tile_stage"@,
            Decline::MeshStagesUnavailable { .. } => "vk_barrier_mesh_stages_unavailable"@,
        }
    }

    /// The decline's slug.
    #[must_use]
    pub fn slug(self) -> (slug: &'static str)
        ensures
            slug@ == self.slug_text(),
    {
        match self {
            Decline::UndeclaredScopeBits { .. } => "vk_barrier_undeclared_scope_bits",
            Decline::UndeclaredStageBits { .. } => "vk_barrier_undeclared_stage_bits",
            Decline::TileStage => "vk_barrier_tile_stage",
            Decline::MeshStagesUnavailable { .. } => "vk_barrier_mesh_stages_unavailable",
        }
    }

    /// The decline with the bits it is about.
    pub open spec fn message_text(self) -> Seq<char> {
        match self {
            Decline::UndeclaredScopeBits { bits } => self.slug_text() + " bits="@ + hexadecimal(
                bits as nat,
            ),
            Decline::UndeclaredStageBits { bits } => self.slug_text() + " bits="@ + hexadecimal(
                bits as nat,
            ),
            Decline::TileStage => self.slug_text(),
            Decline::MeshStagesUnavailable { stages } => self.slug_text() + " stages="@
                + hexadecimal(stages as nat),
        }
    }

    /// The decline with the bits it is about.
    pub fn message(self) -> (text: String)
        ensures
            text@ == self.message_text(),
    {
        let mut text = String::new();
        push_text(&mut text, self.slug());
        match self {
            Decline::UndeclaredScopeBits { bits } | Decline::UndeclaredStageBits { bits } => {
                push_text(&mut text, " bits=");
                push_hexadecimal(&mut text, bits as u64);
            },
            Decline::TileStage => {},
            Decline::MeshStagesUnavailable { stages } => {
                push_text(&mut text, " stages=");
                push_hexadecimal(&mut text, stages as u64);
            },
        }
        assert(text@ =~= self.message_text());
        text
    }
}

/// The one answer: what has to finish, and what may then proceed.
#[derive(Clone, Copy, Debug, Default, PartialEq, Eq, Structural)]
pub struct BarrierPlan {
    pub src_stages: PipelineStageFlags2,
    pub dst_stages: PipelineStageFlags2,
    pub src_access: AccessFlags2,
    pub dst_access: AccessFlags2,
}

/// The same plan in the pre-`synchronization2` flag types.
#[derive(Clone, Copy, Debug, Default, PartialEq, Eq, Structural)]
pub struct LegacyBarrier {
    pub src_stages: PipelineStageFlags,
    pub dst_stages: PipelineStageFlags,
    pub src_access: AccessFlags,
    pub dst_access: AccessFlags,
}

/// Every shader stage this module can emit. The carrier of every access a
/// shader performs: vertex, fragment, compute, task and mesh.
pub const SHADER_STAGES: u64 = stage2::VERTEX_SHADER | stage2::FRAGMENT_SHADER
    | stage2::COMPUTE_SHADER | stage2::TASK_SHADER | stage2::MESH_SHADER;

/// The two stages that perform depth and stencil accesses.
pub const TEST_STAGES: u64 = stage2::EARLY_FRAGMENT_TESTS | stage2::LATE_FRAGMENT_TESTS;

/// Every stage this module can emit, which is what carries `MEMORY_READ` and
/// `MEMORY_WRITE`.
pub const ALL_STAGES: u64 = SHADER_STAGES | TEST_STAGES | stage2::COLOR_ATTACHMENT_OUTPUT;

/// The four stages of `MTLRenderStageFragment`, which covers fragment shading
/// and the per-fragment fixed function that follows it.
pub const FRAGMENT_STAGES: u64 = stage2::FRAGMENT_SHADER | TEST_STAGES
    | stage2::COLOR_ATTACHMENT_OUTPUT;

/// The older equivalent of one `synchronization2` stage. A stage with no row
/// widens to `ALL_COMMANDS`.
pub open spec fn older_stage(flag: PipelineStageFlags2) -> PipelineStageFlags {
    if flag == stage2::ALL_TRANSFER {
        stage::TRANSFER
    } else if flag == stage2::ALL_GRAPHICS {
        stage::ALL_GRAPHICS
    } else if flag == stage2::COMPUTE_SHADER {
        stage::COMPUTE_SHADER
    } else if flag == stage2::VERTEX_SHADER {
        stage::VERTEX_SHADER
    } else if flag == stage2::FRAGMENT_SHADER {
        stage::FRAGMENT_SHADER
    } else if flag == stage2::EARLY_FRAGMENT_TESTS {
        stage::EARLY_FRAGMENT_TESTS
    } else if flag == stage2::LATE_FRAGMENT_TESTS {
        stage::LATE_FRAGMENT_TESTS
    } else if flag == stage2::COLOR_ATTACHMENT_OUTPUT {
        stage::COLOR_ATTACHMENT_OUTPUT
    } else if flag == stage2::TASK_SHADER {
        stage::TASK_SHADER
    } else if flag == stage2::MESH_SHADER {
        stage::MESH_SHADER
    } else {
        stage::ALL_COMMANDS
    }
}

/// Whether one `synchronization2` stage has a row of its own.
pub open spec fn stage_has_row(flag: PipelineStageFlags2) -> bool {
    ||| flag == stage2::ALL_TRANSFER
    ||| flag == stage2::ALL_GRAPHICS
    ||| flag == stage2::COMPUTE_SHADER
    ||| flag == stage2::VERTEX_SHADER
    ||| flag == stage2::FRAGMENT_SHADER
    ||| flag == stage2::EARLY_FRAGMENT_TESTS
    ||| flag == stage2::LATE_FRAGMENT_TESTS
    ||| flag == stage2::COLOR_ATTACHMENT_OUTPUT
    ||| flag == stage2::TASK_SHADER
    ||| flag == stage2::MESH_SHADER
}

/// The older equivalent of one `synchronization2` access. Two reads collapse
/// onto `SHADER_READ`. An access with no row widens to
/// `MEMORY_READ | MEMORY_WRITE`.
pub open spec fn older_access(flag: AccessFlags2) -> AccessFlags {
    if flag == access2::TRANSFER_READ {
        access::TRANSFER_READ
    } else if flag == access2::TRANSFER_WRITE {
        access::TRANSFER_WRITE
    } else if flag == access2::UNIFORM_READ {
        access::UNIFORM_READ
    } else if flag == access2::SHADER_SAMPLED_READ {
        access::SHADER_READ
    } else if flag == access2::SHADER_STORAGE_READ {
        access::SHADER_READ
    } else if flag == access2::SHADER_STORAGE_WRITE {
        access::SHADER_WRITE
    } else if flag == access2::INPUT_ATTACHMENT_READ {
        access::INPUT_ATTACHMENT_READ
    } else if flag == access2::COLOR_ATTACHMENT_READ {
        access::COLOR_ATTACHMENT_READ
    } else if flag == access2::COLOR_ATTACHMENT_WRITE {
        access::COLOR_ATTACHMENT_WRITE
    } else if flag == access2::DEPTH_STENCIL_ATTACHMENT_READ {
        access::DEPTH_STENCIL_ATTACHMENT_READ
    } else if flag == access2::DEPTH_STENCIL_ATTACHMENT_WRITE {
        access::DEPTH_STENCIL_ATTACHMENT_WRITE
    } else if flag == access2::MEMORY_READ {
        access::MEMORY_READ
    } else if flag == access2::MEMORY_WRITE {
        access::MEMORY_WRITE
    } else {
        access::MEMORY_READ | access::MEMORY_WRITE
    }
}

/// Whether one `synchronization2` access has a row of its own.
pub open spec fn access_has_row(flag: AccessFlags2) -> bool {
    ||| flag == access2::TRANSFER_READ
    ||| flag == access2::TRANSFER_WRITE
    ||| flag == access2::UNIFORM_READ
    ||| flag == access2::SHADER_SAMPLED_READ
    ||| flag == access2::SHADER_STORAGE_READ
    ||| flag == access2::SHADER_STORAGE_WRITE
    ||| flag == access2::INPUT_ATTACHMENT_READ
    ||| flag == access2::COLOR_ATTACHMENT_READ
    ||| flag == access2::COLOR_ATTACHMENT_WRITE
    ||| flag == access2::DEPTH_STENCIL_ATTACHMENT_READ
    ||| flag == access2::DEPTH_STENCIL_ATTACHMENT_WRITE
    ||| flag == access2::MEMORY_READ
    ||| flag == access2::MEMORY_WRITE
}

/// Which stages perform one access — Vulkan's "supported access types"
/// relation, over the accesses that can reach a plan.
pub open spec fn carriers(flag: AccessFlags2) -> PipelineStageFlags2 {
    if flag == access2::UNIFORM_READ {
        SHADER_STAGES
    } else if flag == access2::SHADER_SAMPLED_READ {
        SHADER_STAGES
    } else if flag == access2::SHADER_STORAGE_READ {
        SHADER_STAGES
    } else if flag == access2::SHADER_STORAGE_WRITE {
        SHADER_STAGES
    } else if flag == access2::INPUT_ATTACHMENT_READ {
        stage2::FRAGMENT_SHADER
    } else if flag == access2::COLOR_ATTACHMENT_READ {
        stage2::COLOR_ATTACHMENT_OUTPUT
    } else if flag == access2::COLOR_ATTACHMENT_WRITE {
        stage2::COLOR_ATTACHMENT_OUTPUT
    } else if flag == access2::DEPTH_STENCIL_ATTACHMENT_READ {
        TEST_STAGES
    } else if flag == access2::DEPTH_STENCIL_ATTACHMENT_WRITE {
        TEST_STAGES
    } else if flag == access2::MEMORY_READ {
        ALL_STAGES
    } else if flag == access2::MEMORY_WRITE {
        ALL_STAGES
    } else {
        stage2::NONE
    }
}

/// Whether `kept` is the part of `access` that `stages` can perform.
pub open spec fn is_within(
    kept: AccessFlags2,
    access: AccessFlags2,
    stages: PipelineStageFlags2,
) -> bool {
    forall|flag: u64|
        single(flag) ==> (#[trigger] holds(kept, flag) <==> holds(access, flag) && holds(
            stages,
            carriers(flag),
        ))
}

/// Whether `older` is the legacy form of `stages`: it holds what some stage of
/// `stages` becomes, and nothing else.
pub open spec fn is_older_stages(older: PipelineStageFlags, stages: PipelineStageFlags2) -> bool {
    forall|flags: u32| #[trigger]
        holds_u32(older, flags) <==> exists|flag: u64|
            single(flag) && #[trigger] holds(stages, flag) && holds_u32(older_stage(flag), flags)
}

/// Whether `older` is the legacy form of `access`.
pub open spec fn is_older_access(older: AccessFlags, access: AccessFlags2) -> bool {
    forall|flags: u32| #[trigger]
        holds_u32(older, flags) <==> exists|flag: u64|
            single(flag) && #[trigger] holds(access, flag) && holds_u32(older_access(flag), flags)
}

/// Every flag that has a row is one flag.
proof fn lemma_flags_are_single()
    ensures
        single(access2::COLOR_ATTACHMENT_READ),
        single(access2::COLOR_ATTACHMENT_WRITE),
        single(access2::DEPTH_STENCIL_ATTACHMENT_READ),
        single(access2::DEPTH_STENCIL_ATTACHMENT_WRITE),
        single(access2::INPUT_ATTACHMENT_READ),
        single(access2::MEMORY_READ),
        single(access2::MEMORY_WRITE),
        single(access2::SHADER_SAMPLED_READ),
        single(access2::SHADER_STORAGE_READ),
        single(access2::SHADER_STORAGE_WRITE),
        single(access2::TRANSFER_READ),
        single(access2::TRANSFER_WRITE),
        single(access2::UNIFORM_READ),
        single(stage2::ALL_GRAPHICS),
        single(stage2::ALL_TRANSFER),
        single(stage2::COLOR_ATTACHMENT_OUTPUT),
        single(stage2::COMPUTE_SHADER),
        single(stage2::EARLY_FRAGMENT_TESTS),
        single(stage2::FRAGMENT_SHADER),
        single(stage2::LATE_FRAGMENT_TESTS),
        single(stage2::MESH_SHADER),
        single(stage2::TASK_SHADER),
        single(stage2::VERTEX_SHADER),
{
    assert(0x8u64 & 0x7u64 == 0 && 0x10u64 & 0xfu64 == 0 && 0x80u64 & 0x7fu64 == 0
        && 0x100u64 & 0xffu64 == 0 && 0x200u64 & 0x1ffu64 == 0 && 0x400u64 & 0x3ffu64 == 0
        && 0x800u64 & 0x7ffu64 == 0 && 0x1000u64 & 0xfffu64 == 0 && 0x8000u64 & 0x7fffu64 == 0
        && 0x10000u64 & 0xffffu64 == 0 && 0x80000u64 & 0x7ffffu64 == 0
        && 0x100000u64 & 0xfffffu64 == 0 && 0x100000000u64 & 0xffffffffu64 == 0
        && 0x200000000u64 & 0x1ffffffffu64 == 0 && 0x400000000u64 & 0x3ffffffffu64 == 0) by (bit_vector);
}

/// A word is empty exactly when it holds none of all the flags there are.
proof fn lemma_full_mask(word: u32)
    ensures
        holds_u32(word, 0xffff_ffff) <==> word != 0,
{
    assert(word & 0xffff_ffffu32 == word) by (bit_vector);
}

/// What one row of an older vocabulary contributes.
fn row(mapped: u32, set: u64, newer: u64, older: u32) -> (extended: u32)
    requires
        single(newer),
    ensures
        forall|flags: u32| #[trigger]
            holds_u32(extended, flags) <==> holds_u32(mapped, flags) || (holds(set, newer)
                && holds_u32(older, flags)),
{
    if contains(set, newer) {
        mapped | older
    } else {
        mapped
    }
}

/// The stages that have a row.
fn mapped_stage_bits() -> (bits: u64)
    ensures
        forall|flag: u64| single(flag) ==> (#[trigger] holds(bits, flag) <==> stage_has_row(flag)),
{
    let bits: u64 = stage2::ALL_TRANSFER | stage2::ALL_GRAPHICS | stage2::COMPUTE_SHADER
        | stage2::VERTEX_SHADER | stage2::FRAGMENT_SHADER | stage2::EARLY_FRAGMENT_TESTS
        | stage2::LATE_FRAGMENT_TESTS | stage2::COLOR_ATTACHMENT_OUTPUT | stage2::TASK_SHADER
        | stage2::MESH_SHADER;
    proof {
        lemma_flags_are_single();
        assert forall|flag: u64| single(flag) implies (#[trigger] holds(bits, flag)
            <==> stage_has_row(flag)) by {
            lemma_single_has_itself(stage2::ALL_TRANSFER, flag);
            lemma_single_has_itself(stage2::ALL_GRAPHICS, flag);
            lemma_single_has_itself(stage2::COMPUTE_SHADER, flag);
            lemma_single_has_itself(stage2::VERTEX_SHADER, flag);
            lemma_single_has_itself(stage2::FRAGMENT_SHADER, flag);
            lemma_single_has_itself(stage2::EARLY_FRAGMENT_TESTS, flag);
            lemma_single_has_itself(stage2::LATE_FRAGMENT_TESTS, flag);
            lemma_single_has_itself(stage2::COLOR_ATTACHMENT_OUTPUT, flag);
            lemma_single_has_itself(stage2::TASK_SHADER, flag);
            lemma_single_has_itself(stage2::MESH_SHADER, flag);
        }
    }
    bits
}

/// The accesses that have a row.
fn mapped_access_bits() -> (bits: u64)
    ensures
        forall|flag: u64| single(flag) ==> (#[trigger] holds(bits, flag) <==> access_has_row(flag)),
{
    let bits: u64 = access2::TRANSFER_READ | access2::TRANSFER_WRITE | access2::UNIFORM_READ
        | access2::SHADER_SAMPLED_READ | access2::SHADER_STORAGE_READ
        | access2::SHADER_STORAGE_WRITE | access2::INPUT_ATTACHMENT_READ
        | access2::COLOR_ATTACHMENT_READ | access2::COLOR_ATTACHMENT_WRITE
        | access2::DEPTH_STENCIL_ATTACHMENT_READ | access2::DEPTH_STENCIL_ATTACHMENT_WRITE
        | access2::MEMORY_READ | access2::MEMORY_WRITE;
    proof {
        lemma_flags_are_single();
        assert forall|flag: u64| single(flag) implies (#[trigger] holds(bits, flag)
            <==> access_has_row(flag)) by {
            lemma_single_has_itself(access2::TRANSFER_READ, flag);
            lemma_single_has_itself(access2::TRANSFER_WRITE, flag);
            lemma_single_has_itself(access2::UNIFORM_READ, flag);
            lemma_single_has_itself(access2::SHADER_SAMPLED_READ, flag);
            lemma_single_has_itself(access2::SHADER_STORAGE_READ, flag);
            lemma_single_has_itself(access2::SHADER_STORAGE_WRITE, flag);
            lemma_single_has_itself(access2::INPUT_ATTACHMENT_READ, flag);
            lemma_single_has_itself(access2::COLOR_ATTACHMENT_READ, flag);
            lemma_single_has_itself(access2::COLOR_ATTACHMENT_WRITE, flag);
            lemma_single_has_itself(access2::DEPTH_STENCIL_ATTACHMENT_READ, flag);
            lemma_single_has_itself(access2::DEPTH_STENCIL_ATTACHMENT_WRITE, flag);
            lemma_single_has_itself(access2::MEMORY_READ, flag);
            lemma_single_has_itself(access2::MEMORY_WRITE, flag);
        }
    }
    bits
}

/// The older form of a stage mask. Total: a stage bit with no row widens to
/// `ALL_COMMANDS`.
fn map_stages(stages: PipelineStageFlags2) -> (older: PipelineStageFlags)
    ensures
        is_older_stages(older, stages),
{
    proof {
        lemma_flags_are_single();
    }
    let mapped: u32 = 0;
    let mapped: u32 = row(mapped, stages, stage2::ALL_TRANSFER, stage::TRANSFER);
    let mapped: u32 = row(mapped, stages, stage2::ALL_GRAPHICS, stage::ALL_GRAPHICS);
    let mapped: u32 = row(mapped, stages, stage2::COMPUTE_SHADER, stage::COMPUTE_SHADER);
    let mapped: u32 = row(mapped, stages, stage2::VERTEX_SHADER, stage::VERTEX_SHADER);
    let mapped: u32 = row(mapped, stages, stage2::FRAGMENT_SHADER, stage::FRAGMENT_SHADER);
    let mapped: u32 = row(
        mapped,
        stages,
        stage2::EARLY_FRAGMENT_TESTS,
        stage::EARLY_FRAGMENT_TESTS,
    );
    let mapped: u32 = row(mapped, stages, stage2::LATE_FRAGMENT_TESTS, stage::LATE_FRAGMENT_TESTS);
    let mapped: u32 = row(
        mapped,
        stages,
        stage2::COLOR_ATTACHMENT_OUTPUT,
        stage::COLOR_ATTACHMENT_OUTPUT,
    );
    let mapped: u32 = row(mapped, stages, stage2::TASK_SHADER, stage::TASK_SHADER);
    let mapped: u32 = row(mapped, stages, stage2::MESH_SHADER, stage::MESH_SHADER);
    let covered: u64 = mapped_stage_bits();
    let outside: u64 = stages & !covered;
    let older: u32 = if outside == 0 {
        mapped
    } else {
        mapped | stage::ALL_COMMANDS
    };
    proof {
        assert forall|flags: u32| #[trigger] holds_u32(older, flags) <==> exists|flag: u64|
            single(flag) && #[trigger] holds(stages, flag) && holds_u32(
                older_stage(flag),
                flags,
            ) by {
            if holds_u32(older, flags) {
                if !holds_u32(mapped, flags) {
                    lemma_lowest_is_held(outside);
                    let flag = lowest(outside);
                    lemma_outside(stages, covered, flag);
                    assert(holds(covered, flag) <==> stage_has_row(flag));
                    assert(holds(stages, flag) && holds_u32(older_stage(flag), flags));
                }
            }
            if exists|flag: u64|
                single(flag) && #[trigger] holds(stages, flag) && holds_u32(
                    older_stage(flag),
                    flags,
                ) {
                let flag = choose|flag: u64|
                    single(flag) && #[trigger] holds(stages, flag) && holds_u32(
                        older_stage(flag),
                        flags,
                    );
                lemma_outside(stages, covered, flag);
                assert(holds(covered, flag) <==> stage_has_row(flag));
            }
        }
    }
    older
}

/// The older form of an access mask. Total: an access bit with no row widens to
/// `MEMORY_READ | MEMORY_WRITE`.
fn map_access(access: AccessFlags2) -> (older: AccessFlags)
    ensures
        is_older_access(older, access),
{
    proof {
        lemma_flags_are_single();
    }
    let mapped: u32 = 0;
    let mapped: u32 = row(mapped, access, access2::TRANSFER_READ, access::TRANSFER_READ);
    let mapped: u32 = row(mapped, access, access2::TRANSFER_WRITE, access::TRANSFER_WRITE);
    let mapped: u32 = row(mapped, access, access2::UNIFORM_READ, access::UNIFORM_READ);
    let mapped: u32 = row(mapped, access, access2::SHADER_SAMPLED_READ, access::SHADER_READ);
    let mapped: u32 = row(mapped, access, access2::SHADER_STORAGE_READ, access::SHADER_READ);
    let mapped: u32 = row(mapped, access, access2::SHADER_STORAGE_WRITE, access::SHADER_WRITE);
    let mapped: u32 = row(
        mapped,
        access,
        access2::INPUT_ATTACHMENT_READ,
        access::INPUT_ATTACHMENT_READ,
    );
    let mapped: u32 = row(
        mapped,
        access,
        access2::COLOR_ATTACHMENT_READ,
        access::COLOR_ATTACHMENT_READ,
    );
    let mapped: u32 = row(
        mapped,
        access,
        access2::COLOR_ATTACHMENT_WRITE,
        access::COLOR_ATTACHMENT_WRITE,
    );
    let mapped: u32 = row(
        mapped,
        access,
        access2::DEPTH_STENCIL_ATTACHMENT_READ,
        access::DEPTH_STENCIL_ATTACHMENT_READ,
    );
    let mapped: u32 = row(
        mapped,
        access,
        access2::DEPTH_STENCIL_ATTACHMENT_WRITE,
        access::DEPTH_STENCIL_ATTACHMENT_WRITE,
    );
    let mapped: u32 = row(mapped, access, access2::MEMORY_READ, access::MEMORY_READ);
    let mapped: u32 = row(mapped, access, access2::MEMORY_WRITE, access::MEMORY_WRITE);
    let covered: u64 = mapped_access_bits();
    let outside: u64 = access & !covered;
    let older: u32 = if outside == 0 {
        mapped
    } else {
        mapped | (access::MEMORY_READ | access::MEMORY_WRITE)
    };
    proof {
        assert forall|flags: u32| #[trigger] holds_u32(older, flags) <==> exists|flag: u64|
            single(flag) && #[trigger] holds(access, flag) && holds_u32(
                older_access(flag),
                flags,
            ) by {
            if holds_u32(older, flags) {
                if !holds_u32(mapped, flags) {
                    lemma_lowest_is_held(outside);
                    let flag = lowest(outside);
                    lemma_outside(access, covered, flag);
                    assert(holds(covered, flag) <==> access_has_row(flag));
                    assert(holds(access, flag) && holds_u32(older_access(flag), flags));
                }
            }
            if exists|flag: u64|
                single(flag) && #[trigger] holds(access, flag) && holds_u32(
                    older_access(flag),
                    flags,
                ) {
                let flag = choose|flag: u64|
                    single(flag) && #[trigger] holds(access, flag) && holds_u32(
                        older_access(flag),
                        flags,
                    );
                lemma_outside(access, covered, flag);
                assert(holds(covered, flag) <==> access_has_row(flag));
            }
        }
    }
    older
}

impl BarrierPlan {
    /// A plan that orders nothing.
    pub open spec fn nothing() -> BarrierPlan {
        BarrierPlan { src_stages: 0, dst_stages: 0, src_access: 0, dst_access: 0 }
    }

    /// Whether this plan orders anything at all.
    ///
    /// A guest may legally send a barrier over an empty scope. That orders
    /// nothing.
    #[must_use]
    pub fn orders_anything(self) -> (ordered: bool)
        ensures
            ordered <==> self.src_stages != 0 || self.dst_stages != 0,
    {
        self.src_stages != 0 || self.dst_stages != 0
    }

    /// Map onto the pre-`synchronization2` flags.
    #[must_use]
    pub fn legacy(self) -> (older: LegacyBarrier)
        ensures
            is_older_stages(older.src_stages, self.src_stages),
            is_older_stages(older.dst_stages, self.dst_stages),
            is_older_access(older.src_access, self.src_access),
            is_older_access(older.dst_access, self.dst_access),
    {
        LegacyBarrier {
            src_stages: map_stages(self.src_stages),
            dst_stages: map_stages(self.dst_stages),
            src_access: map_access(self.src_access),
            dst_access: map_access(self.dst_access),
        }
    }

    /// The bits with no entry in the legacy map, or empty.
    ///
    /// Non-empty means the map has no row for a value that reached a plan, so
    /// [`Self::legacy`] answered it by widening.
    #[must_use]
    pub fn unmapped_bits(self) -> (bits: (u64, u64))
        ensures
            forall|flag: u64|
                single(flag) ==> (#[trigger] holds(bits.0, flag) <==> (holds(self.src_stages, flag)
                    || holds(self.dst_stages, flag)) && !stage_has_row(flag)),
            forall|flag: u64|
                single(flag) ==> (#[trigger] holds(bits.1, flag) <==> (holds(self.src_access, flag)
                    || holds(self.dst_access, flag)) && !access_has_row(flag)),
    {
        let covered_stages: u64 = mapped_stage_bits();
        let covered_access: u64 = mapped_access_bits();
        let stages: u64 = (self.src_stages | self.dst_stages) & !covered_stages;
        let accesses: u64 = (self.src_access | self.dst_access) & !covered_access;
        proof {
            assert forall|flag: u64| single(flag) implies (#[trigger] holds(stages, flag) <==> (
            holds(self.src_stages, flag) || holds(self.dst_stages, flag)) && !stage_has_row(
                flag,
            )) by {
                lemma_outside(self.src_stages | self.dst_stages, covered_stages, flag);
                assert(holds(covered_stages, flag) <==> stage_has_row(flag));
            }
            assert forall|flag: u64| single(flag) implies (#[trigger] holds(accesses, flag) <==> (
            holds(self.src_access, flag) || holds(self.dst_access, flag)) && !access_has_row(
                flag,
            )) by {
                lemma_outside(self.src_access | self.dst_access, covered_access, flag);
                assert(holds(covered_access, flag) <==> access_has_row(flag));
            }
        }
        (stages, accesses)
    }
}

/// What one row of [`carriers`] contributes.
fn carry(
    kept: u64,
    access: AccessFlags2,
    stages: PipelineStageFlags2,
    flag: u64,
    performed_by: u64,
) -> (extended: u64)
    requires
        single(flag),
    ensures
        forall|other: u64|
            single(other) ==> (#[trigger] holds(extended, other) <==> holds(kept, other) || (other
                == flag && holds(access, flag) && holds(stages, performed_by))),
{
    proof {
        assert forall|other: u64| single(other) implies (holds(flag, other) <==> other == flag) by {
            lemma_single_has_itself(flag, other);
        }
    }
    if contains(access, flag) && stages & performed_by != 0 {
        kept | flag
    } else {
        kept
    }
}

/// The part of `access` that `stages` can actually perform.
///
/// Removes nothing the guest asked for: an access a stage cannot perform did
/// not happen in that stage.
pub fn access_within(access: AccessFlags2, stages: PipelineStageFlags2) -> (kept: AccessFlags2)
    ensures
        is_within(kept, access, stages),
{
    proof {
        lemma_flags_are_single();
    }
    let kept: u64 = 0;
    let kept: u64 = carry(kept, access, stages, access2::UNIFORM_READ, SHADER_STAGES);
    let kept: u64 = carry(kept, access, stages, access2::SHADER_SAMPLED_READ, SHADER_STAGES);
    let kept: u64 = carry(kept, access, stages, access2::SHADER_STORAGE_READ, SHADER_STAGES);
    let kept: u64 = carry(kept, access, stages, access2::SHADER_STORAGE_WRITE, SHADER_STAGES);
    let kept: u64 = carry(
        kept,
        access,
        stages,
        access2::INPUT_ATTACHMENT_READ,
        stage2::FRAGMENT_SHADER,
    );
    let kept: u64 = carry(
        kept,
        access,
        stages,
        access2::COLOR_ATTACHMENT_READ,
        stage2::COLOR_ATTACHMENT_OUTPUT,
    );
    let kept: u64 = carry(
        kept,
        access,
        stages,
        access2::COLOR_ATTACHMENT_WRITE,
        stage2::COLOR_ATTACHMENT_OUTPUT,
    );
    let kept: u64 = carry(
        kept,
        access,
        stages,
        access2::DEPTH_STENCIL_ATTACHMENT_READ,
        TEST_STAGES,
    );
    let kept: u64 = carry(
        kept,
        access,
        stages,
        access2::DEPTH_STENCIL_ATTACHMENT_WRITE,
        TEST_STAGES,
    );
    let kept: u64 = carry(kept, access, stages, access2::MEMORY_READ, ALL_STAGES);
    let kept: u64 = carry(kept, access, stages, access2::MEMORY_WRITE, ALL_STAGES);
    proof {
        assert forall|flag: u64| single(flag) implies (#[trigger] holds(kept, flag) <==> holds(
            access,
            flag,
        ) && holds(stages, carriers(flag))) by {
            lemma_nothing_is_performed_nowhere(stages);
        }
    }
    kept
}

proof fn lemma_nothing_is_performed_nowhere(stages: u64)
    ensures
        !holds(stages, stage2::NONE),
{
    assert(stages & 0 == 0) by (bit_vector);
}

/// The bits of `access` that no stage this module emits performs, or zero.
///
/// Non-zero would mean an access reaches a plan that [`access_within`] then
/// discards whatever the stages are.
#[must_use]
pub fn access_without_carrier(access: AccessFlags2) -> (bits: u64)
    ensures
        forall|flag: u64|
            single(flag) ==> (#[trigger] holds(bits, flag) <==> holds(access, flag) && carriers(
                flag,
            ) == stage2::NONE),
{
    let covered: u64 = access2::UNIFORM_READ | access2::SHADER_SAMPLED_READ
        | access2::SHADER_STORAGE_READ | access2::SHADER_STORAGE_WRITE
        | access2::INPUT_ATTACHMENT_READ | access2::COLOR_ATTACHMENT_READ
        | access2::COLOR_ATTACHMENT_WRITE | access2::DEPTH_STENCIL_ATTACHMENT_READ
        | access2::DEPTH_STENCIL_ATTACHMENT_WRITE | access2::MEMORY_READ | access2::MEMORY_WRITE;
    let bits: u64 = access & !covered;
    proof {
        lemma_flags_are_single();
        lemma_carriers_are_stages();
        assert forall|flag: u64| single(flag) implies (#[trigger] holds(bits, flag) <==> holds(
            access,
            flag,
        ) && carriers(flag) == stage2::NONE) by {
            lemma_outside(access, covered, flag);
            lemma_single_has_itself(access2::UNIFORM_READ, flag);
            lemma_single_has_itself(access2::SHADER_SAMPLED_READ, flag);
            lemma_single_has_itself(access2::SHADER_STORAGE_READ, flag);
            lemma_single_has_itself(access2::SHADER_STORAGE_WRITE, flag);
            lemma_single_has_itself(access2::INPUT_ATTACHMENT_READ, flag);
            lemma_single_has_itself(access2::COLOR_ATTACHMENT_READ, flag);
            lemma_single_has_itself(access2::COLOR_ATTACHMENT_WRITE, flag);
            lemma_single_has_itself(access2::DEPTH_STENCIL_ATTACHMENT_READ, flag);
            lemma_single_has_itself(access2::DEPTH_STENCIL_ATTACHMENT_WRITE, flag);
            lemma_single_has_itself(access2::MEMORY_READ, flag);
            lemma_single_has_itself(access2::MEMORY_WRITE, flag);
        }
    }
    bits
}

/// The stage sets that perform accesses are not empty.
proof fn lemma_carriers_are_stages()
    ensures
        SHADER_STAGES != 0,
        TEST_STAGES != 0,
        ALL_STAGES != 0,
{
    assert(8u64 | 0x80u64 | 0x800u64 | 0x80000u64 | 0x100000u64 != 0 && 0x100u64 | 0x200u64 != 0
        && ((8u64 | 0x80u64 | 0x800u64 | 0x80000u64 | 0x100000u64) | (0x100u64 | 0x200u64)
        | 0x400u64) != 0) by (bit_vector);
}

/// The access mask a declared scope names.
pub open spec fn named_by_scope(scope: BarrierScope) -> AccessFlags2 {
    pick(
        scope.0 & BarrierScope::BUFFERS != 0,
        access2::SHADER_STORAGE_READ | access2::SHADER_STORAGE_WRITE | access2::UNIFORM_READ,
    ) | pick(
        scope.0 & BarrierScope::TEXTURES != 0,
        access2::SHADER_SAMPLED_READ | access2::SHADER_STORAGE_READ
            | access2::SHADER_STORAGE_WRITE,
    ) | pick(
        scope.0 & BarrierScope::RENDER_TARGETS != 0,
        access2::COLOR_ATTACHMENT_READ | access2::COLOR_ATTACHMENT_WRITE
            | access2::DEPTH_STENCIL_ATTACHMENT_READ | access2::DEPTH_STENCIL_ATTACHMENT_WRITE,
    )
}

/// The access the two halves of a barrier over `target` order.
///
/// A scope is an ordering of that memory against itself. Listed resources carry
/// no usage, so the direction is not established and both ways are ordered.
/// `textureBarrier` makes previously written fragments readable by later ones.
pub open spec fn named_access(target: BarrierTarget) -> (AccessFlags2, AccessFlags2) {
    match target {
        BarrierTarget::Scope(scope) => (named_by_scope(scope), named_by_scope(scope)),
        BarrierTarget::Resources(_) => (
            access2::MEMORY_WRITE,
            access2::MEMORY_READ | access2::MEMORY_WRITE,
        ),
        BarrierTarget::Texture => (
            access2::COLOR_ATTACHMENT_WRITE,
            access2::SHADER_SAMPLED_READ | access2::INPUT_ATTACHMENT_READ,
        ),
    }
}

/// The stages a declared stage mask names.
pub open spec fn named_stages(declared: RenderStages) -> PipelineStageFlags2 {
    pick(declared.0 & RenderStages::VERTEX != 0, stage2::VERTEX_SHADER) | pick(
        declared.0 & RenderStages::FRAGMENT != 0,
        FRAGMENT_STAGES,
    ) | pick(declared.0 & RenderStages::OBJECT != 0, stage2::TASK_SHADER) | pick(
        declared.0 & RenderStages::MESH != 0,
        stage2::MESH_SHADER,
    )
}

/// What a declared stage mask becomes on a host, or why it cannot. A record
/// that carries none executes in the compute stage.
pub open spec fn resolved_stages(
    declared: Option<RenderStages>,
    support: StageSupport,
) -> Result<PipelineStageFlags2, Decline> {
    match declared {
        None => Ok(stage2::COMPUTE_SHADER),
        Some(stages) => {
            let mesh = stages.0 & (RenderStages::OBJECT | RenderStages::MESH);
            if stages.0 & !RenderStages::DECLARED != 0 {
                Err(Decline::UndeclaredStageBits { bits: stages.0 & !RenderStages::DECLARED })
            } else if stages.0 & RenderStages::TILE != 0 {
                Err(Decline::TileStage)
            } else if mesh != 0 && !support.mesh_shader {
                Err(Decline::MeshStagesUnavailable { stages: mesh })
            } else {
                Ok(named_stages(stages))
            }
        },
    }
}

/// Why a barrier cannot be translated, if it cannot: the stages to wait for are
/// looked at first, then the stages that wait, then the scope.
pub open spec fn declined(op: BarrierOp, support: StageSupport) -> Option<Decline> {
    if resolved_stages(op.after_stages, support) is Err {
        Some(resolved_stages(op.after_stages, support)->Err_0)
    } else if resolved_stages(op.before_stages, support) is Err {
        Some(resolved_stages(op.before_stages, support)->Err_0)
    } else {
        match op.target {
            BarrierTarget::Scope(scope) if scope.0 & !BarrierScope::DECLARED != 0 => Some(
                Decline::UndeclaredScopeBits { bits: scope.0 & !BarrierScope::DECLARED },
            ),
            _ => None,
        }
    }
}

/// Whether `plan` is what `op` becomes on a host that can express it.
pub open spec fn is_translation(op: BarrierOp, support: StageSupport, plan: BarrierPlan) -> bool {
    let src = resolved_stages(op.after_stages, support)->Ok_0;
    let dst = resolved_stages(op.before_stages, support)->Ok_0;
    if op.names_anything() {
        &&& plan.src_stages == src
        &&& plan.dst_stages == dst
        &&& is_within(plan.src_access, named_access(op.target).0, src)
        &&& is_within(plan.dst_access, named_access(op.target).1, dst)
    } else {
        plan == BarrierPlan::nothing()
    }
}

/// Translate one declared barrier.
///
/// Declines if the record named an undeclared bit, or a stage this host cannot
/// express.
pub fn translate(op: &BarrierOp, support: StageSupport) -> (plan: Result<BarrierPlan, Decline>)
    ensures
        match declined(*op, support) {
            Some(decline) => plan == Err::<BarrierPlan, Decline>(decline),
            None => plan is Ok && is_translation(*op, support, plan->Ok_0),
        },
{
    let src_stages: u64 = match stages(op.after_stages, support) {
        Ok(named) => named,
        Err(decline) => {
            return Err(decline);
        },
    };
    let dst_stages: u64 = match stages(op.before_stages, support) {
        Ok(named) => named,
        Err(decline) => {
            return Err(decline);
        },
    };
    let (src_access, dst_access): (u64, u64) = match op.target {
        BarrierTarget::Scope(scope) => {
            let bits: u32 = scope.undeclared_bits();
            if bits != 0 {
                return Err(Decline::UndeclaredScopeBits { bits });
            }
            let named: u64 = scope_access(scope);
            (named, named)
        },
        BarrierTarget::Resources(_) => (
            access2::MEMORY_WRITE,
            access2::MEMORY_READ | access2::MEMORY_WRITE,
        ),
        BarrierTarget::Texture => (
            access2::COLOR_ATTACHMENT_WRITE,
            access2::SHADER_SAMPLED_READ | access2::INPUT_ATTACHMENT_READ,
        ),
    };
    if !op.orders_anything() {
        return Ok(BarrierPlan { src_stages: 0, dst_stages: 0, src_access: 0, dst_access: 0 });
    }
    Ok(
        BarrierPlan {
            src_stages,
            dst_stages,
            src_access: access_within(src_access, src_stages),
            dst_access: access_within(dst_access, dst_stages),
        },
    )
}

/// The access mask one declared scope names.
pub fn scope_access(scope: BarrierScope) -> (named: AccessFlags2)
    ensures
        named == named_by_scope(scope),
{
    let buffers: u64 = if scope.0 & BarrierScope::BUFFERS != 0 {
        access2::SHADER_STORAGE_READ | access2::SHADER_STORAGE_WRITE | access2::UNIFORM_READ
    } else {
        0
    };
    let textures: u64 = if scope.0 & BarrierScope::TEXTURES != 0 {
        access2::SHADER_SAMPLED_READ | access2::SHADER_STORAGE_READ
            | access2::SHADER_STORAGE_WRITE
    } else {
        0
    };
    let render_targets: u64 = if scope.0 & BarrierScope::RENDER_TARGETS != 0 {
        access2::COLOR_ATTACHMENT_READ | access2::COLOR_ATTACHMENT_WRITE
            | access2::DEPTH_STENCIL_ATTACHMENT_READ | access2::DEPTH_STENCIL_ATTACHMENT_WRITE
    } else {
        0
    };
    buffers | textures | render_targets
}

/// The pipeline stages one declared stage mask names.
///
/// `None` is the compute rail: its barrier selectors carry no stage argument at
/// all, so the stage is the one its records execute in rather than an empty
/// mask.
fn stages(declared: Option<RenderStages>, support: StageSupport) -> (named: Result<
    PipelineStageFlags2,
    Decline,
>)
    ensures
        named == resolved_stages(declared, support),
{
    let declared = match declared {
        Some(declared) => declared,
        None => {
            return Ok(stage2::COMPUTE_SHADER);
        },
    };
    let bits: u32 = declared.undeclared_bits();
    if bits != 0 {
        return Err(Decline::UndeclaredStageBits { bits });
    }
    if declared.0 & RenderStages::TILE != 0 {
        return Err(Decline::TileStage);
    }
    let mesh: u32 = declared.0 & (RenderStages::OBJECT | RenderStages::MESH);
    if mesh != 0 && !support.mesh_shader {
        return Err(Decline::MeshStagesUnavailable { stages: mesh });
    }
    let vertex: u64 = if declared.0 & RenderStages::VERTEX != 0 {
        stage2::VERTEX_SHADER
    } else {
        0
    };
    let fragment: u64 = if declared.0 & RenderStages::FRAGMENT != 0 {
        FRAGMENT_STAGES
    } else {
        0
    };
    let object: u64 = if declared.0 & RenderStages::OBJECT != 0 {
        stage2::TASK_SHADER
    } else {
        0
    };
    let meshes: u64 = if declared.0 & RenderStages::MESH != 0 {
        stage2::MESH_SHADER
    } else {
        0
    };
    Ok(vertex | fragment | object | meshes)
}

/// The part of an access mask that stages perform is one mask and no other.
pub proof fn law_the_kept_access_is_determined(
    kept: AccessFlags2,
    other: AccessFlags2,
    access: AccessFlags2,
    stages: PipelineStageFlags2,
)
    requires
        is_within(kept, access, stages),
        is_within(other, access, stages),
    ensures
        kept == other,
{
    assert forall|flag: u64| single(flag) implies (#[trigger] holds(kept, flag) <==> holds(
        other,
        flag,
    )) by {
        assert(holds(other, flag) <==> holds(access, flag) && holds(stages, carriers(flag)));
    }
    lemma_same_flags(kept, other);
}

/// What a newer mask becomes in the older vocabulary is one mask and no other.
pub proof fn law_the_older_masks_are_determined(
    older: u32,
    other: u32,
    stages: PipelineStageFlags2,
    access: AccessFlags2,
)
    ensures
        is_older_stages(older, stages) && is_older_stages(other, stages) ==> older == other,
        is_older_access(older, access) && is_older_access(other, access) ==> older == other,
{
    let extra = older & !other;
    let missing = other & !older;
    assert((older & extra != 0 <==> other & extra != 0) && (older & missing != 0 <==> other
        & missing != 0) ==> older == other) by (bit_vector)
        requires
            extra == older & !other,
            missing == other & !older,
    ;
    if is_older_stages(older, stages) && is_older_stages(other, stages) {
        assert(holds_u32(older, extra) <==> holds_u32(other, extra));
        assert(holds_u32(older, missing) <==> holds_u32(other, missing));
    }
    if is_older_access(older, access) && is_older_access(other, access) {
        assert(holds_u32(older, extra) <==> holds_u32(other, extra));
        assert(holds_u32(older, missing) <==> holds_u32(other, missing));
    }
}

/// No half of any translated plan names an access that its own stages cannot
/// perform.
pub proof fn law_every_access_is_performed_by_its_own_half(
    op: BarrierOp,
    support: StageSupport,
    plan: BarrierPlan,
    flag: AccessFlags2,
)
    requires
        declined(op, support) is None,
        is_translation(op, support, plan),
        single(flag),
    ensures
        holds(plan.src_access, flag) ==> holds(plan.src_stages, carriers(flag)),
        holds(plan.dst_access, flag) ==> holds(plan.dst_stages, carriers(flag)),
{
}

/// Every access a barrier can name is performed by some stage this module
/// emits, so keeping only what the stages perform never drops an access for
/// want of a row.
pub proof fn law_every_named_access_has_a_carrier(target: BarrierTarget, flag: AccessFlags2)
    requires
        single(flag),
        holds(named_access(target).0, flag) || holds(named_access(target).1, flag),
    ensures
        carriers(flag) != stage2::NONE,
        access_has_row(flag),
{
    lemma_flags_are_single();
    lemma_carriers_are_stages();
    lemma_single_has_itself(access2::UNIFORM_READ, flag);
    lemma_single_has_itself(access2::SHADER_SAMPLED_READ, flag);
    lemma_single_has_itself(access2::SHADER_STORAGE_READ, flag);
    lemma_single_has_itself(access2::SHADER_STORAGE_WRITE, flag);
    lemma_single_has_itself(access2::INPUT_ATTACHMENT_READ, flag);
    lemma_single_has_itself(access2::COLOR_ATTACHMENT_READ, flag);
    lemma_single_has_itself(access2::COLOR_ATTACHMENT_WRITE, flag);
    lemma_single_has_itself(access2::DEPTH_STENCIL_ATTACHMENT_READ, flag);
    lemma_single_has_itself(access2::DEPTH_STENCIL_ATTACHMENT_WRITE, flag);
    lemma_single_has_itself(access2::MEMORY_READ, flag);
    lemma_single_has_itself(access2::MEMORY_WRITE, flag);
}

/// Every stage a barrier can name has a row in the legacy map.
pub proof fn law_every_named_stage_has_a_row(
    declared: Option<RenderStages>,
    support: StageSupport,
    flag: PipelineStageFlags2,
)
    requires
        single(flag),
        resolved_stages(declared, support) is Ok,
        holds(resolved_stages(declared, support)->Ok_0, flag),
    ensures
        stage_has_row(flag),
{
    lemma_flags_are_single();
    lemma_single_has_itself(stage2::ALL_TRANSFER, flag);
    lemma_single_has_itself(stage2::ALL_GRAPHICS, flag);
    lemma_single_has_itself(stage2::COMPUTE_SHADER, flag);
    lemma_single_has_itself(stage2::VERTEX_SHADER, flag);
    lemma_single_has_itself(stage2::FRAGMENT_SHADER, flag);
    lemma_single_has_itself(stage2::EARLY_FRAGMENT_TESTS, flag);
    lemma_single_has_itself(stage2::LATE_FRAGMENT_TESTS, flag);
    lemma_single_has_itself(stage2::COLOR_ATTACHMENT_OUTPUT, flag);
    lemma_single_has_itself(stage2::TASK_SHADER, flag);
    lemma_single_has_itself(stage2::MESH_SHADER, flag);
}

/// Nothing widens on the way to the older vocabulary: every stage and access of
/// a translated plan has a row.
pub proof fn law_a_translated_plan_has_no_unmapped_bits(
    op: BarrierOp,
    support: StageSupport,
    plan: BarrierPlan,
    flag: u64,
)
    requires
        declined(op, support) is None,
        is_translation(op, support, plan),
        single(flag),
    ensures
        holds(plan.src_stages, flag) || holds(plan.dst_stages, flag) ==> stage_has_row(flag),
        holds(plan.src_access, flag) || holds(plan.dst_access, flag) ==> access_has_row(flag),
{
    if op.names_anything() {
        if holds(plan.src_stages, flag) {
            law_every_named_stage_has_a_row(op.after_stages, support, flag);
        }
        if holds(plan.dst_stages, flag) {
            law_every_named_stage_has_a_row(op.before_stages, support, flag);
        }
        if holds(plan.src_access, flag) || holds(plan.dst_access, flag) {
            law_every_named_access_has_a_carrier(op.target, flag);
        }
    }
}

/// Every stage and access a layout transition names has a row too.
pub proof fn law_a_layout_transition_has_no_unmapped_bits(use_: Use, flag: u64)
    requires
        single(flag),
    ensures
        holds(stages_of(use_), flag) ==> stage_has_row(flag),
        holds(access_of(use_), flag) ==> access_has_row(flag),
{
    lemma_flags_are_single();
    lemma_single_has_itself(stage2::ALL_TRANSFER, flag);
    lemma_single_has_itself(stage2::ALL_GRAPHICS, flag);
    lemma_single_has_itself(stage2::COMPUTE_SHADER, flag);
    lemma_single_has_itself(stage2::VERTEX_SHADER, flag);
    lemma_single_has_itself(stage2::FRAGMENT_SHADER, flag);
    lemma_single_has_itself(stage2::EARLY_FRAGMENT_TESTS, flag);
    lemma_single_has_itself(stage2::LATE_FRAGMENT_TESTS, flag);
    lemma_single_has_itself(stage2::COLOR_ATTACHMENT_OUTPUT, flag);
    lemma_single_has_itself(stage2::TASK_SHADER, flag);
    lemma_single_has_itself(stage2::MESH_SHADER, flag);
    lemma_single_has_itself(access2::TRANSFER_READ, flag);
    lemma_single_has_itself(access2::TRANSFER_WRITE, flag);
    lemma_single_has_itself(access2::UNIFORM_READ, flag);
    lemma_single_has_itself(access2::SHADER_SAMPLED_READ, flag);
    lemma_single_has_itself(access2::SHADER_STORAGE_READ, flag);
    lemma_single_has_itself(access2::SHADER_STORAGE_WRITE, flag);
    lemma_single_has_itself(access2::INPUT_ATTACHMENT_READ, flag);
    lemma_single_has_itself(access2::COLOR_ATTACHMENT_READ, flag);
    lemma_single_has_itself(access2::COLOR_ATTACHMENT_WRITE, flag);
    lemma_single_has_itself(access2::DEPTH_STENCIL_ATTACHMENT_READ, flag);
    lemma_single_has_itself(access2::DEPTH_STENCIL_ATTACHMENT_WRITE, flag);
    lemma_single_has_itself(access2::MEMORY_READ, flag);
    lemma_single_has_itself(access2::MEMORY_WRITE, flag);
}

/// The older vocabulary empties no mask and fills none: a mask that orders
/// something still does, whatever its bits, and an empty one stays empty.
pub proof fn law_the_older_vocabulary_keeps_emptiness(
    stages: PipelineStageFlags2,
    older_stages: PipelineStageFlags,
    accesses: AccessFlags2,
    older_accesses: AccessFlags,
)
    requires
        is_older_stages(older_stages, stages),
        is_older_access(older_accesses, accesses),
    ensures
        older_stages == 0 <==> stages == 0,
        older_accesses == 0 <==> accesses == 0,
{
    let every: u32 = 0xffff_ffff;
    lemma_full_mask(older_stages);
    lemma_full_mask(older_accesses);
    assert(access::MEMORY_READ | access::MEMORY_WRITE != 0) by {
        assert(0x8000u32 | 0x10000u32 != 0) by (bit_vector);
    }
    if stages != 0 {
        lemma_lowest_is_held(stages);
        let flag = lowest(stages);
        lemma_full_mask(older_stage(flag));
        assert(holds(stages, flag) && holds_u32(older_stage(flag), every));
    }
    if accesses != 0 {
        lemma_lowest_is_held(accesses);
        let flag = lowest(accesses);
        lemma_full_mask(older_access(flag));
        assert(holds(accesses, flag) && holds_u32(older_access(flag), every));
    }
    assert(holds_u32(older_stages, every) <==> older_stages != 0);
    assert(holds_u32(older_accesses, every) <==> older_accesses != 0);
}

/// A stage with no row widens to every command, and an access with no row to
/// every memory access, rather than vanishing.
pub proof fn law_a_bit_with_no_row_widens(
    stages: PipelineStageFlags2,
    older_stages: PipelineStageFlags,
    accesses: AccessFlags2,
    older_accesses: AccessFlags,
    flag: u64,
)
    requires
        is_older_stages(older_stages, stages),
        is_older_access(older_accesses, accesses),
        single(flag),
    ensures
        holds(stages, flag) && !stage_has_row(flag) ==> holds_u32(
            older_stages,
            stage::ALL_COMMANDS,
        ),
        holds(accesses, flag) && !access_has_row(flag) ==> holds_u32(
            older_accesses,
            access::MEMORY_READ,
        ) && holds_u32(older_accesses, access::MEMORY_WRITE),
{
    assert(0x10000u32 & 0x10000u32 != 0 && (0x8000u32 | 0x10000u32) & 0x8000u32 != 0 && (0x8000u32
        | 0x10000u32) & 0x10000u32 != 0) by (bit_vector);
    if holds(stages, flag) && !stage_has_row(flag) {
        assert(holds_u32(older_stage(flag), stage::ALL_COMMANDS));
    }
    if holds(accesses, flag) && !access_has_row(flag) {
        assert(holds_u32(older_access(flag), access::MEMORY_READ));
        assert(holds_u32(older_access(flag), access::MEMORY_WRITE));
    }
}

/// A barrier over nothing orders nothing.
pub proof fn law_an_empty_barrier_orders_nothing(
    op: BarrierOp,
    support: StageSupport,
    plan: BarrierPlan,
)
    requires
        declined(op, support) is None,
        is_translation(op, support, plan),
        !op.names_anything(),
    ensures
        plan == BarrierPlan::nothing(),
{
}

/// No two declines share a slug, and what a decline says starts with its slug.
pub proof fn law_every_decline_names_itself(a: Decline, b: Decline)
    ensures
        a.slug_text() == b.slug_text() ==> {
            &&& a is UndeclaredScopeBits <==> b is UndeclaredScopeBits
            &&& a is UndeclaredStageBits <==> b is UndeclaredStageBits
            &&& a is TileStage <==> b is TileStage
            &&& a is MeshStagesUnavailable <==> b is MeshStagesUnavailable
        },
        a.slug_text().is_prefix_of(a.message_text()),
{
    reveal_strlit("vk_barrier_undeclared_scope_bits");
    reveal_strlit("vk_barrier_undeclared_stage_bits");
    reveal_strlit("vk_barrier_tile_stage");
    reveal_strlit("vk_barrier_mesh_stages_unavailable");
    assert("vk_barrier_undeclared_scope_bits"@[23] != "vk_barrier_undeclared_stage_bits"@[23]);
    assert(a.slug_text() =~= a.message_text().take(a.slug_text().len() as int));
}

/// Each stage and access there is a name for is told apart from every other.
proof fn lemma_known_flags(flag: u64)
    requires
        single(flag),
    ensures
        holds(stage2::ALL_TRANSFER, flag) <==> flag == stage2::ALL_TRANSFER,
        holds(stage2::ALL_GRAPHICS, flag) <==> flag == stage2::ALL_GRAPHICS,
        holds(stage2::COMPUTE_SHADER, flag) <==> flag == stage2::COMPUTE_SHADER,
        holds(stage2::VERTEX_SHADER, flag) <==> flag == stage2::VERTEX_SHADER,
        holds(stage2::FRAGMENT_SHADER, flag) <==> flag == stage2::FRAGMENT_SHADER,
        holds(stage2::EARLY_FRAGMENT_TESTS, flag) <==> flag == stage2::EARLY_FRAGMENT_TESTS,
        holds(stage2::LATE_FRAGMENT_TESTS, flag) <==> flag == stage2::LATE_FRAGMENT_TESTS,
        holds(stage2::COLOR_ATTACHMENT_OUTPUT, flag) <==> flag == stage2::COLOR_ATTACHMENT_OUTPUT,
        holds(stage2::TASK_SHADER, flag) <==> flag == stage2::TASK_SHADER,
        holds(stage2::MESH_SHADER, flag) <==> flag == stage2::MESH_SHADER,
        holds(access2::TRANSFER_READ, flag) <==> flag == access2::TRANSFER_READ,
        holds(access2::TRANSFER_WRITE, flag) <==> flag == access2::TRANSFER_WRITE,
        holds(access2::UNIFORM_READ, flag) <==> flag == access2::UNIFORM_READ,
        holds(access2::SHADER_SAMPLED_READ, flag) <==> flag == access2::SHADER_SAMPLED_READ,
        holds(access2::SHADER_STORAGE_READ, flag) <==> flag == access2::SHADER_STORAGE_READ,
        holds(access2::SHADER_STORAGE_WRITE, flag) <==> flag == access2::SHADER_STORAGE_WRITE,
        holds(access2::INPUT_ATTACHMENT_READ, flag) <==> flag == access2::INPUT_ATTACHMENT_READ,
        holds(access2::COLOR_ATTACHMENT_READ, flag) <==> flag == access2::COLOR_ATTACHMENT_READ,
        holds(access2::COLOR_ATTACHMENT_WRITE, flag) <==> flag == access2::COLOR_ATTACHMENT_WRITE,
        holds(access2::DEPTH_STENCIL_ATTACHMENT_READ, flag) <==> flag == access2::DEPTH_STENCIL_ATTACHMENT_READ,
        holds(access2::DEPTH_STENCIL_ATTACHMENT_WRITE, flag) <==> flag == access2::DEPTH_STENCIL_ATTACHMENT_WRITE,
        holds(access2::MEMORY_READ, flag) <==> flag == access2::MEMORY_READ,
        holds(access2::MEMORY_WRITE, flag) <==> flag == access2::MEMORY_WRITE,
{
    lemma_flags_are_single();
    lemma_single_has_itself(stage2::ALL_TRANSFER, flag);
    lemma_single_has_itself(stage2::ALL_GRAPHICS, flag);
    lemma_single_has_itself(stage2::COMPUTE_SHADER, flag);
    lemma_single_has_itself(stage2::VERTEX_SHADER, flag);
    lemma_single_has_itself(stage2::FRAGMENT_SHADER, flag);
    lemma_single_has_itself(stage2::EARLY_FRAGMENT_TESTS, flag);
    lemma_single_has_itself(stage2::LATE_FRAGMENT_TESTS, flag);
    lemma_single_has_itself(stage2::COLOR_ATTACHMENT_OUTPUT, flag);
    lemma_single_has_itself(stage2::TASK_SHADER, flag);
    lemma_single_has_itself(stage2::MESH_SHADER, flag);
    lemma_single_has_itself(access2::TRANSFER_READ, flag);
    lemma_single_has_itself(access2::TRANSFER_WRITE, flag);
    lemma_single_has_itself(access2::UNIFORM_READ, flag);
    lemma_single_has_itself(access2::SHADER_SAMPLED_READ, flag);
    lemma_single_has_itself(access2::SHADER_STORAGE_READ, flag);
    lemma_single_has_itself(access2::SHADER_STORAGE_WRITE, flag);
    lemma_single_has_itself(access2::INPUT_ATTACHMENT_READ, flag);
    lemma_single_has_itself(access2::COLOR_ATTACHMENT_READ, flag);
    lemma_single_has_itself(access2::COLOR_ATTACHMENT_WRITE, flag);
    lemma_single_has_itself(access2::DEPTH_STENCIL_ATTACHMENT_READ, flag);
    lemma_single_has_itself(access2::DEPTH_STENCIL_ATTACHMENT_WRITE, flag);
    lemma_single_has_itself(access2::MEMORY_READ, flag);
    lemma_single_has_itself(access2::MEMORY_WRITE, flag);
}

/// Whether a stage is one that runs a shader.
pub open spec fn runs_a_shader(stage: PipelineStageFlags2) -> bool {
    ||| stage == stage2::VERTEX_SHADER
    ||| stage == stage2::FRAGMENT_SHADER
    ||| stage == stage2::COMPUTE_SHADER
    ||| stage == stage2::TASK_SHADER
    ||| stage == stage2::MESH_SHADER
}

/// Whether a stage tests depth and stencil.
pub open spec fn tests_fragments(stage: PipelineStageFlags2) -> bool {
    stage == stage2::EARLY_FRAGMENT_TESTS || stage == stage2::LATE_FRAGMENT_TESTS
}

/// Whether one stage performs one access: shaders read and write their own
/// resources, the fragment shader reads input attachments, blending touches the
/// colour attachment, the fragment tests touch depth and stencil, and each of
/// them accesses memory.
pub open spec fn performs(stage: PipelineStageFlags2, access: AccessFlags2) -> bool {
    if access == access2::UNIFORM_READ || access == access2::SHADER_SAMPLED_READ || access
        == access2::SHADER_STORAGE_READ || access == access2::SHADER_STORAGE_WRITE {
        runs_a_shader(stage)
    } else if access == access2::INPUT_ATTACHMENT_READ {
        stage == stage2::FRAGMENT_SHADER
    } else if access == access2::COLOR_ATTACHMENT_READ || access
        == access2::COLOR_ATTACHMENT_WRITE {
        stage == stage2::COLOR_ATTACHMENT_OUTPUT
    } else if access == access2::DEPTH_STENCIL_ATTACHMENT_READ || access
        == access2::DEPTH_STENCIL_ATTACHMENT_WRITE {
        tests_fragments(stage)
    } else if access == access2::MEMORY_READ || access == access2::MEMORY_WRITE {
        runs_a_shader(stage) || tests_fragments(stage) || stage == stage2::COLOR_ATTACHMENT_OUTPUT
    } else {
        false
    }
}

/// Whether some stage among `stages` performs an access.
pub open spec fn performed_among(stages: PipelineStageFlags2, access: AccessFlags2) -> bool {
    exists|stage: u64| single(stage) && #[trigger] holds(stages, stage) && performs(stage, access)
}

/// The carriers of an access are the stages that perform it.
pub proof fn law_a_carrier_performs_its_access(
    stage: PipelineStageFlags2,
    access: AccessFlags2,
    stages: PipelineStageFlags2,
)
    requires
        single(stage),
        single(access),
    ensures
        holds(carriers(access), stage) <==> performs(stage, access),
        holds(stages, carriers(access)) <==> performed_among(stages, access),
{
    lemma_known_flags(stage);
    let carried = carriers(access);
    if stages & carried != 0 {
        let shared = stages & carried;
        lemma_lowest_is_held(shared);
        let low = lowest(shared);
        assert(stages & low != 0 && carried & low != 0) by (bit_vector)
            requires
                (stages & carried) & low != 0,
        ;
        lemma_known_flags(low);
        assert(holds(carried, low));
        assert(holds(stages, low) && performs(low, access));
    }
    if performed_among(stages, access) {
        let performing = choose|stage: u64|
            single(stage) && #[trigger] holds(stages, stage) && performs(stage, access);
        lemma_known_flags(performing);
        assert(holds(carried, performing));
        let less = (performing - 1) as u64;
        assert(stages & carried != 0) by (bit_vector)
            requires
                performing != 0,
                less == performing - 1u64,
                performing & less == 0,
                stages & performing != 0,
                carried & performing != 0,
        ;
    }
}

/// The stages a guest's stage mask names: a vertex stage is the vertex shader,
/// a fragment stage the fragment shader and the fixed function behind it, an
/// object stage the task shader and a mesh stage the mesh shader. A barrier in a
/// compute encoder names no mask and means the compute shader.
pub open spec fn guest_names_stage(
    declared: Option<RenderStages>,
    stage: PipelineStageFlags2,
) -> bool {
    match declared {
        None => stage == stage2::COMPUTE_SHADER,
        Some(mask) => {
            ||| stage == stage2::VERTEX_SHADER && mask.0 & RenderStages::VERTEX != 0
            ||| stage == stage2::FRAGMENT_SHADER && mask.0 & RenderStages::FRAGMENT != 0
            ||| tests_fragments(stage) && mask.0 & RenderStages::FRAGMENT != 0
            ||| stage == stage2::COLOR_ATTACHMENT_OUTPUT && mask.0 & RenderStages::FRAGMENT != 0
            ||| stage == stage2::TASK_SHADER && mask.0 & RenderStages::OBJECT != 0
            ||| stage == stage2::MESH_SHADER && mask.0 & RenderStages::MESH != 0
        },
    }
}

/// The accesses a guest's scope names: buffers are read and written by shaders
/// and read as uniforms, textures are sampled and read and written by shaders,
/// and render targets are read and written as attachments.
pub open spec fn guest_names_access(scope: BarrierScope, access: AccessFlags2) -> bool {
    let buffers = scope.0 & BarrierScope::BUFFERS != 0;
    let textures = scope.0 & BarrierScope::TEXTURES != 0;
    let targets = scope.0 & BarrierScope::RENDER_TARGETS != 0;
    ||| access == access2::UNIFORM_READ && buffers
    ||| access == access2::SHADER_STORAGE_READ && (buffers || textures)
    ||| access == access2::SHADER_STORAGE_WRITE && (buffers || textures)
    ||| access == access2::SHADER_SAMPLED_READ && textures
    ||| access == access2::COLOR_ATTACHMENT_READ && targets
    ||| access == access2::COLOR_ATTACHMENT_WRITE && targets
    ||| access == access2::DEPTH_STENCIL_ATTACHMENT_READ && targets
    ||| access == access2::DEPTH_STENCIL_ATTACHMENT_WRITE && targets
}

/// The accesses a barrier waits for: what its scope names, every write to the
/// resources it lists, or what rendering wrote to the attachment.
pub open spec fn guest_waits_for(target: BarrierTarget, access: AccessFlags2) -> bool {
    match target {
        BarrierTarget::Scope(scope) => guest_names_access(scope, access),
        BarrierTarget::Resources(_) => access == access2::MEMORY_WRITE,
        BarrierTarget::Texture => access == access2::COLOR_ATTACHMENT_WRITE,
    }
}

/// The accesses a barrier holds back: what its scope names, every access to the
/// resources it lists, or reads of what was rendered.
pub open spec fn guest_holds_back(target: BarrierTarget, access: AccessFlags2) -> bool {
    match target {
        BarrierTarget::Scope(scope) => guest_names_access(scope, access),
        BarrierTarget::Resources(_) => access == access2::MEMORY_READ || access
            == access2::MEMORY_WRITE,
        BarrierTarget::Texture => access == access2::SHADER_SAMPLED_READ || access
            == access2::INPUT_ATTACHMENT_READ,
    }
}

/// Each stage and each access of a translated barrier is one the guest named,
/// and each one the guest named is there: the stages to wait for are those of
/// the guest's after mask and the stages held back those of its before mask,
/// and each half keeps the accesses its own stages perform. A barrier that
/// names nothing orders nothing.
pub proof fn law_a_barrier_orders_what_the_guest_named(
    op: BarrierOp,
    support: StageSupport,
    plan: BarrierPlan,
    flag: u64,
)
    requires
        call_ensures(translate, (&op, support), Ok::<BarrierPlan, Decline>(plan)),
        single(flag),
    ensures
        ({
            let ordering = match op.target {
                BarrierTarget::Scope(scope) => scope.0 != 0,
                BarrierTarget::Resources(span) => span.len != 0,
                BarrierTarget::Texture => true,
            };
            &&& holds(plan.src_stages, flag) <==> ordering && guest_names_stage(
                op.after_stages,
                flag,
            )
            &&& holds(plan.dst_stages, flag) <==> ordering && guest_names_stage(
                op.before_stages,
                flag,
            )
            &&& holds(plan.src_access, flag) <==> ordering && guest_waits_for(op.target, flag)
                && performed_among(plan.src_stages, flag)
            &&& holds(plan.dst_access, flag) <==> ordering && guest_holds_back(op.target, flag)
                && performed_among(plan.dst_stages, flag)
        }),
{
    lemma_known_flags(flag);
    law_a_carrier_performs_its_access(flag, flag, plan.src_stages);
    law_a_carrier_performs_its_access(flag, flag, plan.dst_stages);
    lemma_flags_are_single();
    if op.names_anything() {
        assert(holds(plan.src_access, flag) <==> holds(named_access(op.target).0, flag) && holds(
            plan.src_stages,
            carriers(flag),
        ));
        assert(holds(plan.dst_access, flag) <==> holds(named_access(op.target).1, flag) && holds(
            plan.dst_stages,
            carriers(flag),
        ));
    }
}

/// Whether every stage of a guest's mask is declared and has an equivalent.
pub open spec fn expressible(declared: Option<RenderStages>, support: StageSupport) -> bool {
    declared matches Some(mask) ==> mask.0 & !RenderStages::DECLARED == 0 && mask.0
        & RenderStages::TILE == 0 && (support.mesh_shader || mask.0 & (RenderStages::OBJECT
        | RenderStages::MESH) == 0)
}

/// A barrier is declined exactly where one of its masks has no equivalent here
/// or its scope is not declared, and each decline carries the bits at fault.
pub proof fn law_a_barrier_is_declined_for_its_own_reason(
    op: BarrierOp,
    support: StageSupport,
    answer: Result<BarrierPlan, Decline>,
)
    requires
        call_ensures(translate, (&op, support), answer),
    ensures
        answer is Ok <==> expressible(op.after_stages, support) && expressible(
            op.before_stages,
            support,
        ) && (op.target matches BarrierTarget::Scope(scope) ==> scope.0 & !BarrierScope::DECLARED
            == 0),
        answer matches Err(Decline::UndeclaredStageBits { bits }) ==> bits != 0 && ((
        op.after_stages matches Some(mask) && bits == mask.0 & !RenderStages::DECLARED) || (
        op.before_stages matches Some(mask) && bits == mask.0 & !RenderStages::DECLARED)),
        answer matches Err(Decline::TileStage) ==> (op.after_stages matches Some(mask) && mask.0
            & RenderStages::TILE != 0) || (op.before_stages matches Some(mask) && mask.0
            & RenderStages::TILE != 0),
        answer matches Err(Decline::MeshStagesUnavailable { stages }) ==> !support.mesh_shader
            && stages != 0 && ((op.after_stages matches Some(mask) && stages == mask.0 & (
        RenderStages::OBJECT | RenderStages::MESH)) || (op.before_stages matches Some(mask)
            && stages == mask.0 & (RenderStages::OBJECT | RenderStages::MESH))),
        answer matches Err(Decline::UndeclaredScopeBits { bits }) ==> bits != 0 && (
        op.target matches BarrierTarget::Scope(scope) && bits == scope.0 & !BarrierScope::DECLARED),
{
}

/// The stages and accesses of a use are its own: attachments are written where
/// blending or the fragment tests run, images are sampled or stored by any
/// shader, copies read and write in transfers, and presentation names nothing.
pub proof fn law_a_use_names_its_own_stages_and_accesses(
    use_: Use,
    stages: PipelineStageFlags2,
    access: AccessFlags2,
    flag: u64,
)
    requires
        call_ensures(Use::stages, (use_,), stages),
        call_ensures(Use::access, (use_,), access),
        single(flag),
    ensures
        holds(stages, flag) <==> {
            ||| flag == stage2::COLOR_ATTACHMENT_OUTPUT && use_ is ColorAttachment
            ||| tests_fragments(flag) && (use_ is DepthStencilAttachment || use_ is DepthStencilRead)
            ||| (flag == stage2::ALL_GRAPHICS || flag == stage2::COMPUTE_SHADER) && (
            use_ is SampledRead || use_ is Storage)
            ||| flag == stage2::ALL_TRANSFER && (use_ is TransferSrc || use_ is TransferDst)
        },
        holds(access, flag) <==> {
            ||| flag == access2::COLOR_ATTACHMENT_READ && use_ is ColorAttachment
            ||| flag == access2::COLOR_ATTACHMENT_WRITE && use_ is ColorAttachment
            ||| flag == access2::DEPTH_STENCIL_ATTACHMENT_READ && (use_ is DepthStencilAttachment
                || use_ is DepthStencilRead)
            ||| flag == access2::DEPTH_STENCIL_ATTACHMENT_WRITE && use_ is DepthStencilAttachment
            ||| flag == access2::SHADER_SAMPLED_READ && use_ is SampledRead
            ||| flag == access2::SHADER_STORAGE_READ && use_ is Storage
            ||| flag == access2::SHADER_STORAGE_WRITE && use_ is Storage
            ||| flag == access2::TRANSFER_READ && use_ is TransferSrc
            ||| flag == access2::TRANSFER_WRITE && use_ is TransferDst
        },
{
    lemma_known_flags(flag);
}

/// Flags that fit the older word are told apart in it as in the newer.
proof fn lemma_narrow(a: u64, b: u64)
    requires
        single(a),
        single(b),
        a <= u32::MAX,
        b <= u32::MAX,
    ensures
        holds_u32(a as u32, b as u32) <==> a == b,
{
    lemma_single_has_itself(a, b);
    assert((a as u32) & (b as u32) != 0u32 <==> a & b != 0u64) by (bit_vector)
        requires
            a <= 0xffff_ffffu64,
            b <= 0xffff_ffffu64,
    ;
}

/// The two shader accesses of the older vocabulary are flags of their own.
proof fn lemma_shader_accesses_are_single()
    ensures
        single(access::SHADER_READ as u64),
        single(access::SHADER_WRITE as u64),
{
    assert(0x20u64 & 0x1fu64 == 0 && 0x40u64 & 0x3fu64 == 0) by (bit_vector);
}

/// In the older vocabulary a stage keeps its number, and so does an access that
/// was there before; sampled and storage reads become one shader read, and a
/// storage write a shader write.
pub proof fn law_the_older_vocabulary_keeps_each_number(flag: u64)
    ensures
        stage_has_row(flag) ==> older_stage(flag) == flag,
        access_has_row(flag) && flag <= u32::MAX ==> older_access(flag) == flag,
        flag == access2::SHADER_SAMPLED_READ || flag == access2::SHADER_STORAGE_READ
            ==> older_access(flag) == access::SHADER_READ,
        flag == access2::SHADER_STORAGE_WRITE ==> older_access(flag) == access::SHADER_WRITE,
{
}

/// A mask of stages that all have a row.
pub open spec fn stages_have_rows(stages: PipelineStageFlags2) -> bool {
    forall|flag: u64| single(flag) && #[trigger] holds(stages, flag) ==> stage_has_row(flag)
}

/// A mask of accesses that all have a row.
pub open spec fn accesses_have_rows(access: AccessFlags2) -> bool {
    forall|flag: u64| single(flag) && #[trigger] holds(access, flag) ==> access_has_row(flag)
}

/// Where nothing has to widen, the older barrier names in each half exactly the
/// stages and accesses of the same half.
pub proof fn law_the_older_barrier_says_the_same(
    plan: BarrierPlan,
    older: LegacyBarrier,
    flag: u64,
)
    requires
        call_ensures(BarrierPlan::legacy, (plan,), older),
        single(flag),
    ensures
        stage_has_row(flag) && stages_have_rows(plan.src_stages) ==> (holds_u32(
            older.src_stages,
            flag as u32,
        ) <==> holds(plan.src_stages, flag)),
        stage_has_row(flag) && stages_have_rows(plan.dst_stages) ==> (holds_u32(
            older.dst_stages,
            flag as u32,
        ) <==> holds(plan.dst_stages, flag)),
        accesses_have_rows(plan.src_access) ==> says_the_same_accesses(
            older.src_access,
            plan.src_access,
            flag,
        ),
        accesses_have_rows(plan.dst_access) ==> says_the_same_accesses(
            older.dst_access,
            plan.dst_access,
            flag,
        ),
{
    if stage_has_row(flag) {
        lemma_older_stage(plan.src_stages, older.src_stages, flag);
        lemma_older_stage(plan.dst_stages, older.dst_stages, flag);
    }
    lemma_older_access(plan.src_access, older.src_access, flag);
    lemma_older_access(plan.dst_access, older.dst_access, flag);
}

/// Whether an older access mask holds what a newer one does: each access that
/// kept its number where the newer does, a shader read where the newer samples
/// or reads storage, a shader write where it writes storage.
pub open spec fn says_the_same_accesses(
    older: AccessFlags,
    newer: AccessFlags2,
    flag: AccessFlags2,
) -> bool {
    &&& access_has_row(flag) && flag <= u32::MAX ==> (holds_u32(older, flag as u32) <==> holds(
        newer,
        flag,
    ))
    &&& holds_u32(older, access::SHADER_READ) <==> holds(newer, access2::SHADER_SAMPLED_READ)
        || holds(newer, access2::SHADER_STORAGE_READ)
    &&& holds_u32(older, access::SHADER_WRITE) <==> holds(newer, access2::SHADER_STORAGE_WRITE)
}

proof fn lemma_older_stage(stages: PipelineStageFlags2, older: PipelineStageFlags, flag: u64)
    requires
        is_older_stages(older, stages),
        single(flag),
        stage_has_row(flag),
    ensures
        stages_have_rows(stages) ==> (holds_u32(older, flag as u32) <==> holds(stages, flag)),
{
    if stages_have_rows(stages) {
        if holds_u32(older, flag as u32) {
            let newer = choose|newer: u64|
                single(newer) && #[trigger] holds(stages, newer) && holds_u32(
                    older_stage(newer),
                    flag as u32,
                );
            lemma_narrow(newer, flag);
        }
        if holds(stages, flag) {
            lemma_narrow(flag, flag);
            assert(holds_u32(older_stage(flag), flag as u32));
        }
    }
}

proof fn lemma_older_access(access: AccessFlags2, older: AccessFlags, flag: u64)
    requires
        is_older_access(older, access),
        single(flag),
    ensures
        accesses_have_rows(access) ==> says_the_same_accesses(older, access, flag),
{
    if accesses_have_rows(access) {
        lemma_flags_are_single();
        lemma_shader_accesses_are_single();
        let read = access::SHADER_READ as u64;
        let write = access::SHADER_WRITE as u64;
        lemma_narrow(read, read);
        lemma_narrow(write, write);
        assert forall|newer: u64| single(newer) && #[trigger] holds(access, newer) implies (flag
            <= u32::MAX && access_has_row(flag) ==> (holds_u32(older_access(newer), flag as u32)
            <==> newer == flag)) && (holds_u32(older_access(newer), access::SHADER_READ) <==> newer
            == access2::SHADER_SAMPLED_READ || newer == access2::SHADER_STORAGE_READ) && (
        holds_u32(older_access(newer), access::SHADER_WRITE) <==> newer
            == access2::SHADER_STORAGE_WRITE) by {
            lemma_narrow(read, write);
            lemma_narrow(write, read);
            if newer <= u32::MAX {
                lemma_narrow(newer, read);
                lemma_narrow(newer, write);
            }
            if flag <= u32::MAX {
                lemma_narrow(read, flag);
                lemma_narrow(write, flag);
                if newer <= u32::MAX {
                    lemma_narrow(newer, flag);
                }
            }
        }
    }
}

} // verus!
