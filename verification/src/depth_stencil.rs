//! A checked depth-stencil state as `VkPipelineDepthStencilStateCreateInfo`
//! would hold it.
//!
//! Metal has no depth-test enable, and Vulkan's also controls the write: with
//! it clear, Vulkan performs no test and no write. So it is set for every state
//! and the comparison carries the guest's meaning.
//!
//! One stencil enable covers two faces. The test is engaged when either face
//! is, and the face that is not gets Metal's documented default, which reads
//! the buffer and changes nothing.
//!
//! The stencil reference is an encoder command of its own and is not here.
//!
//! All of it is encoder state, and Vulkan bakes it unless the host has
//! `VK_EXT_extended_dynamic_state`. [`Plan`] is the split: the members this
//! host supplies per draw carry a fixed placeholder in [`Plan::state`] and the
//! guest's values in [`Plan::dynamic`]. A pass with no depth attachment has no
//! depth-stencil state at all, so nothing is dynamic there.

use crate::guest::{DepthStencilState, StencilFace, StencilOperation as GuestOp};
use crate::ieee::SINGLE_ONE;
pub use crate::sampler::compare_op;
use crate::sampler::{comparison_of, guest_passes, native_passes};
use crate::vulkan::{as_bool32, bool32, CompareOp, DynamicState, StencilOp};
use vstd::prelude::*;

verus! {

/// The stencil operation each guest operation is.
pub open spec fn stencil_of(guest: GuestOp) -> StencilOp {
    match guest {
        GuestOp::Keep => StencilOp::Keep,
        GuestOp::Zero => StencilOp::Zero,
        GuestOp::Replace => StencilOp::Replace,
        GuestOp::IncrementClamp => StencilOp::IncrementAndClamp,
        GuestOp::DecrementClamp => StencilOp::DecrementAndClamp,
        GuestOp::Invert => StencilOp::Invert,
        GuestOp::IncrementWrap => StencilOp::IncrementAndWrap,
        GuestOp::DecrementWrap => StencilOp::DecrementAndWrap,
    }
}

/// The stencil operation each guest operation is.
///
/// Total, and written out rather than cast: a numeric coincidence between two
/// enumerations is not a contract.
#[must_use]
pub fn stencil_op(guest: GuestOp) -> (native: StencilOp)
    ensures
        native == stencil_of(guest),
{
    match guest {
        GuestOp::Keep => StencilOp::Keep,
        GuestOp::Zero => StencilOp::Zero,
        GuestOp::Replace => StencilOp::Replace,
        GuestOp::IncrementClamp => StencilOp::IncrementAndClamp,
        GuestOp::DecrementClamp => StencilOp::DecrementAndClamp,
        GuestOp::Invert => StencilOp::Invert,
        GuestOp::IncrementWrap => StencilOp::IncrementAndWrap,
        GuestOp::DecrementWrap => StencilOp::DecrementAndWrap,
    }
}

/// No two guest operations are one operation.
pub proof fn law_stencil_operations_stay_distinct(a: GuestOp, b: GuestOp)
    ensures
        stencil_of(a) == stencil_of(b) ==> a == b,
{
}

/// One face, as `VkStencilOpState` would hold it.
#[derive(Clone, Copy, Debug, PartialEq, Eq, Hash, Structural)]
pub struct FacePlan {
    pub fail_op: StencilOp,
    pub pass_op: StencilOp,
    pub depth_fail_op: StencilOp,
    pub compare_op: CompareOp,
    pub compare_mask: u32,
    pub write_mask: u32,
}

/// The members of `VkStencilOpState`.
#[derive(Clone, Copy, Debug, PartialEq, Eq, Structural)]
pub struct NativeStencil {
    pub fail_op: StencilOp,
    pub pass_op: StencilOp,
    pub depth_fail_op: StencilOp,
    pub compare_op: CompareOp,
    pub compare_mask: u32,
    pub write_mask: u32,
    pub reference: u32,
}

impl FacePlan {
    /// What a face becomes.
    pub open spec fn from_face(face: StencilFace) -> FacePlan {
        FacePlan {
            fail_op: stencil_of(face.stencil_failure),
            pass_op: stencil_of(face.depth_stencil_pass),
            depth_fail_op: stencil_of(face.depth_failure),
            compare_op: comparison_of(face.compare),
            compare_mask: face.read_mask,
            write_mask: face.write_mask,
        }
    }

    /// The face that reads the buffer and changes nothing.
    pub open spec fn inert() -> FacePlan {
        FacePlan::from_face(StencilFace::initial())
    }

    /// The members of a face.
    pub open spec fn members(self) -> NativeStencil {
        NativeStencil {
            fail_op: self.fail_op,
            pass_op: self.pass_op,
            depth_fail_op: self.depth_fail_op,
            compare_op: self.compare_op,
            compare_mask: self.compare_mask,
            write_mask: self.write_mask,
            reference: 0,
        }
    }

    /// What `face` becomes.
    #[must_use]
    pub fn of(face: StencilFace) -> (plan: Self)
        ensures
            plan == FacePlan::from_face(face),
    {
        FacePlan {
            fail_op: stencil_op(face.stencil_failure),
            pass_op: stencil_op(face.depth_stencil_pass),
            depth_fail_op: stencil_op(face.depth_failure),
            compare_op: compare_op(face.compare),
            compare_mask: face.read_mask,
            write_mask: face.write_mask,
        }
    }

    /// The face substituted for one whose enable bit was clear.
    #[must_use]
    pub fn pass_through() -> (plan: Self)
        ensures
            plan == FacePlan::inert(),
    {
        FacePlan {
            fail_op: StencilOp::Keep,
            pass_op: StencilOp::Keep,
            depth_fail_op: StencilOp::Keep,
            compare_op: CompareOp::Always,
            compare_mask: u32::MAX,
            write_mask: u32::MAX,
        }
    }

    /// The members the pipeline is created with. The reference is zero here and
    /// set dynamically.
    #[must_use]
    pub fn native(self) -> (native: NativeStencil)
        ensures
            native == self.members(),
    {
        NativeStencil {
            fail_op: self.fail_op,
            pass_op: self.pass_op,
            depth_fail_op: self.depth_fail_op,
            compare_op: self.compare_op,
            compare_mask: self.compare_mask,
            write_mask: self.write_mask,
            reference: 0,
        }
    }
}

/// The substituted face writes nothing, whatever the test does.
pub proof fn law_the_pass_through_face_changes_nothing()
    ensures
        FacePlan::inert().compare_op == CompareOp::Always,
        FacePlan::inert().fail_op == StencilOp::Keep,
        FacePlan::inert().pass_op == StencilOp::Keep,
        FacePlan::inert().depth_fail_op == StencilOp::Keep,
{
}

/// A depth-stencil state as this rail would build it.
#[derive(Clone, Copy, Debug, PartialEq, Eq, Hash, Structural)]
pub struct DepthStencilPlan {
    /// True wherever the guest's state is here.
    pub depth_test_enable: bool,
    pub depth_write_enable: bool,
    pub depth_compare_op: CompareOp,
    /// Always false: Metal has no depth-bounds test.
    pub depth_bounds_test_enable: bool,
    pub stencil_test_enable: bool,
    pub front: FacePlan,
    pub back: FacePlan,
    /// Whether every member above is a placeholder because the encoder
    /// supplies the guest's state instead.
    pub dynamic: bool,
}

/// The members of `VkPipelineDepthStencilStateCreateInfo`. The depth bounds are
/// the bit patterns of singles.
#[derive(Clone, Copy, Debug, PartialEq, Eq, Structural)]
pub struct NativeDepthStencil {
    pub depth_test_enable: u32,
    pub depth_write_enable: u32,
    pub depth_compare_op: CompareOp,
    pub depth_bounds_test_enable: u32,
    pub stencil_test_enable: u32,
    pub front: NativeStencil,
    pub back: NativeStencil,
    pub min_depth_bounds: u32,
    pub max_depth_bounds: u32,
}

impl DepthStencilPlan {
    /// The dynamic states a pipeline built with this state declares.
    pub open spec fn declared(self) -> Seq<DynamicState> {
        if self.dynamic {
            seq![
                DynamicState::DepthTestEnable,
                DynamicState::DepthWriteEnable,
                DynamicState::DepthCompareOp,
                DynamicState::DepthBoundsTestEnable,
                DynamicState::StencilTestEnable,
                DynamicState::StencilOp,
                DynamicState::StencilCompareMask,
                DynamicState::StencilWriteMask,
                DynamicState::StencilReference,
            ]
        } else if self.stencil_test_enable {
            seq![DynamicState::StencilReference]
        } else {
            seq![]
        }
    }

    /// The dynamic states a pipeline built with this state must declare.
    ///
    /// Read off the state that holds the placeholder: a pipeline that declares
    /// a placeholder without declaring the states to replace it runs the
    /// placeholder. A baking pipeline declares the reference alone, and only
    /// where its stencil test is on.
    #[must_use]
    pub fn states(self) -> (states: Vec<DynamicState>)
        ensures
            states@ == self.declared(),
    {
        let mut states: Vec<DynamicState> = Vec::new();
        if self.dynamic {
            states.push(DynamicState::DepthTestEnable);
            states.push(DynamicState::DepthWriteEnable);
            states.push(DynamicState::DepthCompareOp);
            states.push(DynamicState::DepthBoundsTestEnable);
            states.push(DynamicState::StencilTestEnable);
            states.push(DynamicState::StencilOp);
            states.push(DynamicState::StencilCompareMask);
            states.push(DynamicState::StencilWriteMask);
            states.push(DynamicState::StencilReference);
        } else if self.stencil_test_enable {
            states.push(DynamicState::StencilReference);
        }
        assert(states@ =~= self.declared());
        states
    }

    /// The members the pipeline is created with.
    #[must_use]
    pub fn native(self) -> (native: NativeDepthStencil)
        ensures
            native == (NativeDepthStencil {
                depth_test_enable: bool32(self.depth_test_enable),
                depth_write_enable: bool32(self.depth_write_enable),
                depth_compare_op: self.depth_compare_op,
                depth_bounds_test_enable: bool32(self.depth_bounds_test_enable),
                stencil_test_enable: bool32(self.stencil_test_enable),
                front: self.front.members(),
                back: self.back.members(),
                min_depth_bounds: 0,
                max_depth_bounds: SINGLE_ONE,
            }),
    {
        NativeDepthStencil {
            depth_test_enable: as_bool32(self.depth_test_enable),
            depth_write_enable: as_bool32(self.depth_write_enable),
            depth_compare_op: self.depth_compare_op,
            depth_bounds_test_enable: as_bool32(self.depth_bounds_test_enable),
            stencil_test_enable: as_bool32(self.stencil_test_enable),
            front: self.front.native(),
            back: self.back.native(),
            min_depth_bounds: 0,
            max_depth_bounds: SINGLE_ONE,
        }
    }
}

/// What this host offers for changing depth-stencil state without a rebuild.
///
/// One bit, because it is one feature bit: this host either supplies the whole
/// state per draw or bakes the whole state.
#[derive(Clone, Copy, Debug, Default, PartialEq, Eq, Structural)]
pub struct DepthStencilCell {
    /// `VkPhysicalDeviceExtendedDynamicStateFeaturesEXT::extendedDynamicState`,
    /// or 1.3 core.
    pub extended_dynamic_state: bool,
}

/// The guest's values for a state this host supplies per draw.
#[derive(Clone, Copy, Debug, PartialEq, Eq, Hash, Structural)]
pub struct DynamicDepthStencil {
    pub depth_test_enable: bool,
    pub depth_write_enable: bool,
    pub depth_compare_op: CompareOp,
    pub depth_bounds_test_enable: bool,
    pub stencil_test_enable: bool,
    pub front: FacePlan,
    pub back: FacePlan,
}

/// A planned depth-stencil state: what the pipeline is built with, and what
/// the encoder sets before each draw.
#[derive(Clone, Copy, Debug, PartialEq, Eq, Structural)]
pub struct Plan {
    pub state: DepthStencilPlan,
    /// `Some` exactly when [`Plan::state`] is the placeholder rather than the
    /// guest's state.
    pub dynamic: Option<DynamicDepthStencil>,
}

/// What a pipeline bakes when this host supplies the state per draw: no test,
/// no write, no stencil, whatever the guest declared.
pub open spec fn placeholder_state() -> DepthStencilPlan {
    DepthStencilPlan {
        depth_test_enable: false,
        depth_write_enable: false,
        depth_compare_op: CompareOp::Never,
        depth_bounds_test_enable: false,
        stencil_test_enable: false,
        front: FacePlan::inert(),
        back: FacePlan::inert(),
        dynamic: true,
    }
}

/// What a pipeline bakes when this host supplies the state per draw.
#[must_use]
pub fn placeholder() -> (state: DepthStencilPlan)
    ensures
        state == placeholder_state(),
{
    DepthStencilPlan {
        depth_test_enable: false,
        depth_write_enable: false,
        depth_compare_op: CompareOp::Never,
        depth_bounds_test_enable: false,
        stencil_test_enable: false,
        front: FacePlan::pass_through(),
        back: FacePlan::pass_through(),
        dynamic: true,
    }
}

/// A face of a state: the guest's where the face is bound, and the one that
/// changes nothing otherwise.
pub open spec fn planned_face(face: Option<StencilFace>) -> FacePlan {
    match face {
        Some(face) => FacePlan::from_face(face),
        None => FacePlan::inert(),
    }
}

/// The guest's state with nothing dynamic.
pub open spec fn baked(state: DepthStencilState) -> DepthStencilPlan {
    DepthStencilPlan {
        depth_test_enable: true,
        depth_write_enable: state.depth_write,
        depth_compare_op: comparison_of(state.depth_compare),
        depth_bounds_test_enable: false,
        stencil_test_enable: state.engaged(),
        front: planned_face(state.front),
        back: planned_face(state.back),
        dynamic: false,
    }
}

/// What a state becomes on a host and in a pass.
pub open spec fn planned(state: DepthStencilState, cell: DepthStencilCell, attached: bool) -> Plan {
    let guest = baked(state);
    if cell.extended_dynamic_state && attached {
        Plan {
            state: placeholder_state(),
            dynamic: Some(
                DynamicDepthStencil {
                    depth_test_enable: guest.depth_test_enable,
                    depth_write_enable: guest.depth_write_enable,
                    depth_compare_op: guest.depth_compare_op,
                    depth_bounds_test_enable: guest.depth_bounds_test_enable,
                    stencil_test_enable: guest.stencil_test_enable,
                    front: guest.front,
                    back: guest.back,
                },
            ),
        }
    } else {
        Plan { state: guest, dynamic: None }
    }
}

/// Plan a checked depth-stencil state against this host and this pass.
///
/// `attached` is whether the pass this pipeline belongs to carries a depth
/// attachment. Total: every state the guest API admits has a plan.
#[must_use]
pub fn plan(state: &DepthStencilState, cell: DepthStencilCell, attached: bool) -> (plan: Plan)
    ensures
        plan == planned(*state, cell, attached),
{
    let stencil_test_enable = state.stencil_engaged();
    let front = match state.front {
        Some(face) => FacePlan::of(face),
        None => FacePlan::pass_through(),
    };
    let back = match state.back {
        Some(face) => FacePlan::of(face),
        None => FacePlan::pass_through(),
    };
    let guest = DepthStencilPlan {
        depth_test_enable: true,
        depth_write_enable: state.depth_write,
        depth_compare_op: compare_op(state.depth_compare),
        depth_bounds_test_enable: false,
        stencil_test_enable,
        front,
        back,
        dynamic: false,
    };
    if !(cell.extended_dynamic_state && attached) {
        return Plan { state: guest, dynamic: None };
    }
    Plan {
        state: placeholder(),
        dynamic: Some(
            DynamicDepthStencil {
                depth_test_enable: guest.depth_test_enable,
                depth_write_enable: guest.depth_write_enable,
                depth_compare_op: guest.depth_compare_op,
                depth_bounds_test_enable: guest.depth_bounds_test_enable,
                stencil_test_enable: guest.stencil_test_enable,
                front: guest.front,
                back: guest.back,
            },
        ),
    }
}

/// On a host that supplies the state per draw, every guest state builds the
/// same pipeline.
pub proof fn law_one_pipeline_where_the_host_is_dynamic(
    a: DepthStencilState,
    b: DepthStencilState,
    cell: DepthStencilCell,
)
    requires
        cell.extended_dynamic_state,
    ensures
        planned(a, cell, true).state == planned(b, cell, true).state,
{
}

/// The guest's state is in exactly one half: the encoder's half is what a
/// baking host would have baked, and the pipeline's half then holds none of it
/// and says so.
pub proof fn law_the_guests_state_is_in_one_half(
    state: DepthStencilState,
    cell: DepthStencilCell,
    attached: bool,
)
    ensures
        ({
            let plan = planned(state, cell, attached);
            let guest = baked(state);
            &&& plan.state.dynamic <==> plan.dynamic is Some
            &&& plan.dynamic is None ==> plan.state == guest
            &&& plan.dynamic matches Some(recorded) ==> plan.state == placeholder_state()
                && plan.state != guest && recorded == (DynamicDepthStencil {
                depth_test_enable: guest.depth_test_enable,
                depth_write_enable: guest.depth_write_enable,
                depth_compare_op: guest.depth_compare_op,
                depth_bounds_test_enable: guest.depth_bounds_test_enable,
                stencil_test_enable: guest.stencil_test_enable,
                front: guest.front,
                back: guest.back,
            })
        }),
{
}

/// A pass with no depth attachment makes nothing dynamic, however capable the
/// host is.
pub proof fn law_an_unattached_pass_makes_nothing_dynamic(
    state: DepthStencilState,
    cell: DepthStencilCell,
)
    ensures
        planned(state, cell, false).dynamic is None,
        planned(state, cell, false).state == baked(state),
{
}

/// The depth test is enabled for every state, so a write is never dropped, and
/// the bounds test never is.
pub proof fn law_the_depth_test_is_always_enabled(state: DepthStencilState)
    ensures
        baked(state).depth_test_enable,
        baked(state).depth_write_enable == state.depth_write,
        !baked(state).depth_bounds_test_enable,
{
}

/// Where no face tests, both faces plan alike and the test stays off.
pub proof fn law_a_disengaged_test_plans_alike(a: DepthStencilState, b: DepthStencilState)
    requires
        !a.engaged(),
        !b.engaged(),
        a.depth_write == b.depth_write,
        a.depth_compare == b.depth_compare,
    ensures
        baked(a) == baked(b),
        !baked(a).stencil_test_enable,
        baked(a).front == FacePlan::inert(),
        baked(a).back == FacePlan::inert(),
{
}

/// The placeholder declares every member it stands in for, each once.
pub proof fn law_the_placeholder_declares_what_it_stands_in_for()
    ensures
        placeholder_state().declared().no_duplicates(),
        placeholder_state().declared().contains(DynamicState::DepthTestEnable),
        placeholder_state().declared().contains(DynamicState::DepthWriteEnable),
        placeholder_state().declared().contains(DynamicState::DepthCompareOp),
        placeholder_state().declared().contains(DynamicState::DepthBoundsTestEnable),
        placeholder_state().declared().contains(DynamicState::StencilTestEnable),
        placeholder_state().declared().contains(DynamicState::StencilOp),
        placeholder_state().declared().contains(DynamicState::StencilCompareMask),
        placeholder_state().declared().contains(DynamicState::StencilWriteMask),
        placeholder_state().declared().contains(DynamicState::StencilReference),
{
    let declared = placeholder_state().declared();
    assert(declared[0] == DynamicState::DepthTestEnable);
    assert(declared[1] == DynamicState::DepthWriteEnable);
    assert(declared[2] == DynamicState::DepthCompareOp);
    assert(declared[3] == DynamicState::DepthBoundsTestEnable);
    assert(declared[4] == DynamicState::StencilTestEnable);
    assert(declared[5] == DynamicState::StencilOp);
    assert(declared[6] == DynamicState::StencilCompareMask);
    assert(declared[7] == DynamicState::StencilWriteMask);
    assert(declared[8] == DynamicState::StencilReference);
}

/// What a guest stencil operation makes of an 8-bit value.
pub open spec fn guest_makes(guest: GuestOp, value: int, reference: int) -> int {
    match guest {
        GuestOp::Keep => value,
        GuestOp::Zero => 0,
        GuestOp::Replace => reference,
        GuestOp::IncrementClamp => if value < 255 {
            value + 1
        } else {
            value
        },
        GuestOp::DecrementClamp => if value > 0 {
            value - 1
        } else {
            value
        },
        GuestOp::Invert => 255 - value,
        GuestOp::IncrementWrap => if value < 255 {
            value + 1
        } else {
            0
        },
        GuestOp::DecrementWrap => if value > 0 {
            value - 1
        } else {
            255
        },
    }
}

/// What a native stencil operation makes of an 8-bit value.
pub open spec fn native_makes(native: StencilOp, value: int, reference: int) -> int {
    match native {
        StencilOp::Keep => value,
        StencilOp::Zero => 0,
        StencilOp::Replace => reference,
        StencilOp::IncrementAndClamp => if value < 255 {
            value + 1
        } else {
            value
        },
        StencilOp::DecrementAndClamp => if value > 0 {
            value - 1
        } else {
            value
        },
        StencilOp::Invert => 255 - value,
        StencilOp::IncrementAndWrap => if value < 255 {
            value + 1
        } else {
            0
        },
        StencilOp::DecrementAndWrap => if value > 0 {
            value - 1
        } else {
            255
        },
    }
}

/// A stencil operation makes of every value what the guest's makes of it.
pub proof fn law_a_stencil_operation_does_what_the_guests_does(
    guest: GuestOp,
    native: StencilOp,
    value: int,
    reference: int,
)
    requires
        call_ensures(stencil_op, (guest,), native),
        0 <= value <= 255,
        0 <= reference <= 255,
    ensures
        native_makes(native, value, reference) == guest_makes(guest, value, reference),
        native == stencil_of(guest),
{
}

/// Whether a planned face tests and writes as a guest face does, on every
/// value: its comparison, each of its three operations and its two masks.
pub open spec fn behaves_as(plan: FacePlan, face: StencilFace) -> bool {
    &&& forall|incoming: int, stored: int| #[trigger]
        native_passes(plan.compare_op, incoming, stored) == guest_passes(
            face.compare,
            incoming,
            stored,
        )
    &&& forall|value: int, reference: int|
        0 <= value <= 255 && 0 <= reference <= 255 ==> #[trigger] native_makes(
            plan.fail_op,
            value,
            reference,
        ) == guest_makes(face.stencil_failure, value, reference)
    &&& forall|value: int, reference: int|
        0 <= value <= 255 && 0 <= reference <= 255 ==> #[trigger] native_makes(
            plan.depth_fail_op,
            value,
            reference,
        ) == guest_makes(face.depth_failure, value, reference)
    &&& forall|value: int, reference: int|
        0 <= value <= 255 && 0 <= reference <= 255 ==> #[trigger] native_makes(
            plan.pass_op,
            value,
            reference,
        ) == guest_makes(face.depth_stencil_pass, value, reference)
    &&& plan.compare_mask == face.read_mask
    &&& plan.write_mask == face.write_mask
}

/// Whether a planned face always passes and leaves the buffer as it is.
pub open spec fn changes_nothing(plan: FacePlan) -> bool {
    &&& plan.compare_op is Always
    &&& plan.fail_op is Keep
    &&& plan.depth_fail_op is Keep
    &&& plan.pass_op is Keep
    &&& plan.compare_mask == u32::MAX
    &&& plan.write_mask == u32::MAX
}

/// A face's plan behaves as the face does, and its members are the plan's, with
/// a reference the encoder sets.
pub proof fn law_a_face_behaves_as_the_guests(
    face: StencilFace,
    plan: FacePlan,
    native: NativeStencil,
)
    requires
        call_ensures(FacePlan::of, (face,), plan),
        call_ensures(FacePlan::native, (plan,), native),
    ensures
        behaves_as(plan, face),
        native.compare_op == plan.compare_op,
        native.fail_op == plan.fail_op,
        native.depth_fail_op == plan.depth_fail_op,
        native.pass_op == plan.pass_op,
        native.compare_mask == face.read_mask,
        native.write_mask == face.write_mask,
        native.reference == 0,
{
}

/// Whether a plan tests depth by the guest's comparison and writes it as the
/// guest does, tests stencil where a face is bound, and plans each face from
/// that face alone: a bound one behaves as it does, and an unbound one changes
/// nothing.
pub open spec fn carries_the_state(
    state: DepthStencilState,
    depth_test: bool,
    depth_write: bool,
    depth_compare: CompareOp,
    bounds_test: bool,
    stencil_test: bool,
    front: FacePlan,
    back: FacePlan,
) -> bool {
    &&& depth_test
    &&& depth_write == state.depth_write
    &&& forall|incoming: int, stored: int| #[trigger]
        native_passes(depth_compare, incoming, stored) == guest_passes(
            state.depth_compare,
            incoming,
            stored,
        )
    &&& !bounds_test
    &&& stencil_test <==> state.front is Some || state.back is Some
    &&& match state.front {
        Some(face) => behaves_as(front, face),
        None => changes_nothing(front),
    }
    &&& match state.back {
        Some(face) => behaves_as(back, face),
        None => changes_nothing(back),
    }
}

/// Whichever half of a plan carries the guest's state carries all of it: the
/// depth test, and each face from that face alone. The encoder's half carries
/// it where the host has the dynamic states and depth is attached, and the
/// pipeline's half everywhere else.
pub proof fn law_each_face_is_planned_from_itself(
    state: DepthStencilState,
    cell: DepthStencilCell,
    attached: bool,
    made: Plan,
)
    requires
        call_ensures(plan, (&state, cell, attached), made),
    ensures
        made.dynamic is Some <==> cell.extended_dynamic_state && attached,
        made.state.dynamic <==> cell.extended_dynamic_state && attached,
        made.dynamic matches Some(recorded) ==> carries_the_state(
            state,
            recorded.depth_test_enable,
            recorded.depth_write_enable,
            recorded.depth_compare_op,
            recorded.depth_bounds_test_enable,
            recorded.stencil_test_enable,
            recorded.front,
            recorded.back,
        ),
        made.dynamic is None ==> carries_the_state(
            state,
            made.state.depth_test_enable,
            made.state.depth_write_enable,
            made.state.depth_compare_op,
            made.state.depth_bounds_test_enable,
            made.state.stencil_test_enable,
            made.state.front,
            made.state.back,
        ),
{
}

/// The planned back face is the same whatever the front face is, and the front
/// the same whatever the back is.
pub proof fn law_a_face_does_not_depend_on_the_other(
    a: DepthStencilState,
    b: DepthStencilState,
    cell: DepthStencilCell,
    attached: bool,
    of_a: Plan,
    of_b: Plan,
)
    requires
        call_ensures(plan, (&a, cell, attached), of_a),
        call_ensures(plan, (&b, cell, attached), of_b),
    ensures
        a.back == b.back ==> of_a.state.back == of_b.state.back && (of_a.dynamic matches Some(d)
            ==> of_b.dynamic is Some && of_b.dynamic->0.back == d.back),
        a.front == b.front ==> of_a.state.front == of_b.state.front && (of_a.dynamic matches Some(d)
            ==> of_b.dynamic is Some && of_b.dynamic->0.front == d.front),
{
}

/// The members a pipeline is created with are the plan's own, each face in its
/// own place, with the whole depth range for the bounds that are never tested.
pub proof fn law_a_pipeline_is_created_with_the_plans_members(
    plan: DepthStencilPlan,
    native: NativeDepthStencil,
    front: NativeStencil,
    back: NativeStencil,
)
    requires
        call_ensures(DepthStencilPlan::native, (plan,), native),
        call_ensures(FacePlan::native, (plan.front,), front),
        call_ensures(FacePlan::native, (plan.back,), back),
    ensures
        native.depth_test_enable == 1 <==> plan.depth_test_enable,
        native.depth_write_enable == 1 <==> plan.depth_write_enable,
        native.depth_compare_op == plan.depth_compare_op,
        native.depth_bounds_test_enable == 1 <==> plan.depth_bounds_test_enable,
        native.stencil_test_enable == 1 <==> plan.stencil_test_enable,
        native.front == front,
        native.back == back,
        native.min_depth_bounds == 0,
        native.max_depth_bounds == SINGLE_ONE,
{
}

/// A pipeline that leaves its state to the encoder declares each of the nine
/// states once; one that bakes it declares the reference alone, and only where
/// the stencil test runs.
pub proof fn law_declared_states_follow_the_plan(
    plan: DepthStencilPlan,
    states: Vec<DynamicState>,
    state: DynamicState,
)
    requires
        call_ensures(DepthStencilPlan::states, (plan,), states),
    ensures
        states@.no_duplicates(),
        states@.len() == if plan.dynamic {
            9int
        } else if plan.stencil_test_enable {
            1int
        } else {
            0int
        },
        states@.contains(DynamicState::StencilReference) <==> plan.dynamic
            || plan.stencil_test_enable,
        plan.dynamic && (state is DepthTestEnable || state is DepthWriteEnable
            || state is DepthCompareOp || state is DepthBoundsTestEnable
            || state is StencilTestEnable || state is StencilOp || state is StencilCompareMask
            || state is StencilWriteMask) ==> states@.contains(state),
{
    let declared = plan.declared();
    if plan.dynamic {
        assert(declared[0] is DepthTestEnable && declared[1] is DepthWriteEnable
            && declared[2] is DepthCompareOp && declared[3] is DepthBoundsTestEnable
            && declared[4] is StencilTestEnable && declared[5] is StencilOp
            && declared[6] is StencilCompareMask && declared[7] is StencilWriteMask
            && declared[8] is StencilReference);
    } else if plan.stencil_test_enable {
        assert(declared[0] is StencilReference);
    }
}

} // verus!
