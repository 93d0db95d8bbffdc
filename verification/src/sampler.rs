//! Comparison functions, which samplers and depth-stencil states share.

use crate::guest::CompareFunction;
use crate::vulkan::CompareOp;
use vstd::prelude::*;

verus! {

/// The comparison each guest function is.
pub open spec fn comparison_of(guest: CompareFunction) -> CompareOp {
    match guest {
        CompareFunction::Never => CompareOp::Never,
        CompareFunction::Less => CompareOp::Less,
        CompareFunction::Equal => CompareOp::Equal,
        CompareFunction::LessEqual => CompareOp::LessOrEqual,
        CompareFunction::Greater => CompareOp::Greater,
        CompareFunction::NotEqual => CompareOp::NotEqual,
        CompareFunction::GreaterEqual => CompareOp::GreaterOrEqual,
        CompareFunction::Always => CompareOp::Always,
    }
}

/// The comparison each guest function is.
///
/// Total, and written out rather than cast: a numeric coincidence between two
/// enumerations is not a contract.
#[must_use]
pub fn compare_op(guest: CompareFunction) -> (native: CompareOp)
    ensures
        native == comparison_of(guest),
{
    match guest {
        CompareFunction::Never => CompareOp::Never,
        CompareFunction::Less => CompareOp::Less,
        CompareFunction::Equal => CompareOp::Equal,
        CompareFunction::LessEqual => CompareOp::LessOrEqual,
        CompareFunction::Greater => CompareOp::Greater,
        CompareFunction::NotEqual => CompareOp::NotEqual,
        CompareFunction::GreaterEqual => CompareOp::GreaterOrEqual,
        CompareFunction::Always => CompareOp::Always,
    }
}

/// No two guest functions are one comparison.
pub proof fn law_comparisons_stay_distinct(a: CompareFunction, b: CompareFunction)
    ensures
        comparison_of(a) == comparison_of(b) ==> a == b,
{
}

/// Whether a guest comparison passes.
pub open spec fn guest_passes(guest: CompareFunction, incoming: int, stored: int) -> bool {
    match guest {
        CompareFunction::Never => false,
        CompareFunction::Less => incoming < stored,
        CompareFunction::Equal => incoming == stored,
        CompareFunction::LessEqual => incoming <= stored,
        CompareFunction::Greater => incoming > stored,
        CompareFunction::NotEqual => incoming != stored,
        CompareFunction::GreaterEqual => incoming >= stored,
        CompareFunction::Always => true,
    }
}

/// Whether a native comparison passes.
pub open spec fn native_passes(native: CompareOp, incoming: int, stored: int) -> bool {
    match native {
        CompareOp::Never => false,
        CompareOp::Less => incoming < stored,
        CompareOp::Equal => incoming == stored,
        CompareOp::LessOrEqual => incoming <= stored,
        CompareOp::Greater => incoming > stored,
        CompareOp::NotEqual => incoming != stored,
        CompareOp::GreaterOrEqual => incoming >= stored,
        CompareOp::Always => true,
    }
}

/// A comparison passes on exactly the values the guest's passes on.
pub proof fn law_a_comparison_passes_where_the_guests_does(
    guest: CompareFunction,
    native: CompareOp,
    incoming: int,
    stored: int,
)
    requires
        call_ensures(compare_op, (guest,), native),
    ensures
        native_passes(native, incoming, stored) == guest_passes(guest, incoming, stored),
        native == comparison_of(guest),
{
}

} // verus!
