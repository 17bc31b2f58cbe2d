//! Algebra of field overrides.
//!
//! Every override method of [`FlexSPIFlashConfigurationBlock`] returns
//! exactly [`apply_override`] of its receiver, so the two lemmas here
//! hold of any chain of override calls: overriding a field with the
//! value it already holds changes nothing, and overrides of two
//! different fields may be applied in either order.

use vstd::prelude::*;

use crate::block::apply_override;
use crate::block::carries_current_value;
use crate::block::targets_same_field;
use crate::block::FieldOverride;
use crate::block::FlexSPIFlashConfigurationBlock;
use crate::layout::record_bytes;

verus! {

/// Overriding a field with the value the record already holds there
/// returns the record unchanged, so its wire image is unchanged byte
/// for byte.
pub proof fn lemma_override_idempotent(b: FlexSPIFlashConfigurationBlock, o: FieldOverride)
    requires
        carries_current_value(b, o),
    ensures
        apply_override(b, o) == b,
        record_bytes(apply_override(b, o)) == record_bytes(b),
{
}

/// Overrides of two different fields commute: applying them in either
/// order yields the same record, and therefore the same wire image byte
/// for byte.
pub proof fn lemma_override_order_irrelevant(
    b: FlexSPIFlashConfigurationBlock,
    o1: FieldOverride,
    o2: FieldOverride,
)
    requires
        !targets_same_field(o1, o2),
    ensures
        apply_override(apply_override(b, o1), o2) == apply_override(apply_override(b, o2), o1),
        record_bytes(apply_override(apply_override(b, o1), o2)) == record_bytes(
            apply_override(apply_override(b, o2), o1),
        ),
{
}

} // verus!
