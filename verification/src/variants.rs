//! Working with the variants of an enum.

use vstd::prelude::*;

verus! {

/// Gives the name of the variant that a value of an enum is of. The
/// `VariantName` derive writes the impl.
pub trait VariantName {
    /// The name of the variant of `self`, as it stands in the declaration.
    fn variant_name(&self) -> &'static str;
}

} // verus!
