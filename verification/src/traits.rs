//! The trait that bounds element types taking part in SIMD operations.

use vstd::prelude::*;

verus! {

/// Types that can be processed by the SIMD operations of this crate:
/// copyable, partially ordered, and closed under the four arithmetic
/// operators.
pub trait SimdOps:
    Copy + PartialOrd + core::ops::Add<Output = Self> + core::ops::Sub<Output = Self> + core::ops::Mul<
        Output = Self,
    > + core::ops::Div<Output = Self> {

}

} // verus!
