//! Verified core of the SIMD layer: CPU feature records and kernel choice,
//! the trait that bounds SIMD element types, and the cache-blocked transpose
//! with the block-size rule it uses.

pub mod detect;
pub mod traits;
pub mod transpose;
