//! Numeric coercion for document scalars.
//!
//! The pipeline carries every geometric scalar as the 64-bit pattern of the
//! IEEE number a document denotes (see [`crate::vertex::Real`]); it never
//! computes with the numbers themselves. The one coercion it needs — the
//! pattern an integer node denotes — is delegated to outside code here.

use vstd::prelude::*;

verus! {

/// The bit pattern of the 64-bit IEEE number nearest to an integer. A pure
/// function of its argument: the conversion rounds the same way everywhere.
pub uninterp spec fn real_bits_of_int(n: i64) -> u64;

/// Relies on num-traits' `ToPrimitive::to_f64` (round to nearest) and std's
/// `to_bits`; vstd gives neither a specification.
#[verifier::external_body]
pub fn int_real_bits(n: i64) -> (r: u64)
    ensures
        r == real_bits_of_int(n),
{
    num_traits::ToPrimitive::to_f64(&n).map(|v| v.to_bits()).unwrap_or(0)
}

} // verus!
