//! Fee rates in basis points, validated by the `basis_points` crate.
use vstd::prelude::*;

use crate::errors::BasisPointsError;
use basis_points::BasisPoints;

verus! {

/// Basis points in a whole: 10 000 make 100%.
pub open spec fn bps_max() -> int {
    10000
}

/// `BasisPoints::MAX`, the largest valid rate: 10 000.
#[verifier::external_body]
pub(crate) fn basis_points_max() -> (r: u16)
    ensures
        r == bps_max(),
{
    BasisPoints::MAX
}

/// `BasisPoints::new`, read back with `u16::from`: the rate itself when it is at most
/// 10 000, else `InvalidBasisPoints`.
#[verifier::external_body]
pub(crate) fn basis_points_new(bps: u16) -> (r: Result<u16, BasisPointsError>)
    ensures
        r == (if bps <= bps_max() {
            Ok::<u16, BasisPointsError>(bps)
        } else {
            Err(BasisPointsError::InvalidBasisPoints)
        }),
{
    match BasisPoints::new(bps) {
        Ok(b) => Ok(u16::from(b)),
        Err(basis_points::error::BasisPointsError::InvalidBasisPoints) => Err(
            BasisPointsError::InvalidBasisPoints,
        ),
        Err(basis_points::error::BasisPointsError::ConversionFailed) => Err(
            BasisPointsError::ConversionFailed,
        ),
    }
}

} // verus!
