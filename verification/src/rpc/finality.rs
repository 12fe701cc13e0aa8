//! The finality check: no attestation is made for a height that the chain
//! has not finalized.

use crate::adapter::{AttestationAdapter, AttestationAdapterError, AttestationAdapterErrorView};
use crate::error::{AttestorError, AttestorErrorView};
use vstd::prelude::*;

verus! {

/// What a check that returns nothing came to.
pub open spec fn unit_view(out: Result<(), AttestorError>) -> Result<(), AttestorErrorView> {
    match out {
        Ok(()) => Ok(()),
        Err(error) => Err(error@),
    }
}

/// The finality rule: a height passes when the adapter reports a finalized
/// height that is not below it.
pub open spec fn height_check(
    height: u64,
    finalized: Result<u64, AttestationAdapterErrorView>,
) -> Result<(), AttestorErrorView> {
    match finalized {
        Err(error) => Err(AttestorErrorView::AdapterError(error)),
        Ok(finalized) => if height > finalized {
            Err(AttestorErrorView::BlockNotFinalized)
        } else {
            Ok(())
        },
    }
}

/// Whether validating `height` against `adapter` may come to `out`: the
/// adapter was asked for its last finalized height, and `out` is the
/// judgement of the answer by the finality rule.
pub open spec fn may_validate_height<A: AttestationAdapter>(
    adapter: &A,
    height: u64,
    out: Result<(), AttestorErrorView>,
) -> bool {
    exists|finalized: Result<u64, AttestationAdapterErrorView>|
        {
            &&& #[trigger] adapter.may_report_finalized_height(finalized)
            &&& out == height_check(height, finalized)
        }
}

/// Judges a requested height against what the adapter reported as its last
/// finalized height.
///
/// The height passes exactly when the adapter answered and the height does
/// not exceed the answer. A height beyond it is `BlockNotFinalized`; an
/// adapter failure is handed on as `AdapterError`.
pub fn check_height(height: u64, finalized: Result<u64, AttestationAdapterError>) -> (out: Result<
    (),
    AttestorError,
>)
    ensures
        unit_view(out) == height_check(height, crate::adapter::number_view(finalized)),
        out is Ok <==> (finalized matches Ok(last) && height <= last),
{
    match finalized {
        Err(error) => Err(AttestorError::AdapterError(error)),
        Ok(last) => {
            if height > last {
                Err(AttestorError::BlockNotFinalized)
            } else {
                Ok(())
            }
        },
    }
}

/// Validates that the block height is finalized.
///
/// Asks the adapter once for its last finalized height; nothing is cached.
pub fn validate_height<A: AttestationAdapter>(adapter: &A, height: u64) -> (out: Result<
    (),
    AttestorError,
>)
    ensures
        may_validate_height(adapter, height, unit_view(out)),
{
    let finalized = adapter.get_last_finalized_height();
    check_height(height, finalized)
}

} // verus!
