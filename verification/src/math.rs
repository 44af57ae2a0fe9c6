//! Basis-point arithmetic shared by decay, offer-floor and fee computation.

use vstd::prelude::*;

verus! {

/// `v * bps / 10000` with truncating division: the share of `v` that `bps`
/// basis points denote.
pub open spec fn bps_part(v: int, bps: int) -> int {
    v * bps / 10000
}

/// A basis-point share of a non-negative value never exceeds the value while
/// the rate stays at or below the full 10000.
pub proof fn lemma_bps_part_le(v: int, bps: int)
    by (nonlinear_arith)
    requires
        0 <= v,
        0 <= bps <= 10000,
    ensures
        0 <= bps_part(v, bps) <= v,
{
}

/// `v * bps / 10000` in machine arithmetic, mirroring a checked 64-bit
/// multiplication: `None` exactly when the product `v * bps` does not fit in
/// a `u64`, the truncated share otherwise.
pub fn mul_bps(v: u64, bps: u16) -> (r: Option<u64>)
    ensures
        r is Some <==> v * bps <= u64::MAX,
        r is Some ==> r->0 == bps_part(v as int, bps as int),
{
    proof {
        assert((v as int) * (bps as int) < u128::MAX) by (nonlinear_arith)
            requires
                v <= u64::MAX,
                bps <= u16::MAX,
        ;
        lemma_bps_part_le(v as int, 10000);
    }
    let prod: u128 = (v as u128) * (bps as u128);
    if prod > u64::MAX as u128 {
        None
    } else {
        proof {
            assert(prod / 10000 <= prod);
        }
        Some((prod / 10000) as u64)
    }
}

} // verus!
