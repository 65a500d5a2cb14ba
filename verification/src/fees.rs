//! Fee estimation and the funding decision: how many lamports a run needs,
//! and how large a top-up to request when the payer's balance falls short.

use vstd::prelude::*;

verus! {

/// Safety multiplier over the per-signature fee: the estimate covers this
/// many future signatures, chosen generously to tolerate fee fluctuation
/// between estimation and submission.
pub const SIGNATURE_FEE_MULTIPLIER: u64 = 100;

/// Lamports required to make the data account rent-exempt and to pay for a
/// bounded number of future signatures.
pub open spec fn fee_total(rent_exempt_min: u64, lamports_per_signature: u64) -> int {
    rent_exempt_min + lamports_per_signature * SIGNATURE_FEE_MULTIPLIER
}

/// Fee Estimator: the rent-exemption minimum for the record plus the cost of
/// a bounded number of signatures. `None` exactly when the total does not fit
/// in a balance.
pub fn required_fees(rent_exempt_min: u64, lamports_per_signature: u64) -> (r: Option<u64>)
    ensures
        r is Some <==> fee_total(rent_exempt_min, lamports_per_signature) <= u64::MAX,
        r matches Some(f) ==> f == fee_total(rent_exempt_min, lamports_per_signature),
{
    match lamports_per_signature.checked_mul(SIGNATURE_FEE_MULTIPLIER) {
        Some(signature_fees) => rent_exempt_min.checked_add(signature_fees),
        None => None,
    }
}

/// Payer Funder decision. No top-up is requested when the balance already
/// covers the requirement; otherwise the request is for exactly the deficit,
/// never the full estimate.
pub fn airdrop_amount(balance: u64, required: u64) -> (r: Option<u64>)
    ensures
        balance >= required ==> r is None,
        balance < required ==> r == Some((required - balance) as u64),
{
    if balance < required {
        Some(required - balance)
    } else {
        None
    }
}

} // verus!
