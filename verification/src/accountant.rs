use vstd::prelude::*;

use crate::errors::Error;

verus! {

/// The cost, in payment units, of the storage a mutating call allocated:
/// zero when the footprint shrank or stood still.
pub open spec fn storage_cost(before: u64, after: u64, price_per_byte: u128) -> int {
    if after > before {
        (after - before) * price_per_byte
    } else {
        0
    }
}

/// The value of the storage a mutating call released: zero when the
/// footprint grew or stood still.
pub open spec fn storage_release(before: u64, after: u64, price_per_byte: u128) -> int {
    if after <= before {
        (before - after) * price_per_byte
    } else {
        0
    }
}

/// The error, if any, that `settle_storage` reports: a cost or refund that
/// leaves `u128`, or a payment below the cost.
pub open spec fn settle_err(
    before: u64,
    after: u64,
    price_per_byte: u128,
    payment: u128,
) -> Option<Error> {
    if storage_cost(before, after, price_per_byte) > u128::MAX {
        Some(Error::Overflow)
    } else if payment < storage_cost(before, after, price_per_byte) {
        Some(Error::InsufficientDepositForStorage)
    } else if payment + storage_release(before, after, price_per_byte) > u128::MAX {
        Some(Error::Overflow)
    } else {
        None
    }
}

/// Settles the storage delta of one mutating call against the payment the
/// caller attached. A net increase must be paid for at `price_per_byte`; a
/// net decrease is refunded at the same price. The refund is everything the
/// storage did not strictly require: the unspent payment plus the value of
/// any released bytes. On `InsufficientDepositForStorage` the caller must
/// roll the whole wrapped operation back — the cost of a mutation is only
/// knowable after it ran.
pub fn settle_storage(
    before: u64,
    after: u64,
    price_per_byte: u128,
    payment: u128,
) -> (r: Result<u128, Error>)
    ensures
        match r {
            Ok(refund) => {
                &&& settle_err(before, after, price_per_byte, payment) is None
                &&& refund == payment - storage_cost(before, after, price_per_byte)
                    + storage_release(before, after, price_per_byte)
            },
            Err(e) => settle_err(before, after, price_per_byte, payment) == Some(e),
        },
{
    if after > before {
        let delta = (after - before) as u128;
        match delta.checked_mul(price_per_byte) {
            None => Err(Error::Overflow),
            Some(cost) => {
                if payment < cost {
                    Err(Error::InsufficientDepositForStorage)
                } else {
                    Ok(payment - cost)
                }
            },
        }
    } else {
        let delta = (before - after) as u128;
        match delta.checked_mul(price_per_byte) {
            None => Err(Error::Overflow),
            Some(released) => {
                match payment.checked_add(released) {
                    None => Err(Error::Overflow),
                    Some(refund) => Ok(refund),
                }
            },
        }
    }
}

} // verus!
