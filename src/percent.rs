//! Percentage arithmetic in exact integers.
use crate::error::ErrorKind;
use vstd::prelude::*;

verus! {

/// `floor(amount * percent / 100)`.
pub open spec fn percent_of(percent: int, amount: int) -> int {
    amount * percent / 100
}

/// The royalty of `royalty` percent on `amount`, rounded down. Fails only
/// when a percentage above 100 gives more than a `u64` holds.
pub fn calc_royalty_amount(royalty: u8, amount: u64) -> (r: Result<u64, ErrorKind>)
    ensures
        percent_of(royalty as int, amount as int) <= u64::MAX ==> r == Ok::<u64, ErrorKind>(
            percent_of(royalty as int, amount as int) as u64,
        ),
        percent_of(royalty as int, amount as int) > u64::MAX ==> r == Err::<u64, _>(
            ErrorKind::Overflow,
        ),
        royalty <= 100 ==> r is Ok && r->Ok_0 <= amount,
{
    proof {
        assert((amount as int) * (royalty as int) <= u64::MAX as int * 255) by (nonlinear_arith)
            requires
                royalty <= 255,
                amount <= u64::MAX,
        ;
        if royalty <= 100 {
            assert((amount as int) * (royalty as int) <= (amount as int) * 100) by (nonlinear_arith)
                requires
                    royalty <= 100,
            ;
        }
    }
    let p = (amount as u128) * (royalty as u128) / 100;
    if p > u64::MAX as u128 {
        return Err(ErrorKind::Overflow);
    }
    Ok(p as u64)
}

/// The part of `amount` that a percentage `share` stands for, rounded down;
/// the same rule as a royalty.
pub fn calc_share_amount(share: u8, amount: u64) -> (r: Result<u64, ErrorKind>)
    ensures
        percent_of(share as int, amount as int) <= u64::MAX ==> r == Ok::<u64, ErrorKind>(
            percent_of(share as int, amount as int) as u64,
        ),
        percent_of(share as int, amount as int) > u64::MAX ==> r == Err::<u64, _>(
            ErrorKind::Overflow,
        ),
        share <= 100 ==> r is Ok && r->Ok_0 <= amount,
{
    calc_royalty_amount(share, amount)
}

/// The royalty on nothing is nothing, and a royalty within 0..=100 percent
/// never exceeds the amount it is taken from.
pub proof fn lemma_royalty_bounds(royalty: int, amount: int)
    requires
        0 <= royalty <= 100,
        0 <= amount,
    ensures
        percent_of(royalty, 0) == 0,
        0 <= percent_of(royalty, amount) <= amount,
{
    assert(0 <= amount * royalty <= amount * 100) by (nonlinear_arith)
        requires
            0 <= royalty <= 100,
            0 <= amount,
    ;
}

} // verus!
