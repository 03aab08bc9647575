//! Treasury split: drains the accumulative fund into the beneficiary funds
//! by percentage, the last fund taking the exact remainder.
use crate::error::ErrorKind;
use crate::ids::{authority_of, derive_authority, AccountId};
use crate::params::DistributionParams;
use crate::percent::percent_of;
use crate::token::Transfer;
use vstd::prelude::*;
use vstd::string::StringSliceAdditionalSpecFns;

verus! {

pub const ACCUMULATIVE_FUND_AUTH_SEED: &'static str = "accumulative_fund_auth";

#[derive(Clone, Copy, Debug, PartialEq, Eq, Structural)]
pub enum DistributionError {
    AccessDenied,
    Overflow,
    InvalidAccumulativeFundOwner,
    InvalidShare,
    EmptyAccumulativeFund,
}

impl DistributionError {
    pub open spec fn spec_kind(self) -> ErrorKind {
        match self {
            DistributionError::AccessDenied => ErrorKind::AccessDenied,
            DistributionError::Overflow => ErrorKind::Overflow,
            DistributionError::EmptyAccumulativeFund => ErrorKind::StateConflict,
            _ => ErrorKind::InvalidParameter,
        }
    }

    /// The class of this error in the engine-wide taxonomy.
    pub fn kind(&self) -> (r: ErrorKind)
        ensures
            r == self.spec_kind(),
    {
        match self {
            DistributionError::AccessDenied => ErrorKind::AccessDenied,
            DistributionError::Overflow => ErrorKind::Overflow,
            DistributionError::EmptyAccumulativeFund => ErrorKind::StateConflict,
            _ => ErrorKind::InvalidParameter,
        }
    }
}

/// Treasury split settings: the source fund, its scoped owner, and four
/// destination funds with their shares in percent.
#[derive(Clone, Copy, Debug)]
pub struct DistributionInfo {
    pub admin: AccountId,
    pub update_auth: AccountId,
    pub ggwp_token: AccountId,
    pub accumulative_fund: AccountId,
    pub accumulative_fund_auth: AccountId,
    pub last_distribution: i64,
    pub play_to_earn_fund: AccountId,
    pub play_to_earn_fund_share: u8,
    pub staking_fund: AccountId,
    pub staking_fund_share: u8,
    pub company_fund: AccountId,
    pub company_fund_share: u8,
    pub team_fund: AccountId,
    pub team_fund_share: u8,
}

/// The accounts a treasury split is set up with.
#[derive(Clone, Copy, Debug)]
pub struct DistributionAccounts {
    pub admin: AccountId,
    pub program_id: AccountId,
    pub distribution_info: AccountId,
    pub ggwp_token: AccountId,
    pub accumulative_fund: AccountId,
    pub play_to_earn_fund: AccountId,
    pub staking_fund: AccountId,
    pub company_fund: AccountId,
    pub team_fund: AccountId,
}

/// Sum of a sequence of amounts.
pub open spec fn sum(s: Seq<u64>) -> int
    decreases s.len(),
{
    if s.len() == 0 {
        0
    } else {
        sum(s.drop_last()) + s.last()
    }
}

/// Sum of the shares of the first `k` destinations, in percent.
pub open spec fn share_sum(shares: Seq<u8>, k: int) -> int
    decreases k,
{
    if k <= 0 {
        0
    } else {
        share_sum(shares, k - 1) + shares[k - 1]
    }
}

/// Sum of the rounded-down parts of the first `k` destinations.
pub open spec fn prior_sum(shares: Seq<u8>, amount: u64, k: int) -> int
    decreases k,
{
    if k <= 0 {
        0
    } else {
        prior_sum(shares, amount, k - 1) + percent_of(shares[k - 1] as int, amount as int)
    }
}

/// The split of `amount`: each destination but the last gets its share,
/// rounded down; the last gets what remains. `None` when the rounded parts
/// of the others already exceed `amount`.
pub open spec fn split_spec(shares: Seq<u8>, amount: u64) -> Option<Seq<u64>> {
    let n = shares.len() as int;
    if prior_sum(shares, amount, n - 1) > amount {
        None
    } else {
        Some(
            Seq::new(
                shares.len(),
                |i: int|
                    if i < n - 1 {
                        percent_of(shares[i] as int, amount as int) as u64
                    } else {
                        (amount - prior_sum(shares, amount, n - 1)) as u64
                    },
            ),
        )
    }
}

proof fn lemma_prior_sum_monotone(shares: Seq<u8>, amount: u64, j: int, k: int)
    requires
        0 <= j <= k,
    ensures
        prior_sum(shares, amount, j) <= prior_sum(shares, amount, k),
    decreases k - j,
{
    if j < k {
        lemma_prior_sum_monotone(shares, amount, j, k - 1);
        assert(percent_of(shares[k - 1] as int, amount as int) >= 0) by (nonlinear_arith)
            requires
                shares[k - 1] >= 0,
                amount >= 0,
        ;
    }
}

proof fn lemma_prior_sum_bound(shares: Seq<u8>, amount: u64, k: int)
    requires
        k >= 0,
    ensures
        prior_sum(shares, amount, k) * 100 <= (amount as int) * share_sum(shares, k),
    decreases k,
{
    if k > 0 {
        lemma_prior_sum_bound(shares, amount, k - 1);
        let s = shares[k - 1] as int;
        let a = amount as int;
        assert((a * s / 100) * 100 <= a * s) by (nonlinear_arith)
            requires
                a >= 0,
                s >= 0,
        ;
        assert(a * share_sum(shares, k) == a * share_sum(shares, k - 1) + a * s) by (nonlinear_arith)
            requires
                share_sum(shares, k) == share_sum(shares, k - 1) + s,
        ;
    }
}

proof fn lemma_sum_split(shares: Seq<u8>, amount: u64, parts: Seq<u64>, k: int)
    requires
        0 <= k <= parts.len(),
        parts.len() == shares.len(),
        forall|i: int|
            0 <= i < parts.len() - 1 ==> #[trigger] parts[i] == percent_of(
                shares[i] as int,
                amount as int,
            ),
        k < parts.len(),
    ensures
        sum(parts.subrange(0, k)) == prior_sum(shares, amount, k),
    decreases k,
{
    if k > 0 {
        lemma_sum_split(shares, amount, parts, k - 1);
        assert(parts.subrange(0, k).drop_last() =~= parts.subrange(0, k - 1));
    }
}

/// The treasury split always drains its source: when the shares of all
/// destinations but the last add up to at most 100 percent, the split
/// exists and its parts add up to exactly `amount`, whatever the shares
/// and however the rounding falls.
pub proof fn lemma_split_drains(shares: Seq<u8>, amount: u64)
    requires
        shares.len() >= 1,
        share_sum(shares, shares.len() - 1) <= 100,
    ensures
        split_spec(shares, amount) is Some,
        sum(split_spec(shares, amount)->Some_0) == amount,
{
    let n = shares.len() as int;
    lemma_prior_sum_bound(shares, amount, n - 1);
    assert((amount as int) * share_sum(shares, n - 1) <= (amount as int) * 100) by (nonlinear_arith)
        requires
            share_sum(shares, n - 1) <= 100,
            amount >= 0,
    ;
    let parts = split_spec(shares, amount)->Some_0;
    assert forall|i: int| 0 <= i < parts.len() - 1 implies #[trigger] parts[i] == percent_of(
        shares[i] as int,
        amount as int,
    ) by {
        lemma_prior_sum_monotone(shares, amount, 0, i);
        lemma_prior_sum_monotone(shares, amount, i + 1, n - 1);
    }
    lemma_sum_split(shares, amount, parts, n - 1);
    assert(parts.drop_last() =~= parts.subrange(0, n - 1));
    lemma_prior_sum_monotone(shares, amount, 0, n - 1);
}

/// Splits `amount` by `shares` (percent): every destination but the last
/// gets its share rounded down, the last gets the exact remainder, so the
/// parts always add up to `amount`. Fails when the rounded shares of the
/// other destinations exceed `amount`.
pub fn split_amounts(shares: &Vec<u8>, amount: u64) -> (r: Result<Vec<u64>, DistributionError>)
    requires
        shares@.len() >= 1,
    ensures
        match split_spec(shares@, amount) {
            Some(parts) => r matches Ok(v) && v@ == parts,
            None => r == Err::<Vec<u64>, _>(DistributionError::Overflow),
        },
        r matches Ok(v) ==> sum(v@) == amount,
{
    let n = shares.len();
    let mut parts: Vec<u64> = Vec::new();
    let mut total: u64 = 0;
    let mut i: usize = 0;
    while i < n - 1
        invariant
            n == shares@.len(),
            n >= 1,
            i <= n - 1,
            parts@.len() == i,
            total == prior_sum(shares@, amount, i as int),
            total <= amount,
            forall|k: int|
                0 <= k < i ==> #[trigger] parts@[k] == percent_of(shares@[k] as int, amount as int),
        decreases n - 1 - i,
    {
        proof {
            assert((amount as int) * (shares@[i as int] as int) <= (amount as int) * 255)
                by (nonlinear_arith)
                requires
                    shares@[i as int] <= 255,
                    amount >= 0,
            ;
        }
        let part: u128 = amount as u128 * shares[i] as u128 / 100;
        if total as u128 + part > amount as u128 {
            proof {
                lemma_prior_sum_monotone(shares@, amount, i + 1, n - 1);
            }
            return Err(DistributionError::Overflow);
        }
        parts.push(part as u64);
        total = total + part as u64;
        i = i + 1;
    }
    parts.push(amount - total);
    proof {
        let spec_parts = split_spec(shares@, amount)->Some_0;
        assert(parts@ =~= spec_parts);
        lemma_sum_split(shares@, amount, parts@, n - 1);
        assert(parts@.drop_last() =~= parts@.subrange(0, n - 1));
    }
    Ok(parts)
}

/// The four destination shares in payment order.
pub open spec fn shares_of(info: DistributionInfo) -> Seq<u8> {
    seq![
        info.play_to_earn_fund_share,
        info.staking_fund_share,
        info.company_fund_share,
        info.team_fund_share,
    ]
}

/// The four destination funds in payment order.
pub open spec fn funds_of(info: DistributionInfo) -> Seq<AccountId> {
    seq![info.play_to_earn_fund, info.staking_fund, info.company_fund, info.team_fund]
}

/// Anyone may drain the accumulative fund (holding `accumulative_fund_amount`)
/// into the four funds. The transfers, signed by the fund's scoped owner,
/// add up to the whole balance.
pub fn distribute(info: &mut DistributionInfo, accumulative_fund_amount: u64, now: i64) -> (r: Result<
    Vec<Transfer>,
    DistributionError,
>)
    ensures
        accumulative_fund_amount == 0 ==> r == Err::<Vec<Transfer>, _>(
            DistributionError::EmptyAccumulativeFund,
        ),
        accumulative_fund_amount != 0 && split_spec(shares_of(*old(info)), accumulative_fund_amount)
            is None ==> r == Err::<Vec<Transfer>, _>(DistributionError::Overflow),
        r is Err ==> *final(info) == *old(info),
        r is Ok <==> accumulative_fund_amount != 0 && split_spec(
            shares_of(*old(info)),
            accumulative_fund_amount,
        ) is Some,
        r matches Ok(ts) ==> {
            let parts = split_spec(shares_of(*old(info)), accumulative_fund_amount)->Some_0;
            &&& ts@.len() == 4
            &&& forall|i: int|
                0 <= i < 4 ==> #[trigger] ts@[i] == (Transfer {
                    from: old(info).accumulative_fund,
                    to: funds_of(*old(info))[i],
                    authority: old(info).accumulative_fund_auth,
                    amount: parts[i],
                })
            &&& sum(parts) == accumulative_fund_amount
            &&& *final(info) == (DistributionInfo { last_distribution: now, ..*old(info) })
        },
{
    if accumulative_fund_amount == 0 {
        return Err(DistributionError::EmptyAccumulativeFund);
    }
    let mut shares: Vec<u8> = Vec::new();
    shares.push(info.play_to_earn_fund_share);
    shares.push(info.staking_fund_share);
    shares.push(info.company_fund_share);
    shares.push(info.team_fund_share);
    assert(shares@ =~= shares_of(*info));
    let parts = split_amounts(&shares, accumulative_fund_amount)?;
    let mut funds: Vec<AccountId> = Vec::new();
    funds.push(info.play_to_earn_fund);
    funds.push(info.staking_fund);
    funds.push(info.company_fund);
    funds.push(info.team_fund);
    assert(funds@ =~= funds_of(*info));
    let mut transfers: Vec<Transfer> = Vec::new();
    let mut i: usize = 0;
    while i < 4
        invariant
            i <= 4,
            parts@.len() == 4,
            funds@ == funds_of(*info),
            transfers@.len() == i,
            forall|k: int|
                0 <= k < i ==> #[trigger] transfers@[k] == (Transfer {
                    from: info.accumulative_fund,
                    to: funds@[k],
                    authority: info.accumulative_fund_auth,
                    amount: parts@[k],
                }),
        decreases 4 - i,
    {
        transfers.push(
            Transfer::new(info.accumulative_fund, funds[i], info.accumulative_fund_auth, parts[i]),
        );
        i = i + 1;
    }
    info.last_distribution = now;
    Ok(transfers)
}

/// Sets up a treasury split; every share must be at most 100 percent.
/// Derives the scoped authority that owns the accumulative fund.
pub fn initialize(
    accounts: &DistributionAccounts,
    update_auth: AccountId,
    params: DistributionParams,
) -> (r: Result<DistributionInfo, DistributionError>)
    ensures
        (params.play_to_earn_fund_share > 100 || params.staking_fund_share > 100
            || params.company_fund_share > 100 || params.team_fund_share > 100) ==> r == Err::<
            DistributionInfo,
            _,
        >(DistributionError::InvalidShare),
        r is Ok <==> (params.play_to_earn_fund_share <= 100 && params.staking_fund_share <= 100
            && params.company_fund_share <= 100 && params.team_fund_share <= 100 && authority_of(
            ACCUMULATIVE_FUND_AUTH_SEED.spec_bytes(),
            seq![accounts.distribution_info, accounts.accumulative_fund],
            accounts.program_id@,
        ) is Some),
        r matches Ok(s) ==> {
            &&& s.admin == accounts.admin
            &&& s.update_auth == update_auth
            &&& s.ggwp_token == accounts.ggwp_token
            &&& s.accumulative_fund == accounts.accumulative_fund
            &&& Some(s.accumulative_fund_auth@) == authority_of(
                ACCUMULATIVE_FUND_AUTH_SEED.spec_bytes(),
                seq![accounts.distribution_info, accounts.accumulative_fund],
                accounts.program_id@,
            )
            &&& s.last_distribution == 0
            &&& s.play_to_earn_fund == accounts.play_to_earn_fund
            &&& s.staking_fund == accounts.staking_fund
            &&& s.company_fund == accounts.company_fund
            &&& s.team_fund == accounts.team_fund
            &&& s.play_to_earn_fund_share == params.play_to_earn_fund_share
            &&& s.staking_fund_share == params.staking_fund_share
            &&& s.company_fund_share == params.company_fund_share
            &&& s.team_fund_share == params.team_fund_share
        },
{
    if params.play_to_earn_fund_share > 100 || params.staking_fund_share > 100
        || params.company_fund_share > 100 || params.team_fund_share > 100 {
        return Err(DistributionError::InvalidShare);
    }
    let mut keys: Vec<AccountId> = Vec::new();
    keys.push(accounts.distribution_info);
    keys.push(accounts.accumulative_fund);
    assert(keys@ =~= seq![accounts.distribution_info, accounts.accumulative_fund]);
    let accumulative_fund_auth = match derive_authority(
        ACCUMULATIVE_FUND_AUTH_SEED,
        &keys,
        &accounts.program_id,
    ) {
        Some(a) => a,
        None => {
            return Err(DistributionError::InvalidAccumulativeFundOwner);
        },
    };
    Ok(
        DistributionInfo {
            admin: accounts.admin,
            update_auth,
            ggwp_token: accounts.ggwp_token,
            accumulative_fund: accounts.accumulative_fund,
            accumulative_fund_auth,
            last_distribution: 0,
            play_to_earn_fund: accounts.play_to_earn_fund,
            play_to_earn_fund_share: params.play_to_earn_fund_share,
            staking_fund: accounts.staking_fund,
            staking_fund_share: params.staking_fund_share,
            company_fund: accounts.company_fund,
            company_fund_share: params.company_fund_share,
            team_fund: accounts.team_fund,
            team_fund_share: params.team_fund_share,
        },
    )
}

/// The admin hands the admin role to `admin`.
pub fn update_admin(info: &mut DistributionInfo, authority: &AccountId, admin: AccountId) -> (r:
    Result<(), DistributionError>)
    ensures
        r is Ok <==> authority@ == old(info).admin@,
        r is Err ==> r == Err::<(), _>(DistributionError::AccessDenied) && *final(info) == *old(
            info,
        ),
        r is Ok ==> *final(info) == (DistributionInfo { admin, ..*old(info) }),
{
    if !authority.same(&info.admin) {
        return Err(DistributionError::AccessDenied);
    }
    info.admin = admin;
    Ok(())
}

/// The admin sets a new update authority.
pub fn set_update_authority(
    info: &mut DistributionInfo,
    authority: &AccountId,
    update_auth: AccountId,
) -> (r: Result<(), DistributionError>)
    ensures
        r is Ok <==> authority@ == old(info).admin@,
        r is Err ==> r == Err::<(), _>(DistributionError::AccessDenied) && *final(info) == *old(
            info,
        ),
        r is Ok ==> *final(info) == (DistributionInfo { update_auth, ..*old(info) }),
{
    if !authority.same(&info.admin) {
        return Err(DistributionError::AccessDenied);
    }
    info.update_auth = update_auth;
    Ok(())
}

/// The update authority sets the four shares, each at most 100 percent.
pub fn update_shares(info: &mut DistributionInfo, authority: &AccountId, params: DistributionParams) -> (r:
    Result<(), DistributionError>)
    ensures
        authority@ != old(info).update_auth@ ==> r == Err::<(), _>(DistributionError::AccessDenied),
        authority@ == old(info).update_auth@ && (params.play_to_earn_fund_share > 100
            || params.staking_fund_share > 100 || params.company_fund_share > 100
            || params.team_fund_share > 100) ==> r == Err::<(), _>(DistributionError::InvalidShare),
        r is Err ==> *final(info) == *old(info),
        r is Ok ==> *final(info) == (DistributionInfo {
            play_to_earn_fund_share: params.play_to_earn_fund_share,
            staking_fund_share: params.staking_fund_share,
            company_fund_share: params.company_fund_share,
            team_fund_share: params.team_fund_share,
            ..*old(info)
        }),
        r is Ok <==> authority@ == old(info).update_auth@ && params.play_to_earn_fund_share <= 100
            && params.staking_fund_share <= 100 && params.company_fund_share <= 100
            && params.team_fund_share <= 100,
{
    if !authority.same(&info.update_auth) {
        return Err(DistributionError::AccessDenied);
    }
    if params.play_to_earn_fund_share > 100 || params.staking_fund_share > 100
        || params.company_fund_share > 100 || params.team_fund_share > 100 {
        return Err(DistributionError::InvalidShare);
    }
    info.play_to_earn_fund_share = params.play_to_earn_fund_share;
    info.staking_fund_share = params.staking_fund_share;
    info.company_fund_share = params.company_fund_share;
    info.team_fund_share = params.team_fund_share;
    Ok(())
}

} // verus!
