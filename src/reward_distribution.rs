//! Reward distribution: guards one fund, owned by a scoped authority,
//! and moves tokens out of it only for callers on its allow-list.
use crate::error::ErrorKind;
use crate::ids::{authority_of, contains_id, derive_authority, listed, AccountId};
use crate::token::Transfer;
use vstd::prelude::*;
use vstd::string::StringSliceAdditionalSpecFns;

verus! {

pub const MAX_TRANSFER_AUTH_LIST: usize = 6;

pub const PLAY_TO_EARN_FUND_AUTH_SEED: &'static str = "play_to_earn_fund_auth";

#[derive(Clone, Copy, Debug, PartialEq, Eq, Structural)]
pub enum RewardDistributionError {
    AccessDenied,
    Overflow,
    InvalidPlayToEarnFundOwner,
    InvalidTransferAuthList,
    InvalidTransferAuthority,
}

impl RewardDistributionError {
    pub open spec fn spec_kind(self) -> ErrorKind {
        match self {
            RewardDistributionError::AccessDenied => ErrorKind::AccessDenied,
            RewardDistributionError::Overflow => ErrorKind::Overflow,
            RewardDistributionError::InvalidTransferAuthority => ErrorKind::CapabilityDenied,
            _ => ErrorKind::InvalidParameter,
        }
    }

    /// The class of this error in the engine-wide taxonomy.
    pub fn kind(&self) -> (r: ErrorKind)
        ensures
            r == self.spec_kind(),
    {
        match self {
            RewardDistributionError::AccessDenied => ErrorKind::AccessDenied,
            RewardDistributionError::Overflow => ErrorKind::Overflow,
            RewardDistributionError::InvalidTransferAuthority => ErrorKind::CapabilityDenied,
            _ => ErrorKind::InvalidParameter,
        }
    }
}

/// Reward gate settings: the guarded fund, its scoped owner, and the
/// callers allowed to move tokens out of it.
#[derive(Clone, Debug)]
pub struct RewardDistributionInfo {
    pub admin: AccountId,
    pub update_auth: AccountId,
    pub ggwp_token: AccountId,
    pub play_to_earn_fund: AccountId,
    pub play_to_earn_fund_auth: AccountId,
    pub transfer_auth_list: Vec<AccountId>,
}

/// The accounts a reward gate is set up with.
#[derive(Clone, Copy, Debug)]
pub struct RewardDistributionAccounts {
    pub admin: AccountId,
    pub program_id: AccountId,
    pub reward_distribution_info: AccountId,
    pub ggwp_token: AccountId,
    pub play_to_earn_fund: AccountId,
}

impl RewardDistributionInfo {
    pub open spec fn wf(&self) -> bool {
        self.transfer_auth_list@.len() <= MAX_TRANSFER_AUTH_LIST
    }
}

/// Sets up a reward gate with an allow-list of at most six callers.
/// Derives the scoped authority that owns the guarded fund.
pub fn initialize(
    accounts: &RewardDistributionAccounts,
    update_auth: AccountId,
    transfer_auth_list: Vec<AccountId>,
) -> (r: Result<RewardDistributionInfo, RewardDistributionError>)
    ensures
        transfer_auth_list@.len() > MAX_TRANSFER_AUTH_LIST ==> r == Err::<
            RewardDistributionInfo,
            _,
        >(RewardDistributionError::InvalidTransferAuthList),
        r is Ok <==> transfer_auth_list@.len() <= MAX_TRANSFER_AUTH_LIST && authority_of(
            PLAY_TO_EARN_FUND_AUTH_SEED.spec_bytes(),
            seq![accounts.reward_distribution_info],
            accounts.program_id@,
        ) is Some,
        r matches Ok(s) ==> {
            &&& s.wf()
            &&& s.admin == accounts.admin
            &&& s.update_auth == update_auth
            &&& s.ggwp_token == accounts.ggwp_token
            &&& s.play_to_earn_fund == accounts.play_to_earn_fund
            &&& Some(s.play_to_earn_fund_auth@) == authority_of(
                PLAY_TO_EARN_FUND_AUTH_SEED.spec_bytes(),
                seq![accounts.reward_distribution_info],
                accounts.program_id@,
            )
            &&& s.transfer_auth_list@ == transfer_auth_list@
        },
{
    if transfer_auth_list.len() > MAX_TRANSFER_AUTH_LIST {
        return Err(RewardDistributionError::InvalidTransferAuthList);
    }
    let mut keys: Vec<AccountId> = Vec::new();
    keys.push(accounts.reward_distribution_info);
    assert(keys@ =~= seq![accounts.reward_distribution_info]);
    let play_to_earn_fund_auth = match derive_authority(
        PLAY_TO_EARN_FUND_AUTH_SEED,
        &keys,
        &accounts.program_id,
    ) {
        Some(a) => a,
        None => {
            return Err(RewardDistributionError::InvalidPlayToEarnFundOwner);
        },
    };
    Ok(
        RewardDistributionInfo {
            admin: accounts.admin,
            update_auth,
            ggwp_token: accounts.ggwp_token,
            play_to_earn_fund: accounts.play_to_earn_fund,
            play_to_earn_fund_auth,
            transfer_auth_list,
        },
    )
}

/// The admin hands the admin role to `admin`.
pub fn update_admin(info: &mut RewardDistributionInfo, authority: &AccountId, admin: AccountId) -> (r:
    Result<(), RewardDistributionError>)
    ensures
        r is Ok <==> authority@ == old(info).admin@,
        r is Err ==> r == Err::<(), _>(RewardDistributionError::AccessDenied) && *final(info)
            == *old(info),
        r is Ok ==> *final(info) == (RewardDistributionInfo { admin, ..*old(info) }),
{
    if !authority.same(&info.admin) {
        return Err(RewardDistributionError::AccessDenied);
    }
    info.admin = admin;
    Ok(())
}

/// The admin sets a new update authority.
pub fn set_update_authority(
    info: &mut RewardDistributionInfo,
    authority: &AccountId,
    update_auth: AccountId,
) -> (r: Result<(), RewardDistributionError>)
    ensures
        r is Ok <==> authority@ == old(info).admin@,
        r is Err ==> r == Err::<(), _>(RewardDistributionError::AccessDenied) && *final(info)
            == *old(info),
        r is Ok ==> *final(info) == (RewardDistributionInfo { update_auth, ..*old(info) }),
{
    if !authority.same(&info.admin) {
        return Err(RewardDistributionError::AccessDenied);
    }
    info.update_auth = update_auth;
    Ok(())
}

/// The update authority replaces the allow-list (at most six callers).
/// Nobody else can change it.
pub fn update_transfer_authority_list(
    info: &mut RewardDistributionInfo,
    authority: &AccountId,
    transfer_auth_list: Vec<AccountId>,
) -> (r: Result<(), RewardDistributionError>)
    ensures
        authority@ != old(info).update_auth@ ==> r == Err::<(), _>(
            RewardDistributionError::AccessDenied,
        ),
        authority@ == old(info).update_auth@ && transfer_auth_list@.len() > MAX_TRANSFER_AUTH_LIST
            ==> r == Err::<(), _>(RewardDistributionError::InvalidTransferAuthList),
        r is Err ==> *final(info) == *old(info),
        r is Ok <==> authority@ == old(info).update_auth@ && transfer_auth_list@.len()
            <= MAX_TRANSFER_AUTH_LIST,
        r is Ok ==> final(info).transfer_auth_list@ == transfer_auth_list@ && final(info).admin
            == old(info).admin && final(info).update_auth == old(info).update_auth
            && final(info).ggwp_token == old(info).ggwp_token && final(info).play_to_earn_fund
            == old(info).play_to_earn_fund && final(info).play_to_earn_fund_auth == old(
            info,
        ).play_to_earn_fund_auth,
{
    if !authority.same(&info.update_auth) {
        return Err(RewardDistributionError::AccessDenied);
    }
    if transfer_auth_list.len() > MAX_TRANSFER_AUTH_LIST {
        return Err(RewardDistributionError::InvalidTransferAuthList);
    }
    info.transfer_auth_list = transfer_auth_list;
    Ok(())
}

/// Moves `amount` out of the guarded fund to `to`, signed by the fund's
/// scoped owner. Succeeds exactly when the invoking `authority` is on the
/// allow-list at the time of the call.
pub fn transfer(
    info: &RewardDistributionInfo,
    authority: &AccountId,
    to: &AccountId,
    amount: u64,
) -> (r: Result<Transfer, RewardDistributionError>)
    ensures
        r is Ok <==> listed(info.transfer_auth_list@, authority@),
        r is Err ==> r == Err::<Transfer, _>(RewardDistributionError::InvalidTransferAuthority),
        r matches Ok(t) ==> t == (Transfer {
            from: info.play_to_earn_fund,
            to: *to,
            authority: info.play_to_earn_fund_auth,
            amount,
        }),
{
    if !contains_id(&info.transfer_auth_list, authority) {
        return Err(RewardDistributionError::InvalidTransferAuthority);
    }
    Ok(Transfer::new(info.play_to_earn_fund, *to, info.play_to_earn_fund_auth, amount))
}

} // verus!
