//! Credit ledger: minting and burning of a utility credit whose wallets
//! expire lazily once a burn period has passed since their last reset.
use crate::error::ErrorKind;
use crate::ids::{contains_id, listed, AccountId};
use vstd::prelude::*;

verus! {

pub const MAX_MINTERS: usize = 1;

pub const MAX_BURNERS: usize = 3;

#[derive(Clone, Copy, Debug, PartialEq, Eq, Structural)]
pub enum GpassError {
    AccessDenied,
    Overflow,
    MaxMintersSizeExceeded,
    MaxBurnersSizeExceeded,
    InvalidBurnPeriodValue,
    InvalidMintAuthority,
    InvalidBurnAuthority,
    ZeroMintAmount,
    ZeroBurnAmount,
    InvalidLastBurnedValue,
    PeriodNotPassed,
}

impl GpassError {
    pub open spec fn spec_kind(self) -> ErrorKind {
        match self {
            GpassError::AccessDenied => ErrorKind::AccessDenied,
            GpassError::InvalidMintAuthority => ErrorKind::AccessDenied,
            GpassError::InvalidBurnAuthority => ErrorKind::AccessDenied,
            GpassError::Overflow => ErrorKind::Overflow,
            GpassError::PeriodNotPassed => ErrorKind::NotYetDue,
            _ => ErrorKind::InvalidParameter,
        }
    }

    /// The class of this error in the engine-wide taxonomy.
    pub fn kind(&self) -> (r: ErrorKind)
        ensures
            r == self.spec_kind(),
    {
        match self {
            GpassError::AccessDenied => ErrorKind::AccessDenied,
            GpassError::InvalidMintAuthority => ErrorKind::AccessDenied,
            GpassError::InvalidBurnAuthority => ErrorKind::AccessDenied,
            GpassError::Overflow => ErrorKind::Overflow,
            GpassError::PeriodNotPassed => ErrorKind::NotYetDue,
            _ => ErrorKind::InvalidParameter,
        }
    }
}

/// Ledger settings. `total_amount` is the sum of all wallet balances; every
/// operation below changes it by exactly the change of the wallet it touches.
#[derive(Clone, Debug)]
pub struct GpassSettings {
    pub admin: AccountId,
    pub update_auth: AccountId,
    pub burn_period: u64,
    pub total_amount: u64,
    pub minters: Vec<AccountId>,
    pub burners: Vec<AccountId>,
}

/// A credit wallet: its balance and the time of its last reset.
#[derive(Clone, Copy, Debug, PartialEq, Eq, Structural)]
pub struct Wallet {
    pub amount: u64,
    pub last_burned: i64,
}

impl GpassSettings {
    /// Limits that initialization and the setters maintain.
    pub open spec fn wf(&self) -> bool {
        &&& self.burn_period != 0
        &&& self.minters@.len() <= MAX_MINTERS
        &&& self.burners@.len() <= MAX_BURNERS
    }

    /// Everything but the running total is the same in `self` and `o`.
    pub open spec fn same_config(&self, o: &GpassSettings) -> bool {
        &&& self.admin == o.admin
        &&& self.update_auth == o.update_auth
        &&& self.burn_period == o.burn_period
        &&& self.minters@ == o.minters@
        &&& self.burners@ == o.burners@
    }
}

/// Seconds elapsed from `last_burned` to `current`.
pub open spec fn time_passed_spec(current: i64, last_burned: i64) -> Result<u64, GpassError> {
    if last_burned <= 0 {
        Err(GpassError::InvalidLastBurnedValue)
    } else if current < last_burned {
        Err(GpassError::Overflow)
    } else {
        Ok((current - last_burned) as u64)
    }
}

/// The running total and the wallet once lazy expiry has been evaluated at `now`.
pub open spec fn expiry_spec(total: u64, w: Wallet, period: u64, now: i64) -> Result<
    (u64, Wallet),
    GpassError,
> {
    match time_passed_spec(now, w.last_burned) {
        Err(e) => Err(e),
        Ok(passed) => if passed < period {
            Ok((total, w))
        } else if total < w.amount {
            Err(GpassError::Overflow)
        } else {
            Ok(((total - w.amount) as u64, Wallet { amount: 0, last_burned: now }))
        },
    }
}

/// Result of `mint_to`: the new total and wallet, or the error.
pub open spec fn mint_spec(s: GpassSettings, w: Wallet, authority: Seq<u8>, amount: u64, now: i64) -> Result<
    (u64, Wallet),
    GpassError,
> {
    if amount == 0 {
        Err(GpassError::ZeroMintAmount)
    } else if !listed(s.minters@, authority) {
        Err(GpassError::InvalidMintAuthority)
    } else {
        match expiry_spec(s.total_amount, w, s.burn_period, now) {
            Err(e) => Err(e),
            Ok((t, w2)) => if w2.amount + amount > u64::MAX || t + amount > u64::MAX {
                Err(GpassError::Overflow)
            } else {
                Ok(((t + amount) as u64, Wallet { amount: (w2.amount + amount) as u64, ..w2 }))
            },
        }
    }
}

/// Result of `burn`: the wallet loses `amount`, or all it holds if that is less.
pub open spec fn burn_spec(s: GpassSettings, w: Wallet, authority: Seq<u8>, amount: u64, now: i64) -> Result<
    (u64, Wallet),
    GpassError,
> {
    if amount == 0 {
        Err(GpassError::ZeroBurnAmount)
    } else if !listed(s.burners@, authority) {
        Err(GpassError::InvalidBurnAuthority)
    } else {
        match expiry_spec(s.total_amount, w, s.burn_period, now) {
            Err(e) => Err(e),
            Ok((t, w2)) => {
                let burned = if amount <= w2.amount {
                    amount
                } else {
                    w2.amount
                };
                if t < burned {
                    Err(GpassError::Overflow)
                } else {
                    Ok(((t - burned) as u64, Wallet { amount: (w2.amount - burned) as u64, ..w2 }))
                }
            },
        }
    }
}

/// Result of `try_burn_in_period`: expiry alone, refused before the period has passed.
pub open spec fn sweep_spec(s: GpassSettings, w: Wallet, now: i64) -> Result<(u64, Wallet), GpassError> {
    match time_passed_spec(now, w.last_burned) {
        Err(e) => Err(e),
        Ok(passed) => if passed < s.burn_period {
            Err(GpassError::PeriodNotPassed)
        } else {
            expiry_spec(s.total_amount, w, s.burn_period, now)
        },
    }
}

/// The balance a wallet holds at `now`, once lazy expiry is taken into account.
pub open spec fn balance_at(w: Wallet, period: u64, now: i64) -> u64 {
    match time_passed_spec(now, w.last_burned) {
        Ok(passed) => if passed < period {
            w.amount
        } else {
            0
        },
        Err(_) => w.amount,
    }
}

/// Seconds elapsed since the wallet's last reset.
pub fn time_passed(current_timestamp: i64, last_burned: i64) -> (r: Result<u64, GpassError>)
    ensures
        r == time_passed_spec(current_timestamp, last_burned),
{
    if last_burned <= 0 {
        return Err(GpassError::InvalidLastBurnedValue);
    }
    if current_timestamp < last_burned {
        return Err(GpassError::Overflow);
    }
    Ok((current_timestamp as i128 - last_burned as i128) as u64)
}

/// The balance `wallet` holds at `now` under `info`'s burn period.
pub fn spendable_balance(info: &GpassSettings, wallet: &Wallet, now: i64) -> (r: u64)
    ensures
        r == balance_at(*wallet, info.burn_period, now),
{
    match time_passed(now, wallet.last_burned) {
        Ok(passed) => if passed < info.burn_period {
            wallet.amount
        } else {
            0
        },
        Err(_) => wallet.amount,
    }
}

/// Sets up the ledger. The caller becomes its admin.
pub fn initialize(
    admin: AccountId,
    burn_period: u64,
    update_auth: AccountId,
    minters: Vec<AccountId>,
    burners: Vec<AccountId>,
) -> (r: Result<GpassSettings, GpassError>)
    ensures
        minters@.len() > MAX_MINTERS ==> r == Err::<GpassSettings, _>(
            GpassError::MaxMintersSizeExceeded,
        ),
        minters@.len() <= MAX_MINTERS && burners@.len() > MAX_BURNERS ==> r == Err::<
            GpassSettings,
            _,
        >(GpassError::MaxBurnersSizeExceeded),
        minters@.len() <= MAX_MINTERS && burners@.len() <= MAX_BURNERS && burn_period == 0 ==> r
            == Err::<GpassSettings, _>(GpassError::InvalidBurnPeriodValue),
        r is Ok <==> (minters@.len() <= MAX_MINTERS && burners@.len() <= MAX_BURNERS && burn_period
            != 0),
        r matches Ok(s) ==> s.wf() && s.admin == admin && s.update_auth == update_auth
            && s.burn_period == burn_period && s.total_amount == 0 && s.minters@ == minters@
            && s.burners@ == burners@,
{
    if minters.len() > MAX_MINTERS {
        return Err(GpassError::MaxMintersSizeExceeded);
    }
    if burners.len() > MAX_BURNERS {
        return Err(GpassError::MaxBurnersSizeExceeded);
    }
    if burn_period == 0 {
        return Err(GpassError::InvalidBurnPeriodValue);
    }
    Ok(GpassSettings { admin, update_auth, burn_period, total_amount: 0, minters, burners })
}

/// The admin hands the admin role to `admin`.
pub fn update_admin(info: &mut GpassSettings, authority: &AccountId, admin: AccountId) -> (r: Result<
    (),
    GpassError,
>)
    ensures
        r is Ok <==> authority@ == old(info).admin@,
        r is Err ==> r == Err::<(), _>(GpassError::AccessDenied) && *final(info) == *old(info),
        r is Ok ==> *final(info) == (GpassSettings { admin, ..*old(info) }),
{
    if !authority.same(&info.admin) {
        return Err(GpassError::AccessDenied);
    }
    info.admin = admin;
    Ok(())
}

/// The admin sets a new update authority.
pub fn set_update_authority(
    info: &mut GpassSettings,
    authority: &AccountId,
    update_auth: AccountId,
) -> (r: Result<(), GpassError>)
    ensures
        r is Ok <==> authority@ == old(info).admin@,
        r is Err ==> r == Err::<(), _>(GpassError::AccessDenied) && *final(info) == *old(info),
        r is Ok ==> *final(info) == (GpassSettings { update_auth, ..*old(info) }),
{
    if !authority.same(&info.admin) {
        return Err(GpassError::AccessDenied);
    }
    info.update_auth = update_auth;
    Ok(())
}

/// The update authority sets a new, non-zero burn period.
pub fn update_burn_period(info: &mut GpassSettings, authority: &AccountId, burn_period: u64) -> (r:
    Result<(), GpassError>)
    ensures
        authority@ != old(info).update_auth@ ==> r == Err::<(), _>(GpassError::AccessDenied),
        authority@ == old(info).update_auth@ && burn_period == 0 ==> r == Err::<(), _>(
            GpassError::InvalidBurnPeriodValue,
        ),
        r is Err ==> *final(info) == *old(info),
        r is Ok <==> authority@ == old(info).update_auth@ && burn_period != 0,
        r is Ok ==> *final(info) == (GpassSettings { burn_period, ..*old(info) }),
{
    if !authority.same(&info.update_auth) {
        return Err(GpassError::AccessDenied);
    }
    if burn_period == 0 {
        return Err(GpassError::InvalidBurnPeriodValue);
    }
    info.burn_period = burn_period;
    Ok(())
}

/// The update authority replaces the list of minters.
pub fn update_minters(info: &mut GpassSettings, authority: &AccountId, minters: Vec<AccountId>) -> (r:
    Result<(), GpassError>)
    ensures
        authority@ != old(info).update_auth@ ==> r == Err::<(), _>(GpassError::AccessDenied),
        authority@ == old(info).update_auth@ && minters@.len() > MAX_MINTERS ==> r == Err::<
            (),
            _,
        >(GpassError::MaxMintersSizeExceeded),
        r is Err ==> *final(info) == *old(info),
        r is Ok <==> authority@ == old(info).update_auth@ && minters@.len() <= MAX_MINTERS,
        r is Ok ==> final(info).minters@ == minters@ && final(info).admin == old(info).admin
            && final(info).update_auth == old(info).update_auth && final(info).burn_period
            == old(info).burn_period && final(info).total_amount == old(info).total_amount
            && final(info).burners@ == old(info).burners@,
{
    if !authority.same(&info.update_auth) {
        return Err(GpassError::AccessDenied);
    }
    if minters.len() > MAX_MINTERS {
        return Err(GpassError::MaxMintersSizeExceeded);
    }
    info.minters = minters;
    Ok(())
}

/// The update authority replaces the list of burners.
pub fn update_burners(info: &mut GpassSettings, authority: &AccountId, burners: Vec<AccountId>) -> (r:
    Result<(), GpassError>)
    ensures
        authority@ != old(info).update_auth@ ==> r == Err::<(), _>(GpassError::AccessDenied),
        authority@ == old(info).update_auth@ && burners@.len() > MAX_BURNERS ==> r == Err::<
            (),
            _,
        >(GpassError::MaxBurnersSizeExceeded),
        r is Err ==> *final(info) == *old(info),
        r is Ok <==> authority@ == old(info).update_auth@ && burners@.len() <= MAX_BURNERS,
        r is Ok ==> final(info).burners@ == burners@ && final(info).admin == old(info).admin
            && final(info).update_auth == old(info).update_auth && final(info).burn_period
            == old(info).burn_period && final(info).total_amount == old(info).total_amount
            && final(info).minters@ == old(info).minters@,
{
    if !authority.same(&info.update_auth) {
        return Err(GpassError::AccessDenied);
    }
    if burners.len() > MAX_BURNERS {
        return Err(GpassError::MaxBurnersSizeExceeded);
    }
    info.burners = burners;
    Ok(())
}

/// A new, empty wallet whose burn window starts at `now`.
pub fn create_wallet(now: i64) -> (r: Wallet)
    ensures
        r == (Wallet { amount: 0, last_burned: now }),
{
    Wallet { amount: 0, last_burned: now }
}

/// A minter credits `amount` to `to`, after lazy expiry of `to` at `now`.
pub fn mint_to(
    info: &mut GpassSettings,
    to: &mut Wallet,
    authority: &AccountId,
    amount: u64,
    now: i64,
) -> (r: Result<(), GpassError>)
    ensures
        match mint_spec(*old(info), *old(to), authority@, amount, now) {
            Ok((t, w)) => r is Ok && final(info).total_amount == t && *final(to) == w,
            Err(e) => r == Err::<(), GpassError>(e) && *final(info) == *old(info) && *final(to) == *old(to),
        },
        final(info).same_config(old(info)),
        final(info).total_amount - old(info).total_amount == final(to).amount - old(to).amount,
{
    if amount == 0 {
        return Err(GpassError::ZeroMintAmount);
    }
    if !contains_id(&info.minters, authority) {
        return Err(GpassError::InvalidMintAuthority);
    }
    let passed = time_passed(now, to.last_burned)?;
    let mut total = info.total_amount;
    let mut balance = to.amount;
    let mut last = to.last_burned;
    if passed >= info.burn_period {
        if total < balance {
            return Err(GpassError::Overflow);
        }
        total = total - balance;
        balance = 0;
        last = now;
    }
    if balance > u64::MAX - amount || total > u64::MAX - amount {
        return Err(GpassError::Overflow);
    }
    info.total_amount = total + amount;
    to.amount = balance + amount;
    to.last_burned = last;
    Ok(())
}

/// A burner removes `amount` from `from` (or all it holds, if less), after
/// lazy expiry of `from` at `now`.
pub fn burn(
    info: &mut GpassSettings,
    from: &mut Wallet,
    authority: &AccountId,
    amount: u64,
    now: i64,
) -> (r: Result<(), GpassError>)
    ensures
        match burn_spec(*old(info), *old(from), authority@, amount, now) {
            Ok((t, w)) => r is Ok && final(info).total_amount == t && *final(from) == w,
            Err(e) => r == Err::<(), GpassError>(e) && *final(info) == *old(info) && *final(from) == *old(from),
        },
        final(info).same_config(old(info)),
        final(info).total_amount - old(info).total_amount == final(from).amount - old(from).amount,
{
    if amount == 0 {
        return Err(GpassError::ZeroBurnAmount);
    }
    if !contains_id(&info.burners, authority) {
        return Err(GpassError::InvalidBurnAuthority);
    }
    let passed = time_passed(now, from.last_burned)?;
    let mut total = info.total_amount;
    let mut balance = from.amount;
    let mut last = from.last_burned;
    if passed >= info.burn_period {
        if total < balance {
            return Err(GpassError::Overflow);
        }
        total = total - balance;
        balance = 0;
        last = now;
    }
    let burned = if amount <= balance {
        amount
    } else {
        balance
    };
    if total < burned {
        return Err(GpassError::Overflow);
    }
    info.total_amount = total - burned;
    from.amount = balance - burned;
    from.last_burned = last;
    Ok(())
}

/// Anyone may trigger expiry of a wallet; refused while its burn period
/// has not yet passed.
pub fn try_burn_in_period(info: &mut GpassSettings, wallet: &mut Wallet, now: i64) -> (r: Result<
    (),
    GpassError,
>)
    ensures
        match sweep_spec(*old(info), *old(wallet), now) {
            Ok((t, w)) => r is Ok && final(info).total_amount == t && *final(wallet) == w,
            Err(e) => r == Err::<(), GpassError>(e) && *final(info) == *old(info) && *final(wallet) == *old(wallet),
        },
        final(info).same_config(old(info)),
        final(info).total_amount - old(info).total_amount == final(wallet).amount - old(
            wallet,
        ).amount,
{
    let passed = time_passed(now, wallet.last_burned)?;
    if passed < info.burn_period {
        return Err(GpassError::PeriodNotPassed);
    }
    if info.total_amount < wallet.amount {
        return Err(GpassError::Overflow);
    }
    info.total_amount = info.total_amount - wallet.amount;
    wallet.amount = 0;
    wallet.last_burned = now;
    Ok(())
}

/// Expiry is idempotent within a burn window: once a sweep at `t1` has
/// succeeded, a second sweep at any `t2` before the window that began at
/// `t1` closes is refused and changes nothing.
pub proof fn lemma_sweep_idempotent(s: GpassSettings, w: Wallet, t1: i64, t2: i64)
    requires
        s.wf(),
        sweep_spec(s, w, t1) is Ok,
        t1 <= t2,
        t2 - t1 < s.burn_period,
    ensures
        ({
            let (total, w1) = sweep_spec(s, w, t1)->Ok_0;
            sweep_spec(GpassSettings { total_amount: total, ..s }, w1, t2) == Err::<
                (u64, Wallet),
                _,
            >(GpassError::PeriodNotPassed)
        }),
{
}

} // verus!
