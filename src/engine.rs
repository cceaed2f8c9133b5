use vstd::prelude::*;
use crate::address::Address;
use crate::records::{Faucet, Withdrawer};
use crate::signing::SigningCapability;

verus! {

/// Seconds that must be strictly exceeded between two withdrawals of one requester.
pub const COOLDOWN_SECS: i64 = 60;

/// Why a withdrawal is refused before anything moves.
#[derive(Clone, Copy, Debug, PartialEq, Eq, Structural)]
pub enum DenyReason {
    /// The asset presented is not the reserve's asset.
    AssetMismatch,
    /// The caller is not the owner of the requester record.
    WrongRequesterRecord,
    /// The cooldown since the last withdrawal has not elapsed.
    RateLimited,
    /// The quantity asked for is above the reserve's cap.
    LimitExceeded,
    /// The scaled amount does not fit in 64 bits.
    Overflow,
}

/// Why the ledger refused a transfer.
#[derive(Clone, Copy, Debug, PartialEq, Eq, Structural)]
pub enum TransferError {
    /// The source account holds less than the amount.
    InsufficientFunds,
    /// The authority presented does not control the source account.
    WrongAuthority,
    /// Any other refusal of the ledger.
    Other,
}

/// Why a withdrawal failed.
#[derive(Clone, Copy, Debug, PartialEq, Eq, Structural)]
pub enum WithdrawError {
    /// Refused by the rules before any transfer.
    Denied(DenyReason),
    /// Authorized, but the ledger refused the transfer.
    Transfer(TransferError),
}

/// A granted withdrawal: how many raw units move, and the capability that
/// lets the reserve sign for them.
#[derive(Clone, Copy, Debug)]
pub struct Authorization {
    pub amount: u64,
    pub capability: SigningCapability,
}

/// The cooldown rule: strictly more than the cooldown has elapsed since `last`.
pub open spec fn cooled_down(last: int, now: int) -> bool {
    now - COOLDOWN_SECS > last
}

/// The decision on a withdrawal of `n` units of `asset` by `caller` at `now`:
/// the raw amount to move, or the first rule that refuses it.
pub open spec fn decide(
    f: Faucet,
    w: Withdrawer,
    asset: Seq<u8>,
    caller: Seq<u8>,
    n: u64,
    now: i64,
) -> Result<int, DenyReason> {
    if asset != f.mint@ {
        Err(DenyReason::AssetMismatch)
    } else if caller != w.owner@ {
        Err(DenyReason::WrongRequesterRecord)
    } else if !cooled_down(w.last_withdraw as int, now as int) {
        Err(DenyReason::RateLimited)
    } else if n > f.max_withdraw {
        Err(DenyReason::LimitExceeded)
    } else if n * f.decimals > u64::MAX {
        Err(DenyReason::Overflow)
    } else {
        Ok(n * f.decimals)
    }
}

/// The whole withdrawal, given what the ledger answers if a transfer is made:
/// the requester record afterwards, and the amount moved or the error.
pub open spec fn withdraw_outcome(
    f: Faucet,
    w: Withdrawer,
    asset: Seq<u8>,
    caller: Seq<u8>,
    n: u64,
    now: i64,
    ledger: Result<(), TransferError>,
) -> (Withdrawer, Result<int, WithdrawError>) {
    match decide(f, w, asset, caller, n, now) {
        Err(d) => (w, Err(WithdrawError::Denied(d))),
        Ok(amount) => match ledger {
            Err(t) => (w, Err(WithdrawError::Transfer(t))),
            Ok(()) => (Withdrawer { last_withdraw: now, ..w }, Ok(amount)),
        },
    }
}

/// Decides a withdrawal of `n` units of `mint` by `signer` at time `now`.
/// The checks run in order: asset, requester identity, cooldown, cap, and
/// the scaled amount's size; the first that fails is the answer.
pub fn authorize_withdrawal(
    faucet: &Faucet,
    withdrawer: &Withdrawer,
    mint: &Address,
    signer: &Address,
    n: u64,
    now: i64,
) -> (r: Result<Authorization, DenyReason>)
    ensures
        match r {
            Ok(a) => decide(*faucet, *withdrawer, mint@, signer@, n, now) == Ok::<int, DenyReason>(a.amount as int)
                && a.capability.mint@ == faucet.mint@ && a.capability.bump == faucet.bump,
            Err(e) => decide(*faucet, *withdrawer, mint@, signer@, n, now) == Err::<int, DenyReason>(e),
        },
{
    if !mint.same_as(&faucet.mint) {
        return Err(DenyReason::AssetMismatch);
    }
    if !signer.same_as(&withdrawer.owner) {
        return Err(DenyReason::WrongRequesterRecord);
    }
    if !((now as i128) - (COOLDOWN_SECS as i128) > (withdrawer.last_withdraw as i128)) {
        return Err(DenyReason::RateLimited);
    }
    if n > faucet.max_withdraw {
        return Err(DenyReason::LimitExceeded);
    }
    match n.checked_mul(faucet.decimals) {
        Some(amount) => Ok(Authorization {
            amount,
            capability: SigningCapability { mint: faucet.mint, bump: faucet.bump },
        }),
        None => Err(DenyReason::Overflow),
    }
}

/// Finishes an authorized withdrawal once the ledger has answered: on a
/// completed transfer the requester's last withdrawal time becomes `now`; on
/// a refused one the record is left as it was.
pub fn complete_withdrawal(
    withdrawer: &mut Withdrawer,
    auth: &Authorization,
    now: i64,
    ledger: Result<(), TransferError>,
) -> (r: Result<u64, WithdrawError>)
    ensures
        match ledger {
            Ok(()) => r == Ok::<u64, WithdrawError>(auth.amount)
                && *final(withdrawer) == (Withdrawer { last_withdraw: now, ..*old(withdrawer) }),
            Err(t) => r == Err::<u64, WithdrawError>(WithdrawError::Transfer(t))
                && *final(withdrawer) == *old(withdrawer),
        },
{
    match ledger {
        Ok(()) => {
            withdrawer.last_withdraw = now;
            Ok(auth.amount)
        },
        Err(t) => Err(WithdrawError::Transfer(t)),
    }
}

} // verus!
