use vstd::prelude::*;
use crate::engine::{decide, withdraw_outcome, DenyReason, TransferError, WithdrawError};
use crate::records::{Faucet, Withdrawer};

verus! {

/// After a successful withdrawal at `t0`, another attempt by the same
/// requester for the same asset is rate limited while at most 60 seconds have
/// passed, leaving the record as it is; at 61 seconds it is granted when the
/// quantity is within the cap and its scaled amount fits.
pub proof fn lemma_cooldown_exclusive(
    f: Faucet,
    w: Withdrawer,
    asset: Seq<u8>,
    caller: Seq<u8>,
    n0: u64,
    t0: i64,
    n1: u64,
    t1: i64,
    ledger: Result<(), TransferError>,
)
    requires
        withdraw_outcome(f, w, asset, caller, n0, t0, Ok(())).1 is Ok,
    ensures
        ({
            let w1 = withdraw_outcome(f, w, asset, caller, n0, t0, Ok(())).0;
            &&& w1.last_withdraw == t0
            &&& t1 - t0 <= 60 ==> decide(f, w1, asset, caller, n1, t1)
                == Err::<int, DenyReason>(DenyReason::RateLimited)
            &&& t1 - t0 <= 60 ==> withdraw_outcome(f, w1, asset, caller, n1, t1, ledger)
                == (w1, Err::<int, WithdrawError>(WithdrawError::Denied(DenyReason::RateLimited)))
            &&& (t1 - t0 == 61 && n1 <= f.max_withdraw && n1 * f.decimals <= u64::MAX)
                ==> decide(f, w1, asset, caller, n1, t1) == Ok::<int, DenyReason>(n1 * f.decimals)
        }),
{
}

/// A quantity above the reserve's cap, asked for by the record's owner for
/// the reserve's asset after the cooldown, is refused as over the limit, and
/// nothing changes whatever the ledger would have answered.
pub proof fn lemma_cap_enforced(
    f: Faucet,
    w: Withdrawer,
    asset: Seq<u8>,
    caller: Seq<u8>,
    n: u64,
    now: i64,
    ledger: Result<(), TransferError>,
)
    requires
        n > f.max_withdraw,
        asset == f.mint@,
        caller == w.owner@,
        now - 60 > w.last_withdraw,
    ensures
        withdraw_outcome(f, w, asset, caller, n, now, ledger)
            == (w, Err::<int, WithdrawError>(WithdrawError::Denied(DenyReason::LimitExceeded))),
{
}

/// An asset other than the reserve's is refused as a mismatch, whatever the
/// other inputs, and nothing changes.
pub proof fn lemma_asset_bound(
    f: Faucet,
    w: Withdrawer,
    asset: Seq<u8>,
    caller: Seq<u8>,
    n: u64,
    now: i64,
    ledger: Result<(), TransferError>,
)
    requires
        asset != f.mint@,
    ensures
        withdraw_outcome(f, w, asset, caller, n, now, ledger)
            == (w, Err::<int, WithdrawError>(WithdrawError::Denied(DenyReason::AssetMismatch))),
{
}

/// A caller other than the requester record's owner, presenting the
/// reserve's asset, is refused as using a wrong record, and nothing changes.
pub proof fn lemma_identity_bound(
    f: Faucet,
    w: Withdrawer,
    asset: Seq<u8>,
    caller: Seq<u8>,
    n: u64,
    now: i64,
    ledger: Result<(), TransferError>,
)
    requires
        asset == f.mint@,
        caller != w.owner@,
    ensures
        withdraw_outcome(f, w, asset, caller, n, now, ledger)
            == (w, Err::<int, WithdrawError>(WithdrawError::Denied(DenyReason::WrongRequesterRecord))),
{
}

/// When the ledger refuses the transfer, the requester record, and so its
/// last withdrawal time, is exactly as it was before the call.
pub proof fn lemma_failed_transfer_keeps_record(
    f: Faucet,
    w: Withdrawer,
    asset: Seq<u8>,
    caller: Seq<u8>,
    n: u64,
    now: i64,
    t: TransferError,
)
    ensures
        withdraw_outcome(f, w, asset, caller, n, now, Err(t)).0 == w,
        withdraw_outcome(f, w, asset, caller, n, now, Err(t)).1 is Err,
{
}

/// A granted withdrawal moves exactly the requested quantity times the
/// reserve's unit scale.
pub proof fn lemma_amount_scaled(
    f: Faucet,
    w: Withdrawer,
    asset: Seq<u8>,
    caller: Seq<u8>,
    n: u64,
    now: i64,
)
    requires
        decide(f, w, asset, caller, n, now) is Ok,
    ensures
        decide(f, w, asset, caller, n, now) == Ok::<int, DenyReason>(n * f.decimals),
        withdraw_outcome(f, w, asset, caller, n, now, Ok(())).1
            == Ok::<int, WithdrawError>(n * f.decimals),
{
}

/// The two steps of a withdrawal make up the whole operation: a refusal by
/// the rules ends it with the record unchanged; a grant followed by the
/// ledger's answer ends it as finishing the withdrawal does, with the record
/// stamped with `now` only when the transfer was made.
pub proof fn lemma_steps_make_outcome(
    f: Faucet,
    w: Withdrawer,
    asset: Seq<u8>,
    caller: Seq<u8>,
    n: u64,
    now: i64,
    ledger: Result<(), TransferError>,
)
    ensures
        decide(f, w, asset, caller, n, now) matches Err(d) ==> withdraw_outcome(
            f,
            w,
            asset,
            caller,
            n,
            now,
            ledger,
        ) == (w, Err::<int, WithdrawError>(WithdrawError::Denied(d))),
        decide(f, w, asset, caller, n, now) matches Ok(amount) ==> withdraw_outcome(
            f,
            w,
            asset,
            caller,
            n,
            now,
            ledger,
        ) == match ledger {
            Ok(()) => (Withdrawer { last_withdraw: now, ..w }, Ok::<int, WithdrawError>(amount)),
            Err(t) => (w, Err::<int, WithdrawError>(WithdrawError::Transfer(t))),
        },
{
}

} // verus!
