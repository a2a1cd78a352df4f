//! Properties of the escrow's transitions, stated over the spec functions
//! that the engine's operations are proved against.
use vstd::prelude::*;
use crate::error::{EscrowError, TransferError};
use crate::vault::{Vault, VaultRecord};

verus! {

/// Right after a successful deposit, at the same counter value, the vault
/// cannot be claimed. (At `u32::MAX` the saturated deadline is reached at
/// once, so that counter value is left out.)
pub proof fn deposit_then_not_claimable<A>(
    v: Vault<A>,
    depositor: A,
    asset: A,
    amount: i128,
    beneficiary: A,
    timeout: u32,
    now: u32,
)
    requires
        v.deposit_step(depositor, asset, amount, beneficiary, timeout, true, now, Ok(())).1 is Ok,
        now < u32::MAX,
    ensures
        !v.deposit_step(depositor, asset, amount, beneficiary, timeout, true, now, Ok(())).0.claimable(
            now,
        ),
{
}

/// A deposit with a non-positive amount fails with `InvalidAmount` and
/// leaves an absent vault absent.
pub proof fn deposit_rejects_amount<A>(
    depositor: A,
    asset: A,
    amount: i128,
    beneficiary: A,
    timeout: u32,
    now: u32,
    transfer: Result<(), TransferError>,
)
    requires
        amount <= 0,
    ensures
        Vault::<A>::Absent.deposit_step(depositor, asset, amount, beneficiary, timeout, true, now, transfer)
            == (Vault::<A>::Absent, Err::<(), EscrowError>(EscrowError::InvalidAmount)),
{
}

/// A deposit with a zero timeout fails with `InvalidTimeout` and leaves an
/// absent vault absent.
pub proof fn deposit_rejects_timeout<A>(
    depositor: A,
    asset: A,
    amount: i128,
    beneficiary: A,
    now: u32,
    transfer: Result<(), TransferError>,
)
    requires
        amount > 0,
    ensures
        Vault::<A>::Absent.deposit_step(depositor, asset, amount, beneficiary, 0, true, now, transfer)
            == (Vault::<A>::Absent, Err::<(), EscrowError>(EscrowError::InvalidTimeout)),
{
}

/// A second deposit onto a populated vault fails with `AlreadyActive` and
/// leaves every field as it was.
pub proof fn deposit_refuses_armed<A>(
    rec: VaultRecord<A>,
    depositor: A,
    asset: A,
    amount: i128,
    beneficiary: A,
    timeout: u32,
    now: u32,
    transfer: Result<(), TransferError>,
)
    requires
        amount > 0,
        timeout > 0,
    ensures
        Vault::Armed(rec).deposit_step(depositor, asset, amount, beneficiary, timeout, true, now, transfer)
            == (Vault::Armed(rec), Err::<(), EscrowError>(EscrowError::AlreadyActive)),
{
}

/// A ping from a caller that cannot act as the depositor fails with
/// `Unauthorized` and leaves the last ping where it was.
pub proof fn ping_refuses_stranger<A>(rec: VaultRecord<A>, now: u32)
    ensures
        Vault::Armed(rec).ping_step(false, now) == (
            Vault::Armed(rec),
            Err::<(), EscrowError>(EscrowError::Unauthorized),
        ),
{
}

/// A ping leaves the vault populated with every field but the last ping as
/// it was; with a clock that does not run backwards the last ping never
/// decreases.
pub proof fn ping_changes_only_last_ping<A>(rec: VaultRecord<A>, authorized: bool, now: u32)
    requires
        rec.last_ping <= now,
    ensures
        Vault::Armed(rec).ping_step(authorized, now).0 matches Vault::Armed(r) && r.depositor
            == rec.depositor && r.beneficiary == rec.beneficiary && r.asset == rec.asset && r.amount
            == rec.amount && r.timeout == rec.timeout && r.last_ping >= rec.last_ping,
{
}

/// After a deposit at `t0` with timeout `k` and no ping, a claim is refused
/// at every counter value below `t0 + k` and let through from `t0 + k` on.
/// (Where `t0 + k` passes `u32::MAX` the deadline saturates, so `u32::MAX`
/// itself is left out of the first half.)
pub proof fn expiry_after_deposit<A>(
    v: Vault<A>,
    depositor: A,
    asset: A,
    amount: i128,
    beneficiary: A,
    k: u32,
    t0: u32,
    t: u32,
)
    requires
        v.deposit_step(depositor, asset, amount, beneficiary, k, true, t0, Ok(())).1 is Ok,
    ensures
        t < t0 + k && t < u32::MAX ==> !v.deposit_step(
            depositor,
            asset,
            amount,
            beneficiary,
            k,
            true,
            t0,
            Ok(()),
        ).0.claimable(t),
        t >= t0 + k ==> v.deposit_step(
            depositor,
            asset,
            amount,
            beneficiary,
            k,
            true,
            t0,
            Ok(()),
        ).0.claimable(t),
{
}

/// A ping at `t1` moves the deadline to `t1 + timeout`: a claim is refused
/// at every counter value below it and let through from it on. (As above,
/// `u32::MAX` is left out of the first half.)
pub proof fn ping_moves_deadline<A>(rec: VaultRecord<A>, t1: u32, t: u32)
    requires
        rec.last_ping <= t1 < rec.last_ping + rec.timeout,
    ensures
        t < t1 + rec.timeout && t < u32::MAX ==> !Vault::Armed(rec).ping_step(true, t1).0.claimable(t),
        t >= t1 + rec.timeout ==> Vault::Armed(rec).ping_step(true, t1).0.claimable(t),
{
}

/// A claim before expiry fails with `NotExpired`, makes no payout, and
/// leaves the vault as it was.
pub proof fn claim_refused_before_expiry<A>(
    rec: VaultRecord<A>,
    now: u32,
    transfer: Result<(), TransferError>,
)
    requires
        !rec.spec_expired(now),
    ensures
        Vault::Armed(rec).claim_payout(now) == Err::<(A, A, i128), EscrowError>(
            EscrowError::NotExpired,
        ),
        Vault::Armed(rec).claim_step(now, transfer) == (
            Vault::Armed(rec),
            Err::<(), EscrowError>(EscrowError::NotExpired),
        ),
{
}

/// A claim at or after expiry pays the record's whole amount of its asset
/// to its beneficiary, empties the vault once the
/// transfer has gone through, and a second claim then fails with `NotFound`.
pub proof fn claim_succeeds_once<A>(
    rec: VaultRecord<A>,
    now: u32,
    later: u32,
    transfer: Result<(), TransferError>,
)
    requires
        rec.spec_expired(now),
    ensures
        Vault::Armed(rec).claim_payout(now) == Ok::<(A, A, i128), EscrowError>(
            (rec.asset, rec.beneficiary, rec.amount),
        ),
        Vault::Armed(rec).claim_step(now, Ok(())) == (Vault::<A>::Absent, Ok::<(), EscrowError>(())),
        Vault::<A>::Absent.claim_step(later, transfer) == (
            Vault::<A>::Absent,
            Err::<(), EscrowError>(EscrowError::NotFound),
        ),
{
}

/// After a successful claim, a fresh valid deposit succeeds and the vault
/// holds exactly the new values, with nothing left from the earlier cycle.
pub proof fn deposit_after_claim<A>(
    rec: VaultRecord<A>,
    now: u32,
    depositor: A,
    asset: A,
    amount: i128,
    beneficiary: A,
    timeout: u32,
    later: u32,
)
    requires
        Vault::Armed(rec).claim_step(now, Ok(())).1 is Ok,
        amount > 0,
        timeout > 0,
    ensures
        Vault::Armed(rec).claim_step(now, Ok(())).0.deposit_step(
            depositor,
            asset,
            amount,
            beneficiary,
            timeout,
            true,
            later,
            Ok(()),
        ) == (
            Vault::Armed(
                (VaultRecord { depositor, beneficiary, asset, amount, last_ping: later, timeout }),
            ),
            Ok::<(), EscrowError>(()),
        ),
{
}

/// An absent vault has no beneficiary; a deposited one has exactly the
/// beneficiary named at deposit.
pub proof fn beneficiary_is_deposited<A>(
    v: Vault<A>,
    depositor: A,
    asset: A,
    amount: i128,
    beneficiary: A,
    timeout: u32,
    now: u32,
)
    requires
        v.deposit_step(depositor, asset, amount, beneficiary, timeout, true, now, Ok(())).1 is Ok,
    ensures
        Vault::<A>::Absent.spec_beneficiary() == Err::<A, EscrowError>(EscrowError::NotFound),
        v.deposit_step(
            depositor,
            asset,
            amount,
            beneficiary,
            timeout,
            true,
            now,
            Ok(()),
        ).0.spec_beneficiary() == Ok::<A, EscrowError>(beneficiary),
{
}

} // verus!
