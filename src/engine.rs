use vstd::prelude::*;
use crate::error::{EscrowError, TransferError};
use crate::vault::{Vault, VaultRecord};

verus! {

/// The escrow engine for one vault.
///
/// Each operation takes what the host observed (the counter value now,
/// whether the caller proved to act as the depositor, how a transfer went)
/// and returns the decision. Where an operation moves funds it comes in two
/// calls: `prepare_*` says whether the transfer may be made, the host makes
/// it, and the operation itself is then called with the transfer's outcome.
pub struct Inheritance<A> {
    vault: Vault<A>,
}

/// An outbound transfer that a claim asks the host to make: `amount` units
/// of `asset` from the engine's custody to `recipient`.
pub struct Payout<'a, A> {
    pub asset: &'a A,
    pub recipient: &'a A,
    pub amount: i128,
}

/// No slot holds a value.
pub open spec fn slots_empty<A>(
    depositor: &Option<A>,
    beneficiary: &Option<A>,
    asset: &Option<A>,
    amount: Option<i128>,
    last_ping: Option<u32>,
    timeout: Option<u32>,
) -> bool {
    depositor is None && beneficiary is None && asset is None && amount is None && last_ping is None
        && timeout is None
}

/// Every slot holds a value, and amount and timeout are positive.
pub open spec fn slots_valid<A>(
    depositor: &Option<A>,
    beneficiary: &Option<A>,
    asset: &Option<A>,
    amount: Option<i128>,
    last_ping: Option<u32>,
    timeout: Option<u32>,
) -> bool {
    &&& depositor is Some && beneficiary is Some && asset is Some
    &&& amount matches Some(a) && a > 0
    &&& last_ping is Some
    &&& timeout matches Some(t) && t > 0
}

impl<A> View for Inheritance<A> {
    type V = Vault<A>;

    closed spec fn view(&self) -> Vault<A> {
        self.vault
    }
}

impl<A> Inheritance<A> {
    pub open spec fn wf(&self) -> bool {
        self@.wf()
    }

    /// An engine whose vault is absent.
    pub fn new() -> (r: Self)
        ensures
            r@ == Vault::<A>::Absent,
            r.wf(),
    {
        Inheritance { vault: Vault::Absent }
    }

    /// Rebuilds the engine from the six stored slots. A vault is populated
    /// only when every slot holds a value; no slot at all means absent. Any
    /// other mix, or a non-positive amount or timeout, is no state the engine
    /// can be in, and gives `None`.
    pub fn from_slots(
        depositor: Option<A>,
        beneficiary: Option<A>,
        asset: Option<A>,
        amount: Option<i128>,
        last_ping: Option<u32>,
        timeout: Option<u32>,
    ) -> (r: Option<Self>)
        ensures
            r matches Some(e) ==> e.wf(),
            r is Some <==> (slots_empty(&depositor, &beneficiary, &asset, amount, last_ping, timeout)
                || slots_valid(&depositor, &beneficiary, &asset, amount, last_ping, timeout)),
            slots_empty(&depositor, &beneficiary, &asset, amount, last_ping, timeout) ==> (r is Some
                && r->Some_0@ is Absent),
            slots_valid(&depositor, &beneficiary, &asset, amount, last_ping, timeout) ==> (r is Some
                && r->Some_0@ == Vault::Armed(
                (VaultRecord {
                    depositor: depositor->Some_0,
                    beneficiary: beneficiary->Some_0,
                    asset: asset->Some_0,
                    amount: amount->Some_0,
                    last_ping: last_ping->Some_0,
                    timeout: timeout->Some_0,
                }),
            )),
    {
        match (depositor, beneficiary, asset, amount, last_ping, timeout) {
            (None, None, None, None, None, None) => Some(Inheritance { vault: Vault::Absent }),
            (
                Some(depositor),
                Some(beneficiary),
                Some(asset),
                Some(amount),
                Some(last_ping),
                Some(timeout),
            ) => {
                if amount > 0 && timeout > 0 {
                    Some(
                        Inheritance {
                            vault: Vault::Armed(
                                VaultRecord {
                                    depositor,
                                    beneficiary,
                                    asset,
                                    amount,
                                    last_ping,
                                    timeout,
                                },
                            ),
                        },
                    )
                } else {
                    None
                }
            },
            _ => None,
        }
    }

    /// The current state, for the host to persist.
    pub fn vault(&self) -> (r: &Vault<A>)
        ensures
            *r == self@,
    {
        &self.vault
    }

    /// Decides whether a deposit may go ahead. On `Ok` the host pulls
    /// `amount` of the asset from the depositor into custody and then calls
    /// `deposit` with the outcome.
    pub fn prepare_deposit(&self, authorized: bool, amount: i128, timeout: u32) -> (r: Result<
        (),
        EscrowError,
    >)
        ensures
            r == self@.deposit_check(authorized, amount, timeout),
    {
        if !authorized {
            Err(EscrowError::Unauthorized)
        } else if amount <= 0 {
            Err(EscrowError::InvalidAmount)
        } else if timeout == 0 {
            Err(EscrowError::InvalidTimeout)
        } else if self.vault.is_armed() {
            Err(EscrowError::AlreadyActive)
        } else {
            Ok(())
        }
    }

    /// Populates an absent vault once the inbound transfer has gone through,
    /// with the last ping at `now`. A refused check or a failed transfer
    /// leaves the state as it was.
    pub fn deposit(
        &mut self,
        depositor: A,
        asset: A,
        amount: i128,
        beneficiary: A,
        timeout: u32,
        authorized: bool,
        now: u32,
        transfer: Result<(), TransferError>,
    ) -> (r: Result<(), EscrowError>)
        requires
            old(self).wf(),
        ensures
            final(self).wf(),
            (final(self)@, r) == old(self)@.deposit_step(
                depositor,
                asset,
                amount,
                beneficiary,
                timeout,
                authorized,
                now,
                transfer,
            ),
    {
        match self.prepare_deposit(authorized, amount, timeout) {
            Err(e) => {
                return Err(e);
            },
            Ok(()) => {},
        }
        match transfer {
            Err(t) => Err(EscrowError::Transfer(t)),
            Ok(()) => {
                self.vault = Vault::Armed(
                    VaultRecord { depositor, beneficiary, asset, amount, last_ping: now, timeout },
                );
                Ok(())
            },
        }
    }

    /// The depositor, whose authorization a ping needs.
    pub fn depositor(&self) -> (r: Result<&A, EscrowError>)
        ensures
            match self@.spec_depositor() {
                Ok(d) => r matches Ok(x) && *x == d,
                Err(e) => r == Err::<&A, EscrowError>(e),
            },
    {
        match &self.vault {
            Vault::Absent => Err(EscrowError::NotFound),
            Vault::Armed(rec) => Ok(&rec.depositor),
        }
    }

    /// Liveness signal: moves the last ping to `now` and changes nothing else.
    pub fn ping(&mut self, authorized: bool, now: u32) -> (r: Result<(), EscrowError>)
        requires
            old(self).wf(),
        ensures
            final(self).wf(),
            (final(self)@, r) == old(self)@.ping_step(authorized, now),
    {
        match &mut self.vault {
            Vault::Absent => Err(EscrowError::NotFound),
            Vault::Armed(rec) => {
                if !authorized {
                    Err(EscrowError::Unauthorized)
                } else {
                    rec.last_ping = now;
                    Ok(())
                }
            },
        }
    }

    /// Decides whether a claim at `now` may go ahead. On `Ok` the host makes
    /// the returned payout and then calls `claim` with the outcome.
    pub fn prepare_claim(&self, now: u32) -> (r: Result<Payout<'_, A>, EscrowError>)
        ensures
            match self@.claim_payout(now) {
                Ok((asset, recipient, amount)) => r matches Ok(p) && *p.asset == asset && *p.recipient
                    == recipient && p.amount == amount,
                Err(e) => r matches Err(x) && x == e,
            },
    {
        match &self.vault {
            Vault::Absent => Err(EscrowError::NotFound),
            Vault::Armed(rec) => {
                if rec.is_expired(now) {
                    Ok(Payout { asset: &rec.asset, recipient: &rec.beneficiary, amount: rec.amount })
                } else {
                    Err(EscrowError::NotExpired)
                }
            },
        }
    }

    /// Returns the vault to absent once the payout has gone through. A
    /// refused check or a failed transfer leaves the state as it was, so the
    /// claim can be retried. Open to any caller.
    pub fn claim(&mut self, now: u32, transfer: Result<(), TransferError>) -> (r: Result<
        (),
        EscrowError,
    >)
        requires
            old(self).wf(),
        ensures
            final(self).wf(),
            (final(self)@, r) == old(self)@.claim_step(now, transfer),
    {
        match self.prepare_claim(now) {
            Err(e) => {
                return Err(e);
            },
            Ok(_) => {},
        }
        match transfer {
            Err(t) => Err(EscrowError::Transfer(t)),
            Ok(()) => {
                self.vault = Vault::Absent;
                Ok(())
            },
        }
    }

    /// Whether a claim at `now` would be let through; `false` when absent.
    pub fn can_claim(&self, now: u32) -> (r: bool)
        ensures
            r == self@.claimable(now),
    {
        match &self.vault {
            Vault::Absent => false,
            Vault::Armed(rec) => rec.is_expired(now),
        }
    }

    /// The beneficiary named at deposit.
    pub fn beneficiary(&self) -> (r: Result<&A, EscrowError>)
        ensures
            match self@.spec_beneficiary() {
                Ok(b) => r matches Ok(x) && *x == b,
                Err(e) => r == Err::<&A, EscrowError>(e),
            },
    {
        match &self.vault {
            Vault::Absent => Err(EscrowError::NotFound),
            Vault::Armed(rec) => Ok(&rec.beneficiary),
        }
    }
}

} // verus!
