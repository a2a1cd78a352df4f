use vstd::prelude::*;
use crate::error::{EscrowError, TransferError};

verus! {

/// The six fields of a populated vault.
#[derive(Debug, Clone)]
pub struct VaultRecord<A> {
    pub depositor: A,
    pub beneficiary: A,
    pub asset: A,
    pub amount: i128,
    pub last_ping: u32,
    pub timeout: u32,
}

/// The escrow state: either nothing is held, or one fully populated record.
#[derive(Debug, Clone)]
pub enum Vault<A> {
    Absent,
    Armed(VaultRecord<A>),
}

/// `a + b`, held at `u32::MAX` instead of wrapping.
pub open spec fn saturated_sum(a: u32, b: u32) -> u32 {
    if a + b > u32::MAX {
        u32::MAX
    } else {
        (a + b) as u32
    }
}

impl<A> VaultRecord<A> {
    /// Amount and timeout stay positive for the whole life of a vault.
    pub open spec fn wf(self) -> bool {
        self.amount > 0 && self.timeout > 0
    }

    /// The first counter value at which the vault may be claimed.
    pub open spec fn deadline(self) -> u32 {
        saturated_sum(self.last_ping, self.timeout)
    }

    pub open spec fn spec_expired(self, now: u32) -> bool {
        now >= self.deadline()
    }

    /// Whether the timeout has elapsed since the last ping at counter value `now`.
    pub fn is_expired(&self, now: u32) -> (r: bool)
        ensures
            r == self.spec_expired(now),
    {
        now >= self.last_ping.saturating_add(self.timeout)
    }
}

impl<A> Vault<A> {
    pub open spec fn wf(self) -> bool {
        match self {
            Vault::Absent => true,
            Vault::Armed(rec) => rec.wf(),
        }
    }

    /// Whether a claim at counter value `now` would be let through.
    pub open spec fn claimable(self, now: u32) -> bool {
        match self {
            Vault::Absent => false,
            Vault::Armed(rec) => rec.spec_expired(now),
        }
    }

    /// Which check, if any, refuses a deposit; checked in this order.
    pub open spec fn deposit_check(self, authorized: bool, amount: i128, timeout: u32) -> Result<
        (),
        EscrowError,
    > {
        if !authorized {
            Err(EscrowError::Unauthorized)
        } else if amount <= 0 {
            Err(EscrowError::InvalidAmount)
        } else if timeout == 0 {
            Err(EscrowError::InvalidTimeout)
        } else if self is Armed {
            Err(EscrowError::AlreadyActive)
        } else {
            Ok(())
        }
    }

    /// State and result after a deposit whose inbound transfer had outcome
    /// `transfer`; the transfer is only made when the checks pass.
    pub open spec fn deposit_step(
        self,
        depositor: A,
        asset: A,
        amount: i128,
        beneficiary: A,
        timeout: u32,
        authorized: bool,
        now: u32,
        transfer: Result<(), TransferError>,
    ) -> (Vault<A>, Result<(), EscrowError>) {
        match self.deposit_check(authorized, amount, timeout) {
            Err(e) => (self, Err(e)),
            Ok(()) => match transfer {
                Err(t) => (self, Err(EscrowError::Transfer(t))),
                Ok(()) => (
                    Vault::Armed(
                        VaultRecord {
                            depositor,
                            beneficiary,
                            asset,
                            amount,
                            last_ping: now,
                            timeout,
                        },
                    ),
                    Ok(()),
                ),
            },
        }
    }

    /// State and result after a ping at counter value `now`.
    pub open spec fn ping_step(self, authorized: bool, now: u32) -> (Vault<A>, Result<(), EscrowError>) {
        match self {
            Vault::Absent => (self, Err(EscrowError::NotFound)),
            Vault::Armed(rec) => if !authorized {
                (self, Err(EscrowError::Unauthorized))
            } else {
                (Vault::Armed(VaultRecord { last_ping: now, ..rec }), Ok(()))
            },
        }
    }

    /// Which check, if any, refuses a claim at counter value `now`.
    pub open spec fn claim_check(self, now: u32) -> Result<(), EscrowError> {
        match self {
            Vault::Absent => Err(EscrowError::NotFound),
            Vault::Armed(rec) => if rec.spec_expired(now) {
                Ok(())
            } else {
                Err(EscrowError::NotExpired)
            },
        }
    }

    /// The payout a claim at counter value `now` makes: the whole amount of
    /// the asset, to the beneficiary.
    pub open spec fn claim_payout(self, now: u32) -> Result<(A, A, i128), EscrowError> {
        match self {
            Vault::Absent => Err(EscrowError::NotFound),
            Vault::Armed(rec) => if rec.spec_expired(now) {
                Ok((rec.asset, rec.beneficiary, rec.amount))
            } else {
                Err(EscrowError::NotExpired)
            },
        }
    }

    /// State and result after a claim whose outbound transfer had outcome
    /// `transfer`; the transfer is only made when the check passes.
    pub open spec fn claim_step(self, now: u32, transfer: Result<(), TransferError>) -> (
        Vault<A>,
        Result<(), EscrowError>,
    ) {
        match self.claim_check(now) {
            Err(e) => (self, Err(e)),
            Ok(()) => match transfer {
                Err(t) => (self, Err(EscrowError::Transfer(t))),
                Ok(()) => (Vault::Absent, Ok(())),
            },
        }
    }

    pub open spec fn spec_beneficiary(self) -> Result<A, EscrowError> {
        match self {
            Vault::Absent => Err(EscrowError::NotFound),
            Vault::Armed(rec) => Ok(rec.beneficiary),
        }
    }

    pub open spec fn spec_depositor(self) -> Result<A, EscrowError> {
        match self {
            Vault::Absent => Err(EscrowError::NotFound),
            Vault::Armed(rec) => Ok(rec.depositor),
        }
    }

    pub fn is_armed(&self) -> (r: bool)
        ensures
            r == (*self is Armed),
    {
        match self {
            Vault::Absent => false,
            Vault::Armed(_) => true,
        }
    }
}

} // verus!
