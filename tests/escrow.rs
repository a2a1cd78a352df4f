use inheritance::{EscrowError, Inheritance, TransferError, Vault};

const ALICE: &str = "alice";
const BOB: &str = "bob";
const TOKEN: &str = "token";

fn armed(amount: i128, timeout: u32, now: u32) -> Inheritance<&'static str> {
    let mut e = Inheritance::new();
    assert_eq!(e.prepare_deposit(true, amount, timeout), Ok(()));
    assert_eq!(e.deposit(ALICE, TOKEN, amount, BOB, timeout, true, now, Ok(())), Ok(()));
    e
}

#[test]
fn test_can_claim_and_beneficiary() {
    let e: Inheritance<&'static str> = Inheritance::new();
    // Without deposit, can_claim is false
    let can = e.can_claim(0);
    assert!(!can);
}

#[test]
fn scenario_deposit_wait_claim() {
    let mut e = armed(100, 10, 5);
    assert!(!e.can_claim(5));
    assert!(!e.can_claim(14));
    assert!(e.can_claim(15));
    {
        let p = e.prepare_claim(15).unwrap();
        assert_eq!(*p.recipient, BOB);
        assert_eq!(*p.asset, TOKEN);
        assert_eq!(p.amount, 100);
    }
    assert_eq!(e.claim(15, Ok(())), Ok(()));
    assert!(matches!(e.vault(), Vault::Absent));
    assert_eq!(e.claim(15, Ok(())), Err(EscrowError::NotFound));
}

#[test]
fn not_claimable_right_after_deposit() {
    let e = armed(1, 1, 1000);
    assert!(!e.can_claim(1000));
    assert!(e.can_claim(1001));
}

#[test]
fn deposit_rejects_non_positive_amount() {
    let mut e: Inheritance<&'static str> = Inheritance::new();
    assert_eq!(e.prepare_deposit(true, 0, 10), Err(EscrowError::InvalidAmount));
    assert_eq!(e.deposit(ALICE, TOKEN, 0, BOB, 10, true, 1, Ok(())), Err(EscrowError::InvalidAmount));
    assert_eq!(e.deposit(ALICE, TOKEN, -5, BOB, 10, true, 1, Ok(())), Err(EscrowError::InvalidAmount));
    assert!(matches!(e.vault(), Vault::Absent));
}

#[test]
fn deposit_rejects_zero_timeout() {
    let mut e: Inheritance<&'static str> = Inheritance::new();
    assert_eq!(e.prepare_deposit(true, 100, 0), Err(EscrowError::InvalidTimeout));
    assert_eq!(e.deposit(ALICE, TOKEN, 100, BOB, 0, true, 1, Ok(())), Err(EscrowError::InvalidTimeout));
    assert!(matches!(e.vault(), Vault::Absent));
}

#[test]
fn deposit_requires_authorization() {
    let mut e: Inheritance<&'static str> = Inheritance::new();
    assert_eq!(e.prepare_deposit(false, 100, 10), Err(EscrowError::Unauthorized));
    assert_eq!(e.deposit(ALICE, TOKEN, 100, BOB, 10, false, 1, Ok(())), Err(EscrowError::Unauthorized));
    assert!(matches!(e.vault(), Vault::Absent));
}

#[test]
fn deposit_failed_transfer_leaves_absent() {
    let mut e: Inheritance<&'static str> = Inheritance::new();
    let t = TransferError { code: 10 };
    assert_eq!(e.deposit(ALICE, TOKEN, 100, BOB, 10, true, 1, Err(t)), Err(EscrowError::Transfer(t)));
    assert!(matches!(e.vault(), Vault::Absent));
}

#[test]
fn second_deposit_already_active() {
    let mut e = armed(100, 10, 5);
    assert_eq!(e.prepare_deposit(true, 7, 3), Err(EscrowError::AlreadyActive));
    assert_eq!(e.deposit("carol", "other", 7, "dave", 3, true, 6, Ok(())), Err(EscrowError::AlreadyActive));
    match e.vault() {
        Vault::Armed(r) => {
            assert_eq!(r.depositor, ALICE);
            assert_eq!(r.beneficiary, BOB);
            assert_eq!(r.asset, TOKEN);
            assert_eq!(r.amount, 100);
            assert_eq!(r.last_ping, 5);
            assert_eq!(r.timeout, 10);
        }
        Vault::Absent => panic!("vault should stay populated"),
    }
}

#[test]
fn ping_by_stranger_unauthorized() {
    let mut e = armed(100, 10, 5);
    assert_eq!(e.ping(false, 8), Err(EscrowError::Unauthorized));
    match e.vault() {
        Vault::Armed(r) => assert_eq!(r.last_ping, 5),
        Vault::Absent => panic!("vault should stay populated"),
    }
}

#[test]
fn ping_on_absent_not_found() {
    let mut e: Inheritance<&'static str> = Inheritance::new();
    assert_eq!(e.ping(true, 8), Err(EscrowError::NotFound));
    assert_eq!(e.depositor(), Err(EscrowError::NotFound));
}

#[test]
fn ping_moves_deadline() {
    let mut e = armed(100, 10, 5);
    assert_eq!(e.depositor(), Ok(&ALICE));
    assert_eq!(e.ping(true, 12), Ok(()));
    assert!(!e.can_claim(15));
    assert!(!e.can_claim(21));
    assert!(e.can_claim(22));
    assert_eq!(e.claim(21, Ok(())), Err(EscrowError::NotExpired));
}

#[test]
fn claim_before_expiry_not_expired() {
    let mut e = armed(100, 10, 5);
    assert!(matches!(e.prepare_claim(14), Err(EscrowError::NotExpired)));
    assert_eq!(e.claim(14, Ok(())), Err(EscrowError::NotExpired));
    assert!(e.can_claim(15));
    assert_eq!(e.beneficiary(), Ok(&BOB));
}

#[test]
fn claim_failed_transfer_is_retryable() {
    let mut e = armed(100, 10, 5);
    let t = TransferError { code: 3 };
    assert_eq!(e.claim(20, Err(t)), Err(EscrowError::Transfer(t)));
    assert!(e.can_claim(20));
    assert_eq!(e.claim(20, Ok(())), Ok(()));
    assert!(!e.can_claim(20));
}

#[test]
fn deposit_after_claim_fresh_values() {
    let mut e = armed(100, 10, 5);
    assert_eq!(e.claim(30, Ok(())), Ok(()));
    assert_eq!(e.deposit("carol", "other", 7, "dave", 3, true, 40, Ok(())), Ok(()));
    match e.vault() {
        Vault::Armed(r) => {
            assert_eq!(r.depositor, "carol");
            assert_eq!(r.beneficiary, "dave");
            assert_eq!(r.asset, "other");
            assert_eq!(r.amount, 7);
            assert_eq!(r.last_ping, 40);
            assert_eq!(r.timeout, 3);
        }
        Vault::Absent => panic!("vault should be populated"),
    }
    assert!(!e.can_claim(42));
    assert!(e.can_claim(43));
}

#[test]
fn beneficiary_absent_and_present() {
    let e: Inheritance<&'static str> = Inheritance::new();
    assert_eq!(e.beneficiary(), Err(EscrowError::NotFound));
    let e = armed(100, 10, 5);
    assert_eq!(e.beneficiary(), Ok(&BOB));
}

#[test]
fn deadline_saturates_at_max() {
    let e = armed(100, u32::MAX, 10);
    assert!(!e.can_claim(u32::MAX - 1));
    assert!(e.can_claim(u32::MAX));
    let e = armed(100, 1, u32::MAX);
    assert!(e.can_claim(u32::MAX));
}

#[test]
fn from_slots_all_or_nothing() {
    let e = Inheritance::<&'static str>::from_slots(None, None, None, None, None, None).unwrap();
    assert!(matches!(e.vault(), Vault::Absent));
    let e = Inheritance::from_slots(Some(ALICE), Some(BOB), Some(TOKEN), Some(100), Some(5), Some(10)).unwrap();
    assert_eq!(e.beneficiary(), Ok(&BOB));
    assert!(e.can_claim(15));
    assert!(Inheritance::from_slots(Some(ALICE), None, Some(TOKEN), Some(100), Some(5), Some(10)).is_none());
    assert!(Inheritance::from_slots(Some(ALICE), Some(BOB), Some(TOKEN), Some(0), Some(5), Some(10)).is_none());
    assert!(Inheritance::from_slots(Some(ALICE), Some(BOB), Some(TOKEN), Some(100), Some(5), Some(0)).is_none());
}

#[test]
fn error_codes() {
    assert_eq!(EscrowError::InvalidAmount.code(), 1);
    assert_eq!(EscrowError::InvalidTimeout.code(), 2);
    assert_eq!(EscrowError::NotFound.code(), 3);
    assert_eq!(EscrowError::NotExpired.code(), 4);
    assert_eq!(EscrowError::AlreadyActive.code(), 5);
    assert_eq!(EscrowError::Unauthorized.code(), 6);
    assert_eq!(EscrowError::Transfer(TransferError { code: 9 }).code(), 7);
}
