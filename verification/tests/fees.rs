use socialprotocol::errors::SocialError;
use socialprotocol::network::Ledger;
use socialprotocol::transfer::{TransferPlan, BANK_CAPACITY};

fn initialized() -> Ledger {
    let mut l = Ledger::new();
    l.setup_spling().unwrap();
    l
}

#[test]
fn create_bank_sets_capacity() {
    let mut l = initialized();
    l.create_bank(9).unwrap();
    let b = l.get_bank().unwrap();
    assert_eq!(b.bank.size, BANK_CAPACITY);
    assert_eq!(b.bank.size, 9900);
    assert_eq!(b.operator, 9);
    assert_eq!(l.create_bank(9), Err(SocialError::AlreadyExists));
}

#[test]
fn reset_bank_restores_capacity() {
    let mut l = initialized();
    assert_eq!(l.reset_bank(), Err(SocialError::NotFound));
    l.create_bank(9).unwrap();
    l.reset_bank().unwrap();
    assert_eq!(l.get_bank().unwrap().bank.size, BANK_CAPACITY);
}

#[test]
fn extract_bank_is_operator_only() {
    let mut l = initialized();
    assert_eq!(l.extract_bank(9, None), Err(SocialError::NotFound));
    l.create_bank(9).unwrap();
    assert_eq!(l.extract_bank(8, Some(5)), Err(SocialError::Unauthorized));
    assert_eq!(l.extract_bank(9, Some(5)), Ok(TransferPlan::Mirrored { amount: 5 }));
    assert_eq!(l.extract_bank(9, None), Ok(TransferPlan::NoTransfer));
}

#[test]
fn well_is_created_once() {
    let mut l = initialized();
    assert!(!l.has_well());
    l.create_b().unwrap();
    assert!(l.has_well());
    assert_eq!(l.create_b(), Err(SocialError::AlreadyExists));
}

#[test]
fn fee_ops_require_registry() {
    let mut l = Ledger::new();
    assert_eq!(l.create_bank(9), Err(SocialError::NotInitialized));
    assert_eq!(l.create_b(), Err(SocialError::NotInitialized));
    assert_eq!(l.reset_bank(), Err(SocialError::NotInitialized));
    assert_eq!(l.extract_bank(9, None), Err(SocialError::NotInitialized));
}
