//! Tests of the operations run through the record store, including the
//! singleton lifecycle and multi-operation scenarios.

use cryptolift::CryptoLiftError;
use cryptolift::Ledger;
use cryptolift::LedgerError;
use cryptolift::Pubkey;
use cryptolift::SystemAccount;

fn auth() -> Pubkey {
    Pubkey { id: 1 }
}

fn collector() -> Pubkey {
    Pubkey { id: 2 }
}

fn initialized(fee_amount: u64) -> Ledger {
    let mut l = Ledger::new();
    l.initialize(auth(), fee_amount, collector()).unwrap();
    l
}

fn state(l: &Ledger) -> cryptolift::PlatformState {
    l.platform_state.unwrap()
}

#[test]
fn initialize_is_callable_at_most_once() {
    let mut l = Ledger::new();
    assert!(l.initialize(auth(), 1000, collector()).is_ok());
    assert_eq!(
        l.initialize(auth(), 1000, collector()),
        Err(LedgerError::AlreadyInitialized)
    );
    // A different caller fares no better, and the state keeps its settings.
    assert_eq!(
        l.initialize(Pubkey { id: 9 }, 5, Pubkey { id: 9 }),
        Err(LedgerError::AlreadyInitialized)
    );
    assert_eq!(state(&l).authority, auth());
    assert_eq!(state(&l).fee_amount, 1000);
    assert_eq!(state(&l).fee_collector, collector());
}

#[test]
fn operations_before_initialize_do_not_resolve() {
    let mut l = Ledger::new();
    let mut payer = SystemAccount { key: Pubkey { id: 3 }, lamports: 1000 };
    let mut coll = SystemAccount { key: collector(), lamports: 0 };
    let r = l.create_token(
        Pubkey { id: 3 },
        Pubkey { id: 4 },
        &mut payer,
        &mut coll,
        "Tok".to_string(),
        "TK".to_string(),
        0,
        0,
        1,
    );
    assert_eq!(r, Err(LedgerError::NotInitialized));
    assert_eq!(payer.lamports, 1000);
    assert_eq!(coll.lamports, 0);
    assert_eq!(l.update_fee(auth(), 5), Err(LedgerError::NotInitialized));
    assert_eq!(
        l.update_fee_collector(auth(), Pubkey { id: 9 }),
        Err(LedgerError::NotInitialized)
    );
    let mut auth_acct = SystemAccount { key: auth(), lamports: 0 };
    assert_eq!(
        l.withdraw_fees(&mut auth_acct, &mut coll, 0),
        Err(LedgerError::NotInitialized)
    );
    assert!(l.platform_state.is_none());
    assert_eq!(l.token_records.len(), 0);
}

#[test]
fn scenario_create_then_insufficient_fee() {
    let mut l = initialized(1000);
    let mut coll = SystemAccount { key: collector(), lamports: 0 };

    // A payer holding exactly the fee succeeds.
    let mut payer = SystemAccount { key: Pubkey { id: 3 }, lamports: 1000 };
    let r = l.create_token(
        Pubkey { id: 3 },
        Pubkey { id: 40 },
        &mut payer,
        &mut coll,
        "First".to_string(),
        "ONE".to_string(),
        6,
        500,
        100,
    );
    assert!(r.is_ok());
    assert_eq!(payer.lamports, 0);
    assert_eq!(coll.lamports, 1000);
    assert_eq!(state(&l).total_tokens_created, 1);
    assert_eq!(state(&l).total_fees_collected, 1000);

    // A payer holding less than the fee fails and changes nothing.
    let mut poor = SystemAccount { key: Pubkey { id: 5 }, lamports: 500 };
    let r = l.create_token(
        Pubkey { id: 5 },
        Pubkey { id: 41 },
        &mut poor,
        &mut coll,
        "Second".to_string(),
        "TWO".to_string(),
        6,
        500,
        101,
    );
    assert_eq!(r, Err(LedgerError::Program(CryptoLiftError::InsufficientFee)));
    assert_eq!(poor.lamports, 500);
    assert_eq!(coll.lamports, 1000);
    assert_eq!(state(&l).total_tokens_created, 1);
    assert_eq!(state(&l).total_fees_collected, 1000);
    assert_eq!(l.token_records.len(), 1);
}

#[test]
fn create_token_with_wrong_collector_account_is_refused() {
    let mut l = initialized(100);
    let mut payer = SystemAccount { key: Pubkey { id: 3 }, lamports: 1000 };
    let mut wrong = SystemAccount { key: Pubkey { id: 99 }, lamports: 0 };
    let r = l.create_token(
        Pubkey { id: 3 },
        Pubkey { id: 40 },
        &mut payer,
        &mut wrong,
        "Tok".to_string(),
        "TK".to_string(),
        0,
        0,
        1,
    );
    assert_eq!(r, Err(LedgerError::CollectorMismatch));
    assert_eq!(payer.lamports, 1000);
    assert_eq!(wrong.lamports, 0);
    assert_eq!(state(&l).total_tokens_created, 0);
    assert_eq!(l.token_records.len(), 0);
}

#[test]
fn scenario_update_fee() {
    let mut l = initialized(1000);
    assert!(l.update_fee(auth(), 500).is_ok());
    assert_eq!(state(&l).fee_amount, 500);
    assert_eq!(
        l.update_fee(Pubkey { id: 7 }, 9999),
        Err(LedgerError::Program(CryptoLiftError::Unauthorized))
    );
    assert_eq!(state(&l).fee_amount, 500);
}

#[test]
fn scenario_withdraw_all_then_one_more() {
    let mut l = initialized(1000);
    let mut auth_acct = SystemAccount { key: auth(), lamports: 0 };
    let mut coll = SystemAccount { key: collector(), lamports: 1000 };
    assert!(l.withdraw_fees(&mut auth_acct, &mut coll, 1000).is_ok());
    assert_eq!(coll.lamports, 0);
    assert_eq!(auth_acct.lamports, 1000);
    assert_eq!(
        l.withdraw_fees(&mut auth_acct, &mut coll, 1),
        Err(LedgerError::Program(CryptoLiftError::InsufficientFunds))
    );
    assert_eq!(coll.lamports, 0);
    assert_eq!(auth_acct.lamports, 1000);
}

#[test]
fn withdraw_does_not_touch_historical_counters() {
    let mut l = initialized(100);
    let mut coll = SystemAccount { key: collector(), lamports: 0 };
    let mut payer = SystemAccount { key: Pubkey { id: 3 }, lamports: 100 };
    l.create_token(
        Pubkey { id: 3 },
        Pubkey { id: 40 },
        &mut payer,
        &mut coll,
        "Tok".to_string(),
        "TK".to_string(),
        0,
        0,
        1,
    )
    .unwrap();
    let mut auth_acct = SystemAccount { key: auth(), lamports: 0 };
    assert!(l.withdraw_fees(&mut auth_acct, &mut coll, 100).is_ok());
    assert_eq!(state(&l).total_fees_collected, 100);
    assert_eq!(state(&l).total_tokens_created, 1);
}

#[test]
fn total_fees_is_the_running_sum_across_fee_changes() {
    let mut l = initialized(100);
    let mut coll = SystemAccount { key: collector(), lamports: 0 };

    let mut payer = SystemAccount { key: Pubkey { id: 3 }, lamports: 1000 };
    l.create_token(
        Pubkey { id: 3 },
        Pubkey { id: 40 },
        &mut payer,
        &mut coll,
        "First".to_string(),
        "ONE".to_string(),
        0,
        0,
        1,
    )
    .unwrap();

    // The fee changes between creations, so the total is the running sum
    // of the fee in effect at each call, not fee * count.
    l.update_fee(auth(), 250).unwrap();

    let mut payer2 = SystemAccount { key: Pubkey { id: 4 }, lamports: 1000 };
    l.create_token(
        Pubkey { id: 4 },
        Pubkey { id: 41 },
        &mut payer2,
        &mut coll,
        "Second".to_string(),
        "TWO".to_string(),
        0,
        0,
        2,
    )
    .unwrap();

    assert_eq!(state(&l).total_tokens_created, 2);
    assert_eq!(state(&l).total_fees_collected, 350);
    assert_eq!(coll.lamports, 350);
    assert_eq!(l.token_records.len(), 2);
    assert_eq!(l.token_records[0].token_name, "First");
    assert_eq!(l.token_records[1].token_name, "Second");
    assert_eq!(l.token_records[0].mint, Pubkey { id: 40 });
    assert_eq!(l.token_records[1].mint, Pubkey { id: 41 });
}

#[test]
fn update_fee_collector_redirects_future_fees() {
    let mut l = initialized(100);
    assert!(l.update_fee_collector(auth(), Pubkey { id: 77 }).is_ok());
    assert_eq!(state(&l).fee_collector, Pubkey { id: 77 });

    let mut payer = SystemAccount { key: Pubkey { id: 3 }, lamports: 100 };
    let mut new_coll = SystemAccount { key: Pubkey { id: 77 }, lamports: 0 };
    l.create_token(
        Pubkey { id: 3 },
        Pubkey { id: 40 },
        &mut payer,
        &mut new_coll,
        "Tok".to_string(),
        "TK".to_string(),
        0,
        0,
        1,
    )
    .unwrap();
    assert_eq!(new_coll.lamports, 100);
}
