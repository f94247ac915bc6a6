use wallet_ledger::error::Error;
use wallet_ledger::keys::ContentHash;
use wallet_ledger::keys::PublicKey;
use wallet_ledger::ledger::Ledger;
use wallet_ledger::operations::Cancellation;
use wallet_ledger::operations::CreateWallet;
use wallet_ledger::operations::Issue;
use wallet_ledger::operations::MailAcceptance;
use wallet_ledger::operations::MailPreparation;
use wallet_ledger::operations::Operation;
use wallet_ledger::operations::Transfer;
use wallet_ledger::operations::TRANSFER_TAG;
use wallet_ledger::wallet::Wallet;

fn key(n: u8) -> PublicKey {
    PublicKey::new([n; 32])
}

fn hash(n: u8) -> ContentHash {
    ContentHash::new([n; 32])
}

/// A ledger with wallets 1 = "alice" and 2 = "bob", holding the given funds.
fn ledger_with(alice: u64, bob: u64) -> Ledger {
    let mut ledger = Ledger::new();
    let issuer = key(9);
    let open_a = CreateWallet { pub_key: key(1), name: "alice".to_string() };
    let open_b = CreateWallet { pub_key: key(2), name: "bob".to_string() };
    assert_eq!(open_a.execute(&mut ledger, &hash(101)), Ok(()));
    assert_eq!(open_b.execute(&mut ledger, &hash(102)), Ok(()));
    if alice > 0 {
        let mint = Issue { pub_key: key(1), issuer_key: issuer, amount: alice, seed: 0 };
        assert!(mint.fits(&ledger));
        assert_eq!(mint.execute(&mut ledger, &hash(103)), Ok(()));
    }
    if bob > 0 {
        let mint = Issue { pub_key: key(2), issuer_key: issuer, amount: bob, seed: 0 };
        assert!(mint.fits(&ledger));
        assert_eq!(mint.execute(&mut ledger, &hash(104)), Ok(()));
    }
    ledger
}

fn balance(ledger: &Ledger, n: u8) -> u64 {
    ledger.wallet(&key(n)).unwrap().balance()
}

fn frozen(ledger: &Ledger, n: u8) -> u64 {
    ledger.wallet(&key(n)).unwrap().freezed_balance()
}

#[test]
fn transfer_then_reversal_restores_balances() {
    let mut ledger = ledger_with(100, 0);
    let transfer = Transfer { from: key(1), to: key(2), amount: 40, seed: 1 };
    assert!(transfer.verify(true));
    assert_eq!(transfer.execute(&mut ledger, &hash(10)), Ok(()));
    assert_eq!(balance(&ledger, 1), 60);
    assert_eq!(balance(&ledger, 2), 40);

    let reversal = Cancellation {
        pub_key: key(1),
        sender: key(1),
        tx_hash: hash(10),
        type_transaction: TRANSFER_TAG,
    };
    assert!(reversal.verify(true));
    assert!(reversal.well_tagged(&ledger));
    assert_eq!(reversal.execute(&mut ledger, &hash(11)), Ok(()));
    assert_eq!(balance(&ledger, 1), 100);
    assert_eq!(balance(&ledger, 2), 0);
    assert_eq!(ledger.total_value(), Some(100));
}

#[test]
fn issue_credits_existing_receiver() {
    let mut ledger = ledger_with(0, 40);
    let issue = Issue { pub_key: key(2), issuer_key: key(9), amount: 50, seed: 2 };
    assert!(issue.fits(&ledger));
    assert_eq!(issue.execute(&mut ledger, &hash(20)), Ok(()));
    assert_eq!(balance(&ledger, 2), 90);
    assert_eq!(frozen(&ledger, 2), 0);
    assert_eq!(ledger.total_value(), Some(90));
    assert_eq!(ledger.wallet(&key(2)).unwrap().history_hash(), hash(20));
}

#[test]
fn issue_to_missing_receiver_fails() {
    let mut ledger = ledger_with(0, 40);
    let issue = Issue { pub_key: key(7), issuer_key: key(9), amount: 50, seed: 2 };
    assert!(issue.fits(&ledger));
    assert_eq!(issue.execute(&mut ledger, &hash(20)), Err(Error::ReceiverNotFound));
    assert_eq!(balance(&ledger, 2), 40);
    assert_eq!(ledger.total_value(), Some(40));
    assert!(ledger.fetch_operation(&hash(20)).is_none());
}

#[test]
fn issue_must_fit_into_receiver_balance() {
    let ledger = ledger_with(u64::MAX - 5, 0);
    let small = Issue { pub_key: key(1), issuer_key: key(9), amount: 5, seed: 0 };
    let large = Issue { pub_key: key(1), issuer_key: key(9), amount: 6, seed: 0 };
    let nobody = Issue { pub_key: key(7), issuer_key: key(9), amount: u64::MAX, seed: 0 };
    assert!(small.fits(&ledger));
    assert!(!large.fits(&ledger));
    assert!(nobody.fits(&ledger));
    assert!(Operation::Issue(small).executable_on(&ledger));
    assert!(!Operation::Issue(large).executable_on(&ledger));
}

#[test]
fn issue_is_not_limited_by_other_wallets() {
    let mut ledger = ledger_with(40, u64::MAX - 60);
    let issue = Issue { pub_key: key(1), issuer_key: key(9), amount: 50, seed: 2 };
    assert!(issue.fits(&ledger));
    assert_eq!(issue.execute(&mut ledger, &hash(20)), Ok(()));
    assert_eq!(balance(&ledger, 1), 90);
    assert_eq!(balance(&ledger, 2), u64::MAX - 60);
    assert_eq!(ledger.total_value(), None);

    let fill = Issue { pub_key: key(1), issuer_key: key(9), amount: u64::MAX - 90, seed: 3 };
    assert!(fill.fits(&ledger));
    assert_eq!(fill.execute(&mut ledger, &hash(21)), Ok(()));
    assert_eq!(balance(&ledger, 1), u64::MAX);
    let one_more = Issue { pub_key: key(1), issuer_key: key(9), amount: 1, seed: 4 };
    assert!(!one_more.fits(&ledger));
}

#[test]
fn transfer_must_fit_into_receiver_balance() {
    let mut ledger = ledger_with(100, u64::MAX - 5);
    let small = Transfer { from: key(1), to: key(2), amount: 5, seed: 1 };
    let large = Transfer { from: key(1), to: key(2), amount: 6, seed: 1 };
    let overdrawn = Transfer { from: key(1), to: key(2), amount: 101, seed: 1 };
    let to_nobody = Transfer { from: key(1), to: key(7), amount: 6, seed: 1 };
    let from_nobody = Transfer { from: key(7), to: key(2), amount: 6, seed: 1 };
    let to_self = Transfer { from: key(2), to: key(2), amount: 6, seed: 1 };
    assert!(small.fits(&ledger));
    assert!(!large.fits(&ledger));
    assert!(overdrawn.fits(&ledger));
    assert!(to_nobody.fits(&ledger));
    assert!(from_nobody.fits(&ledger));
    assert!(to_self.fits(&ledger));
    assert!(!Operation::Transfer(large).executable_on(&ledger));
    assert_eq!(overdrawn.execute(&mut ledger, &hash(9)), Err(Error::InsufficientCurrencyAmount));
    assert_eq!(to_self.execute(&mut ledger, &hash(10)), Ok(()));
    assert_eq!(balance(&ledger, 2), u64::MAX - 5);
    assert_eq!(small.execute(&mut ledger, &hash(11)), Ok(()));
    assert_eq!(balance(&ledger, 1), 95);
    assert_eq!(balance(&ledger, 2), u64::MAX);
}

#[test]
fn freeze_must_fit_into_frozen_funds() {
    let mut ledger = ledger_with(0, 0);
    let kept = Wallet {
        pub_key: key(3),
        name: "carol".to_string(),
        balance: 10,
        freezed_balance: u64::MAX - 5,
        history_hash: hash(1),
        freeze_tag: 1,
    };
    assert!(ledger.insert_wallet(kept));
    let small = MailPreparation { meta: String::new(), pub_key: key(3), amount: 5, seed: 0 };
    let large = MailPreparation { meta: String::new(), pub_key: key(3), amount: 6, seed: 0 };
    let overdrawn = MailPreparation { meta: String::new(), pub_key: key(3), amount: 11, seed: 0 };
    let nobody = MailPreparation { meta: String::new(), pub_key: key(7), amount: 6, seed: 0 };
    assert!(small.fits(&ledger));
    assert!(!large.fits(&ledger));
    assert!(overdrawn.fits(&ledger));
    assert!(nobody.fits(&ledger));
    assert!(!Operation::MailPreparation(large).executable_on(&ledger));
    assert_eq!(small.execute(&mut ledger, &hash(30)), Ok(()));
    assert_eq!(balance(&ledger, 3), 5);
    assert_eq!(frozen(&ledger, 3), u64::MAX);
    assert_eq!(ledger.total_value(), None);
}

#[test]
fn reversal_must_fit_into_sender_balance() {
    let mut ledger = ledger_with(u64::MAX - 5, 10);
    let paid = Transfer { from: key(1), to: key(2), amount: 6, seed: 1 };
    let owed = Transfer { from: key(1), to: key(2), amount: 5, seed: 1 };
    let spent = Transfer { from: key(1), to: key(2), amount: 11, seed: 1 };
    assert!(!paid.reversal_fits(&ledger));
    assert!(owed.reversal_fits(&ledger));
    assert!(spent.reversal_fits(&ledger));
    ledger.record_operation(hash(70), Operation::Transfer(paid));
    ledger.record_operation(hash(71), Operation::Transfer(owed));
    let first = Cancellation { pub_key: key(1), sender: key(1), tx_hash: hash(70), type_transaction: 1 };
    let second = Cancellation { pub_key: key(1), sender: key(1), tx_hash: hash(71), type_transaction: 1 };
    let unknown = Cancellation { pub_key: key(1), sender: key(1), tx_hash: hash(72), type_transaction: 1 };
    let untyped = Cancellation { pub_key: key(1), sender: key(1), tx_hash: hash(70), type_transaction: 0 };
    assert!(!first.fits(&ledger));
    assert!(second.fits(&ledger));
    assert!(unknown.fits(&ledger));
    assert!(untyped.fits(&ledger));
    assert!(!Operation::Cancellation(first).executable_on(&ledger));
    assert_eq!(second.execute(&mut ledger, &hash(80)), Ok(()));
    assert_eq!(balance(&ledger, 1), u64::MAX);
    assert_eq!(balance(&ledger, 2), 5);
}

#[test]
fn create_wallet_opens_empty_wallet() {
    let mut ledger = Ledger::new();
    assert!(ledger.wallet(&key(1)).is_none());
    let open = CreateWallet { pub_key: key(1), name: "alice".to_string() };
    assert_eq!(open.execute(&mut ledger, &hash(1)), Ok(()));
    let wallet = ledger.wallet(&key(1)).unwrap();
    assert_eq!(wallet.pub_key(), key(1));
    assert_eq!(wallet.name(), "alice");
    assert_eq!(wallet.balance(), 0);
    assert_eq!(wallet.freezed_balance(), 0);
    assert_eq!(wallet.freeze_tag(), 0);
    assert_eq!(wallet.history_hash(), hash(1));
    assert_eq!(ledger.total_value(), Some(0));
}

#[test]
fn create_wallet_twice_fails() {
    let mut ledger = ledger_with(10, 0);
    let again = CreateWallet { pub_key: key(1), name: "mallory".to_string() };
    assert_eq!(again.execute(&mut ledger, &hash(5)), Err(Error::WalletAlreadyExists));
    let wallet = ledger.wallet(&key(1)).unwrap();
    assert_eq!(wallet.name(), "alice");
    assert_eq!(wallet.balance(), 10);
    assert!(ledger.fetch_operation(&hash(5)).is_none());
}

#[test]
fn transfer_from_missing_sender_fails() {
    let mut ledger = ledger_with(100, 0);
    let transfer = Transfer { from: key(7), to: key(2), amount: 1, seed: 1 };
    assert_eq!(transfer.execute(&mut ledger, &hash(10)), Err(Error::SenderNotFound));
    assert_eq!(balance(&ledger, 2), 0);
}

#[test]
fn transfer_to_missing_receiver_fails() {
    let mut ledger = ledger_with(100, 0);
    let transfer = Transfer { from: key(1), to: key(7), amount: 1, seed: 1 };
    assert_eq!(transfer.execute(&mut ledger, &hash(10)), Err(Error::ReceiverNotFound));
    assert_eq!(balance(&ledger, 1), 100);
}

#[test]
fn transfer_with_both_wallets_missing_reports_sender() {
    let mut ledger = Ledger::new();
    let transfer = Transfer { from: key(7), to: key(8), amount: 1, seed: 1 };
    assert_eq!(transfer.execute(&mut ledger, &hash(10)), Err(Error::SenderNotFound));
}

#[test]
fn transfer_beyond_balance_fails_and_changes_nothing() {
    let mut ledger = ledger_with(100, 7);
    let transfer = Transfer { from: key(1), to: key(2), amount: 101, seed: 1 };
    assert_eq!(transfer.execute(&mut ledger, &hash(10)), Err(Error::InsufficientCurrencyAmount));
    assert_eq!(balance(&ledger, 1), 100);
    assert_eq!(balance(&ledger, 2), 7);
    assert_eq!(ledger.wallet(&key(1)).unwrap().history_hash(), hash(103));
    assert!(ledger.fetch_operation(&hash(10)).is_none());
}

#[test]
fn transfer_of_whole_balance_succeeds() {
    let mut ledger = ledger_with(100, 7);
    let transfer = Transfer { from: key(1), to: key(2), amount: 100, seed: 1 };
    assert_eq!(transfer.execute(&mut ledger, &hash(10)), Ok(()));
    assert_eq!(balance(&ledger, 1), 0);
    assert_eq!(balance(&ledger, 2), 107);
    assert_eq!(ledger.wallet(&key(1)).unwrap().history_hash(), hash(10));
    assert_eq!(ledger.wallet(&key(2)).unwrap().history_hash(), hash(10));
    assert_eq!(ledger.total_value(), Some(107));
}

#[test]
fn transfer_to_self_moves_nothing_when_executed() {
    let mut ledger = ledger_with(100, 0);
    let transfer = Transfer { from: key(1), to: key(1), amount: 30, seed: 1 };
    assert!(!transfer.verify(true));
    assert_eq!(transfer.execute(&mut ledger, &hash(10)), Ok(()));
    assert_eq!(balance(&ledger, 1), 100);
    assert_eq!(ledger.total_value(), Some(100));
}

#[test]
fn freeze_moves_funds_into_escrow() {
    let mut ledger = ledger_with(100, 0);
    let freeze = MailPreparation { meta: "parcel".to_string(), pub_key: key(1), amount: 30, seed: 4 };
    assert_eq!(freeze.execute(&mut ledger, &hash(30)), Ok(()));
    assert_eq!(balance(&ledger, 1), 70);
    assert_eq!(frozen(&ledger, 1), 30);
    assert_eq!(ledger.wallet(&key(1)).unwrap().freeze_tag(), 30);
    assert_eq!(ledger.wallet(&key(1)).unwrap().history_hash(), hash(30));
    assert_eq!(ledger.total_value(), Some(100));

    let more = MailPreparation { meta: "letter".to_string(), pub_key: key(1), amount: 20, seed: 5 };
    assert_eq!(more.execute(&mut ledger, &hash(31)), Ok(()));
    assert_eq!(balance(&ledger, 1), 50);
    assert_eq!(frozen(&ledger, 1), 50);
    assert_eq!(ledger.wallet(&key(1)).unwrap().freeze_tag(), 20);
    assert_eq!(ledger.total_value(), Some(100));
}

#[test]
fn freeze_failures() {
    let mut ledger = ledger_with(100, 0);
    let nobody = MailPreparation { meta: String::new(), pub_key: key(7), amount: 1, seed: 0 };
    assert_eq!(nobody.execute(&mut ledger, &hash(30)), Err(Error::SenderNotFound));
    let greedy = MailPreparation { meta: String::new(), pub_key: key(1), amount: 101, seed: 0 };
    assert_eq!(greedy.execute(&mut ledger, &hash(31)), Err(Error::InsufficientCurrencyAmount));
    assert_eq!(balance(&ledger, 1), 100);
    assert_eq!(frozen(&ledger, 1), 0);
}

#[test]
fn frozen_funds_cannot_be_spent() {
    let mut ledger = ledger_with(100, 0);
    let freeze = MailPreparation { meta: String::new(), pub_key: key(1), amount: 80, seed: 0 };
    assert_eq!(freeze.execute(&mut ledger, &hash(30)), Ok(()));
    let transfer = Transfer { from: key(1), to: key(2), amount: 21, seed: 1 };
    assert_eq!(transfer.execute(&mut ledger, &hash(31)), Err(Error::InsufficientCurrencyAmount));
    let transfer = Transfer { from: key(1), to: key(2), amount: 20, seed: 1 };
    assert_eq!(transfer.execute(&mut ledger, &hash(32)), Ok(()));
    assert_eq!(balance(&ledger, 1), 0);
    assert_eq!(frozen(&ledger, 1), 80);
    assert_eq!(ledger.total_value(), Some(100));
}

#[test]
fn release_moves_no_funds() {
    let mut ledger = ledger_with(100, 0);
    let freeze = MailPreparation { meta: String::new(), pub_key: key(1), amount: 30, seed: 0 };
    assert_eq!(freeze.execute(&mut ledger, &hash(30)), Ok(()));
    for accept in [true, false] {
        let release =
            MailAcceptance { sender: key(1), pub_key: key(2), amount: 30, accept, seed: 6 };
        assert!(release.verify(true));
        assert_eq!(release.signer(), key(2));
        let tag = if accept { 40 } else { 41 };
        assert_eq!(release.execute(&mut ledger, &hash(tag)), Ok(()));
        assert_eq!(balance(&ledger, 1), 70);
        assert_eq!(frozen(&ledger, 1), 30);
        assert_eq!(ledger.wallet(&key(1)).unwrap().freeze_tag(), 30);
        assert_eq!(ledger.wallet(&key(1)).unwrap().history_hash(), hash(tag));
        assert_eq!(ledger.total_value(), Some(100));
    }
}

#[test]
fn release_for_missing_wallet_fails() {
    let mut ledger = ledger_with(100, 0);
    let release = MailAcceptance { sender: key(7), pub_key: key(1), amount: 0, accept: true, seed: 6 };
    assert_eq!(release.execute(&mut ledger, &hash(40)), Err(Error::SenderNotFound));
    assert!(ledger.fetch_operation(&hash(40)).is_none());
}

#[test]
fn reversal_of_unknown_hash_fails() {
    let mut ledger = ledger_with(100, 0);
    let reversal = Cancellation {
        pub_key: key(1),
        sender: key(1),
        tx_hash: hash(77),
        type_transaction: TRANSFER_TAG,
    };
    assert!(reversal.well_tagged(&ledger));
    assert_eq!(reversal.execute(&mut ledger, &hash(50)), Err(Error::OperationNotFound));
    let untyped = Cancellation { pub_key: key(1), sender: key(1), tx_hash: hash(77), type_transaction: 0 };
    assert!(untyped.well_tagged(&ledger));
    assert_eq!(untyped.execute(&mut ledger, &hash(51)), Err(Error::OperationNotFound));
    assert_eq!(balance(&ledger, 1), 100);
}

#[test]
fn reversal_after_receiver_spent_fails() {
    let mut ledger = ledger_with(100, 0);
    let transfer = Transfer { from: key(1), to: key(2), amount: 40, seed: 1 };
    assert_eq!(transfer.execute(&mut ledger, &hash(10)), Ok(()));
    let spend = Transfer { from: key(2), to: key(1), amount: 1, seed: 2 };
    assert_eq!(spend.execute(&mut ledger, &hash(11)), Ok(()));
    let reversal = Cancellation {
        pub_key: key(1),
        sender: key(1),
        tx_hash: hash(10),
        type_transaction: TRANSFER_TAG,
    };
    assert!(reversal.well_tagged(&ledger));
    assert_eq!(reversal.execute(&mut ledger, &hash(12)), Err(Error::InsufficientCurrencyAmount));
    assert_eq!(balance(&ledger, 1), 61);
    assert_eq!(balance(&ledger, 2), 39);
    assert!(ledger.fetch_operation(&hash(12)).is_none());
}

#[test]
fn reversal_uses_balances_at_reversal_time() {
    let mut ledger = ledger_with(100, 25);
    let transfer = Transfer { from: key(1), to: key(2), amount: 40, seed: 1 };
    assert_eq!(transfer.execute(&mut ledger, &hash(10)), Ok(()));
    let spend = Transfer { from: key(2), to: key(1), amount: 20, seed: 2 };
    assert_eq!(spend.execute(&mut ledger, &hash(11)), Ok(()));
    let reversal = Cancellation {
        pub_key: key(2),
        sender: key(1),
        tx_hash: hash(10),
        type_transaction: TRANSFER_TAG,
    };
    assert_eq!(reversal.execute(&mut ledger, &hash(12)), Ok(()));
    assert_eq!(balance(&ledger, 1), 120);
    assert_eq!(balance(&ledger, 2), 5);
    assert_eq!(ledger.wallet(&key(1)).unwrap().history_hash(), hash(12));
    assert_eq!(ledger.wallet(&key(2)).unwrap().history_hash(), hash(12));
    assert_eq!(ledger.total_value(), Some(125));
}

#[test]
fn reversal_is_recorded_under_its_own_hash() {
    let mut ledger = ledger_with(100, 0);
    let transfer = Transfer { from: key(1), to: key(2), amount: 40, seed: 1 };
    assert_eq!(transfer.execute(&mut ledger, &hash(10)), Ok(()));
    let reversal = Cancellation {
        pub_key: key(1),
        sender: key(1),
        tx_hash: hash(10),
        type_transaction: TRANSFER_TAG,
    };
    assert_eq!(reversal.execute(&mut ledger, &hash(11)), Ok(()));
    assert!(matches!(ledger.fetch_operation(&hash(10)), Some(Operation::Transfer(_))));
    match ledger.fetch_operation(&hash(11)) {
        Some(Operation::Cancellation(stored)) => {
            assert_eq!(stored.tx_hash, hash(10));
            assert_eq!(stored.type_transaction, TRANSFER_TAG);
            assert_eq!(stored.pub_key, key(1));
        }
        other => panic!("unexpected entry: {:?}", other),
    }
}

#[test]
fn reversal_of_another_kind_changes_no_balance() {
    let mut ledger = ledger_with(100, 0);
    let reversal = Cancellation { pub_key: key(1), sender: key(1), tx_hash: hash(103), type_transaction: 2 };
    assert!(reversal.well_tagged(&ledger));
    assert_eq!(reversal.execute(&mut ledger, &hash(60)), Ok(()));
    assert_eq!(balance(&ledger, 1), 100);
    assert_eq!(ledger.total_value(), Some(100));
    assert!(matches!(ledger.fetch_operation(&hash(60)), Some(Operation::Cancellation(_))));
}

#[test]
fn reversal_with_false_claim_is_not_well_tagged() {
    let ledger = ledger_with(100, 0);
    let reversal = Cancellation {
        pub_key: key(1),
        sender: key(1),
        tx_hash: hash(103),
        type_transaction: TRANSFER_TAG,
    };
    assert!(!reversal.well_tagged(&ledger));
    assert!(!Operation::Cancellation(reversal).executable_on(&ledger));
}

#[test]
fn reversal_when_a_party_is_missing() {
    let mut ledger = ledger_with(100, 0);
    let to_nobody = Transfer { from: key(1), to: key(7), amount: 1, seed: 1 };
    let from_nobody = Transfer { from: key(7), to: key(1), amount: 1, seed: 1 };
    ledger.record_operation(hash(70), Operation::Transfer(to_nobody));
    ledger.record_operation(hash(71), Operation::Transfer(from_nobody));
    let first = Cancellation { pub_key: key(1), sender: key(1), tx_hash: hash(70), type_transaction: 1 };
    let second = Cancellation { pub_key: key(1), sender: key(1), tx_hash: hash(71), type_transaction: 1 };
    assert_eq!(first.execute(&mut ledger, &hash(72)), Err(Error::ReceiverNotFound));
    assert_eq!(second.execute(&mut ledger, &hash(73)), Err(Error::SenderNotFound));
    assert_eq!(balance(&ledger, 1), 100);
}

#[test]
fn dispatch_executes_each_kind() {
    let mut ledger = Ledger::new();
    let steps: Vec<(u8, Operation, Result<(), Error>)> = vec![
        (1, Operation::CreateWallet(CreateWallet { pub_key: key(1), name: "a".to_string() }), Ok(())),
        (2, Operation::CreateWallet(CreateWallet { pub_key: key(2), name: "b".to_string() }), Ok(())),
        (3, Operation::Issue(Issue { pub_key: key(1), issuer_key: key(9), amount: 10, seed: 0 }), Ok(())),
        (4, Operation::Transfer(Transfer { from: key(1), to: key(2), amount: 4, seed: 0 }), Ok(())),
        (
            5,
            Operation::MailPreparation(MailPreparation {
                meta: "m".to_string(),
                pub_key: key(2),
                amount: 3,
                seed: 0,
            }),
            Ok(()),
        ),
        (
            6,
            Operation::MailAcceptance(MailAcceptance {
                sender: key(2),
                pub_key: key(1),
                amount: 3,
                accept: true,
                seed: 0,
            }),
            Ok(()),
        ),
        (
            7,
            Operation::Cancellation(Cancellation {
                pub_key: key(1),
                sender: key(1),
                tx_hash: hash(4),
                type_transaction: TRANSFER_TAG,
            }),
            Err(Error::InsufficientCurrencyAmount),
        ),
        (8, Operation::Transfer(Transfer { from: key(1), to: key(2), amount: 7, seed: 0 }), Err(Error::InsufficientCurrencyAmount)),
    ];
    for (n, operation, expected) in steps {
        assert!(operation.executable_on(&ledger));
        assert_eq!(operation.execute(&mut ledger, &hash(n)), expected);
    }
    assert_eq!(balance(&ledger, 1), 6);
    assert_eq!(balance(&ledger, 2), 1);
    assert_eq!(frozen(&ledger, 2), 3);
    assert_eq!(ledger.total_value(), Some(10));
}

#[test]
fn value_is_conserved_without_issue() {
    let mut ledger = ledger_with(500, 300);
    let before = ledger.total_value();
    assert_eq!(before, Some(800));
    let mut n: u8 = 0;
    for round in 0..20u64 {
        let operations = vec![
            Operation::Transfer(Transfer { from: key(1), to: key(2), amount: 37 * round, seed: round }),
            Operation::MailPreparation(MailPreparation {
                meta: String::new(),
                pub_key: key(2),
                amount: 11 * round,
                seed: round,
            }),
            Operation::MailAcceptance(MailAcceptance {
                sender: key(2),
                pub_key: key(2),
                amount: 5,
                accept: round % 2 == 0,
                seed: round,
            }),
            Operation::Transfer(Transfer { from: key(2), to: key(1), amount: 13 * round, seed: round }),
        ];
        for operation in operations {
            n += 1;
            let _ = operation.execute(&mut ledger, &hash(n));
            assert_eq!(ledger.total_value(), before);
        }
    }
    assert_eq!(
        balance(&ledger, 1) + frozen(&ledger, 1) + balance(&ledger, 2) + frozen(&ledger, 2),
        800
    );
}
