use anchor_lang::prelude::Pubkey;
use p2p_payment::{
    commit, initialize_state, record_address, send_payment, state_address, try_send_payment,
    validate, Account, ErrorCode, Identity, InitializeState, ProgramState, RecordAccount,
    SendPayment, TransactionRecord, MAX_MEMO_LENGTH,
};

fn id(fill: u8) -> Identity {
    Identity { bytes: [fill; 32] }
}

fn system() -> Identity {
    Identity { bytes: [0u8; 32] }
}

fn context(sender_balance: u64, receiver_balance: u64, counter: u64) -> SendPayment {
    SendPayment {
        program_id: id(9),
        sender: Account { key: id(1), lamports: sender_balance, owner: system() },
        receiver: Account { key: id(2), lamports: receiver_balance, owner: system() },
        program_state: ProgramState { total_transactions: counter },
    }
}

fn outside_record_address(program: &Identity, sender: &Identity, counter: u64) -> (Pubkey, u8) {
    Pubkey::find_program_address(
        &[b"transaction", &sender.bytes, &counter.to_le_bytes()],
        &Pubkey::new_from_array(program.bytes),
    )
}

#[test]
fn lunch_payment_moves_value_and_records_it() {
    let mut ctx = context(1000, 0, 0);
    let stored = send_payment(&mut ctx, 300, String::from("lunch"), 1_700_000_000).unwrap();
    assert_eq!(ctx.sender.lamports, 700);
    assert_eq!(ctx.receiver.lamports, 300);
    assert_eq!(ctx.program_state.total_transactions, 1);
    assert_eq!(
        stored.record,
        TransactionRecord {
            sender: id(1),
            receiver: id(2),
            amount: 300,
            timestamp: 1_700_000_000,
            memo: String::from("lunch"),
        }
    );
    let (expected, _) = outside_record_address(&id(9), &id(1), 0);
    assert_eq!(stored.key.bytes, expected.to_bytes());
    assert_ne!(stored.key, id(9));
    assert_ne!(stored.key, id(1));
}

#[test]
fn zero_amount_is_invalid_and_changes_nothing() {
    let mut ctx = context(1000, 0, 4);
    let before = ctx;
    assert_eq!(send_payment(&mut ctx, 0, String::from("x"), 1), Err(ErrorCode::InvalidAmount));
    assert_eq!(ctx, before);
}

#[test]
fn memo_of_201_characters_is_too_long_whatever_the_balances() {
    let memo: String = "m".repeat(201);
    for balance in [0u64, 1, 1000, u64::MAX] {
        let mut ctx = context(balance, 0, 0);
        let before = ctx;
        assert_eq!(send_payment(&mut ctx, 1, memo.clone(), 1), Err(ErrorCode::MemoTooLong));
        assert_eq!(ctx, before);
    }
    assert_eq!(
        validate(&id(1), &id(2), 1, 0, &id(7), &memo),
        Err(ErrorCode::MemoTooLong)
    );
}

#[test]
fn memo_length_counts_characters_not_bytes() {
    let memo: String = "\u{1F600}".repeat(200);
    assert_eq!(memo.len(), 800);
    assert_eq!(validate(&id(1), &id(2), 1, 1, &system(), &memo), Ok(()));
    let memo: String = "\u{1F600}".repeat(201);
    assert_eq!(validate(&id(1), &id(2), 1, 1, &system(), &memo), Err(ErrorCode::MemoTooLong));
    let memo: String = "m".repeat(MAX_MEMO_LENGTH);
    assert_eq!(validate(&id(1), &id(2), 1, 1, &system(), &memo), Ok(()));
}

#[test]
fn each_check_reports_its_own_error() {
    let ok = "ok";
    assert_eq!(validate(&id(1), &id(2), 5, 5, &system(), ok), Ok(()));
    assert_eq!(validate(&id(1), &id(2), 0, 5, &system(), ok), Err(ErrorCode::InvalidAmount));
    assert_eq!(validate(&id(1), &id(1), 5, 5, &system(), ok), Err(ErrorCode::SelfPayment));
    assert_eq!(
        validate(&id(1), &id(2), 5, 5, &system(), &"m".repeat(201)),
        Err(ErrorCode::MemoTooLong)
    );
    assert_eq!(
        validate(&id(1), &id(2), 5, 4, &system(), ok),
        Err(ErrorCode::InsufficientBalance)
    );
    assert_eq!(validate(&id(1), &id(2), 5, 5, &id(3), ok), Err(ErrorCode::InvalidReceiver));
}

#[test]
fn the_first_failing_check_wins() {
    let long = "m".repeat(201);
    assert_eq!(validate(&id(1), &id(1), 0, 0, &id(3), &long), Err(ErrorCode::InvalidAmount));
    assert_eq!(validate(&id(1), &id(1), 5, 0, &id(3), &long), Err(ErrorCode::SelfPayment));
    assert_eq!(validate(&id(1), &id(2), 5, 0, &id(3), &long), Err(ErrorCode::MemoTooLong));
    assert_eq!(
        validate(&id(1), &id(2), 5, 0, &id(3), "ok"),
        Err(ErrorCode::InsufficientBalance)
    );
    let mut ctx = context(1000, 0, 0);
    ctx.receiver.key = ctx.sender.key;
    assert_eq!(send_payment(&mut ctx, 0, String::new(), 1), Err(ErrorCode::InvalidAmount));
}

#[test]
fn receiver_must_be_owned_by_the_system_program() {
    let system_program = Identity { bytes: anchor_lang::system_program::ID.to_bytes() };
    assert_eq!(system_program, system());
    assert_eq!(validate(&id(1), &id(2), 5, 5, &system_program, ""), Ok(()));
    let mut other = system();
    other.bytes[31] = 1;
    assert_eq!(validate(&id(1), &id(2), 5, 5, &other, ""), Err(ErrorCode::InvalidReceiver));
    let mut ctx = context(10, 0, 0);
    ctx.receiver.owner = id(9);
    let before = ctx;
    assert_eq!(send_payment(&mut ctx, 5, String::new(), 1), Err(ErrorCode::InvalidReceiver));
    assert_eq!(ctx, before);
}

#[test]
fn insufficient_balance_changes_nothing() {
    let mut ctx = context(299, 10, 3);
    let before = ctx;
    assert_eq!(
        send_payment(&mut ctx, 300, String::from("lunch"), 1),
        Err(ErrorCode::InsufficientBalance)
    );
    assert_eq!(ctx, before);
}

#[test]
fn full_counter_overflows_and_transfers_nothing() {
    let mut ctx = context(1000, 0, u64::MAX);
    let before = ctx;
    assert_eq!(
        send_payment(&mut ctx, 300, String::from("lunch"), 1),
        Err(ErrorCode::Overflow)
    );
    assert_eq!(ctx, before);
    assert_eq!(
        commit(&mut ctx, 300, String::from("lunch"), 1, id(5)),
        Err(ErrorCode::Overflow)
    );
    assert_eq!(ctx, before);
}

#[test]
fn commit_stores_the_record_at_the_given_address() {
    let mut ctx = context(50, 7, 41);
    let stored = commit(&mut ctx, 50, String::from("all of it"), -3, id(5)).unwrap();
    assert_eq!(
        stored,
        RecordAccount {
            key: id(5),
            record: TransactionRecord {
                sender: id(1),
                receiver: id(2),
                amount: 50,
                timestamp: -3,
                memo: String::from("all of it"),
            },
        }
    );
    assert_eq!(ctx.sender.lamports, 0);
    assert_eq!(ctx.receiver.lamports, 57);
    assert_eq!(ctx.program_state.total_transactions, 42);
    assert_eq!(ctx.program_id, id(9));
}

#[test]
fn consecutive_payments_get_distinct_addresses() {
    let mut ctx = context(1000, 0, 7);
    let first = send_payment(&mut ctx, 1, String::from("a"), 1).unwrap();
    let second = send_payment(&mut ctx, 1, String::from("a"), 1).unwrap();
    assert_ne!(first.key, second.key);
    assert_eq!(ctx.program_state.total_transactions, 9);
    assert_eq!(ctx.sender.lamports, 998);
    assert_eq!(ctx.receiver.lamports, 2);
    assert_eq!(first.key.bytes, outside_record_address(&id(9), &id(1), 7).0.to_bytes());
    assert_eq!(second.key.bytes, outside_record_address(&id(9), &id(1), 8).0.to_bytes());
}

#[test]
fn record_address_follows_the_outside_derivation() {
    for counter in [0u64, 1, 255, 256, u64::MAX] {
        let (expected, bump) = outside_record_address(&id(9), &id(1), counter);
        assert_eq!(
            record_address(&id(9), &id(1), counter),
            Some((Identity { bytes: expected.to_bytes() }, bump))
        );
    }
    assert_ne!(record_address(&id(9), &id(1), 0), record_address(&id(9), &id(3), 0));
    assert_ne!(record_address(&id(9), &id(1), 0), record_address(&id(8), &id(1), 0));
}

#[test]
fn state_address_follows_the_outside_derivation() {
    let (expected, bump) =
        Pubkey::find_program_address(&[b"state"], &Pubkey::new_from_array([9u8; 32]));
    assert_eq!(state_address(&id(9)), Some((Identity { bytes: expected.to_bytes() }, bump)));
    assert_ne!(state_address(&id(9)), state_address(&id(8)));
}

#[test]
fn try_send_payment_commits_where_the_host_can() {
    let mut ctx = context(1000, 0, 0);
    let stored = try_send_payment(&mut ctx, 300, String::from("lunch"), 9).unwrap().unwrap();
    assert_eq!(stored.record.amount, 300);
    assert_eq!(stored.key.bytes, outside_record_address(&id(9), &id(1), 0).0.to_bytes());
    assert_eq!(ctx.sender.lamports, 700);
    assert_eq!(ctx.receiver.lamports, 300);
    assert_eq!(ctx.program_state.total_transactions, 1);
    assert_eq!(
        try_send_payment(&mut ctx, 0, String::new(), 9),
        Some(Err(ErrorCode::InvalidAmount))
    );
}

#[test]
fn try_send_payment_refuses_a_balance_that_cannot_grow() {
    let mut ctx = context(1000, u64::MAX - 299, 0);
    let before = ctx;
    assert_eq!(try_send_payment(&mut ctx, 300, String::from("lunch"), 9), None);
    assert_eq!(ctx, before);
    assert_eq!(
        try_send_payment(&mut ctx, 1001, String::from("lunch"), 9),
        Some(Err(ErrorCode::InsufficientBalance))
    );
    let stored = try_send_payment(&mut ctx, 299, String::from("lunch"), 9).unwrap().unwrap();
    assert_eq!(stored.record.amount, 299);
    assert_eq!(ctx.receiver.lamports, u64::MAX);
}

#[test]
fn initialize_state_creates_the_counter_once() {
    let mut ctx = InitializeState { program_state: None };
    assert_eq!(initialize_state(&mut ctx), Ok(()));
    assert_eq!(ctx.program_state, Some(ProgramState { total_transactions: 0 }));
    assert_eq!(initialize_state(&mut ctx), Err(ErrorCode::AlreadyInitialized));
    assert_eq!(ctx.program_state, Some(ProgramState { total_transactions: 0 }));
    let mut ctx = InitializeState { program_state: Some(ProgramState { total_transactions: 12 }) };
    assert_eq!(initialize_state(&mut ctx), Err(ErrorCode::AlreadyInitialized));
    assert_eq!(ctx.program_state, Some(ProgramState { total_transactions: 12 }));
}

#[test]
fn storage_sizes() {
    assert_eq!(ProgramState::LEN, 16);
    assert_eq!(TransactionRecord::LEN, 892);
    let mut record = TransactionRecord {
        sender: id(1),
        receiver: id(2),
        amount: 1,
        timestamp: 0,
        memo: "\u{1F600}".repeat(200),
    };
    assert!(record.fits_storage());
    record.memo.push('m');
    assert!(!record.fits_storage());
    record.memo = String::new();
    assert!(record.fits_storage());
}

#[test]
fn error_messages() {
    assert_eq!(ErrorCode::MemoTooLong.message(), "Memo cannot be longer than 200 characters.");
    assert_eq!(ErrorCode::Overflow.message(), "Operation overflowed.");
    assert_eq!(ErrorCode::InvalidAmount.message(), "Payment amount must be greater than zero.");
    assert_eq!(
        ErrorCode::SelfPayment.message(),
        "Sender and receiver cannot be the same account."
    );
    assert_eq!(
        ErrorCode::InsufficientBalance.message(),
        "Sender does not have sufficient balance for this transaction."
    );
    assert_eq!(
        ErrorCode::InvalidReceiver.message(),
        "Receiver account is not valid for receiving SOL (must be system-owned)."
    );
    assert_eq!(ErrorCode::AlreadyInitialized.message(), "Program state is already initialized.");
}

#[test]
fn identities_compare_by_their_bytes() {
    let mut other = id(1);
    assert!(id(1) == other);
    other.bytes[31] = 2;
    assert!(id(1) != other);
    other.bytes[31] = 1;
    other.bytes[0] = 0;
    assert!(id(1) != other);
}
