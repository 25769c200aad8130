//! The validator: an ordered pipeline of checks over a proposed transfer.

use vstd::prelude::*;
use vstd::string::StrSliceExecFns;
use crate::error::ErrorCode;
use crate::identity::{system_program_bytes, system_program_id, Identity};

verus! {

/// The largest number of characters a memo may hold.
pub const MAX_MEMO_LENGTH: usize = 200;

/// The verdict on a proposed transfer: the first check that fails, in the
/// order amount, self-payment, memo length, balance, receiver ownership.
pub open spec fn validate_spec(
    sender: Seq<u8>,
    receiver: Seq<u8>,
    amount: u64,
    sender_balance: u64,
    receiver_owner: Seq<u8>,
    memo: Seq<char>,
) -> Result<(), ErrorCode> {
    if amount == 0 {
        Err(ErrorCode::InvalidAmount)
    } else if sender == receiver {
        Err(ErrorCode::SelfPayment)
    } else if memo.len() > MAX_MEMO_LENGTH {
        Err(ErrorCode::MemoTooLong)
    } else if sender_balance < amount {
        Err(ErrorCode::InsufficientBalance)
    } else if receiver_owner != system_program_bytes() {
        Err(ErrorCode::InvalidReceiver)
    } else {
        Ok(())
    }
}

/// Decides whether a transfer may proceed. It changes nothing; the first
/// failing check determines the error.
pub fn validate(
    sender: &Identity,
    receiver: &Identity,
    amount: u64,
    sender_balance: u64,
    receiver_owner: &Identity,
    memo: &str,
) -> (verdict: Result<(), ErrorCode>)
    ensures
        verdict == validate_spec(
            sender@,
            receiver@,
            amount,
            sender_balance,
            receiver_owner@,
            memo@,
        ),
{
    if amount == 0 {
        return Err(ErrorCode::InvalidAmount);
    }
    if sender == receiver {
        return Err(ErrorCode::SelfPayment);
    }
    if memo.unicode_len() > MAX_MEMO_LENGTH {
        return Err(ErrorCode::MemoTooLong);
    }
    if sender_balance < amount {
        return Err(ErrorCode::InsufficientBalance);
    }
    let system_program = system_program_id();
    if *receiver_owner != system_program {
        return Err(ErrorCode::InvalidReceiver);
    }
    Ok(())
}

/// The first failure wins: each error comes exactly when its own condition
/// fails and every earlier one holds, whatever the later ones would say. A
/// payment is approved exactly when all five hold.
pub proof fn lemma_first_failure_wins(
    sender: Seq<u8>,
    receiver: Seq<u8>,
    amount: u64,
    sender_balance: u64,
    receiver_owner: Seq<u8>,
    memo: Seq<char>,
)
    ensures
        ({
            let verdict = validate_spec(
                sender,
                receiver,
                amount,
                sender_balance,
                receiver_owner,
                memo,
            );
            let amount_ok = amount > 0;
            let parties_ok = sender != receiver;
            let memo_ok = memo.len() <= MAX_MEMO_LENGTH;
            let balance_ok = sender_balance >= amount;
            let receiver_ok = receiver_owner == system_program_bytes();
            &&& verdict == Err::<(), ErrorCode>(ErrorCode::InvalidAmount) <==> !amount_ok
            &&& verdict == Err::<(), ErrorCode>(ErrorCode::SelfPayment) <==> amount_ok
                && !parties_ok
            &&& verdict == Err::<(), ErrorCode>(ErrorCode::MemoTooLong) <==> amount_ok
                && parties_ok && !memo_ok
            &&& verdict == Err::<(), ErrorCode>(ErrorCode::InsufficientBalance) <==> amount_ok
                && parties_ok && memo_ok && !balance_ok
            &&& verdict == Err::<(), ErrorCode>(ErrorCode::InvalidReceiver) <==> amount_ok
                && parties_ok && memo_ok && balance_ok && !receiver_ok
            &&& verdict is Ok <==> amount_ok && parties_ok && memo_ok && balance_ok && receiver_ok
            &&& verdict != Err::<(), ErrorCode>(ErrorCode::Overflow)
            &&& verdict != Err::<(), ErrorCode>(ErrorCode::AlreadyInitialized)
        }),
{
}

} // verus!
