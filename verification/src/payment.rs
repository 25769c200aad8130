//! The ledger writer and the two entry points: sending a payment and
//! creating the counter.

use vstd::prelude::*;
use crate::address::{record_address, record_address_spec};
use crate::error::ErrorCode;
use crate::identity::{system_program_bytes, Identity};
use crate::state::{ProgramState, TransactionRecord, TransactionRecordView};
use crate::validator::{validate, validate_spec, MAX_MEMO_LENGTH};

verus! {

/// A balance-holding account as the host presents it: its identity, its
/// balance in value units, and the authority that owns it.
#[derive(Clone, Copy, Debug, PartialEq, Eq, Hash)]
pub struct Account {
    pub key: Identity,
    pub lamports: u64,
    pub owner: Identity,
}

/// A record together with the derived address at which it is stored.
#[derive(Clone, Debug, PartialEq, Eq, Hash)]
pub struct RecordAccount {
    pub key: Identity,
    pub record: TransactionRecord,
}

/// The state that a payment touches: the program that runs the transition,
/// the two accounts, and the global counter.
#[derive(Clone, Copy, Debug, PartialEq, Eq, Hash)]
pub struct SendPayment {
    pub program_id: Identity,
    pub sender: Account,
    pub receiver: Account,
    pub program_state: ProgramState,
}

/// The state that initialization touches: the place of the global counter,
/// empty until the counter is created.
#[derive(Clone, Copy, Debug, PartialEq, Eq, Hash)]
pub struct InitializeState {
    pub program_state: Option<ProgramState>,
}

impl SendPayment {
    /// The validator's verdict on a payment of `amount` with `memo`.
    pub open spec fn verdict(self, amount: u64, memo: Seq<char>) -> Result<(), ErrorCode> {
        validate_spec(
            self.sender.key@,
            self.receiver.key@,
            amount,
            self.sender.lamports,
            self.receiver.owner@,
            memo,
        )
    }

    /// The derived address of the next record of this sender.
    pub open spec fn record_address(self) -> Option<(Seq<u8>, u8)> {
        record_address_spec(
            self.program_id@,
            self.sender.key@,
            self.program_state.total_transactions,
        )
    }

    /// The address alone, without the bump seed.
    pub open spec fn record_key(self) -> Seq<u8>
        recommends
            self.record_address() is Some,
    {
        match self.record_address() {
            Some((address, _)) => address,
            None => Seq::empty(),
        }
    }

    /// The record of a payment of `amount` with `memo` at time `timestamp`.
    pub open spec fn record(
        self,
        amount: u64,
        memo: Seq<char>,
        timestamp: i64,
    ) -> TransactionRecordView {
        TransactionRecordView {
            sender: self.sender.key@,
            receiver: self.receiver.key@,
            amount,
            timestamp,
            memo,
        }
    }

    /// Whether the receiver's balance can take `amount` more.
    pub open spec fn receiver_has_room(self, amount: u64) -> bool {
        self.receiver.lamports + amount <= u64::MAX
    }

    /// The state after a committed payment of `amount`: the amount has moved
    /// from the sender to the receiver and the counter has advanced by one.
    pub open spec fn paid(self, amount: u64) -> SendPayment {
        SendPayment {
            program_id: self.program_id,
            sender: Account {
                key: self.sender.key,
                lamports: (self.sender.lamports - amount) as u64,
                owner: self.sender.owner,
            },
            receiver: Account {
                key: self.receiver.key,
                lamports: (self.receiver.lamports + amount) as u64,
                owner: self.receiver.owner,
            },
            program_state: ProgramState {
                total_transactions: (self.program_state.total_transactions + 1) as u64,
            },
        }
    }
}

/// The transition of a payment from the state `pre` to the state `post`.
///
/// A payment that the validator rejects fails with the validator's error. An
/// approved payment fails with `Overflow` when the counter cannot advance.
/// A failed payment leaves the state as it was. A payment that succeeds moves
/// the amount, advances the counter and yields the record, stored at
/// `address`.
pub open spec fn payment_transition(
    pre: SendPayment,
    amount: u64,
    memo: Seq<char>,
    timestamp: i64,
    address: Seq<u8>,
    outcome: Result<RecordAccount, ErrorCode>,
    post: SendPayment,
) -> bool {
    match pre.verdict(amount, memo) {
        Err(error) => outcome == Err::<RecordAccount, ErrorCode>(error) && post == pre,
        Ok(_) => if pre.program_state.total_transactions == u64::MAX {
            outcome == Err::<RecordAccount, ErrorCode>(ErrorCode::Overflow) && post == pre
        } else {
            &&& outcome matches Ok(stored)
            &&& stored.key@ == address
            &&& stored.record@ == pre.record(amount, memo, timestamp)
            &&& post == pre.paid(amount)
        },
    }
}

/// The ledger writer. For an approved payment it moves `amount` from the
/// sender to the receiver, builds the record that is to be stored at
/// `address`, and advances the counter.
///
/// The counter advances by checked addition. Nothing is written before that
/// check has passed, so a failure leaves every balance and the counter
/// untouched.
pub fn commit(
    ctx: &mut SendPayment,
    amount: u64,
    memo: String,
    timestamp: i64,
    address: Identity,
) -> (outcome: Result<RecordAccount, ErrorCode>)
    requires
        old(ctx).verdict(amount, memo@) is Ok,
        old(ctx).receiver_has_room(amount),
    ensures
        payment_transition(*old(ctx), amount, memo@, timestamp, address@, outcome, *final(ctx)),
        outcome matches Ok(stored) ==> stored.record@.wf(),
{
    let advanced = match ctx.program_state.total_transactions.checked_add(1) {
        Some(count) => count,
        None => {
            return Err(ErrorCode::Overflow);
        },
    };
    ctx.sender.lamports = ctx.sender.lamports - amount;
    ctx.receiver.lamports = ctx.receiver.lamports + amount;
    let record = TransactionRecord {
        sender: ctx.sender.key,
        receiver: ctx.receiver.key,
        amount,
        timestamp,
        memo,
    };
    ctx.program_state.total_transactions = advanced;
    Ok(RecordAccount { key: address, record })
}

/// Sends a payment: runs the validator, derives the address of the new
/// record from the sender and the counter's present value, and commits.
///
/// The address must be derivable, and the receiver's balance must be able to
/// take an approved amount; `try_send_payment` tests both.
pub fn send_payment(
    ctx: &mut SendPayment,
    amount: u64,
    memo: String,
    timestamp: i64,
) -> (outcome: Result<RecordAccount, ErrorCode>)
    requires
        old(ctx).record_address() is Some,
        old(ctx).verdict(amount, memo@) is Ok ==> old(ctx).receiver_has_room(amount),
    ensures
        payment_transition(
            *old(ctx),
            amount,
            memo@,
            timestamp,
            old(ctx).record_key(),
            outcome,
            *final(ctx),
        ),
        outcome matches Ok(stored) ==> stored.record@.wf(),
{
    let verdict = validate(
        &ctx.sender.key,
        &ctx.receiver.key,
        amount,
        ctx.sender.lamports,
        &ctx.receiver.owner,
        memo.as_str(),
    );
    if let Err(error) = verdict {
        return Err(error);
    }
    let derived = record_address(
        &ctx.program_id,
        &ctx.sender.key,
        ctx.program_state.total_transactions,
    );
    let (address, _) = derived.unwrap();
    commit(ctx, amount, memo, timestamp, address)
}

/// Sends a payment where the host can carry it out, and says so where it
/// cannot: the result is `None`, and nothing has changed, where no address
/// can be derived for the record or where the receiver's balance cannot take
/// an approved amount.
pub fn try_send_payment(
    ctx: &mut SendPayment,
    amount: u64,
    memo: String,
    timestamp: i64,
) -> (attempt: Option<Result<RecordAccount, ErrorCode>>)
    ensures
        attempt is None <==> (old(ctx).record_address() is None || (old(ctx).verdict(
            amount,
            memo@,
        ) is Ok && !old(ctx).receiver_has_room(amount))),
        attempt is None ==> *final(ctx) == *old(ctx),
        attempt matches Some(outcome) ==> {
            &&& payment_transition(
                *old(ctx),
                amount,
                memo@,
                timestamp,
                old(ctx).record_key(),
                outcome,
                *final(ctx),
            )
            &&& outcome matches Ok(stored) ==> stored.record@.wf()
        },
{
    let derived = record_address(
        &ctx.program_id,
        &ctx.sender.key,
        ctx.program_state.total_transactions,
    );
    if derived.is_none() {
        return None;
    }
    let verdict = validate(
        &ctx.sender.key,
        &ctx.receiver.key,
        amount,
        ctx.sender.lamports,
        &ctx.receiver.owner,
        memo.as_str(),
    );
    if verdict.is_ok() && ctx.receiver.lamports > u64::MAX - amount {
        return None;
    }
    Some(send_payment(ctx, amount, memo, timestamp))
}

/// Creates the global counter with the value 0. Where the counter exists
/// already the call fails with `AlreadyInitialized` and changes nothing.
pub fn initialize_state(ctx: &mut InitializeState) -> (outcome: Result<(), ErrorCode>)
    ensures
        match old(ctx).program_state {
            None => outcome is Ok && final(ctx).program_state == Some(
                ProgramState { total_transactions: 0 },
            ),
            Some(_) => outcome == Err::<(), ErrorCode>(ErrorCode::AlreadyInitialized) && *final(ctx)
                == *old(ctx),
        },
{
    if ctx.program_state.is_some() {
        return Err(ErrorCode::AlreadyInitialized);
    }
    ctx.program_state = Some(ProgramState { total_transactions: 0 });
    Ok(())
}

/// A valid payment commits: with a positive amount, two distinct accounts, a
/// memo of at most 200 characters, a sufficient balance and a plain receiver,
/// the transition succeeds wherever the counter can advance and the
/// receiver's balance can take the amount. The sender's balance falls by the
/// amount, the receiver's rises by it, the counter rises by exactly one, and
/// the record stored at the derived address holds the inputs.
pub proof fn lemma_valid_payment_commits(
    pre: SendPayment,
    amount: u64,
    memo: Seq<char>,
    timestamp: i64,
    address: Seq<u8>,
    outcome: Result<RecordAccount, ErrorCode>,
    post: SendPayment,
)
    requires
        payment_transition(pre, amount, memo, timestamp, address, outcome, post),
        amount > 0,
        pre.sender.key != pre.receiver.key,
        memo.len() <= MAX_MEMO_LENGTH,
        pre.sender.lamports >= amount,
        pre.receiver.owner@ == system_program_bytes(),
        pre.program_state.total_transactions < u64::MAX,
        pre.receiver_has_room(amount),
    ensures
        outcome is Ok,
        post.sender.lamports == pre.sender.lamports - amount,
        post.receiver.lamports == pre.receiver.lamports + amount,
        post.program_state.total_transactions == pre.program_state.total_transactions + 1,
        post.sender.key == pre.sender.key,
        post.receiver.key == pre.receiver.key,
        outcome->Ok_0.key@ == address,
        outcome->Ok_0.record@.sender == pre.sender.key@,
        outcome->Ok_0.record@.receiver == pre.receiver.key@,
        outcome->Ok_0.record@.amount == amount,
        outcome->Ok_0.record@.timestamp == timestamp,
        outcome->Ok_0.record@.memo == memo,
        outcome->Ok_0.record@.wf(),
{
    Identity::lemma_view_injective(pre.sender.key, pre.receiver.key);
}

/// A payment that fails a check of the validator fails with that check's
/// error, and leaves the balances and the counter as they were.
pub proof fn lemma_rejected_payment_changes_nothing(
    pre: SendPayment,
    amount: u64,
    memo: Seq<char>,
    timestamp: i64,
    address: Seq<u8>,
    outcome: Result<RecordAccount, ErrorCode>,
    post: SendPayment,
)
    requires
        payment_transition(pre, amount, memo, timestamp, address, outcome, post),
        pre.verdict(amount, memo) is Err,
    ensures
        outcome is Err,
        outcome->Err_0 == pre.verdict(amount, memo)->Err_0,
        post == pre,
{
}

/// An approved payment that finds the counter at its largest value fails
/// with `Overflow`: nothing is transferred and the counter stays.
pub proof fn lemma_full_counter_overflows(
    pre: SendPayment,
    amount: u64,
    memo: Seq<char>,
    timestamp: i64,
    address: Seq<u8>,
    outcome: Result<RecordAccount, ErrorCode>,
    post: SendPayment,
)
    requires
        payment_transition(pre, amount, memo, timestamp, address, outcome, post),
        pre.verdict(amount, memo) is Ok,
        pre.program_state.total_transactions == u64::MAX,
    ensures
        outcome == Err::<RecordAccount, ErrorCode>(ErrorCode::Overflow),
        post == pre,
{
}

/// Whatever the outcome, the counter never falls and rises by at most one;
/// it rises exactly when the payment succeeds. A failed payment leaves the
/// whole state as it was, and a successful one neither creates nor destroys
/// value.
pub proof fn lemma_counter_and_value_are_kept(
    pre: SendPayment,
    amount: u64,
    memo: Seq<char>,
    timestamp: i64,
    address: Seq<u8>,
    outcome: Result<RecordAccount, ErrorCode>,
    post: SendPayment,
)
    requires
        payment_transition(pre, amount, memo, timestamp, address, outcome, post),
        pre.verdict(amount, memo) is Ok ==> pre.receiver_has_room(amount),
    ensures
        outcome is Err ==> post == pre,
        outcome is Ok ==> post.program_state.total_transactions
            == pre.program_state.total_transactions + 1,
        post.program_state.total_transactions >= pre.program_state.total_transactions,
        post.sender.lamports + post.receiver.lamports == pre.sender.lamports
            + pre.receiver.lamports,
{
}

} // verus!
