//! The persisted state: the global counter and the transaction records.

use vstd::prelude::*;
use vstd::utf8::encode_utf8;
use crate::identity::Identity;
use crate::validator::MAX_MEMO_LENGTH;

verus! {

/// Bytes of the marker that opens every stored account.
pub const DISCRIMINATOR_LENGTH: usize = 8;

/// Bytes of a stored identity.
pub const PUBLIC_KEY_LENGTH: usize = 32;

/// Bytes of a stored unsigned 64-bit number.
pub const U64_LENGTH: usize = 8;

/// Bytes of a stored signed 64-bit number.
pub const I64_LENGTH: usize = 8;

/// Bytes of the length that precedes a stored text.
pub const STRING_LENGTH_PREFIX: usize = 4;

/// The most bytes a memo can take: four for each character.
pub const MAX_MEMO_BYTES: usize = MAX_MEMO_LENGTH * 4;

/// The global counter: one per deployment, created once with the value 0 and
/// advanced by one with every committed transfer.
#[derive(Clone, Copy, Debug, PartialEq, Eq, Structural, Hash)]
pub struct ProgramState {
    pub total_transactions: u64,
}

impl ProgramState {
    /// Bytes of storage that the counter takes: the marker and the count.
    pub const LEN: usize = 8 + 8;
}

/// One committed transfer. A record is written once and never changed.
#[derive(Clone, Debug, PartialEq, Eq, Hash)]
pub struct TransactionRecord {
    pub sender: Identity,
    pub receiver: Identity,
    pub amount: u64,
    pub timestamp: i64,
    pub memo: String,
}

/// A record as plain values.
pub ghost struct TransactionRecordView {
    pub sender: Seq<u8>,
    pub receiver: Seq<u8>,
    pub amount: u64,
    pub timestamp: i64,
    pub memo: Seq<char>,
}

impl View for TransactionRecord {
    type V = TransactionRecordView;

    open spec fn view(&self) -> TransactionRecordView {
        TransactionRecordView {
            sender: self.sender@,
            receiver: self.receiver@,
            amount: self.amount,
            timestamp: self.timestamp,
            memo: self.memo@,
        }
    }
}

impl TransactionRecordView {
    /// What holds of every record: it moves a positive amount between two
    /// distinct accounts, and its memo has at most 200 characters.
    pub open spec fn wf(self) -> bool {
        &&& self.sender.len() == 32
        &&& self.receiver.len() == 32
        &&& self.amount > 0
        &&& self.sender != self.receiver
        &&& self.memo.len() <= MAX_MEMO_LENGTH
    }

    /// Bytes that the record takes in storage: the marker, the two
    /// identities, the amount, the timestamp, the length of the memo and the
    /// memo's text in UTF-8.
    pub open spec fn stored_len(self) -> nat {
        (DISCRIMINATOR_LENGTH + PUBLIC_KEY_LENGTH + PUBLIC_KEY_LENGTH + U64_LENGTH + I64_LENGTH
            + STRING_LENGTH_PREFIX + encode_utf8(self.memo).len()) as nat
    }
}

impl TransactionRecord {
    /// Bytes of storage set aside for a record.
    pub const LEN: usize = DISCRIMINATOR_LENGTH + PUBLIC_KEY_LENGTH + PUBLIC_KEY_LENGTH
        + U64_LENGTH + I64_LENGTH + STRING_LENGTH_PREFIX + MAX_MEMO_BYTES;

    /// Whether the record fits the storage set aside for it.
    pub fn fits_storage(&self) -> (fits: bool)
        ensures
            fits == (self@.stored_len() <= Self::LEN),
    {
        self.memo.as_str().as_bytes().len() <= MAX_MEMO_BYTES
    }
}

/// The UTF-8 text of a memo takes at least one byte and at most four bytes
/// for each character.
pub proof fn lemma_utf8_len_bounds(text: Seq<char>)
    ensures
        text.len() <= encode_utf8(text).len() <= 4 * text.len(),
    decreases text.len(),
{
    if text.len() > 0 {
        lemma_utf8_len_bounds(text.drop_first());
    }
}

/// The storage set aside for a record holds every record: one whose memo
/// has at most 200 characters takes at most `TransactionRecord::LEN` bytes.
pub proof fn lemma_record_fits_storage(record: TransactionRecordView)
    requires
        record.wf(),
    ensures
        record.stored_len() <= TransactionRecord::LEN,
{
    lemma_utf8_len_bounds(record.memo);
}

} // verus!
