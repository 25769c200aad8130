//! Peer-to-peer value transfer recorded on an append-only, address-derived ledger.
//!
//! A payment is one deterministic transition: the validator approves or
//! rejects it, and the ledger writer moves the amount, builds the record that
//! belongs at a freshly derived address, and advances the global counter. A
//! transition that fails changes nothing.

pub mod address;
pub mod error;
pub mod identity;
pub mod payment;
pub mod state;
pub mod validator;

pub use crate::address::{record_address, state_address};
pub use crate::error::ErrorCode;
pub use crate::identity::Identity;
pub use crate::payment::{
    commit, initialize_state, send_payment, try_send_payment, Account, InitializeState,
    RecordAccount, SendPayment,
};
pub use crate::state::{ProgramState, TransactionRecord};
pub use crate::validator::{validate, MAX_MEMO_LENGTH};
