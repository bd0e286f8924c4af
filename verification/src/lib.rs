//! A program that keeps one shared counter and transfers tokens between holding
//! accounts, with the rules it applies to the accounts of each instruction: address
//! derivation, account validation, the handlers, and the call it delegates to the
//! token-accounting program. `ledger` executes instructions on an in-memory ledger, each
//! as a whole or not at all; `laws` states what holds of every execution.

pub mod account;
pub mod address;
pub mod error;
pub mod handlers;
pub mod instruction;
pub mod laws;
pub mod ledger;
pub mod state;
pub mod token;
pub mod validator;

pub use address::id;
pub use handlers::{
    decrement_counter, increment_counter, init_token_account, initialize, initialize_counter,
    transfer_tokens,
};
pub use state::CounterAccount;
pub use validator::{Counter, CounterOperation, InitTokenAccount, Initialize, TransferTokens};
