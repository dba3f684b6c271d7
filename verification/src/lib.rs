//! Authorization and account validation for a single-mint token payment
//! processor: a program-controlled custody account takes deposits of one
//! accepted token, and an owner with a set of admins withdraws from it.
//!
//! Every operation is a function from plain account values to either an
//! error or the instructions that the host has to dispatch next.

pub mod accounts;
pub mod error;
pub mod identity;
pub mod instruction;
pub mod laws;
pub mod processor;
pub mod state;
pub mod token_record;

pub use accounts::{
    AddAdmin, ChangeOwner, GetAdmins, Initialize, ProcessPayment, RawAccount, RemoveAdmin,
    Withdraw, WithdrawSol,
};
pub use error::PaymentProcessorError;
pub use identity::{
    is_accepted_mint, is_valid_token_program, Identity, ACCEPTED_MINT, SPL_TOKEN_PROGRAM_ID,
    TOKEN_2022_PROGRAM_ID,
};
pub use instruction::{
    build_initialize_account, build_transfer, AccountMeta, Instruction, SignerSeeds,
    INITIALIZE_ACCOUNT_TAG, PROGRAM_STATE_SEED, PROGRAM_TOKEN_ACCOUNT_SEED, TRANSFER_TAG,
};
pub use processor::{
    add_admin, change_owner, get_admins, initialize, process_payment, remove_admin, withdraw,
    withdraw_sol, PaymentEvent, PaymentPlan, WithdrawPlan,
};
pub use state::ProgramState;
pub use token_record::{TokenRecord, TOKEN_ACCOUNT_LEN, TOKEN_RECORD_MIN_LEN};
