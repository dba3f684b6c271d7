//! What each operation is handed: the accounts it reads, as plain values.
//!
//! The host loads the accounts and checks addresses, signatures and
//! ownership flags; what is left for the processor to judge stands here.

use crate::identity::Identity;
use crate::state::ProgramState;
use vstd::prelude::*;

verus! {

/// An account whose data the processor reads byte by byte: its address, the
/// program that owns it, and its data.
#[derive(Clone, Debug, PartialEq, Eq)]
pub struct RawAccount {
    pub key: Identity,
    pub owner: Identity,
    pub data: Vec<u8>,
}

impl RawAccount {
    /// The account holds no token record yet: its data is empty or starts
    /// with a zero byte.
    pub open spec fn spec_needs_initialization(&self) -> bool {
        self.data@.len() == 0 || self.data@[0] == 0
    }

    /// Tells whether the account still has to be initialized as a token
    /// account.
    pub fn needs_initialization(&self) -> (needed: bool)
        ensures
            needed == self.spec_needs_initialization(),
    {
        self.data.len() == 0 || self.data[0] == 0
    }
}

/// The accounts of the initialization: the fresh state record and the bump
/// that the host found for its address.
#[derive(Clone, Debug, PartialEq, Eq)]
pub struct Initialize {
    pub program_state: ProgramState,
    pub program_state_bump: u8,
}

/// The accounts of a payment: the paying user and their token account, the
/// custody account of the mint, the mint, the token program and the rent
/// sysvar.
#[derive(Clone, Debug, PartialEq, Eq)]
pub struct ProcessPayment {
    pub user: Identity,
    pub user_token_account: RawAccount,
    pub program_token_account: RawAccount,
    pub token_mint: Identity,
    pub token_program: Identity,
    pub rent: Identity,
}

/// The accounts of adding an admin: the state record and the caller.
#[derive(Clone, Debug, PartialEq, Eq)]
pub struct AddAdmin {
    pub program_state: ProgramState,
    pub authority: Identity,
}

/// The accounts of removing an admin: the state record and the caller.
#[derive(Clone, Debug, PartialEq, Eq)]
pub struct RemoveAdmin {
    pub program_state: ProgramState,
    pub authority: Identity,
}

/// The accounts of replacing the owner: the state record and the caller.
#[derive(Clone, Debug, PartialEq, Eq)]
pub struct ChangeOwner {
    pub program_state: ProgramState,
    pub authority: Identity,
}

/// The accounts of reading the admins: the state record alone.
#[derive(Clone, Debug, PartialEq, Eq)]
pub struct GetAdmins {
    pub program_state: ProgramState,
}

/// The accounts of a token withdrawal: the state record, the caller, the
/// custody account with the bump of its address, the receiving token
/// account, the mint and the token program.
#[derive(Clone, Debug, PartialEq, Eq)]
pub struct Withdraw {
    pub program_state: ProgramState,
    pub authority: Identity,
    pub program_token_account: RawAccount,
    pub program_token_account_bump: u8,
    pub destination_token_account: RawAccount,
    pub token_mint: Identity,
    pub token_program: Identity,
}

/// The accounts of a withdrawal of native balance: the state record with
/// its balance and the least balance that keeps it exempt from rent, as the
/// host computes it for the record's size; the caller; and the balance of
/// the receiving account.
#[derive(Clone, Debug, PartialEq, Eq)]
pub struct WithdrawSol {
    pub program_state: ProgramState,
    pub program_state_lamports: u64,
    pub rent_exempt_minimum: u64,
    pub authority: Identity,
    pub destination_lamports: u64,
}

} // verus!
