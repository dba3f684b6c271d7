//! Instructions for the token programs, and the seeds by which the program
//! signs for its custody account.
//!
//! Both supported token programs take the same two instructions: tag `1`
//! initializes an account, tag `3` transfers an amount. One builder for each
//! therefore serves both programs.

use crate::identity::Identity;
use vstd::bytes::{
    lemma_auto_spec_u64_to_from_le_bytes, spec_u64_from_le_bytes, spec_u64_to_le_bytes,
    u64_to_le_bytes,
};
use vstd::prelude::*;

verus! {

/// The tag of the instruction that initializes a token account.
pub const INITIALIZE_ACCOUNT_TAG: u8 = 1;

/// The tag of the instruction that transfers tokens.
pub const TRANSFER_TAG: u8 = 3;

/// The seed of a custody account's address: the ASCII text
/// `program_token_account`. The mint's bytes follow it.
pub const PROGRAM_TOKEN_ACCOUNT_SEED: [u8; 21] = [
    112, 114, 111, 103, 114, 97, 109, 95, 116, 111, 107, 101, 110, 95, 97, 99, 99, 111, 117, 110,
    116,
];

/// The seed of the state record's address: the ASCII text `program_state`.
pub const PROGRAM_STATE_SEED: [u8; 13] = [
    112, 114, 111, 103, 114, 97, 109, 95, 115, 116, 97, 116, 101,
];

/// One account of an instruction, with what the instruction may do to it.
#[derive(Clone, Copy, Debug, PartialEq, Eq)]
pub struct AccountMeta {
    pub pubkey: Identity,
    pub is_signer: bool,
    pub is_writable: bool,
}

impl AccountMeta {
    /// An account that the instruction may write to.
    pub fn new(pubkey: Identity, is_signer: bool) -> (meta: AccountMeta)
        ensures
            meta == (AccountMeta { pubkey, is_signer, is_writable: true }),
    {
        AccountMeta { pubkey, is_signer, is_writable: true }
    }

    /// An account that the instruction only reads.
    pub fn new_readonly(pubkey: Identity, is_signer: bool) -> (meta: AccountMeta)
        ensures
            meta == (AccountMeta { pubkey, is_signer, is_writable: false }),
    {
        AccountMeta { pubkey, is_signer, is_writable: false }
    }
}

/// An instruction for another program: the host dispatches it, the processor
/// only builds it.
#[derive(Clone, Debug, PartialEq, Eq)]
pub struct Instruction {
    pub program_id: Identity,
    pub accounts: Vec<AccountMeta>,
    pub data: Vec<u8>,
}

/// An instruction as a mathematical value.
pub struct InstructionView {
    pub program_id: Identity,
    pub accounts: Seq<AccountMeta>,
    pub data: Seq<u8>,
}

impl View for Instruction {
    type V = InstructionView;

    open spec fn view(&self) -> InstructionView {
        InstructionView { program_id: self.program_id, accounts: self.accounts@, data: self.data@ }
    }
}

/// The instruction that makes `account` a holding account for `mint`. The
/// account is its own authority: its address is derived, so only the program
/// can sign for it. Account list: target (writable), mint, authority, rent
/// sysvar; none of them signs.
pub open spec fn initialize_account_instruction(
    token_program: Identity,
    account: Identity,
    mint: Identity,
    rent: Identity,
) -> InstructionView {
    InstructionView {
        program_id: token_program,
        accounts: seq![
            AccountMeta { pubkey: account, is_signer: false, is_writable: true },
            AccountMeta { pubkey: mint, is_signer: false, is_writable: false },
            AccountMeta { pubkey: account, is_signer: false, is_writable: false },
            AccountMeta { pubkey: rent, is_signer: false, is_writable: false },
        ],
        data: seq![INITIALIZE_ACCOUNT_TAG],
    }
}

/// The payload of a transfer: the tag, then the amount in 8 little-endian bytes.
pub open spec fn transfer_payload(amount: u64) -> Seq<u8> {
    seq![TRANSFER_TAG] + spec_u64_to_le_bytes(amount)
}

/// The amount that a transfer payload carries.
pub open spec fn transfer_amount(payload: Seq<u8>) -> u64
    recommends
        payload.len() == 9,
{
    spec_u64_from_le_bytes(payload.subrange(1, 9))
}

/// The instruction that moves `amount` tokens from `source` to `destination`
/// on the word of `authority`. Account list: source (writable), destination
/// (writable), authority (signer, read only).
pub open spec fn transfer_instruction(
    token_program: Identity,
    source: Identity,
    destination: Identity,
    authority: Identity,
    amount: u64,
) -> InstructionView {
    InstructionView {
        program_id: token_program,
        accounts: seq![
            AccountMeta { pubkey: source, is_signer: false, is_writable: true },
            AccountMeta { pubkey: destination, is_signer: false, is_writable: true },
            AccountMeta { pubkey: authority, is_signer: true, is_writable: false },
        ],
        data: transfer_payload(amount),
    }
}

/// A transfer payload is 9 bytes, starts with the transfer tag and carries
/// exactly the amount it was built for.
pub proof fn lemma_transfer_payload(amount: u64)
    ensures
        transfer_payload(amount).len() == 9,
        transfer_payload(amount)[0] == TRANSFER_TAG,
        transfer_amount(transfer_payload(amount)) == amount,
{
    lemma_auto_spec_u64_to_from_le_bytes();
    assert(transfer_payload(amount).subrange(1, 9) =~= spec_u64_to_le_bytes(amount));
}

/// Builds the instruction that initializes `account` as a holding account
/// for `mint` under `token_program`.
pub fn build_initialize_account(
    token_program: Identity,
    account: Identity,
    mint: Identity,
    rent: Identity,
) -> (ix: Instruction)
    ensures
        ix@ == initialize_account_instruction(token_program, account, mint, rent),
{
    let mut accounts: Vec<AccountMeta> = Vec::new();
    accounts.push(AccountMeta::new(account, false));
    accounts.push(AccountMeta::new_readonly(mint, false));
    accounts.push(AccountMeta::new_readonly(account, false));
    accounts.push(AccountMeta::new_readonly(rent, false));
    let mut data: Vec<u8> = Vec::new();
    data.push(INITIALIZE_ACCOUNT_TAG);
    let ix = Instruction { program_id: token_program, accounts, data };
    assert(ix@.accounts =~= initialize_account_instruction(
        token_program,
        account,
        mint,
        rent,
    ).accounts);
    assert(ix@.data =~= seq![INITIALIZE_ACCOUNT_TAG]);
    ix
}

/// Builds the instruction that transfers `amount` tokens from `source` to
/// `destination` under `token_program`, with `authority` as the signer.
pub fn build_transfer(
    token_program: Identity,
    amount: u64,
    source: Identity,
    destination: Identity,
    authority: Identity,
) -> (ix: Instruction)
    ensures
        ix@ == transfer_instruction(token_program, source, destination, authority, amount),
{
    let mut accounts: Vec<AccountMeta> = Vec::new();
    accounts.push(AccountMeta::new(source, false));
    accounts.push(AccountMeta::new(destination, false));
    accounts.push(AccountMeta::new_readonly(authority, true));
    let mut data: Vec<u8> = Vec::new();
    data.push(TRANSFER_TAG);
    let mut amount_bytes = u64_to_le_bytes(amount);
    data.append(&mut amount_bytes);
    let ix = Instruction { program_id: token_program, accounts, data };
    assert(ix@.accounts =~= transfer_instruction(
        token_program,
        source,
        destination,
        authority,
        amount,
    ).accounts);
    assert(ix@.data =~= transfer_payload(amount));
    ix
}

/// What lets the program sign for the custody account of `mint`: the seeds
/// of its derived address and the bump that completes them. The host checks
/// them; the processor only names them.
#[derive(Clone, Copy, Debug, PartialEq, Eq)]
pub struct SignerSeeds {
    pub mint: Identity,
    pub bump: u8,
}

impl SignerSeeds {
    /// The seeds in the order the host expects them.
    pub open spec fn spec_seeds(self) -> Seq<Seq<u8>> {
        seq![PROGRAM_TOKEN_ACCOUNT_SEED@, self.mint@, seq![self.bump]]
    }

    /// The seeds as byte strings: the fixed text, the mint, the bump.
    pub fn seeds(&self) -> (seeds: Vec<Vec<u8>>)
        ensures
            seeds@.len() == 3,
            seeds.deep_view() == self.spec_seeds(),
    {
        let mut text: Vec<u8> = Vec::new();
        let mut i: usize = 0;
        while i < 21
            invariant
                i <= 21,
                text@.len() == i,
                forall|k: int| 0 <= k < i ==> text@[k] == PROGRAM_TOKEN_ACCOUNT_SEED[k],
            decreases 21 - i,
        {
            text.push(PROGRAM_TOKEN_ACCOUNT_SEED[i]);
            i += 1;
        }
        let mut mint: Vec<u8> = Vec::new();
        let mut j: usize = 0;
        while j < 32
            invariant
                j <= 32,
                mint@.len() == j,
                forall|k: int| 0 <= k < j ==> mint@[k] == self.mint.bytes[k],
            decreases 32 - j,
        {
            mint.push(self.mint.bytes[j]);
            j += 1;
        }
        let mut bump: Vec<u8> = Vec::new();
        bump.push(self.bump);
        let mut seeds: Vec<Vec<u8>> = Vec::new();
        seeds.push(text);
        seeds.push(mint);
        seeds.push(bump);
        assert(seeds.deep_view()[0] =~= PROGRAM_TOKEN_ACCOUNT_SEED@);
        assert(seeds.deep_view()[1] =~= self.mint@);
        assert(seeds.deep_view()[2] =~= seq![self.bump]);
        assert(seeds.deep_view() =~= self.spec_seeds());
        seeds
    }
}

} // verus!
