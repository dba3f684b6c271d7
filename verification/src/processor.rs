//! The operations. Each one checks everything before it changes or plans
//! anything, so a refusal leaves no trace.

use crate::accounts::{
    AddAdmin, ChangeOwner, GetAdmins, Initialize, ProcessPayment, RemoveAdmin, Withdraw,
    WithdrawSol,
};
use crate::error::PaymentProcessorError;
use crate::identity::{
    accepted_mint, is_accepted_mint, is_valid_token_program, spec_is_valid_token_program,
    Identity,
};
use crate::instruction::{
    build_initialize_account, build_transfer, initialize_account_instruction,
    transfer_instruction, Instruction, InstructionView, SignerSeeds,
};
use crate::state::{spec_grown_space, spec_shrunk_space, ProgramStateView};
use crate::token_record::{
    record_balance, record_holder, record_mint, TokenRecord, TOKEN_RECORD_MIN_LEN,
};
use vstd::prelude::*;

verus! {

/// What the host has to dispatch for an accepted payment, in this order:
/// the initialization of the custody account where it is still
/// uninitialized, then the transfer, signed by the user.
#[derive(Clone, Debug, PartialEq, Eq)]
pub struct PaymentPlan {
    pub initialize_account: Option<Instruction>,
    pub transfer: Instruction,
}

/// A payment plan as a mathematical value.
pub struct PaymentPlanView {
    pub initialize_account: Option<InstructionView>,
    pub transfer: InstructionView,
}

impl View for PaymentPlan {
    type V = PaymentPlanView;

    open spec fn view(&self) -> PaymentPlanView {
        PaymentPlanView {
            initialize_account: match self.initialize_account {
                Some(ix) => Some(ix@),
                None => None,
            },
            transfer: self.transfer@,
        }
    }
}

/// What the host has to dispatch for an accepted withdrawal: the transfer,
/// which the program signs for the custody account with `signer`.
#[derive(Clone, Debug, PartialEq, Eq)]
pub struct WithdrawPlan {
    pub transfer: Instruction,
    pub signer: SignerSeeds,
}

/// A withdrawal plan as a mathematical value.
pub struct WithdrawPlanView {
    pub transfer: InstructionView,
    pub signer: SignerSeeds,
}

impl View for WithdrawPlan {
    type V = WithdrawPlanView;

    open spec fn view(&self) -> WithdrawPlanView {
        WithdrawPlanView { transfer: self.transfer@, signer: self.signer }
    }
}

/// The record of a payment, published after the transfer went through.
#[derive(Clone, Copy, Debug, PartialEq, Eq)]
pub struct PaymentEvent {
    pub user: Identity,
    pub amount: u64,
    pub timestamp: i64,
    pub token_mint: Identity,
}

impl ProcessPayment {
    /// The user's token account holds a record of the given mint whose
    /// holder is the user.
    pub open spec fn user_record_valid(&self) -> bool {
        &&& self.user_token_account.data@.len() >= TOKEN_RECORD_MIN_LEN
        &&& record_mint(self.user_token_account.data@) == self.token_mint@
        &&& record_holder(self.user_token_account.data@) == self.user@
    }

    /// The custody account holds a record of the given mint.
    pub open spec fn custody_record_valid(&self) -> bool {
        &&& self.program_token_account.data@.len() >= TOKEN_RECORD_MIN_LEN
        &&& record_mint(self.program_token_account.data@) == self.token_mint@
    }

    /// Why the payment is refused, if it is: the first check that fails.
    /// An uninitialized custody account is not inspected any further.
    pub open spec fn rejection(&self) -> Option<PaymentProcessorError> {
        if self.token_mint != accepted_mint() {
            Some(PaymentProcessorError::InvalidTokenMint)
        } else if !spec_is_valid_token_program(self.token_program) {
            Some(PaymentProcessorError::InvalidTokenProgram)
        } else if self.user_token_account.owner != self.token_program {
            Some(PaymentProcessorError::InvalidTokenProgram)
        } else if !self.user_record_valid() {
            Some(PaymentProcessorError::InvalidTokenAccount)
        } else if self.program_token_account.spec_needs_initialization() {
            None
        } else if self.program_token_account.owner != self.token_program {
            Some(PaymentProcessorError::InvalidTokenProgram)
        } else if !self.custody_record_valid() {
            Some(PaymentProcessorError::InvalidTokenAccount)
        } else {
            None
        }
    }

    /// What is dispatched for an accepted payment of `amount`.
    pub open spec fn plan(&self, amount: u64) -> PaymentPlanView {
        PaymentPlanView {
            initialize_account: if self.program_token_account.spec_needs_initialization() {
                Some(
                    initialize_account_instruction(
                        self.token_program,
                        self.program_token_account.key,
                        self.token_mint,
                        self.rent,
                    ),
                )
            } else {
                None
            },
            transfer: transfer_instruction(
                self.token_program,
                self.user_token_account.key,
                self.program_token_account.key,
                self.user,
                amount,
            ),
        }
    }

    /// The event of a payment of `amount` that went through at `timestamp`.
    pub fn event(&self, amount: u64, timestamp: i64) -> (event: PaymentEvent)
        ensures
            event == (PaymentEvent {
                user: self.user,
                amount,
                timestamp,
                token_mint: self.token_mint,
            }),
    {
        PaymentEvent { user: self.user, amount, timestamp, token_mint: self.token_mint }
    }
}

/// Checks a payment of `amount` tokens from the user's token account into
/// the custody account and plans it.
///
/// The mint must be the accepted one, the token program one of the two
/// supported ones and the owner of the user's token account, and that
/// account must hold a record of the mint with the user as holder. A
/// custody account that is still uninitialized is initialized first; one
/// that is in use must belong to the token program and hold a record of the
/// mint. Whether the user has `amount` tokens is for the token program to
/// say when the transfer is dispatched.
pub fn process_payment(ctx: &ProcessPayment, amount: u64) -> (r: Result<
    PaymentPlan,
    PaymentProcessorError,
>)
    ensures
        match ctx.rejection() {
            Some(e) => r == Err::<PaymentPlan, _>(e),
            None => r is Ok && r->Ok_0@ == ctx.plan(amount),
        },
{
    if !is_accepted_mint(&ctx.token_mint) {
        return Err(PaymentProcessorError::InvalidTokenMint);
    }
    if !is_valid_token_program(&ctx.token_program) {
        return Err(PaymentProcessorError::InvalidTokenProgram);
    }
    if ctx.user_token_account.owner != ctx.token_program {
        return Err(PaymentProcessorError::InvalidTokenProgram);
    }
    let user_record = match TokenRecord::parse(ctx.user_token_account.data.as_slice()) {
        Ok(record) => record,
        Err(e) => {
            return Err(e);
        },
    };
    proof {
        Identity::lemma_view_injective(user_record.mint, ctx.token_mint);
        Identity::lemma_view_injective(user_record.holder, ctx.user);
    }
    if user_record.mint != ctx.token_mint {
        return Err(PaymentProcessorError::InvalidTokenAccount);
    }
    if user_record.holder != ctx.user {
        return Err(PaymentProcessorError::InvalidTokenAccount);
    }
    let initialize_account = if ctx.program_token_account.needs_initialization() {
        Some(
            build_initialize_account(
                ctx.token_program,
                ctx.program_token_account.key,
                ctx.token_mint,
                ctx.rent,
            ),
        )
    } else {
        if ctx.program_token_account.owner != ctx.token_program {
            return Err(PaymentProcessorError::InvalidTokenProgram);
        }
        let custody_record = match TokenRecord::parse(ctx.program_token_account.data.as_slice()) {
            Ok(record) => record,
            Err(e) => {
                return Err(e);
            },
        };
        proof {
            Identity::lemma_view_injective(custody_record.mint, ctx.token_mint);
        }
        if custody_record.mint != ctx.token_mint {
            return Err(PaymentProcessorError::InvalidTokenAccount);
        }
        None
    };
    let transfer = build_transfer(
        ctx.token_program,
        amount,
        ctx.user_token_account.key,
        ctx.program_token_account.key,
        ctx.user,
    );
    Ok(PaymentPlan { initialize_account, transfer })
}

impl Withdraw {
    /// The custody account holds a record with at least `amount` tokens.
    pub open spec fn custody_covers(&self, amount: u64) -> bool {
        record_balance(self.program_token_account.data@) >= amount
    }

    /// The receiving account holds a record of the given mint.
    pub open spec fn destination_record_valid(&self) -> bool {
        &&& self.destination_token_account.data@.len() >= TOKEN_RECORD_MIN_LEN
        &&& record_mint(self.destination_token_account.data@) == self.token_mint@
    }

    /// Why the withdrawal of `amount` is refused, if it is: the first check
    /// that fails.
    pub open spec fn rejection(&self, amount: u64) -> Option<PaymentProcessorError> {
        if !self.program_state@.is_owner_or_admin(self.authority) {
            Some(PaymentProcessorError::UnauthorizedAccess)
        } else if !spec_is_valid_token_program(self.token_program) {
            Some(PaymentProcessorError::InvalidTokenProgram)
        } else if self.program_token_account.owner != self.token_program {
            Some(PaymentProcessorError::InvalidTokenProgram)
        } else if self.program_token_account.data@.len() < TOKEN_RECORD_MIN_LEN {
            Some(PaymentProcessorError::InvalidTokenAccount)
        } else if !self.custody_covers(amount) {
            Some(PaymentProcessorError::InsufficientFunds)
        } else if self.destination_token_account.owner != self.token_program {
            Some(PaymentProcessorError::InvalidTokenProgram)
        } else if !self.destination_record_valid() {
            Some(PaymentProcessorError::InvalidTokenAccount)
        } else {
            None
        }
    }

    /// What is dispatched for an accepted withdrawal of `amount`: the
    /// custody account pays and is its own authority.
    pub open spec fn plan(&self, amount: u64) -> WithdrawPlanView {
        WithdrawPlanView {
            transfer: transfer_instruction(
                self.token_program,
                self.program_token_account.key,
                self.destination_token_account.key,
                self.program_token_account.key,
                amount,
            ),
            signer: SignerSeeds { mint: self.token_mint, bump: self.program_token_account_bump },
        }
    }
}

/// Checks a withdrawal of `amount` tokens from the custody account to the
/// receiving account and plans it.
///
/// The caller must be the owner or an admin, the token program one of the
/// two supported ones and the owner of both token accounts, the custody
/// record must hold at least `amount`, and the receiving record must be of
/// the given mint. No person signs the transfer: the program does, with the
/// seeds of the custody account's address.
pub fn withdraw(ctx: &Withdraw, amount: u64) -> (r: Result<WithdrawPlan, PaymentProcessorError>)
    ensures
        match ctx.rejection(amount) {
            Some(e) => r == Err::<WithdrawPlan, _>(e),
            None => r is Ok && r->Ok_0@ == ctx.plan(amount),
        },
        r is Ok ==> amount <= record_balance(ctx.program_token_account.data@),
{
    if !ctx.program_state.is_owner_or_admin(&ctx.authority) {
        return Err(PaymentProcessorError::UnauthorizedAccess);
    }
    if !is_valid_token_program(&ctx.token_program) {
        return Err(PaymentProcessorError::InvalidTokenProgram);
    }
    if ctx.program_token_account.owner != ctx.token_program {
        return Err(PaymentProcessorError::InvalidTokenProgram);
    }
    let custody_record = match TokenRecord::parse(ctx.program_token_account.data.as_slice()) {
        Ok(record) => record,
        Err(e) => {
            return Err(e);
        },
    };
    if custody_record.balance < amount {
        return Err(PaymentProcessorError::InsufficientFunds);
    }
    if ctx.destination_token_account.owner != ctx.token_program {
        return Err(PaymentProcessorError::InvalidTokenProgram);
    }
    let destination_record = match TokenRecord::parse(
        ctx.destination_token_account.data.as_slice(),
    ) {
        Ok(record) => record,
        Err(e) => {
            return Err(e);
        },
    };
    proof {
        Identity::lemma_view_injective(destination_record.mint, ctx.token_mint);
    }
    if destination_record.mint != ctx.token_mint {
        return Err(PaymentProcessorError::InvalidTokenAccount);
    }
    let transfer = build_transfer(
        ctx.token_program,
        amount,
        ctx.program_token_account.key,
        ctx.destination_token_account.key,
        ctx.program_token_account.key,
    );
    let signer = SignerSeeds { mint: ctx.token_mint, bump: ctx.program_token_account_bump };
    Ok(WithdrawPlan { transfer, signer })
}

/// What an operation on the state record comes to: the record as it is
/// afterwards, and what the caller is told.
pub struct Outcome {
    pub state: ProgramStateView,
    pub result: Result<(), PaymentProcessorError>,
}

/// The operation went through and left `state`.
pub open spec fn accepted(state: ProgramStateView) -> Outcome {
    Outcome { state, result: Ok(()) }
}

/// The operation was refused with `error`, and `state` is as it was.
pub open spec fn refused(state: ProgramStateView, error: PaymentProcessorError) -> Outcome {
    Outcome { state, result: Err(error) }
}

/// What adding `new_admin` on the word of `authority` comes to.
pub open spec fn add_admin_outcome(
    state: ProgramStateView,
    authority: Identity,
    new_admin: Identity,
) -> Outcome {
    if !state.is_owner_or_admin(authority) {
        refused(state, PaymentProcessorError::UnauthorizedAccess)
    } else if state.is_admin(new_admin) {
        refused(state, PaymentProcessorError::AdminAlreadyExists)
    } else {
        accepted(state.with_admin(new_admin))
    }
}

/// What removing `admin_to_remove` on the word of `authority` comes to.
pub open spec fn remove_admin_outcome(
    state: ProgramStateView,
    authority: Identity,
    admin_to_remove: Identity,
) -> Outcome {
    if !state.is_owner_or_admin(authority) {
        refused(state, PaymentProcessorError::UnauthorizedAccess)
    } else if !state.is_admin(admin_to_remove) {
        refused(state, PaymentProcessorError::AdminNotFound)
    } else {
        accepted(state.without_admin(admin_to_remove))
    }
}

/// What replacing the owner by `new_owner` on the word of `authority` comes
/// to.
pub open spec fn change_owner_outcome(
    state: ProgramStateView,
    authority: Identity,
    new_owner: Identity,
) -> Outcome {
    if authority != state.owner {
        refused(state, PaymentProcessorError::OnlyOwnerCanChangeOwner)
    } else {
        accepted(state.with_owner(new_owner))
    }
}

/// Sets up the state record: `owner` owns it, nobody is admin, and the bump
/// of its address is kept. That this happens once only is the host's doing:
/// it creates the record's account and refuses to create it twice.
pub fn initialize(ctx: &mut Initialize, owner: Identity) -> (r: Result<(), PaymentProcessorError>)
    ensures
        r is Ok,
        final(ctx).program_state@ == (ProgramStateView {
            owner,
            admins: Seq::empty(),
            bump: old(ctx).program_state_bump,
        }),
        final(ctx).program_state_bump == old(ctx).program_state_bump,
        final(ctx).program_state@.wf(),
{
    ctx.program_state.owner = owner;
    ctx.program_state.admins = Vec::new();
    ctx.program_state.bump = ctx.program_state_bump;
    Ok(())
}

/// Appends `new_admin` to the admins. The caller must be the owner or an
/// admin, and `new_admin` must not be an admin yet. The record then takes
/// 32 bytes more: the size that `ProgramState::grown_space` gives for the
/// admins there were.
pub fn add_admin(ctx: &mut AddAdmin, new_admin: Identity) -> (r: Result<(), PaymentProcessorError>)
    ensures
        r == add_admin_outcome(old(ctx).program_state@, old(ctx).authority, new_admin).result,
        final(ctx).program_state@ == add_admin_outcome(
            old(ctx).program_state@,
            old(ctx).authority,
            new_admin,
        ).state,
        r is Err ==> *final(ctx) == *old(ctx),
        final(ctx).authority == old(ctx).authority,
        r is Ok ==> final(ctx).program_state@.space() == spec_grown_space(
            old(ctx).program_state@.admins.len() as int,
        ),
        r is Ok && old(ctx).program_state@.wf() ==> final(ctx).program_state@.wf(),
{
    if !ctx.program_state.is_owner_or_admin(&ctx.authority) {
        return Err(PaymentProcessorError::UnauthorizedAccess);
    }
    if ctx.program_state.is_admin(&new_admin) {
        return Err(PaymentProcessorError::AdminAlreadyExists);
    }
    ctx.program_state.admins.push(new_admin);
    Ok(())
}

/// Removes `admin_to_remove` from the admins, keeping the others in their
/// order. The caller must be the owner or an admin, and `admin_to_remove`
/// must be an admin. The record then takes 32 bytes less: the size that
/// `ProgramState::shrunk_space` gives for the admins there were.
pub fn remove_admin(ctx: &mut RemoveAdmin, admin_to_remove: Identity) -> (r: Result<
    (),
    PaymentProcessorError,
>)
    ensures
        r == remove_admin_outcome(
            old(ctx).program_state@,
            old(ctx).authority,
            admin_to_remove,
        ).result,
        final(ctx).program_state@ == remove_admin_outcome(
            old(ctx).program_state@,
            old(ctx).authority,
            admin_to_remove,
        ).state,
        r is Err ==> *final(ctx) == *old(ctx),
        final(ctx).authority == old(ctx).authority,
        r is Ok ==> final(ctx).program_state@.space() == spec_shrunk_space(
            old(ctx).program_state@.admins.len() as int,
        ),
        r is Ok && old(ctx).program_state@.wf() ==> final(ctx).program_state@.wf()
            && !final(ctx).program_state@.is_admin(admin_to_remove),
{
    if !ctx.program_state.is_owner_or_admin(&ctx.authority) {
        return Err(PaymentProcessorError::UnauthorizedAccess);
    }
    match ctx.program_state.admin_position(&admin_to_remove) {
        Some(position) => {
            ctx.program_state.admins.remove(position);
            Ok(())
        },
        None => Err(PaymentProcessorError::AdminNotFound),
    }
}

/// Replaces the owner by `new_owner`. Only the owner may do so: an admin
/// may not. The admins stay as they are.
pub fn change_owner(ctx: &mut ChangeOwner, new_owner: Identity) -> (r: Result<
    (),
    PaymentProcessorError,
>)
    ensures
        r == change_owner_outcome(old(ctx).program_state@, old(ctx).authority, new_owner).result,
        final(ctx).program_state@ == change_owner_outcome(
            old(ctx).program_state@,
            old(ctx).authority,
            new_owner,
        ).state,
        r is Err ==> *final(ctx) == *old(ctx),
        final(ctx).authority == old(ctx).authority,
        old(ctx).program_state@.wf() ==> final(ctx).program_state@.wf(),
{
    if ctx.program_state.owner != ctx.authority {
        return Err(PaymentProcessorError::OnlyOwnerCanChangeOwner);
    }
    ctx.program_state.owner = new_owner;
    Ok(())
}

/// A copy of the admins, in the order in which they were added. Anyone may
/// ask.
pub fn get_admins(ctx: &GetAdmins) -> (r: Result<Vec<Identity>, PaymentProcessorError>)
    ensures
        r is Ok,
        r->Ok_0@ == ctx.program_state@.admins,
{
    Ok(ctx.program_state.admins.clone())
}

impl WithdrawSol {
    /// Why the withdrawal of `amount` is refused, if it is. The record
    /// keeps at least its rent-exempt minimum.
    pub open spec fn rejection(&self, amount: u64) -> Option<PaymentProcessorError> {
        if !self.program_state@.is_owner_or_admin(self.authority) {
            Some(PaymentProcessorError::UnauthorizedAccess)
        } else if self.program_state_lamports < amount + self.rent_exempt_minimum {
            Some(PaymentProcessorError::InsufficientFunds)
        } else {
            None
        }
    }
}

impl WithdrawSol {
    /// Tells whether a withdrawal of `amount` would be accepted, and why not
    /// if it would not, without moving anything.
    pub fn check(&self, amount: u64) -> (r: Result<(), PaymentProcessorError>)
        ensures
            match self.rejection(amount) {
                Some(e) => r == Err::<(), _>(e),
                None => r is Ok,
            },
    {
        if !self.program_state.is_owner_or_admin(&self.authority) {
            return Err(PaymentProcessorError::UnauthorizedAccess);
        }
        let covered = match amount.checked_add(self.rent_exempt_minimum) {
            Some(needed) => self.program_state_lamports >= needed,
            None => false,
        };
        if !covered {
            return Err(PaymentProcessorError::InsufficientFunds);
        }
        Ok(())
    }
}

/// Moves `amount` of native balance from the state record to the receiving
/// account. The caller must be the owner or an admin, and the record must
/// keep its rent-exempt minimum. What leaves the record arrives at the
/// receiver: the two balances together stay what they were.
///
/// Where the withdrawal would be accepted, the receiver's balance must have
/// room for `amount`.
pub fn withdraw_sol(ctx: &mut WithdrawSol, amount: u64) -> (r: Result<(), PaymentProcessorError>)
    requires
        old(ctx).rejection(amount) is None ==> old(ctx).destination_lamports + amount <= u64::MAX,
    ensures
        match old(ctx).rejection(amount) {
            Some(e) => r == Err::<(), _>(e) && *final(ctx) == *old(ctx),
            None => {
                &&& r is Ok
                &&& final(ctx).program_state_lamports == old(ctx).program_state_lamports - amount
                &&& final(ctx).destination_lamports == old(ctx).destination_lamports + amount
                &&& final(ctx).program_state_lamports >= old(ctx).rent_exempt_minimum
            },
        },
        final(ctx).program_state == old(ctx).program_state,
        final(ctx).authority == old(ctx).authority,
        final(ctx).rent_exempt_minimum == old(ctx).rent_exempt_minimum,
        final(ctx).program_state_lamports + final(ctx).destination_lamports == old(
            ctx,
        ).program_state_lamports + old(ctx).destination_lamports,
{
    match ctx.check(amount) {
        Ok(()) => {},
        Err(e) => {
            return Err(e);
        },
    }
    ctx.program_state_lamports = ctx.program_state_lamports - amount;
    ctx.destination_lamports = ctx.destination_lamports + amount;
    Ok(())
}

} // verus!
