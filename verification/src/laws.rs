//! What holds of the operations taken together.

use crate::accounts::{ProcessPayment, Withdraw, WithdrawSol};
use crate::error::PaymentProcessorError;
use crate::identity::{accepted_mint, spec_is_valid_token_program, Identity};
use crate::instruction::{lemma_transfer_payload, transfer_amount, TRANSFER_TAG};
use crate::processor::{
    accepted, add_admin_outcome, change_owner_outcome, refused, remove_admin_outcome,
};
use crate::state::ProgramStateView;
use crate::token_record::{record_balance, record_mint, TokenRecord, TOKEN_RECORD_MIN_LEN};
use vstd::prelude::*;

verus! {

/// Data holds one record and no other: what `TokenRecord::parse` returns
/// for it is settled by the data alone.
pub proof fn law_record_is_settled(a: TokenRecord, b: TokenRecord, data: Seq<u8>)
    requires
        a.decodes(data),
        b.decodes(data),
    ensures
        a == b,
{
    Identity::lemma_view_injective(a.mint, b.mint);
    Identity::lemma_view_injective(a.holder, b.holder);
}

/// An accepted addition appends the new admin and makes it one. Whoever
/// was authorized stays authorized, and a list without duplicates stays
/// one.
pub proof fn law_add_admin_keeps_authorized(
    state: ProgramStateView,
    authority: Identity,
    new_admin: Identity,
    other: Identity,
)
    requires
        add_admin_outcome(state, authority, new_admin).result is Ok,
    ensures
        add_admin_outcome(state, authority, new_admin).state.admins == state.admins.push(new_admin),
        add_admin_outcome(state, authority, new_admin).state.is_admin(new_admin),
        state.is_owner_or_admin(other) ==> add_admin_outcome(
            state,
            authority,
            new_admin,
        ).state.is_owner_or_admin(other),
        state.wf() ==> add_admin_outcome(state, authority, new_admin).state.wf(),
{
    let next = state.admins.push(new_admin);
    assert(next[state.admins.len() as int] == new_admin);
    if state.is_admin(other) {
        let i = choose|i: int| 0 <= i < state.admins.len() && state.admins[i] == other;
        assert(next[i] == other);
    }
}

/// Adding an identity and then removing it gives back the admins there
/// were, each in its place, whoever of the authorized asks for the removal.
pub proof fn law_add_then_remove_restores(
    state: ProgramStateView,
    adder: Identity,
    remover: Identity,
    identity: Identity,
)
    requires
        add_admin_outcome(state, adder, identity).result is Ok,
        remove_admin_outcome(
            add_admin_outcome(state, adder, identity).state,
            remover,
            identity,
        ).result is Ok,
    ensures
        remove_admin_outcome(add_admin_outcome(state, adder, identity).state, remover, identity)
            == accepted(state),
{
    let added = state.admins.push(identity);
    added.index_of_first_ensures(identity);
    let i = added.index_of_first(identity).unwrap();
    if i < state.admins.len() {
        assert(state.admins[i] == added[i]);
        assert(state.admins.contains(identity));
    }
    assert(added.remove(i) =~= state.admins);
}

/// Adding the same identity a second time is refused as a duplicate and
/// changes nothing, whether the first caller asks again or anyone else who
/// is authorized.
pub proof fn law_add_admin_twice_rejected(
    state: ProgramStateView,
    first: Identity,
    second: Identity,
    identity: Identity,
)
    requires
        add_admin_outcome(state, first, identity).result is Ok,
        second == first || add_admin_outcome(state, first, identity).state.is_owner_or_admin(
            second,
        ),
    ensures
        add_admin_outcome(add_admin_outcome(state, first, identity).state, second, identity)
            == refused(
            add_admin_outcome(state, first, identity).state,
            PaymentProcessorError::AdminAlreadyExists,
        ),
{
    law_add_admin_keeps_authorized(state, first, identity, first);
}

/// An identity that is listed once is no admin any more after its removal,
/// and everyone else is as authorized as before.
pub proof fn law_remove_admin_revokes(
    state: ProgramStateView,
    authority: Identity,
    identity: Identity,
    other: Identity,
)
    requires
        state.wf(),
        remove_admin_outcome(state, authority, identity).result is Ok,
    ensures
        !remove_admin_outcome(state, authority, identity).state.is_admin(identity),
        remove_admin_outcome(state, authority, identity).state.wf(),
        other != identity ==> (remove_admin_outcome(state, authority, identity).state.is_admin(
            other,
        ) <==> state.is_admin(other)),
        remove_admin_outcome(state, authority, identity).state.admins.len() + 1
            == state.admins.len(),
{
    state.admins.index_of_first_ensures(identity);
    let i = state.admins.index_of_first(identity).unwrap();
    let rest = state.admins.remove(i);
    assert forall|k: int| 0 <= k < rest.len() implies rest[k] == state.admins[if k < i {
        k
    } else {
        k + 1
    }] by {}
    if rest.contains(identity) {
        let k = choose|k: int| 0 <= k < rest.len() && rest[k] == identity;
        assert(state.admins[if k < i { k } else { k + 1 }] == identity);
    }
    if other != identity {
        if state.is_admin(other) {
            let j = choose|j: int| 0 <= j < state.admins.len() && state.admins[j] == other;
            assert(rest[if j < i { j } else { j - 1 }] == other);
        }
        if rest.contains(other) {
            let k = choose|k: int| 0 <= k < rest.len() && rest[k] == other;
            assert(state.admins[if k < i { k } else { k + 1 }] == other);
        }
    }
}

/// An admin who is not the owner cannot replace the owner: the attempt is
/// refused and changes nothing. So is that of anyone else but the owner.
pub proof fn law_change_owner_only_by_owner(
    state: ProgramStateView,
    authority: Identity,
    new_owner: Identity,
)
    requires
        authority != state.owner,
    ensures
        change_owner_outcome(state, authority, new_owner) == refused(
            state,
            PaymentProcessorError::OnlyOwnerCanChangeOwner,
        ),
{
}

/// The owner's change of owner goes through, touches no admin, and takes
/// the old owner's right to change the owner again unless the new owner is
/// the old one.
pub proof fn law_change_owner_hands_over(
    state: ProgramStateView,
    new_owner: Identity,
    next_owner: Identity,
)
    ensures
        change_owner_outcome(state, state.owner, new_owner) == accepted(
            state.with_owner(new_owner),
        ),
        change_owner_outcome(state, state.owner, new_owner).state.admins == state.admins,
        new_owner != state.owner ==> change_owner_outcome(
            state.with_owner(new_owner),
            state.owner,
            next_owner,
        ).result == Err::<(), _>(PaymentProcessorError::OnlyOwnerCanChangeOwner),
{
}

/// A custody account that holds a record of the accepted mint is in use:
/// no payment initializes it again.
pub proof fn law_custody_initialized_once(ctx: ProcessPayment)
    requires
        ctx.token_mint == accepted_mint(),
        ctx.custody_record_valid(),
    ensures
        !ctx.program_token_account.spec_needs_initialization(),
        ctx.rejection() is None ==> forall|amount: u64|
            (#[trigger] ctx.plan(amount)).initialize_account is None,
{
    assert(accepted_mint()@[0] == 188);
    assert(record_mint(ctx.program_token_account.data@)[0] == ctx.program_token_account.data@[0]);
}

/// A payment is accepted exactly when the mint is the accepted one, the
/// token program is supported and owns the user's token account, that
/// account holds a record of the mint with the user as holder, and the
/// custody account either holds no record yet or belongs to the token
/// program and holds a record of the mint.
pub proof fn law_payment_accepted_iff(ctx: ProcessPayment)
    ensures
        ctx.rejection() is None <==> {
            &&& ctx.token_mint == accepted_mint()
            &&& spec_is_valid_token_program(ctx.token_program)
            &&& ctx.user_token_account.owner == ctx.token_program
            &&& ctx.user_record_valid()
            &&& (ctx.program_token_account.spec_needs_initialization() || (
            ctx.program_token_account.owner == ctx.token_program && ctx.custody_record_valid()))
        },
        ctx.rejection() == Some(PaymentProcessorError::InvalidTokenMint) <==> ctx.token_mint
            != accepted_mint(),
        ctx.rejection() is Some ==> ctx.rejection() == Some(
            PaymentProcessorError::InvalidTokenMint,
        ) || ctx.rejection() == Some(PaymentProcessorError::InvalidTokenProgram)
            || ctx.rejection() == Some(PaymentProcessorError::InvalidTokenAccount),
{
}

/// A withdrawal is accepted exactly when the caller is the owner or an
/// admin, the token program is supported and owns both token accounts, the
/// custody account holds a record with at least `amount`, and the receiving
/// account holds a record of the mint.
pub proof fn law_withdraw_accepted_iff(ctx: Withdraw, amount: u64)
    ensures
        ctx.rejection(amount) is None <==> {
            &&& ctx.program_state@.is_owner_or_admin(ctx.authority)
            &&& spec_is_valid_token_program(ctx.token_program)
            &&& ctx.program_token_account.owner == ctx.token_program
            &&& ctx.program_token_account.data@.len() >= TOKEN_RECORD_MIN_LEN
            &&& ctx.custody_covers(amount)
            &&& ctx.destination_token_account.owner == ctx.token_program
            &&& ctx.destination_record_valid()
        },
        ctx.rejection(amount) == Some(PaymentProcessorError::UnauthorizedAccess)
            <==> !ctx.program_state@.is_owner_or_admin(ctx.authority),
{
}

/// No withdrawal of more than the custody record holds is accepted, and
/// none from a custody account too short to hold a record.
pub proof fn law_withdraw_within_balance(ctx: Withdraw, amount: u64)
    requires
        ctx.program_token_account.data@.len() < TOKEN_RECORD_MIN_LEN || amount > record_balance(
            ctx.program_token_account.data@,
        ),
    ensures
        ctx.rejection(amount) is Some,
{
}

/// An accepted withdrawal plans one transfer: of exactly `amount`, out of
/// the custody account, into the receiving account, under the token program
/// that owns both, signed for the custody account itself.
pub proof fn law_withdraw_moves_amount(ctx: Withdraw, amount: u64)
    requires
        ctx.rejection(amount) is None,
    ensures
        amount <= record_balance(ctx.program_token_account.data@),
        ctx.plan(amount).transfer.data.len() == 9,
        ctx.plan(amount).transfer.data[0] == TRANSFER_TAG,
        transfer_amount(ctx.plan(amount).transfer.data) == amount,
        ctx.plan(amount).transfer.accounts[0].pubkey == ctx.program_token_account.key,
        ctx.plan(amount).transfer.accounts[1].pubkey == ctx.destination_token_account.key,
        ctx.plan(amount).transfer.accounts[2].pubkey == ctx.program_token_account.key,
        ctx.plan(amount).transfer.accounts[2].is_signer,
        ctx.plan(amount).transfer.program_id == ctx.program_token_account.owner,
        ctx.plan(amount).transfer.program_id == ctx.destination_token_account.owner,
        ctx.plan(amount).signer.mint == ctx.token_mint,
{
    lemma_transfer_payload(amount);
}

/// An accepted payment plans one transfer: of exactly `amount`, out of the
/// user's token account, into the custody account, signed by the user. The
/// custody account is initialized first exactly when it holds no record
/// yet.
pub proof fn law_payment_moves_amount(ctx: ProcessPayment, amount: u64)
    requires
        ctx.rejection() is None,
    ensures
        transfer_amount(ctx.plan(amount).transfer.data) == amount,
        ctx.plan(amount).transfer.accounts[0].pubkey == ctx.user_token_account.key,
        ctx.plan(amount).transfer.accounts[1].pubkey == ctx.program_token_account.key,
        ctx.plan(amount).transfer.accounts[2].pubkey == ctx.user,
        ctx.plan(amount).transfer.accounts[2].is_signer,
        ctx.plan(amount).transfer.program_id == ctx.user_token_account.owner,
        ctx.plan(amount).initialize_account is Some
            <==> ctx.program_token_account.spec_needs_initialization(),
{
    lemma_transfer_payload(amount);
}

/// A withdrawal of native balance is accepted exactly when the caller is
/// authorized and the record keeps its rent-exempt minimum.
pub proof fn law_withdraw_sol_keeps_minimum(ctx: WithdrawSol, amount: u64)
    ensures
        ctx.rejection(amount) is None <==> ctx.program_state@.is_owner_or_admin(ctx.authority)
            && ctx.program_state_lamports - amount >= ctx.rent_exempt_minimum,
{
}

} // verus!
