use libertai_payment_processor::{
    process_payment, withdraw, withdraw_sol, AccountMeta, Identity, PaymentEvent,
    PaymentProcessorError, ProcessPayment, ProgramState, RawAccount, SignerSeeds, Withdraw,
    WithdrawSol, ACCEPTED_MINT, SPL_TOKEN_PROGRAM_ID, TOKEN_2022_PROGRAM_ID,
};

fn id(n: u8) -> Identity {
    Identity::new([n; 32])
}

fn mint() -> Identity {
    Identity::new(ACCEPTED_MINT)
}

fn spl() -> Identity {
    Identity::new(SPL_TOKEN_PROGRAM_ID)
}

fn record_bytes(mint: &Identity, holder: &Identity, balance: u64, len: usize) -> Vec<u8> {
    let mut data = Vec::new();
    data.extend_from_slice(&mint.bytes);
    data.extend_from_slice(&holder.bytes);
    data.extend_from_slice(&balance.to_le_bytes());
    data.resize(len, 0);
    data
}

const USER: u8 = 10;
const USER_TOKENS: u8 = 11;
const CUSTODY: u8 = 12;
const RENT: u8 = 13;
const DESTINATION: u8 = 14;
const OWNER: u8 = 20;
const ADMIN: u8 = 21;

fn payment() -> ProcessPayment {
    ProcessPayment {
        user: id(USER),
        user_token_account: RawAccount {
            key: id(USER_TOKENS),
            owner: spl(),
            data: record_bytes(&mint(), &id(USER), 5000, 165),
        },
        program_token_account: RawAccount {
            key: id(CUSTODY),
            owner: spl(),
            data: record_bytes(&mint(), &id(CUSTODY), 0, 165),
        },
        token_mint: mint(),
        token_program: spl(),
        rent: id(RENT),
    }
}

fn withdrawal() -> Withdraw {
    Withdraw {
        program_state: ProgramState { owner: id(OWNER), admins: vec![id(ADMIN)], bump: 254 },
        authority: id(OWNER),
        program_token_account: RawAccount {
            key: id(CUSTODY),
            owner: spl(),
            data: record_bytes(&mint(), &id(CUSTODY), 1000, 165),
        },
        program_token_account_bump: 253,
        destination_token_account: RawAccount {
            key: id(DESTINATION),
            owner: spl(),
            data: record_bytes(&mint(), &id(30), 0, 165),
        },
        token_mint: mint(),
        token_program: spl(),
    }
}

#[test]
fn payment_into_an_active_custody_account_is_one_transfer() {
    let ctx = payment();
    let plan = process_payment(&ctx, 1000).unwrap();
    assert_eq!(plan.initialize_account, None);
    assert_eq!(plan.transfer.program_id, spl());
    assert_eq!(plan.transfer.data, vec![3, 0xe8, 0x03, 0, 0, 0, 0, 0, 0]);
    assert_eq!(
        plan.transfer.accounts,
        vec![
            AccountMeta { pubkey: id(USER_TOKENS), is_signer: false, is_writable: true },
            AccountMeta { pubkey: id(CUSTODY), is_signer: false, is_writable: true },
            AccountMeta { pubkey: id(USER), is_signer: true, is_writable: false },
        ]
    );
}

#[test]
fn payment_into_an_empty_custody_account_initializes_it_first() {
    let mut ctx = payment();
    ctx.program_token_account.data = vec![];
    let plan = process_payment(&ctx, 7).unwrap();
    let init = plan.initialize_account.unwrap();
    assert_eq!(init.program_id, spl());
    assert_eq!(init.data, vec![1]);
    assert_eq!(
        init.accounts,
        vec![
            AccountMeta { pubkey: id(CUSTODY), is_signer: false, is_writable: true },
            AccountMeta { pubkey: mint(), is_signer: false, is_writable: false },
            AccountMeta { pubkey: id(CUSTODY), is_signer: false, is_writable: false },
            AccountMeta { pubkey: id(RENT), is_signer: false, is_writable: false },
        ]
    );
    assert_eq!(plan.transfer.data, vec![3, 7, 0, 0, 0, 0, 0, 0, 0]);
}

#[test]
fn payment_into_a_zeroed_custody_account_initializes_it_first() {
    let mut ctx = payment();
    ctx.program_token_account.data = vec![0; 165];
    assert!(process_payment(&ctx, 7).unwrap().initialize_account.is_some());
    ctx.program_token_account.data = vec![0];
    assert!(process_payment(&ctx, 7).unwrap().initialize_account.is_some());
}

#[test]
fn an_uninitialized_custody_account_is_not_inspected() {
    let mut ctx = payment();
    ctx.program_token_account.owner = id(99);
    ctx.program_token_account.data = vec![0; 10];
    assert!(process_payment(&ctx, 7).unwrap().initialize_account.is_some());
}

#[test]
fn payment_with_token_2022() {
    let mut ctx = payment();
    let program = Identity::new(TOKEN_2022_PROGRAM_ID);
    ctx.token_program = program;
    ctx.user_token_account.owner = program;
    ctx.program_token_account.owner = program;
    let plan = process_payment(&ctx, 1).unwrap();
    assert_eq!(plan.transfer.program_id, program);
}

#[test]
fn payment_of_another_mint_is_refused() {
    let mut ctx = payment();
    ctx.token_mint = id(1);
    ctx.user_token_account.data = record_bytes(&id(1), &id(USER), 5000, 165);
    ctx.program_token_account.data = record_bytes(&id(1), &id(CUSTODY), 0, 165);
    assert_eq!(process_payment(&ctx, 1), Err(PaymentProcessorError::InvalidTokenMint));
}

#[test]
fn payment_through_an_unknown_token_program_is_refused() {
    let mut ctx = payment();
    ctx.token_program = id(99);
    ctx.user_token_account.owner = id(99);
    ctx.program_token_account.owner = id(99);
    assert_eq!(process_payment(&ctx, 1), Err(PaymentProcessorError::InvalidTokenProgram));
}

#[test]
fn payment_from_an_account_of_the_other_token_program_is_refused() {
    let mut ctx = payment();
    ctx.user_token_account.owner = Identity::new(TOKEN_2022_PROGRAM_ID);
    assert_eq!(process_payment(&ctx, 1), Err(PaymentProcessorError::InvalidTokenProgram));
}

#[test]
fn payment_from_a_short_token_account_is_refused() {
    let mut ctx = payment();
    ctx.user_token_account.data.truncate(71);
    assert_eq!(process_payment(&ctx, 1), Err(PaymentProcessorError::InvalidTokenAccount));
    ctx.user_token_account.data = vec![];
    assert_eq!(process_payment(&ctx, 1), Err(PaymentProcessorError::InvalidTokenAccount));
}

#[test]
fn payment_from_a_token_account_of_another_mint_is_refused() {
    let mut ctx = payment();
    ctx.user_token_account.data = record_bytes(&id(1), &id(USER), 5000, 165);
    assert_eq!(process_payment(&ctx, 1), Err(PaymentProcessorError::InvalidTokenAccount));
}

#[test]
fn payment_from_someone_elses_token_account_is_refused() {
    let mut ctx = payment();
    ctx.user_token_account.data = record_bytes(&mint(), &id(77), 5000, 165);
    assert_eq!(process_payment(&ctx, 1), Err(PaymentProcessorError::InvalidTokenAccount));
}

#[test]
fn payment_into_a_custody_account_of_another_program_is_refused() {
    let mut ctx = payment();
    ctx.program_token_account.owner = Identity::new(TOKEN_2022_PROGRAM_ID);
    assert_eq!(process_payment(&ctx, 1), Err(PaymentProcessorError::InvalidTokenProgram));
}

#[test]
fn payment_into_a_short_custody_account_is_refused() {
    let mut ctx = payment();
    ctx.program_token_account.data.truncate(71);
    assert_eq!(process_payment(&ctx, 1), Err(PaymentProcessorError::InvalidTokenAccount));
}

#[test]
fn payment_into_a_custody_account_of_another_mint_is_refused() {
    let mut ctx = payment();
    ctx.program_token_account.data = record_bytes(&id(1), &id(CUSTODY), 0, 165);
    assert_eq!(process_payment(&ctx, 1), Err(PaymentProcessorError::InvalidTokenAccount));
}

#[test]
fn payment_is_planned_whatever_the_users_balance() {
    let mut ctx = payment();
    ctx.user_token_account.data = record_bytes(&mint(), &id(USER), 0, 165);
    assert!(process_payment(&ctx, 1000).is_ok());
}

#[test]
fn payment_event_echoes_the_payment() {
    let ctx = payment();
    assert_eq!(
        ctx.event(1000, 1_700_000_000),
        PaymentEvent { user: id(USER), amount: 1000, timestamp: 1_700_000_000, token_mint: mint() }
    );
    assert_eq!(ctx.event(0, -5).timestamp, -5);
}

#[test]
fn withdrawal_by_the_owner() {
    let ctx = withdrawal();
    let plan = withdraw(&ctx, 400).unwrap();
    assert_eq!(plan.transfer.program_id, spl());
    assert_eq!(plan.transfer.data, vec![3, 0x90, 0x01, 0, 0, 0, 0, 0, 0]);
    assert_eq!(
        plan.transfer.accounts,
        vec![
            AccountMeta { pubkey: id(CUSTODY), is_signer: false, is_writable: true },
            AccountMeta { pubkey: id(DESTINATION), is_signer: false, is_writable: true },
            AccountMeta { pubkey: id(CUSTODY), is_signer: true, is_writable: false },
        ]
    );
    assert_eq!(plan.signer, SignerSeeds { mint: mint(), bump: 253 });
}

#[test]
fn withdrawal_by_an_admin() {
    let mut ctx = withdrawal();
    ctx.authority = id(ADMIN);
    assert!(withdraw(&ctx, 400).is_ok());
}

#[test]
fn withdrawal_of_the_whole_balance() {
    let ctx = withdrawal();
    assert!(withdraw(&ctx, 1000).is_ok());
    assert!(withdraw(&ctx, 0).is_ok());
}

#[test]
fn withdrawal_of_more_than_the_balance_is_refused() {
    let ctx = withdrawal();
    assert_eq!(withdraw(&ctx, 1001), Err(PaymentProcessorError::InsufficientFunds));
    assert_eq!(withdraw(&ctx, u64::MAX), Err(PaymentProcessorError::InsufficientFunds));
}

#[test]
fn withdrawal_by_a_stranger_is_unauthorized() {
    let mut ctx = withdrawal();
    ctx.authority = id(99);
    assert_eq!(withdraw(&ctx, 1), Err(PaymentProcessorError::UnauthorizedAccess));
    assert_eq!(withdraw(&ctx, 5000), Err(PaymentProcessorError::UnauthorizedAccess));
}

#[test]
fn withdrawal_through_an_unknown_token_program_is_refused() {
    let mut ctx = withdrawal();
    ctx.token_program = id(99);
    ctx.program_token_account.owner = id(99);
    ctx.destination_token_account.owner = id(99);
    assert_eq!(withdraw(&ctx, 1), Err(PaymentProcessorError::InvalidTokenProgram));
}

#[test]
fn withdrawal_from_a_custody_account_of_another_program_is_refused() {
    let mut ctx = withdrawal();
    ctx.program_token_account.owner = Identity::new(TOKEN_2022_PROGRAM_ID);
    assert_eq!(withdraw(&ctx, 1), Err(PaymentProcessorError::InvalidTokenProgram));
}

#[test]
fn withdrawal_from_a_short_custody_account_is_refused() {
    let mut ctx = withdrawal();
    ctx.program_token_account.data.truncate(71);
    assert_eq!(withdraw(&ctx, 0), Err(PaymentProcessorError::InvalidTokenAccount));
}

#[test]
fn withdrawal_to_an_account_of_another_program_is_refused() {
    let mut ctx = withdrawal();
    ctx.destination_token_account.owner = Identity::new(TOKEN_2022_PROGRAM_ID);
    assert_eq!(withdraw(&ctx, 1), Err(PaymentProcessorError::InvalidTokenProgram));
}

#[test]
fn withdrawal_to_a_short_account_is_refused() {
    let mut ctx = withdrawal();
    ctx.destination_token_account.data.truncate(40);
    assert_eq!(withdraw(&ctx, 1), Err(PaymentProcessorError::InvalidTokenAccount));
}

#[test]
fn withdrawal_to_an_account_of_another_mint_is_refused() {
    let mut ctx = withdrawal();
    ctx.destination_token_account.data = record_bytes(&id(1), &id(30), 0, 165);
    assert_eq!(withdraw(&ctx, 1), Err(PaymentProcessorError::InvalidTokenAccount));
}

#[test]
fn the_balance_is_checked_before_the_destination() {
    let mut ctx = withdrawal();
    ctx.destination_token_account.owner = id(99);
    assert_eq!(withdraw(&ctx, 1001), Err(PaymentProcessorError::InsufficientFunds));
    assert_eq!(withdraw(&ctx, 1000), Err(PaymentProcessorError::InvalidTokenProgram));
}

fn native(lamports: u64, minimum: u64, destination: u64) -> WithdrawSol {
    WithdrawSol {
        program_state: ProgramState { owner: id(OWNER), admins: vec![id(ADMIN)], bump: 254 },
        program_state_lamports: lamports,
        rent_exempt_minimum: minimum,
        authority: id(OWNER),
        destination_lamports: destination,
    }
}

#[test]
fn native_withdrawal_moves_the_amount() {
    let mut ctx = native(10_000, 1_000, 50);
    assert_eq!(withdraw_sol(&mut ctx, 4_000), Ok(()));
    assert_eq!(ctx.program_state_lamports, 6_000);
    assert_eq!(ctx.destination_lamports, 4_050);
    assert_eq!(ctx.rent_exempt_minimum, 1_000);
}

#[test]
fn native_withdrawal_down_to_the_minimum() {
    let mut ctx = native(10_000, 1_000, 0);
    assert_eq!(withdraw_sol(&mut ctx, 9_000), Ok(()));
    assert_eq!(ctx.program_state_lamports, 1_000);
    assert_eq!(ctx.destination_lamports, 9_000);
}

#[test]
fn native_withdrawal_below_the_minimum_is_refused() {
    let mut ctx = native(10_000, 1_000, 50);
    let before = ctx.clone();
    assert_eq!(withdraw_sol(&mut ctx, 9_001), Err(PaymentProcessorError::InsufficientFunds));
    assert_eq!(ctx, before);
}

#[test]
fn native_withdrawal_whose_need_exceeds_the_word_is_refused() {
    let mut ctx = native(u64::MAX, 2, 0);
    let before = ctx.clone();
    assert_eq!(withdraw_sol(&mut ctx, u64::MAX - 1), Err(PaymentProcessorError::InsufficientFunds));
    assert_eq!(withdraw_sol(&mut ctx, u64::MAX), Err(PaymentProcessorError::InsufficientFunds));
    assert_eq!(ctx, before);
}

#[test]
fn native_withdrawal_by_an_admin() {
    let mut ctx = native(10_000, 1_000, 50);
    ctx.authority = id(ADMIN);
    assert_eq!(withdraw_sol(&mut ctx, 1), Ok(()));
    assert_eq!(ctx.program_state_lamports, 9_999);
    assert_eq!(ctx.destination_lamports, 51);
}

#[test]
fn native_withdrawal_by_a_stranger_is_unauthorized() {
    let mut ctx = native(10_000, 1_000, 50);
    ctx.authority = id(99);
    let before = ctx.clone();
    assert_eq!(withdraw_sol(&mut ctx, 1), Err(PaymentProcessorError::UnauthorizedAccess));
    assert_eq!(ctx, before);
}

#[test]
fn native_withdrawal_conserves_the_balances() {
    for (lamports, minimum, destination, amount) in
        [(10_000u64, 1_000u64, 50u64, 0u64), (10_000, 0, 0, 10_000), (5, 5, u64::MAX - 5, 0)]
    {
        let mut ctx = native(lamports, minimum, destination);
        assert_eq!(withdraw_sol(&mut ctx, amount), Ok(()));
        assert_eq!(
            ctx.program_state_lamports as u128 + ctx.destination_lamports as u128,
            lamports as u128 + destination as u128
        );
    }
}

#[test]
fn native_withdrawal_can_be_checked_without_moving_anything() {
    let ctx = native(10_000, 1_000, 50);
    assert_eq!(ctx.check(9_000), Ok(()));
    assert_eq!(ctx.check(9_001), Err(PaymentProcessorError::InsufficientFunds));
    assert_eq!(ctx.check(u64::MAX), Err(PaymentProcessorError::InsufficientFunds));
    let mut stranger = native(10_000, 1_000, 50);
    stranger.authority = id(99);
    assert_eq!(stranger.check(1), Err(PaymentProcessorError::UnauthorizedAccess));
    assert_eq!(ctx, native(10_000, 1_000, 50));
}

#[test]
fn an_account_needs_initialization_when_empty_or_zero_tagged() {
    let mut account = RawAccount { key: id(1), owner: spl(), data: vec![] };
    assert!(account.needs_initialization());
    account.data = vec![0; 165];
    assert!(account.needs_initialization());
    account.data = vec![0, 1, 2];
    assert!(account.needs_initialization());
    account.data = vec![1];
    assert!(!account.needs_initialization());
    account.data = record_bytes(&mint(), &id(1), 0, 165);
    assert!(!account.needs_initialization());
}
