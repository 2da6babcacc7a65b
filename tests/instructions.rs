use anchor_lang::solana_program::program_option::COption;
use anchor_lang::solana_program::program_pack::Pack;
use anchor_lang::solana_program::pubkey::Pubkey;
use anchor_spl::token::spl_token::state::{Account, AccountState, Mint};
use gasless_sol::accounts::{escrow_authority_address, escrow_state_address};
use gasless_sol::authorization::SignatureProof;
use gasless_sol::error::GaslessError;
use gasless_sol::instructions::{initialize_escrow, relayed_transfer, InitializeEscrow, RelayedTransfer};
use gasless_sol::message::build_permit_message;
use gasless_sol::relay::ProgramIds;
use gasless_sol::state::EscrowState;

const NOW: i64 = 1_700_000_000;

fn programs() -> ProgramIds {
    ProgramIds { program_id: [90u8; 32], signature_program: [91u8; 32], token_program: [92u8; 32] }
}

fn owner() -> [u8; 32] {
    [1u8; 32]
}

fn mint() -> [u8; 32] {
    [2u8; 32]
}

fn pda(tag: &[u8]) -> (Pubkey, u8) {
    let program = Pubkey::new_from_array(programs().program_id);
    Pubkey::find_program_address(&[tag, &owner(), &mint()], &program)
}

fn mint_data() -> Vec<u8> {
    let m = Mint {
        mint_authority: COption::None,
        supply: 1_000_000,
        decimals: 6,
        is_initialized: true,
        freeze_authority: COption::None,
    };
    let mut d = vec![0u8; Mint::LEN];
    Mint::pack(m, &mut d).unwrap();
    d
}

fn token_data(mint: [u8; 32], owner: [u8; 32], amount: u64) -> Vec<u8> {
    let a = Account {
        mint: Pubkey::new_from_array(mint),
        owner: Pubkey::new_from_array(owner),
        amount,
        delegate: COption::None,
        state: AccountState::Initialized,
        is_native: COption::None,
        delegated_amount: 0,
        close_authority: COption::None,
    };
    let mut d = vec![0u8; Account::LEN];
    Account::pack(a, &mut d).unwrap();
    d
}

fn stored_state(last_nonce: u64) -> Vec<u8> {
    let mut s = EscrowState::new(owner(), mint(), [3u8; 32], pda(b"escrow").1);
    s.last_nonce = last_nonce;
    s.encode()
}

fn signed(amount: u64, fee: u64, deadline: i64, nonce: u64) -> SignatureProof {
    let mut data = vec![0u8; 64];
    data.extend_from_slice(&owner());
    data.extend_from_slice(&build_permit_message(&owner(), &programs().program_id, amount, fee, deadline, nonce));
    SignatureProof { program_id: programs().signature_program, data }
}

fn relay_ctx(balance: u64, record: SignatureProof) -> RelayedTransfer {
    let authority = pda(b"escrow").0.to_bytes();
    RelayedTransfer {
        relayer: [10u8; 32],
        mint: mint(),
        mint_data: mint_data(),
        pda: authority,
        escrow_ata: [3u8; 32],
        escrow_ata_data: token_data(mint(), authority, balance),
        receiver_ata: [5u8; 32],
        receiver_ata_data: token_data(mint(), [6u8; 32], 0),
        relayer_ata: [11u8; 32],
        relayer_ata_data: token_data(mint(), [10u8; 32], 0),
        state: pda(b"state").0.to_bytes(),
        state_data: stored_state(0),
        token_program: programs().token_program,
        first_instruction: Some(record),
    }
}

#[test]
fn derived_addresses_match_the_ledger() {
    let (k, b) = escrow_authority_address(&owner(), &mint(), &programs().program_id).unwrap();
    assert_eq!((Pubkey::new_from_array(k), b), pda(b"escrow"));
    let (k, b) = escrow_state_address(&owner(), &mint(), &programs().program_id).unwrap();
    assert_eq!((Pubkey::new_from_array(k), b), pda(b"state"));
    assert_ne!(k, owner());
}

#[test]
fn relayed_transfer_commits_nonce_and_plans_transfers() {
    let mut ctx = relay_ctx(1_000, signed(100, 1, NOW + 60, 1));
    let st = relayed_transfer(&mut ctx, &programs(), NOW, 100, 1, NOW + 60, owner(), &vec![0u8; 64], 1).unwrap();
    assert_eq!(st.transfers.len(), 2);
    assert_eq!(st.transfers[0].amount, 100);
    assert_eq!(st.transfers[1].amount, 1);
    assert_eq!(st.authority_bump, pda(b"escrow").1);
    assert_eq!(st.event.receiver, [6u8; 32]);
    assert_eq!(ctx.state_data, stored_state(1));
    let again = relayed_transfer(&mut ctx, &programs(), NOW, 100, 1, NOW + 60, owner(), &vec![0u8; 64], 1);
    assert_eq!(again.unwrap_err(), GaslessError::InvalidOrReplayedNonce);
    assert_eq!(ctx.state_data, stored_state(1));
}

#[test]
fn relayed_transfer_reads_escrow_balance() {
    let mut ctx = relay_ctx(100, signed(100, 1, NOW + 60, 1));
    let r = relayed_transfer(&mut ctx, &programs(), NOW, 100, 1, NOW + 60, owner(), &vec![], 1);
    assert_eq!(r.unwrap_err(), GaslessError::InsufficientFunds);
    assert_eq!(ctx.state_data, stored_state(0));
}

#[test]
fn relayed_transfer_refuses_foreign_authority() {
    let mut ctx = relay_ctx(1_000, signed(100, 1, NOW + 60, 1));
    ctx.pda = [44u8; 32];
    ctx.escrow_ata_data = token_data(mint(), [44u8; 32], 1_000);
    let r = relayed_transfer(&mut ctx, &programs(), NOW, 100, 1, NOW + 60, owner(), &vec![], 1);
    assert_eq!(r.unwrap_err(), GaslessError::AccountMismatch);
}

#[test]
fn relayed_transfer_refuses_unparsable_accounts() {
    let mut ctx = relay_ctx(1_000, signed(100, 1, NOW + 60, 1));
    ctx.escrow_ata_data = vec![0u8; 10];
    let r = relayed_transfer(&mut ctx, &programs(), NOW, 100, 1, NOW + 60, owner(), &vec![], 1);
    assert_eq!(r.unwrap_err(), GaslessError::AccountMismatch);
    let mut ctx = relay_ctx(1_000, signed(100, 1, NOW + 60, 1));
    ctx.state_data = vec![0u8; 50];
    let r = relayed_transfer(&mut ctx, &programs(), NOW, 100, 1, NOW + 60, owner(), &vec![], 1);
    assert_eq!(r.unwrap_err(), GaslessError::AccountMismatch);
}

fn init_ctx() -> InitializeEscrow {
    let authority = pda(b"escrow").0.to_bytes();
    InitializeEscrow {
        owner: owner(),
        mint: mint(),
        mint_data: mint_data(),
        pda: authority,
        escrow_ata: [3u8; 32],
        escrow_ata_data: token_data(mint(), authority, 0),
        state: pda(b"state").0.to_bytes(),
        state_in_use: false,
    }
}

#[test]
fn initialize_escrow_creates_fresh_record() {
    let bump = pda(b"escrow").1;
    let s = initialize_escrow(&init_ctx(), &programs().program_id, bump).unwrap();
    assert_eq!(s.owner, owner());
    assert_eq!(s.mint, mint());
    assert_eq!(s.escrow, [3u8; 32]);
    assert_eq!(s.bump, bump);
    assert_eq!(s.last_nonce, 0);
}

#[test]
fn initialize_escrow_fails_closed() {
    let bump = pda(b"escrow").1;
    let mut ctx = init_ctx();
    ctx.state_in_use = true;
    assert_eq!(initialize_escrow(&ctx, &programs().program_id, bump).unwrap_err(), GaslessError::BootstrapError);
    let mut ctx = init_ctx();
    ctx.escrow_ata_data = token_data(mint(), [44u8; 32], 0);
    assert_eq!(initialize_escrow(&ctx, &programs().program_id, bump).unwrap_err(), GaslessError::BootstrapError);
    let mut ctx = init_ctx();
    ctx.mint_data = vec![0u8; 82];
    assert_eq!(initialize_escrow(&ctx, &programs().program_id, bump).unwrap_err(), GaslessError::BootstrapError);
    let ctx = init_ctx();
    assert_eq!(
        initialize_escrow(&ctx, &programs().program_id, bump.wrapping_sub(1)).unwrap_err(),
        GaslessError::BootstrapError
    );
    let mut ctx = init_ctx();
    ctx.state = [45u8; 32];
    assert_eq!(initialize_escrow(&ctx, &programs().program_id, bump).unwrap_err(), GaslessError::BootstrapError);
}

#[test]
fn token_accounts_with_bad_option_tags_are_refused() {
    let mut ctx = relay_ctx(1_000, signed(100, 1, NOW + 60, 1));
    ctx.escrow_ata_data[72] = 2;
    let r = relayed_transfer(&mut ctx, &programs(), NOW, 100, 1, NOW + 60, owner(), &vec![], 1);
    assert_eq!(r.unwrap_err(), GaslessError::AccountMismatch);
    assert_eq!(ctx.state_data, stored_state(0));
}

#[test]
fn frozen_escrow_still_parses_but_uninitialized_does_not() {
    let mut ctx = relay_ctx(1_000, signed(100, 1, NOW + 60, 1));
    ctx.escrow_ata_data[108] = 2;
    assert!(relayed_transfer(&mut ctx, &programs(), NOW, 100, 1, NOW + 60, owner(), &vec![], 1).is_ok());
    let mut ctx = relay_ctx(1_000, signed(100, 1, NOW + 60, 1));
    ctx.escrow_ata_data[108] = 0;
    let r = relayed_transfer(&mut ctx, &programs(), NOW, 100, 1, NOW + 60, owner(), &vec![], 1);
    assert_eq!(r.unwrap_err(), GaslessError::AccountMismatch);
}

#[test]
fn mint_with_bad_authority_tag_is_refused() {
    let bump = pda(b"escrow").1;
    let mut ctx = init_ctx();
    ctx.mint_data[46] = 7;
    assert_eq!(initialize_escrow(&ctx, &programs().program_id, bump).unwrap_err(), GaslessError::BootstrapError);
    let mut ctx = relay_ctx(1_000, signed(100, 1, NOW + 60, 1));
    ctx.mint_data[1] = 1;
    let r = relayed_transfer(&mut ctx, &programs(), NOW, 100, 1, NOW + 60, owner(), &vec![], 1);
    assert_eq!(r.unwrap_err(), GaslessError::AccountMismatch);
}

#[test]
fn unparsable_receiver_is_an_account_mismatch() {
    let mut ctx = relay_ctx(1_000, signed(100, 1, NOW + 60, 1));
    ctx.receiver_ata_data = vec![1u8; 3];
    let r = relayed_transfer(&mut ctx, &programs(), NOW, 100, 1, NOW + 60, owner(), &vec![], 1);
    assert_eq!(r.unwrap_err(), GaslessError::AccountMismatch);
}
