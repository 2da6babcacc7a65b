use vstd::prelude::*;
use vstd::bytes::spec_u64_from_le_bytes;
use crate::accounts::{
    TokenAccount, derived_address, escrow_authority_address, escrow_seed, escrow_state_address,
    is_valid_mint, lemma_token_account_read_unique, mint_data_valid, state_seed,
    token_account_read_from, token_account_valid, unpack_token_account,
};
use crate::authorization::{SignatureProof, keys_equal};
use crate::error::GaslessError;
use crate::relay::{
    ProgramIds, RelayAccounts, RelayRequest, Settlement, committed, payment_event,
    planned_transfers, relay_outcome, settle_relay, transfer_plan,
};
use crate::state::{EscrowState, STATE_SIZE, lemma_state_read_unique, state_bytes, state_read_from};

verus! {

/// The accounts that set up an escrow, as read from the ledger.
pub struct InitializeEscrow {
    pub owner: [u8; 32],
    pub mint: [u8; 32],
    pub mint_data: Vec<u8>,
    /// The account given as the escrow authority.
    pub pda: [u8; 32],
    pub escrow_ata: [u8; 32],
    pub escrow_ata_data: Vec<u8>,
    /// The account given for the escrow record.
    pub state: [u8; 32],
    /// Whether that account already holds a record.
    pub state_in_use: bool,
}

/// The accounts of a relayed transfer, as read from the ledger.
pub struct RelayedTransfer {
    pub relayer: [u8; 32],
    pub mint: [u8; 32],
    pub mint_data: Vec<u8>,
    /// The account given as the escrow authority.
    pub pda: [u8; 32],
    pub escrow_ata: [u8; 32],
    pub escrow_ata_data: Vec<u8>,
    pub receiver_ata: [u8; 32],
    pub receiver_ata_data: Vec<u8>,
    pub relayer_ata: [u8; 32],
    pub relayer_ata_data: Vec<u8>,
    /// The account given as the escrow record.
    pub state: [u8; 32],
    /// The record's stored bytes, after the account's discriminator.
    pub state_data: Vec<u8>,
    pub token_program: [u8; 32],
    /// The first instruction of the transaction, where there is one.
    pub first_instruction: Option<SignatureProof>,
}

/// The accounts of a setup check out: the record's account is unused and
/// sits at its derived address, the mint is initialized, `pda` is the
/// escrow authority derived with `bump`, and the escrow account is an
/// initialized token account of the mint held by that authority.
pub open spec fn setup_valid(ctx: InitializeEscrow, program_id: Seq<u8>, bump: u8) -> bool {
    &&& !ctx.state_in_use
    &&& mint_data_valid(ctx.mint_data@)
    &&& token_account_valid(ctx.escrow_ata_data@)
    &&& derived_address(escrow_seed(), ctx.owner@, ctx.mint@, program_id) == Some((ctx.pda@, bump))
    &&& derived_address(state_seed(), ctx.owner@, ctx.mint@, program_id) matches Some(d)
        && d.0 == ctx.state@
    &&& ctx.escrow_ata_data@.subrange(0, 32) == ctx.mint@
    &&& ctx.escrow_ata_data@.subrange(32, 64) == ctx.pda@
}

/// A token account read from `d`, or none where `d` is not one.
pub open spec fn optional_account_read_from(a: Option<TokenAccount>, d: Seq<u8>) -> bool {
    match a {
        Some(t) => token_account_valid(d) && token_account_read_from(t, d),
        None => !token_account_valid(d),
    }
}

/// `a` is what a relayed transfer reads from `ctx` for the record `s`: the
/// accounts' keys, their parsed data, and the addresses derived from the
/// record's owner and the mint.
pub open spec fn relay_accounts_read_from(
    a: RelayAccounts,
    ctx: RelayedTransfer,
    s: EscrowState,
    programs: ProgramIds,
) -> bool {
    &&& a.relayer == ctx.relayer
    &&& a.mint == ctx.mint
    &&& a.authority == ctx.pda
    &&& a.escrow_ata == ctx.escrow_ata
    &&& a.receiver_ata == ctx.receiver_ata
    &&& a.relayer_ata == ctx.relayer_ata
    &&& a.state == ctx.state
    &&& a.token_program == ctx.token_program
    &&& token_account_valid(ctx.escrow_ata_data@)
    &&& token_account_read_from(a.escrow, ctx.escrow_ata_data@)
    &&& optional_account_read_from(a.receiver, ctx.receiver_ata_data@)
    &&& optional_account_read_from(a.relayer_account, ctx.relayer_ata_data@)
    &&& derived_address(escrow_seed(), s.owner@, ctx.mint@, programs.program_id@) == Some(
        (a.derived_authority.0@, a.derived_authority.1),
    )
    &&& derived_address(state_seed(), s.owner@, ctx.mint@, programs.program_id@) matches Some(d)
        && d.0 == a.derived_state@
}

/// Creates the escrow record for `(owner, mint)` once the accounts check
/// out: the record's account is unused and sits at its derived address,
/// `pda` is the escrow authority derived with `bump`, and the escrow
/// account holds the mint's tokens under that authority.
pub fn initialize_escrow(ctx: &InitializeEscrow, program_id: &[u8; 32], bump: u8) -> (r: Result<EscrowState, GaslessError>)
    ensures
        r is Ok <==> setup_valid(*ctx, program_id@, bump),
        r matches Err(e) ==> e == GaslessError::BootstrapError,
        r matches Ok(s) ==> {
            &&& s.owner == ctx.owner
            &&& s.mint == ctx.mint
            &&& s.escrow == ctx.escrow_ata
            &&& s.bump == bump
            &&& s.last_nonce == 0
        },
{
    if ctx.state_in_use || !is_valid_mint(&ctx.mint_data) {
        return Err(GaslessError::BootstrapError);
    }
    let escrow = match unpack_token_account(&ctx.escrow_ata_data) {
        Some(a) => a,
        None => { return Err(GaslessError::BootstrapError); },
    };
    match escrow_authority_address(&ctx.owner, &ctx.mint, program_id) {
        Some((k, b)) => {
            if !keys_equal(&k, &ctx.pda) || b != bump {
                return Err(GaslessError::BootstrapError);
            }
        },
        None => { return Err(GaslessError::BootstrapError); },
    }
    match escrow_state_address(&ctx.owner, &ctx.mint, program_id) {
        Some((k, _)) => {
            if !keys_equal(&k, &ctx.state) {
                return Err(GaslessError::BootstrapError);
            }
        },
        None => { return Err(GaslessError::BootstrapError); },
    }
    if !keys_equal(&escrow.owner, &ctx.pda) || !keys_equal(&escrow.mint, &ctx.mint) {
        return Err(GaslessError::BootstrapError);
    }
    Ok(EscrowState::new(ctx.owner, ctx.mint, ctx.escrow_ata, bump))
}

/// Carries out a relayed transfer against the accounts read from the ledger.
/// The record is read from its stored bytes, the addresses of the escrow
/// authority and record are derived from it, and the decision is that of
/// `settle_relay`. Where the request is accepted the committed record is
/// written back; where it is refused the accounts are left as they were.
pub fn relayed_transfer(
    ctx: &mut RelayedTransfer,
    programs: &ProgramIds,
    now: i64,
    amount: u64,
    fee: u64,
    deadline: i64,
    sig_pubkey: [u8; 32],
    _sig: &Vec<u8>,
    nonce: u64,
) -> (r: Result<Settlement, GaslessError>)
    ensures
        r is Err ==> *final(ctx) == *old(ctx),
        old(ctx).state_data@.len() < STATE_SIZE ==> r == Err::<Settlement, GaslessError>(
            GaslessError::AccountMismatch,
        ),
        !mint_data_valid(old(ctx).mint_data@) ==> r == Err::<Settlement, GaslessError>(
            GaslessError::AccountMismatch,
        ),
        !token_account_valid(old(ctx).escrow_ata_data@) ==> r == Err::<Settlement, GaslessError>(
            GaslessError::AccountMismatch,
        ),
        forall|s: EscrowState| #[trigger] state_read_from(s, old(ctx).state_data@) ==> {
            (derived_address(escrow_seed(), s.owner@, old(ctx).mint@, programs.program_id@) is None
                || derived_address(state_seed(), s.owner@, old(ctx).mint@, programs.program_id@) is None)
                ==> r == Err::<Settlement, GaslessError>(GaslessError::AccountMismatch)
        },
        forall|s: EscrowState, a: RelayAccounts|
            #![trigger state_read_from(s, old(ctx).state_data@), relay_accounts_read_from(a, *old(ctx), s, *programs)]
            state_read_from(s, old(ctx).state_data@) && mint_data_valid(old(ctx).mint_data@)
                && relay_accounts_read_from(a, *old(ctx), s, *programs) ==> {
                let req = (RelayRequest { amount, fee, deadline, sig_pubkey, nonce });
                let outcome = relay_outcome(s, a, *programs, now, req, old(ctx).first_instruction);
                &&& r is Ok <==> outcome is Ok
                &&& r matches Err(e) ==> outcome == Err::<(), GaslessError>(e)
                &&& r matches Ok(st) ==> {
                    &&& final(ctx).state_data@ == state_bytes(committed(s, nonce))
                    &&& st.transfers@ == planned_transfers(a, req)
                    &&& st.authority_bump == a.derived_authority.1
                    &&& st.event == payment_event(s, a, req, now)
                }
            },
        r matches Ok(st) ==> {
            &&& st.transfers@ == transfer_plan(
                old(ctx).escrow_ata,
                old(ctx).pda,
                old(ctx).receiver_ata,
                old(ctx).relayer_ata,
                amount,
                fee,
            )
            &&& amount + fee <= spec_u64_from_le_bytes(old(ctx).escrow_ata_data@.subrange(64, 72))
        },
{
    if !is_valid_mint(&ctx.mint_data) {
        return Err(GaslessError::AccountMismatch);
    }
    let escrow = match unpack_token_account(&ctx.escrow_ata_data) {
        Some(a) => a,
        None => { return Err(GaslessError::AccountMismatch); },
    };
    let mut state = match EscrowState::decode(&ctx.state_data) {
        Some(s) => s,
        None => { return Err(GaslessError::AccountMismatch); },
    };
    let ghost s0 = state;
    let derived_authority = match escrow_authority_address(&state.owner, &ctx.mint, &programs.program_id) {
        Some(d) => d,
        None => { return Err(GaslessError::AccountMismatch); },
    };
    let derived_state = match escrow_state_address(&state.owner, &ctx.mint, &programs.program_id) {
        Some((k, _)) => k,
        None => { return Err(GaslessError::AccountMismatch); },
    };
    let accounts = RelayAccounts {
        relayer: ctx.relayer,
        mint: ctx.mint,
        authority: ctx.pda,
        escrow_ata: ctx.escrow_ata,
        escrow,
        receiver_ata: ctx.receiver_ata,
        receiver: unpack_token_account(&ctx.receiver_ata_data),
        relayer_ata: ctx.relayer_ata,
        relayer_account: unpack_token_account(&ctx.relayer_ata_data),
        state: ctx.state,
        token_program: ctx.token_program,
        derived_authority,
        derived_state,
    };
    let request = RelayRequest { amount, fee, deadline, sig_pubkey, nonce };
    let result = settle_relay(&mut state, &accounts, programs, now, &request, &ctx.first_instruction);
    if result.is_ok() {
        ctx.state_data = state.encode();
    }
    proof {
        assert forall|s: EscrowState| #[trigger] state_read_from(s, old(ctx).state_data@) implies s == s0 by {
            lemma_state_read_unique(s, s0, old(ctx).state_data@);
        }
        assert forall|s: EscrowState, a: RelayAccounts|
            state_read_from(s, old(ctx).state_data@) && relay_accounts_read_from(a, *old(ctx), s, *programs)
            implies a == accounts by {
            lemma_state_read_unique(s, s0, old(ctx).state_data@);
            lemma_token_account_read_unique(a.escrow, accounts.escrow, old(ctx).escrow_ata_data@);
            if let Some(t) = a.receiver {
                lemma_token_account_read_unique(t, accounts.receiver->Some_0, old(ctx).receiver_ata_data@);
            }
            if let Some(t) = a.relayer_account {
                lemma_token_account_read_unique(t, accounts.relayer_account->Some_0, old(ctx).relayer_ata_data@);
            }
            assert(a.derived_authority.0 =~= accounts.derived_authority.0);
            assert(a.derived_state =~= accounts.derived_state);
        }
    }
    result
}

} // verus!
