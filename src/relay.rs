use vstd::prelude::*;
use crate::accounts::TokenAccount;
use crate::authorization::{
    SignatureProof, authorization_outcome, check_deadline, check_nonce, keys_equal,
    verify_authorization,
};
use crate::error::GaslessError;
use crate::message::{build_permit_message, permit_message};
use crate::state::EscrowState;

verus! {

/// Addresses of the programs a relayed transfer deals with.
#[derive(Debug, Clone, Copy)]
pub struct ProgramIds {
    /// This program: its address is signed into every permit and derives
    /// the escrow addresses.
    pub program_id: [u8; 32],
    /// The native program that verifies signatures.
    pub signature_program: [u8; 32],
    /// The token program that keeps the ledger.
    pub token_program: [u8; 32],
}

/// What the relayer submits on the owner's behalf.
#[derive(Debug, Clone, Copy)]
pub struct RelayRequest {
    pub amount: u64,
    pub fee: u64,
    pub deadline: i64,
    /// The key the relayer claims signed the permit.
    pub sig_pubkey: [u8; 32],
    pub nonce: u64,
}

/// One debit of the escrow, signed for by the escrow authority.
#[derive(Debug, Clone, Copy)]
pub struct TokenTransfer {
    pub from: [u8; 32],
    pub to: [u8; 32],
    pub authority: [u8; 32],
    pub amount: u64,
}

/// The notice of a completed relayed payment.
#[derive(Debug, Clone, Copy)]
pub struct GaslessPayment {
    pub owner: [u8; 32],
    pub receiver: [u8; 32],
    pub token_mint: [u8; 32],
    pub amount: u64,
    pub fee: u64,
    pub relayer: [u8; 32],
    pub timestamp: i64,
}

/// What an accepted request asks of the ledger: the transfers, in order,
/// the bump that signs for the escrow authority, and the notice to emit.
#[derive(Debug)]
pub struct Settlement {
    pub transfers: Vec<TokenTransfer>,
    pub authority_bump: u8,
    pub event: GaslessPayment,
}

/// The accounts of a relayed transfer, once read and parsed, together with
/// the addresses derived for the record's owner and mint.
#[derive(Debug, Clone, Copy)]
pub struct RelayAccounts {
    pub relayer: [u8; 32],
    pub mint: [u8; 32],
    /// The account given as the escrow authority.
    pub authority: [u8; 32],
    pub escrow_ata: [u8; 32],
    pub escrow: TokenAccount,
    pub receiver_ata: [u8; 32],
    /// The receiver's token account, where its data parsed.
    pub receiver: Option<TokenAccount>,
    pub relayer_ata: [u8; 32],
    /// The relayer's token account, where its data parsed.
    pub relayer_account: Option<TokenAccount>,
    /// The account given as the escrow record.
    pub state: [u8; 32],
    /// The account given as the token program.
    pub token_program: [u8; 32],
    /// The escrow authority's address and bump derived from the record.
    pub derived_authority: ([u8; 32], u8),
    /// The escrow record's address derived from the record.
    pub derived_state: [u8; 32],
}

/// The permit that the request must have been signed as.
pub open spec fn request_permit(s: EscrowState, programs: ProgramIds, req: RelayRequest) -> Seq<u8> {
    permit_message(s.owner@, programs.program_id@, req.amount, req.fee, req.deadline, req.nonce)
}

/// The accounts are the record's own: its derived authority and address,
/// its escrow account, which holds its mint and is held by the authority.
pub open spec fn escrow_resolves(s: EscrowState, a: RelayAccounts) -> bool {
    &&& a.authority@ == a.derived_authority.0@
    &&& a.state@ == a.derived_state@
    &&& a.mint@ == s.mint@
    &&& a.escrow_ata@ == s.escrow@
    &&& a.escrow.mint@ == a.mint@
    &&& a.escrow.owner@ == a.authority@
}

/// The accounts that receive funds are token accounts of the escrow's mint,
/// and the token program is the ledger's. The relayer's account counts only
/// where a fee is paid.
pub open spec fn payees_resolve(a: RelayAccounts, programs: ProgramIds, fee: u64) -> bool {
    &&& a.token_program@ == programs.token_program@
    &&& a.receiver matches Some(r) && r.mint@ == a.mint@
    &&& fee > 0 ==> (a.relayer_account matches Some(t) && t.mint@ == a.mint@)
}

/// The checks on the request itself, in order: deadline, nonce, then the
/// signature verification record.
pub open spec fn request_outcome(
    s: EscrowState,
    programs: ProgramIds,
    now: i64,
    req: RelayRequest,
    record: Option<SignatureProof>,
) -> Result<(), GaslessError> {
    if req.deadline < now {
        Err(GaslessError::DeadlineExpired)
    } else if req.nonce <= s.last_nonce {
        Err(GaslessError::InvalidOrReplayedNonce)
    } else {
        authorization_outcome(
            record,
            programs.signature_program@,
            req.sig_pubkey@,
            s.owner@,
            request_permit(s, programs, req),
        )
    }
}

/// Whether a relayed transfer is accepted, or the first reason it is not.
pub open spec fn relay_outcome(
    s: EscrowState,
    a: RelayAccounts,
    programs: ProgramIds,
    now: i64,
    req: RelayRequest,
    record: Option<SignatureProof>,
) -> Result<(), GaslessError> {
    if !escrow_resolves(s, a) {
        Err(GaslessError::AccountMismatch)
    } else if request_outcome(s, programs, now, req, record) is Err {
        request_outcome(s, programs, now, req, record)
    } else if !payees_resolve(a, programs, req.fee) {
        Err(GaslessError::AccountMismatch)
    } else if req.amount + req.fee > a.escrow.amount {
        Err(GaslessError::InsufficientFunds)
    } else {
        Ok(())
    }
}

/// The debits of the escrow account `from` under `authority`: `amount` to
/// `receiver`, then `fee` to `relayer` where there is a fee.
pub open spec fn transfer_plan(
    from: [u8; 32],
    authority: [u8; 32],
    receiver: [u8; 32],
    relayer: [u8; 32],
    amount: u64,
    fee: u64,
) -> Seq<TokenTransfer> {
    let first = TokenTransfer { from, to: receiver, authority, amount };
    if fee > 0 {
        seq![first, TokenTransfer { from, to: relayer, authority, amount: fee }]
    } else {
        seq![first]
    }
}

/// The transfers of an accepted request.
pub open spec fn planned_transfers(a: RelayAccounts, req: RelayRequest) -> Seq<TokenTransfer> {
    transfer_plan(a.escrow_ata, a.authority, a.receiver_ata, a.relayer_ata, req.amount, req.fee)
}

/// The record after the request's nonce is committed.
pub open spec fn committed(s: EscrowState, nonce: u64) -> EscrowState {
    EscrowState { last_nonce: nonce, ..s }
}

/// The notice of an accepted request.
pub open spec fn payment_event(s: EscrowState, a: RelayAccounts, req: RelayRequest, now: i64) -> GaslessPayment {
    GaslessPayment {
        owner: s.owner,
        receiver: a.receiver->Some_0.owner,
        token_mint: a.mint,
        amount: req.amount,
        fee: req.fee,
        relayer: a.relayer,
        timestamp: now,
    }
}

fn escrow_accounts_ok(state: &EscrowState, a: &RelayAccounts) -> (r: bool)
    ensures
        r == escrow_resolves(*state, *a),
{
    keys_equal(&a.authority, &a.derived_authority.0) && keys_equal(&a.state, &a.derived_state)
        && keys_equal(&a.mint, &state.mint) && keys_equal(&a.escrow_ata, &state.escrow)
        && keys_equal(&a.escrow.mint, &a.mint) && keys_equal(&a.escrow.owner, &a.authority)
}

fn payee_accounts_ok(a: &RelayAccounts, programs: &ProgramIds, fee: u64) -> (r: bool)
    ensures
        r == payees_resolve(*a, *programs, fee),
{
    if !keys_equal(&a.token_program, &programs.token_program) {
        return false;
    }
    match &a.receiver {
        None => { return false; },
        Some(rcv) => {
            if !keys_equal(&rcv.mint, &a.mint) {
                return false;
            }
        },
    }
    if fee > 0 {
        match &a.relayer_account {
            None => false,
            Some(t) => keys_equal(&t.mint, &a.mint),
        }
    } else {
        true
    }
}

/// Decides a relayed transfer against the escrow record. Where it is
/// accepted the record's nonce is committed and the transfers to make are
/// returned; where it is refused nothing changes.
pub fn settle_relay(
    state: &mut EscrowState,
    accounts: &RelayAccounts,
    programs: &ProgramIds,
    now: i64,
    request: &RelayRequest,
    record: &Option<SignatureProof>,
) -> (r: Result<Settlement, GaslessError>)
    ensures
        r is Ok <==> relay_outcome(*old(state), *accounts, *programs, now, *request, *record) is Ok,
        r matches Err(e) ==> relay_outcome(*old(state), *accounts, *programs, now, *request, *record)
            == Err::<(), GaslessError>(e),
        r is Err ==> *final(state) == *old(state),
        r matches Ok(st) ==> {
            &&& *final(state) == committed(*old(state), request.nonce)
            &&& final(state).last_nonce > old(state).last_nonce
            &&& st.transfers@ == planned_transfers(*accounts, *request)
            &&& request.amount + request.fee <= accounts.escrow.amount
            &&& st.authority_bump == accounts.derived_authority.1
            &&& st.event == payment_event(*old(state), *accounts, *request, now)
        },
{
    if !escrow_accounts_ok(state, accounts) {
        return Err(GaslessError::AccountMismatch);
    }
    if let Err(e) = check_deadline(request.deadline, now) {
        return Err(e);
    }
    if let Err(e) = check_nonce(state.last_nonce, request.nonce) {
        return Err(e);
    }
    let expected = build_permit_message(
        &state.owner,
        &programs.program_id,
        request.amount,
        request.fee,
        request.deadline,
        request.nonce,
    );
    if let Err(e) = verify_authorization(
        record,
        &programs.signature_program,
        &request.sig_pubkey,
        &state.owner,
        &expected,
    ) {
        return Err(e);
    }
    if !payee_accounts_ok(accounts, programs, request.fee) {
        return Err(GaslessError::AccountMismatch);
    }
    let balance = accounts.escrow.amount;
    if request.amount > balance || request.fee > balance - request.amount {
        return Err(GaslessError::InsufficientFunds);
    }
    let mut transfers: Vec<TokenTransfer> = Vec::new();
    transfers.push(
        TokenTransfer {
            from: accounts.escrow_ata,
            to: accounts.receiver_ata,
            authority: accounts.authority,
            amount: request.amount,
        },
    );
    if request.fee > 0 {
        transfers.push(
            TokenTransfer {
                from: accounts.escrow_ata,
                to: accounts.relayer_ata,
                authority: accounts.authority,
                amount: request.fee,
            },
        );
    }
    let receiver = match &accounts.receiver {
        Some(rcv) => rcv.owner,
        None => accounts.receiver_ata,
    };
    state.last_nonce = request.nonce;
    let event = GaslessPayment {
        owner: state.owner,
        receiver,
        token_mint: accounts.mint,
        amount: request.amount,
        fee: request.fee,
        relayer: accounts.relayer,
        timestamp: now,
    };
    proof {
        assert(transfers@ =~= planned_transfers(*accounts, *request));
    }
    Ok(Settlement { transfers, authority_bump: accounts.derived_authority.1, event })
}

} // verus!
