use vstd::prelude::*;
use vstd::bytes::{spec_u64_from_le_bytes, spec_u64_to_le_bytes};
use crate::authorization::SignatureProof;
use crate::error::GaslessError;
use crate::message::{permit_message, permit_tag};
use crate::relay::{
    ProgramIds, RelayAccounts, RelayRequest, committed, escrow_resolves, relay_outcome,
    request_permit,
};
use crate::state::EscrowState;

verus! {

/// A permit determines every field signed into it: two permits for keys of
/// the right length are equal only where owner, program, amount, fee,
/// deadline and nonce all are.
pub proof fn lemma_permit_injective(
    owner_x: Seq<u8>, program_x: Seq<u8>, amount_x: u64, fee_x: u64, deadline_x: i64, nonce_x: u64,
    owner_y: Seq<u8>, program_y: Seq<u8>, amount_y: u64, fee_y: u64, deadline_y: i64, nonce_y: u64,
)
    requires
        owner_x.len() == 32,
        program_x.len() == 32,
        owner_y.len() == 32,
        program_y.len() == 32,
        permit_message(owner_x, program_x, amount_x, fee_x, deadline_x, nonce_x) == permit_message(owner_y, program_y, amount_y, fee_y, deadline_y, nonce_y),
    ensures
        owner_x == owner_y,
        program_x == program_y,
        amount_x == amount_y,
        fee_x == fee_y,
        deadline_x == deadline_y,
        nonce_x == nonce_y,
{
    vstd::bytes::lemma_auto_spec_u64_to_from_le_bytes();
    let permit_x = permit_message(owner_x, program_x, amount_x, fee_x, deadline_x, nonce_x);
    let permit_y = permit_message(owner_y, program_y, amount_y, fee_y, deadline_y, nonce_y);
    assert(permit_tag().len() == 14);
    assert(permit_x.subrange(14, 46) =~= owner_x);
    assert(permit_y.subrange(14, 46) =~= owner_y);
    assert(permit_x.subrange(46, 78) =~= program_x);
    assert(permit_y.subrange(46, 78) =~= program_y);
    assert(permit_x.subrange(78, 86) =~= spec_u64_to_le_bytes(amount_x));
    assert(permit_y.subrange(78, 86) =~= spec_u64_to_le_bytes(amount_y));
    assert(permit_x.subrange(86, 94) =~= spec_u64_to_le_bytes(fee_x));
    assert(permit_y.subrange(86, 94) =~= spec_u64_to_le_bytes(fee_y));
    assert(permit_x.subrange(94, 102) =~= spec_u64_to_le_bytes(deadline_x as u64));
    assert(permit_y.subrange(94, 102) =~= spec_u64_to_le_bytes(deadline_y as u64));
    assert(permit_x.subrange(102, 110) =~= spec_u64_to_le_bytes(nonce_x));
    assert(permit_y.subrange(102, 110) =~= spec_u64_to_le_bytes(nonce_y));
    assert(spec_u64_from_le_bytes(spec_u64_to_le_bytes(amount_x)) == amount_x);
    assert(spec_u64_from_le_bytes(spec_u64_to_le_bytes(fee_x)) == fee_x);
    assert(spec_u64_from_le_bytes(spec_u64_to_le_bytes(nonce_x)) == nonce_x);
    assert(spec_u64_from_le_bytes(spec_u64_to_le_bytes(deadline_x as u64)) == deadline_x as u64);
    assert(spec_u64_from_le_bytes(spec_u64_to_le_bytes(deadline_y as u64)) == deadline_y as u64);
    assert((deadline_x as u64) == (deadline_y as u64) ==> deadline_x == deadline_y) by (bit_vector);
}

/// A request accepted once is refused when submitted again against the
/// committed record: while its deadline holds, for a replayed nonce.
pub proof fn lemma_replay_refused(
    s: EscrowState,
    a: RelayAccounts,
    programs: ProgramIds,
    first_now: i64,
    second_now: i64,
    req: RelayRequest,
    first_record: Option<SignatureProof>,
    second_record: Option<SignatureProof>,
)
    requires
        relay_outcome(s, a, programs, first_now, req, first_record) is Ok,
    ensures
        relay_outcome(committed(s, req.nonce), a, programs, second_now, req, second_record) is Err,
        req.deadline >= second_now ==> relay_outcome(
            committed(s, req.nonce),
            a,
            programs,
            second_now,
            req,
            second_record,
        ) == Err::<(), GaslessError>(GaslessError::InvalidOrReplayedNonce),
{
    assert(escrow_resolves(committed(s, req.nonce), a));
}

/// Along any run of accepted requests, each committing its nonce to the
/// record the next one is checked against, the record's nonce strictly
/// increases.
pub proof fn lemma_accepted_nonces_increase(
    states: Seq<EscrowState>,
    accounts: Seq<RelayAccounts>,
    programs: ProgramIds,
    nows: Seq<i64>,
    reqs: Seq<RelayRequest>,
    records: Seq<Option<SignatureProof>>,
)
    requires
        states.len() == reqs.len() + 1,
        accounts.len() == reqs.len(),
        nows.len() == reqs.len(),
        records.len() == reqs.len(),
        forall|i: int|
            0 <= i < reqs.len() ==> #[trigger] relay_outcome(
                states[i],
                accounts[i],
                programs,
                nows[i],
                reqs[i],
                records[i],
            ) is Ok && states[i + 1] == committed(states[i], reqs[i].nonce),
    ensures
        forall|i: int, j: int|
            0 <= i < j < states.len() ==> #[trigger] states[i].last_nonce < #[trigger] states[j].last_nonce,
    decreases reqs.len(),
{
    if reqs.len() > 0 {
        let k = reqs.len() - 1;
        lemma_accepted_nonces_increase(
            states.drop_last(),
            accounts.drop_last(),
            programs,
            nows.drop_last(),
            reqs.drop_last(),
            records.drop_last(),
        );
        assert(relay_outcome(states[k], accounts[k], programs, nows[k], reqs[k], records[k]) is Ok);
        assert forall|i: int, j: int| 0 <= i < j < states.len() implies #[trigger] states[i].last_nonce
            < #[trigger] states[j].last_nonce by {
            if j < states.len() - 1 {
                assert(states.drop_last()[i] == states[i]);
                assert(states.drop_last()[j] == states[j]);
            } else if i < k {
                assert(states.drop_last()[i] == states[i]);
                assert(states.drop_last()[k] == states[k]);
            }
        }
    }
}

/// Once the accounts are the record's own, an expired permit is refused as
/// expired, whatever verification record comes with it.
pub proof fn lemma_expired_refused(
    s: EscrowState,
    a: RelayAccounts,
    programs: ProgramIds,
    now: i64,
    req: RelayRequest,
    record: Option<SignatureProof>,
)
    requires
        escrow_resolves(s, a),
        req.deadline < now,
    ensures
        relay_outcome(s, a, programs, now, req, record) == Err::<(), GaslessError>(
            GaslessError::DeadlineExpired,
        ),
{
}

/// A verification record of the signature program that names the request's
/// key and covers a permit differing from the request in any signed field
/// (owner, amount, fee, deadline, nonce) makes an otherwise valid request
/// fail for a message mismatch.
pub proof fn lemma_tampered_request_refused(
    s: EscrowState,
    a: RelayAccounts,
    programs: ProgramIds,
    now: i64,
    req: RelayRequest,
    record: SignatureProof,
    signed_owner: Seq<u8>,
    signed_amount: u64,
    signed_fee: u64,
    signed_deadline: i64,
    signed_nonce: u64,
)
    requires
        escrow_resolves(s, a),
        req.deadline >= now,
        req.nonce > s.last_nonce,
        signed_owner.len() == 32,
        record.program_id@ == programs.signature_program@,
        record.data@.len() >= 96,
        record.data@.subrange(64, 96) == req.sig_pubkey@,
        record.data@.subrange(96, record.data@.len() as int) == permit_message(
            signed_owner,
            programs.program_id@,
            signed_amount,
            signed_fee,
            signed_deadline,
            signed_nonce,
        ),
        signed_owner != s.owner@ || signed_amount != req.amount || signed_fee != req.fee
            || signed_deadline != req.deadline || signed_nonce != req.nonce,
    ensures
        relay_outcome(s, a, programs, now, req, Some(record)) == Err::<(), GaslessError>(
            GaslessError::SignatureMessageMismatch,
        ),
{
    let signed = permit_message(
        signed_owner,
        programs.program_id@,
        signed_amount,
        signed_fee,
        signed_deadline,
        signed_nonce,
    );
    if signed == request_permit(s, programs, req) {
        lemma_permit_injective(
            signed_owner, programs.program_id@, signed_amount, signed_fee, signed_deadline, signed_nonce,
            s.owner@, programs.program_id@, req.amount, req.fee, req.deadline, req.nonce,
        );
    }
}

/// A verification record that is consistent in itself (the signature
/// program's, naming the request's key, covering the request's exact
/// permit) is refused when that key is not the record owner's.
pub proof fn lemma_foreign_key_refused(
    s: EscrowState,
    a: RelayAccounts,
    programs: ProgramIds,
    now: i64,
    req: RelayRequest,
    record: SignatureProof,
)
    requires
        escrow_resolves(s, a),
        req.deadline >= now,
        req.nonce > s.last_nonce,
        record.program_id@ == programs.signature_program@,
        record.data@.len() >= 96,
        record.data@.subrange(64, 96) == req.sig_pubkey@,
        record.data@.subrange(96, record.data@.len() as int) == request_permit(s, programs, req),
        req.sig_pubkey@ != s.owner@,
    ensures
        relay_outcome(s, a, programs, now, req, Some(record)) == Err::<(), GaslessError>(
            GaslessError::OwnerPubkeyMismatch,
        ),
{
}

} // verus!
