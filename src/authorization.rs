use vstd::prelude::*;
use crate::error::GaslessError;

verus! {

/// Offset of the public key inside a verification record's data.
pub const RECORD_KEY_START: usize = 64;

/// Offset of the verified message inside a verification record's data;
/// the key occupies the 32 bytes before it.
pub const RECORD_MESSAGE_START: usize = 96;

/// The instruction found first in the transaction, as read from the host:
/// the program it invokes and its data. For the signature program the data
/// is the signature, then the public key, then the verified message.
#[derive(Debug, Clone)]
pub struct SignatureProof {
    pub program_id: [u8; 32],
    pub data: Vec<u8>,
}

/// Whether `data[start..]` equals `expected`, byte for byte.
pub fn tail_equals(data: &Vec<u8>, start: usize, expected: &[u8]) -> (r: bool)
    requires
        start <= data@.len(),
    ensures
        r == (data@.subrange(start as int, data@.len() as int) == expected@),
{
    if data.len() - start != expected.len() {
        proof {
            assert(data@.subrange(start as int, data@.len() as int).len() != expected@.len());
        }
        return false;
    }
    let n: usize = data.len();
    let mut i: usize = 0;
    while i < expected.len()
        invariant
            n == data@.len(),
            i <= expected@.len(),
            start <= data@.len(),
            data@.len() - start == expected@.len(),
            forall|j: int| 0 <= j < i ==> data@[start + j] == expected@[j],
        decreases expected@.len() - i,
    {
        if data[start + i] != expected[i] {
            proof {
                assert(data@.subrange(start as int, data@.len() as int)[i as int] != expected@[i as int]);
            }
            return false;
        }
        i = i + 1;
    }
    proof {
        assert(data@.subrange(start as int, data@.len() as int) =~= expected@);
    }
    true
}

/// Whether `data[start..start + 32]` equals `key`.
pub fn key_at_equals(data: &Vec<u8>, start: usize, key: &[u8; 32]) -> (r: bool)
    requires
        start + 32 <= data@.len(),
    ensures
        r == (data@.subrange(start as int, start + 32) == key@),
{
    let n: usize = data.len();
    let mut i: usize = 0;
    while i < 32
        invariant
            i <= 32,
            n == data@.len(),
            start + 32 <= data@.len(),
            key@.len() == 32,
            forall|j: int| 0 <= j < i ==> data@[start + j] == key@[j],
        decreases 32 - i,
    {
        if data[start + i] != key[i] {
            proof {
                assert(data@.subrange(start as int, start + 32)[i as int] != key@[i as int]);
            }
            return false;
        }
        i = i + 1;
    }
    proof {
        assert(data@.subrange(start as int, start + 32) =~= key@);
    }
    true
}

/// Whether two keys are equal.
pub fn keys_equal(a: &[u8; 32], b: &[u8; 32]) -> (r: bool)
    ensures
        r == (a@ == b@),
{
    let mut i: usize = 0;
    while i < 32
        invariant
            i <= 32,
            a@.len() == 32,
            b@.len() == 32,
            forall|j: int| 0 <= j < i ==> a@[j] == b@[j],
        decreases 32 - i,
    {
        if a[i] != b[i] {
            return false;
        }
        i = i + 1;
    }
    proof {
        assert(a@ =~= b@);
    }
    true
}

/// What matching a verification record against a request yields. The
/// checks run in order: the record's program, its shape, the key it
/// verified against the key named in the request, the message it verified
/// against the expected permit, and that key against the escrow owner.
pub open spec fn authorization_outcome(
    record: Option<SignatureProof>,
    signature_program: Seq<u8>,
    sig_pubkey: Seq<u8>,
    owner: Seq<u8>,
    expected: Seq<u8>,
) -> Result<(), GaslessError> {
    match record {
        None => Err(GaslessError::ProofMissingOrMisplaced),
        Some(p) => {
            let d = p.data@;
            if p.program_id@ != signature_program {
                Err(GaslessError::ProofMissingOrMisplaced)
            } else if d.len() < 96 {
                Err(GaslessError::SignatureMessageMismatch)
            } else if d.subrange(64, 96) != sig_pubkey {
                Err(GaslessError::SignaturePubkeyMismatch)
            } else if d.subrange(96, d.len() as int) != expected {
                Err(GaslessError::SignatureMessageMismatch)
            } else if sig_pubkey != owner {
                Err(GaslessError::OwnerPubkeyMismatch)
            } else {
                Ok(())
            }
        },
    }
}

/// Matches the verification record that stands first in the transaction
/// against the request: it must come from the signature program, name
/// `sig_pubkey`, cover exactly `expected`, and `sig_pubkey` must be `owner`.
pub fn verify_authorization(
    record: &Option<SignatureProof>,
    signature_program: &[u8; 32],
    sig_pubkey: &[u8; 32],
    owner: &[u8; 32],
    expected: &Vec<u8>,
) -> (r: Result<(), GaslessError>)
    ensures
        r == authorization_outcome(*record, signature_program@, sig_pubkey@, owner@, expected@),
{
    match record {
        None => Err(GaslessError::ProofMissingOrMisplaced),
        Some(p) => {
            if !keys_equal(&p.program_id, signature_program) {
                return Err(GaslessError::ProofMissingOrMisplaced);
            }
            if p.data.len() < RECORD_MESSAGE_START {
                return Err(GaslessError::SignatureMessageMismatch);
            }
            if !key_at_equals(&p.data, RECORD_KEY_START, sig_pubkey) {
                return Err(GaslessError::SignaturePubkeyMismatch);
            }
            if !tail_equals(&p.data, RECORD_MESSAGE_START, expected.as_slice()) {
                return Err(GaslessError::SignatureMessageMismatch);
            }
            if !keys_equal(sig_pubkey, owner) {
                return Err(GaslessError::OwnerPubkeyMismatch);
            }
            Ok(())
        },
    }
}

/// The deadline guard: a permit is usable up to and including its deadline.
pub fn check_deadline(deadline: i64, now: i64) -> (r: Result<(), GaslessError>)
    ensures
        r is Ok <==> deadline >= now,
        r is Err ==> r == Err::<(), GaslessError>(GaslessError::DeadlineExpired),
{
    if deadline >= now {
        Ok(())
    } else {
        Err(GaslessError::DeadlineExpired)
    }
}

/// The nonce guard: only a nonce above the last accepted one is fresh.
pub fn check_nonce(last_nonce: u64, nonce: u64) -> (r: Result<(), GaslessError>)
    ensures
        r is Ok <==> nonce > last_nonce,
        r is Err ==> r == Err::<(), GaslessError>(GaslessError::InvalidOrReplayedNonce),
{
    if nonce > last_nonce {
        Ok(())
    } else {
        Err(GaslessError::InvalidOrReplayedNonce)
    }
}

} // verus!
