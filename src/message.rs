use vstd::prelude::*;
use vstd::bytes::{spec_u64_to_le_bytes, u64_to_le_bytes};

verus! {

/// Number of bytes of a public key or program address.
pub const KEY_LEN: usize = 32;

/// Number of bytes of a permit: the tag, two keys and four 8-byte integers.
pub const PERMIT_LEN: usize = 110;

/// The domain tag that opens every permit: the ASCII text `GASLESS_PERMIT`.
pub open spec fn permit_tag() -> Seq<u8> {
    seq![71u8, 65, 83, 76, 69, 83, 83, 95, 80, 69, 82, 77, 73, 84]
}

/// The canonical permit an owner signs: tag, owner, program, then amount,
/// fee, deadline and nonce, each 8 bytes little-endian.
pub open spec fn permit_message(
    owner: Seq<u8>,
    program_id: Seq<u8>,
    amount: u64,
    fee: u64,
    deadline: i64,
    nonce: u64,
) -> Seq<u8> {
    permit_tag() + owner + program_id + spec_u64_to_le_bytes(amount) + spec_u64_to_le_bytes(fee)
        + spec_u64_to_le_bytes(deadline as u64) + spec_u64_to_le_bytes(nonce)
}

/// Builds the permit for the given owner, program and request fields.
pub fn build_permit_message(
    owner: &[u8; 32],
    program_id: &[u8; 32],
    amount: u64,
    fee: u64,
    deadline: i64,
    nonce: u64,
) -> (r: Vec<u8>)
    ensures
        r@ == permit_message(owner@, program_id@, amount, fee, deadline, nonce),
        r@.len() == PERMIT_LEN,
{
    let mut msg: Vec<u8> = vec![71u8, 65, 83, 76, 69, 83, 83, 95, 80, 69, 82, 77, 73, 84];
    msg.extend_from_slice(owner.as_slice());
    msg.extend_from_slice(program_id.as_slice());
    let mut a = u64_to_le_bytes(amount);
    msg.append(&mut a);
    let mut f = u64_to_le_bytes(fee);
    msg.append(&mut f);
    let mut d = u64_to_le_bytes(deadline as u64);
    msg.append(&mut d);
    let mut n = u64_to_le_bytes(nonce);
    msg.append(&mut n);
    proof {
        vstd::bytes::lemma_auto_spec_u64_to_from_le_bytes();
        assert(msg@ =~= permit_message(owner@, program_id@, amount, fee, deadline, nonce));
    }
    msg
}

} // verus!
