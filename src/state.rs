use vstd::prelude::*;
use vstd::bytes::{spec_u64_from_le_bytes, spec_u64_to_le_bytes, u64_from_le_bytes, u64_to_le_bytes};

verus! {

/// Bytes that the stored record occupies after the account's 8-byte
/// discriminator: three keys, the nonce and the bump.
pub const STATE_SIZE: usize = 105;

/// The escrow record, one per (owner, mint) pair.
#[derive(Debug, Clone, Copy)]
pub struct EscrowState {
    /// Key of the owner, the only one whose permits move the funds.
    pub owner: [u8; 32],
    /// The token mint held in escrow.
    pub mint: [u8; 32],
    /// The token account that holds the escrowed balance.
    pub escrow: [u8; 32],
    /// The highest nonce accepted so far; it only grows.
    pub last_nonce: u64,
    /// Bump seed of the escrow authority's derived address.
    pub bump: u8,
}

/// The stored layout: owner, mint, escrow, then the nonce in 8 bytes
/// little-endian and the bump.
pub open spec fn state_bytes(s: EscrowState) -> Seq<u8> {
    s.owner@ + s.mint@ + s.escrow@ + spec_u64_to_le_bytes(s.last_nonce) + seq![s.bump]
}

/// Whether `s` is what the stored bytes `d` hold in their first
/// `STATE_SIZE` bytes.
pub open spec fn state_read_from(s: EscrowState, d: Seq<u8>) -> bool {
    &&& d.len() >= STATE_SIZE
    &&& s.owner@ == d.subrange(0, 32)
    &&& s.mint@ == d.subrange(32, 64)
    &&& s.escrow@ == d.subrange(64, 96)
    &&& s.last_nonce == spec_u64_from_le_bytes(d.subrange(96, 104))
    &&& s.bump == d[104]
}

/// Copies the 32 bytes at `start` into a key.
pub fn key_from(data: &Vec<u8>, start: usize) -> (r: [u8; 32])
    requires
        start + 32 <= data@.len(),
    ensures
        r@ == data@.subrange(start as int, start + 32),
{
    let n: usize = data.len();
    let mut k: [u8; 32] = [0u8; 32];
    let mut i: usize = 0;
    while i < 32
        invariant
            i <= 32,
            n == data@.len(),
            start + 32 <= n,
            k@.len() == 32,
            forall|j: int| 0 <= j < i ==> k@[j] == data@[start + j],
        decreases 32 - i,
    {
        k[i] = data[start + i];
        i = i + 1;
    }
    proof {
        assert(k@ =~= data@.subrange(start as int, start + 32));
    }
    k
}

impl EscrowState {
    /// A fresh record for `owner` and `mint`, with no nonce used yet.
    pub fn new(owner: [u8; 32], mint: [u8; 32], escrow: [u8; 32], bump: u8) -> (r: Self)
        ensures
            r.owner == owner,
            r.mint == mint,
            r.escrow == escrow,
            r.bump == bump,
            r.last_nonce == 0,
    {
        EscrowState { owner, mint, escrow, last_nonce: 0, bump }
    }

    /// Reads a record from the bytes stored after the discriminator;
    /// `None` where they are too short to hold one.
    pub fn decode(data: &Vec<u8>) -> (r: Option<Self>)
        ensures
            r is None <==> data@.len() < STATE_SIZE,
            r matches Some(s) ==> state_read_from(s, data@),
    {
        if data.len() < STATE_SIZE {
            return None;
        }
        let owner = key_from(data, 0);
        let mint = key_from(data, 32);
        let escrow = key_from(data, 64);
        let mut nonce_bytes: Vec<u8> = Vec::new();
        let mut i: usize = 96;
        while i < 104
            invariant
                96 <= i <= 104,
                data@.len() >= STATE_SIZE,
                nonce_bytes@ == data@.subrange(96, i as int),
            decreases 104 - i,
        {
            nonce_bytes.push(data[i]);
            proof {
                assert(nonce_bytes@ =~= data@.subrange(96, i + 1));
            }
            i = i + 1;
        }
        let last_nonce = u64_from_le_bytes(nonce_bytes.as_slice());
        Some(EscrowState { owner, mint, escrow, last_nonce, bump: data[104] })
    }

    /// Writes the record in its stored layout.
    pub fn encode(&self) -> (r: Vec<u8>)
        ensures
            r@ == state_bytes(*self),
            r@.len() == STATE_SIZE,
    {
        let mut out: Vec<u8> = Vec::new();
        out.extend_from_slice(self.owner.as_slice());
        out.extend_from_slice(self.mint.as_slice());
        out.extend_from_slice(self.escrow.as_slice());
        let mut n = u64_to_le_bytes(self.last_nonce);
        out.append(&mut n);
        out.push(self.bump);
        proof {
            vstd::bytes::lemma_auto_spec_u64_to_from_le_bytes();
            assert(out@ =~= state_bytes(*self));
        }
        out
    }
}

/// Reading back what was written gives the record that was written: the
/// stored bytes of a record determine every one of its fields.
pub proof fn lemma_state_round_trip(s: EscrowState)
    ensures
        state_read_from(s, state_bytes(s)),
{
    vstd::bytes::lemma_auto_spec_u64_to_from_le_bytes();
    let d = state_bytes(s);
    assert(d.subrange(0, 32) =~= s.owner@);
    assert(d.subrange(32, 64) =~= s.mint@);
    assert(d.subrange(64, 96) =~= s.escrow@);
    assert(d.subrange(96, 104) =~= spec_u64_to_le_bytes(s.last_nonce));
}

/// Two records read from the same bytes are the same record.
pub proof fn lemma_state_read_unique(s: EscrowState, t: EscrowState, d: Seq<u8>)
    requires
        state_read_from(s, d),
        state_read_from(t, d),
    ensures
        s == t,
{
    assert(s.owner =~= t.owner);
    assert(s.mint =~= t.mint);
    assert(s.escrow =~= t.escrow);
}

} // verus!
