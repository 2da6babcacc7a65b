use vstd::prelude::*;
use vstd::bytes::spec_u64_from_le_bytes;
use anchor_lang::solana_program::program_pack::Pack;
use anchor_lang::solana_program::pubkey::Pubkey;
use anchor_spl::token::spl_token;

verus! {

/// Bytes of a token account's stored data.
pub const TOKEN_ACCOUNT_LEN: usize = 165;

/// Bytes of a mint's stored data.
pub const MINT_LEN: usize = 82;

/// The fields of a token account that the protocol reads.
#[derive(Debug, Clone, Copy)]
pub struct TokenAccount {
    /// The mint of the tokens it holds.
    pub mint: [u8; 32],
    /// The key that may move its tokens.
    pub owner: [u8; 32],
    /// Its balance.
    pub amount: u64,
}

/// Whether the four bytes at `at` are the tag of an optional field:
/// `[0, 0, 0, 0]` for none, `[1, 0, 0, 0]` for some.
pub open spec fn option_tag_valid(d: Seq<u8>, at: int) -> bool {
    &&& d[at] == 0 || d[at] == 1
    &&& d[at + 1] == 0
    &&& d[at + 2] == 0
    &&& d[at + 3] == 0
}

/// Whether `d` is the data of an initialized (or frozen) token account:
/// its length, its state byte and the tags of its three optional fields.
pub open spec fn token_account_valid(d: Seq<u8>) -> bool {
    &&& d.len() == TOKEN_ACCOUNT_LEN
    &&& d[108] == 1 || d[108] == 2
    &&& option_tag_valid(d, 72)
    &&& option_tag_valid(d, 109)
    &&& option_tag_valid(d, 129)
}

/// Whether `d` is the data of an initialized mint: its length, its
/// "initialized" byte and the tags of its two optional authorities.
pub open spec fn mint_data_valid(d: Seq<u8>) -> bool {
    &&& d.len() == MINT_LEN
    &&& d[45] == 1
    &&& option_tag_valid(d, 0)
    &&& option_tag_valid(d, 46)
}

/// Whether `a` holds the fields stored in the token account data `d`.
pub open spec fn token_account_read_from(a: TokenAccount, d: Seq<u8>) -> bool {
    &&& d.len() == TOKEN_ACCOUNT_LEN
    &&& a.mint@ == d.subrange(0, 32)
    &&& a.owner@ == d.subrange(32, 64)
    &&& a.amount == spec_u64_from_le_bytes(d.subrange(64, 72))
}

/// Two token accounts read from the same data are the same.
pub proof fn lemma_token_account_read_unique(a: TokenAccount, b: TokenAccount, d: Seq<u8>)
    requires
        token_account_read_from(a, d),
        token_account_read_from(b, d),
    ensures
        a == b,
{
    assert(a.mint =~= b.mint);
    assert(a.owner =~= b.owner);
}

/// The seed that derives the escrow authority's address: ASCII `escrow`.
pub open spec fn escrow_seed() -> Seq<u8> {
    seq![101u8, 115, 99, 114, 111, 119]
}

/// The seed that derives the escrow record's address: ASCII `state`.
pub open spec fn state_seed() -> Seq<u8> {
    seq![115u8, 116, 97, 116, 101]
}

/// The address and bump that the ledger derives for the seeds under a
/// program, if any bump gives an address off the curve.
pub uninterp spec fn program_address(seeds: Seq<Seq<u8>>, program_id: Seq<u8>) -> Option<(Seq<u8>, u8)>;

/// The address derived from `(tag, owner, mint)` under `program_id`.
pub open spec fn derived_address(tag: Seq<u8>, owner: Seq<u8>, mint: Seq<u8>, program_id: Seq<u8>) -> Option<(Seq<u8>, u8)> {
    program_address(seq![tag, owner, mint], program_id)
}

/// Relies on `Pubkey::try_find_program_address` of solana-program: the
/// derived address is a function of the seeds and the program alone.
#[verifier::external_body]
fn find_address(tag: &Vec<u8>, owner: &[u8; 32], mint: &[u8; 32], program_id: &[u8; 32]) -> (r: Option<([u8; 32], u8)>)
    ensures
        program_address(seq![tag@, owner@, mint@], program_id@) == (match r {
            Some((k, b)) => Some((k@, b)),
            None => None::<(Seq<u8>, u8)>,
        }),
{
    let seeds: [&[u8]; 3] = [tag.as_slice(), owner, mint];
    Pubkey::try_find_program_address(&seeds, &Pubkey::new_from_array(*program_id))
        .map(|(k, b)| (k.to_bytes(), b))
}

/// Derives the address of the escrow authority for `(owner, mint)`.
pub fn escrow_authority_address(owner: &[u8; 32], mint: &[u8; 32], program_id: &[u8; 32]) -> (r: Option<([u8; 32], u8)>)
    ensures
        derived_address(escrow_seed(), owner@, mint@, program_id@) == (match r {
            Some((k, b)) => Some((k@, b)),
            None => None::<(Seq<u8>, u8)>,
        }),
{
    let tag: Vec<u8> = vec![101u8, 115, 99, 114, 111, 119];
    proof {
        assert(tag@ =~= escrow_seed());
    }
    find_address(&tag, owner, mint, program_id)
}

/// Derives the address of the escrow record for `(owner, mint)`.
pub fn escrow_state_address(owner: &[u8; 32], mint: &[u8; 32], program_id: &[u8; 32]) -> (r: Option<([u8; 32], u8)>)
    ensures
        derived_address(state_seed(), owner@, mint@, program_id@) == (match r {
            Some((k, b)) => Some((k@, b)),
            None => None::<(Seq<u8>, u8)>,
        }),
{
    let tag: Vec<u8> = vec![115u8, 116, 97, 116, 101];
    proof {
        assert(tag@ =~= state_seed());
    }
    find_address(&tag, owner, mint, program_id)
}

/// Relies on `Pack::unpack` of spl-token's `Account`: it accepts exactly
/// 165 bytes whose state byte is initialized or frozen and whose optional
/// fields carry valid tags, and reads the mint, the owner and the
/// little-endian balance at the start.
#[verifier::external_body]
pub(crate) fn unpack_token_account(data: &Vec<u8>) -> (r: Option<TokenAccount>)
    ensures
        r is Some <==> token_account_valid(data@),
        r matches Some(a) ==> token_account_read_from(a, data@),
{
    spl_token::state::Account::unpack(data).ok().map(|a| TokenAccount {
        mint: a.mint.to_bytes(),
        owner: a.owner.to_bytes(),
        amount: a.amount,
    })
}

/// Relies on `Pack::unpack` of spl-token's `Mint`: it accepts exactly 82
/// bytes whose "initialized" byte is 1 and whose optional authorities carry
/// valid tags.
#[verifier::external_body]
pub(crate) fn is_valid_mint(data: &Vec<u8>) -> (r: bool)
    ensures
        r == mint_data_valid(data@),
{
    spl_token::state::Mint::unpack(data).is_ok()
}

} // verus!
