//! Identities: parsing them from text, the token program's own identity, and
//! the derivation of holding-account addresses.
use vstd::prelude::*;
use std::str::FromStr;
use spl_token::solana_program::pubkey::Pubkey;
use crate::records::Identity;

verus! {

/// The identity of the token program, whose accounts the library decodes.
pub open spec fn token_program_key() -> Seq<u8> {
    seq![
        6u8, 221u8, 246u8, 225u8, 215u8, 101u8, 161u8, 147u8, 217u8, 203u8, 225u8, 70u8, 206u8,
        235u8, 121u8, 172u8, 28u8, 180u8, 133u8, 237u8, 95u8, 91u8, 55u8, 145u8, 58u8, 140u8,
        245u8, 133u8, 126u8, 255u8, 0u8, 169u8,
    ]
}

/// The 32 bytes that a base58 address text stands for, if it stands for any.
pub uninterp spec fn address_text_bytes(s: Seq<char>) -> Option<Seq<u8>>;

/// The holding-account address of `owner` for `mint`: a program-derived
/// address computed from the two identities and fixed program identities.
pub uninterp spec fn holding_address_of(owner: Seq<u8>, mint: Seq<u8>) -> Seq<u8>;

/// Relies on spl_token's `id()`: the program identity declared as
/// `TokenkegQfeZyiNwAJbNbGKPFXCWuBvf9Ss623VQ5DA`, whose bytes these are.
#[verifier::external_body]
pub fn token_program_id() -> (r: Identity)
    ensures
        r@ == token_program_key(),
{
    Identity { bytes: spl_token::id().to_bytes() }
}

/// Relies on `Pubkey::from_str`: a base58 decode into exactly 32 bytes,
/// which depends on the text alone.
#[verifier::external_body]
fn parse_pubkey(s: &str) -> (r: Option<Identity>)
    ensures
        r is Some <==> address_text_bytes(s@) is Some,
        r matches Some(id) ==> address_text_bytes(s@) == Some(id@),
{
    Pubkey::from_str(s).ok().map(|k: Pubkey| Identity { bytes: k.to_bytes() })
}

/// Relies on spl_associated_token_account's `get_associated_token_address`,
/// which depends on its two arguments alone. Its search over a one-byte
/// nonce does not end without an address for any pair that occurs in
/// practice.
#[verifier::external_body]
fn associated_address(owner: &Identity, mint: &Identity) -> (r: Identity)
    ensures
        r@ == holding_address_of(owner@, mint@),
{
    let a = spl_associated_token_account::get_associated_token_address(
        &Pubkey::new_from_array(owner.bytes),
        &Pubkey::new_from_array(mint.bytes),
    );
    Identity { bytes: a.to_bytes() }
}

/// Parses a base58 address.
pub fn parse_address(s: &str) -> (r: Option<Identity>)
    ensures
        r is Some <==> address_text_bytes(s@) is Some,
        r matches Some(id) ==> address_text_bytes(s@) == Some(id@),
{
    parse_pubkey(s)
}

/// The address of the holding account of `owner` for `mint`.
pub fn derive_holding_address(owner: &Identity, mint: &Identity) -> (r: Identity)
    ensures
        r@ == holding_address_of(owner@, mint@),
{
    associated_address(owner, mint)
}

/// Whether two identities hold the same bytes.
pub fn same_identity(a: &Identity, b: &Identity) -> (r: bool)
    ensures
        r == (a@ == b@),
{
    let mut i: usize = 0;
    while i < 32
        invariant
            0 <= i <= 32,
            a@.len() == 32,
            b@.len() == 32,
            forall|j: int| 0 <= j < i ==> a@[j] == b@[j],
        decreases 32 - i,
    {
        if a.bytes[i] != b.bytes[i] {
            return false;
        }
        i = i + 1;
    }
    assert(a@ =~= b@);
    true
}

/// Whether `owner` is the token program.
pub fn is_token_program(owner: &Identity) -> (r: bool)
    ensures
        r == (owner@ == token_program_key()),
{
    let program = token_program_id();
    same_identity(owner, &program)
}

/// Derivation depends on the two identities alone: equal inputs give equal
/// addresses.
pub proof fn lemma_derivation_deterministic(o1: Seq<u8>, m1: Seq<u8>, o2: Seq<u8>, m2: Seq<u8>)
    requires
        o1 == o2,
        m1 == m2,
    ensures
        holding_address_of(o1, m1) == holding_address_of(o2, m2),
{
}

} // verus!
