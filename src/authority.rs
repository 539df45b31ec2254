//! Revocation of a mint's authorities: the instruction that sets one of them
//! to none, and what the library reports of its submission.
use vstd::prelude::*;
use spl_token::instruction::AuthorityType;
use spl_token::solana_program::instruction::AccountMeta;
use spl_token::solana_program::pubkey::Pubkey;
use crate::records::{Identity, AuthorityKind, MintRecord, MintView};
use crate::address::token_program_key;
use crate::layout::{mint_bytes, mint_fields, mint_view_wf, lemma_mint_encode_decode};

verus! {

/// An account that an instruction names, with its access rights.
#[derive(Clone, Copy, Debug, PartialEq, Eq)]
pub struct AccountRef {
    pub key: Identity,
    pub is_signer: bool,
    pub is_writable: bool,
}

/// An instruction to the token program.
#[derive(Clone, Debug)]
pub struct RevocationInstruction {
    pub program_id: Identity,
    pub accounts: Vec<AccountRef>,
    pub data: Vec<u8>,
}

/// The byte by which the token program names an authority kind.
pub open spec fn authority_code(kind: AuthorityKind) -> u8 {
    match kind {
        AuthorityKind::MintIssuance => 0,
        AuthorityKind::FreezeControl => 1,
    }
}

/// The instruction data that sets the authority of `kind` to none: the
/// set-authority tag `6`, the kind, and an absent new authority.
pub open spec fn revocation_data(kind: AuthorityKind) -> Seq<u8> {
    seq![6u8, authority_code(kind), 0u8]
}

/// The accounts of a revocation: the mint, writable, and the current
/// authority, which must sign.
pub open spec fn revocation_accounts(mint: Identity, authority: Identity) -> Seq<AccountRef> {
    seq![
        AccountRef { key: mint, is_signer: false, is_writable: true },
        AccountRef { key: authority, is_signer: true, is_writable: false },
    ]
}

/// Relies on spl_token's `instruction::set_authority` with the token
/// program's own id, no new authority and no multisignature signers: it
/// succeeds and names the mint (writable) and the authority (signer), with
/// data `[6, kind, 0]`.
#[verifier::external_body]
fn set_authority_none(mint: &Identity, kind: AuthorityKind, authority: &Identity) -> (r: Option<
    RevocationInstruction,
>)
    ensures
        r matches Some(ix) ==> ix.accounts@ == revocation_accounts(*mint, *authority)
            && ix.data@ == revocation_data(kind) && ix.program_id@ == token_program_key(),
        r is Some,
{
    let authority_type = match kind {
        AuthorityKind::MintIssuance => AuthorityType::MintTokens,
        AuthorityKind::FreezeControl => AuthorityType::FreezeAccount,
    };
    let ix = spl_token::instruction::set_authority(&spl_token::id(),
        &Pubkey::new_from_array(mint.bytes), None, authority_type,
        &Pubkey::new_from_array(authority.bytes), &[]).ok()?;
    let accounts = ix.accounts.iter().map(|a: &AccountMeta| AccountRef {
        key: Identity { bytes: a.pubkey.to_bytes() }, is_signer: a.is_signer, is_writable: a.is_writable,
    }).collect();
    Some(RevocationInstruction { program_id: Identity { bytes: ix.program_id.to_bytes() }, accounts, data: ix.data })
}

/// Builds the one instruction that revokes the authority of `kind` on
/// `mint`. Whether the signer really holds that authority is for the network
/// to decide.
pub fn build_revocation(mint: &Identity, kind: AuthorityKind, authority: &Identity) -> (r:
    RevocationInstruction)
    ensures
        r.program_id@ == token_program_key(),
        r.accounts@ == revocation_accounts(*mint, *authority),
        r.data@ == revocation_data(kind),
{
    match set_authority_none(mint, kind, authority) {
        Some(ix) => ix,
        None => unreached(),
    }
}

/// The mint record after the authority of `kind` was revoked: that slot is
/// none and every other field is kept.
pub open spec fn revoked(m: MintView, kind: AuthorityKind) -> MintView {
    match kind {
        AuthorityKind::MintIssuance => MintView { mint_authority: None, ..m },
        AuthorityKind::FreezeControl => MintView { freeze_authority: None, ..m },
    }
}

/// Applies a revocation to a mint record.
pub fn apply_revocation(m: &MintRecord, kind: AuthorityKind) -> (r: MintRecord)
    ensures
        r@ == revoked(m@, kind),
{
    match kind {
        AuthorityKind::MintIssuance => MintRecord { mint_authority: None, ..*m },
        AuthorityKind::FreezeControl => MintRecord { freeze_authority: None, ..*m },
    }
}

/// A revoked authority stays revoked: after a revocation of the mint
/// authority the encoded record decodes with none there, and revoking the
/// same authority again changes nothing.
pub proof fn lemma_revocation_monotone(m: MintView, kind: AuthorityKind)
    requires
        mint_view_wf(m),
    ensures
        kind == AuthorityKind::MintIssuance ==> mint_fields(
            mint_bytes(revoked(m, kind)),
        ).mint_authority is None,
        kind == AuthorityKind::FreezeControl ==> mint_fields(
            mint_bytes(revoked(m, kind)),
        ).freeze_authority is None,
        revoked(revoked(m, kind), kind) == revoked(m, kind),
{
    lemma_mint_encode_decode(revoked(m, kind));
}

} // verus!
