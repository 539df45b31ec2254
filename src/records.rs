//! The values that the library reads from and hands to the ledger.
use vstd::prelude::*;

verus! {

/// A 32-byte account identity (a public key).
#[derive(Clone, Copy, Debug, PartialEq, Eq)]
pub struct Identity {
    pub bytes: [u8; 32],
}

impl View for Identity {
    type V = Seq<u8>;

    open spec fn view(&self) -> Seq<u8> {
        self.bytes@
    }
}

/// The view of an optional identity: its bytes, when present.
pub open spec fn key_view(k: Option<Identity>) -> Option<Seq<u8>> {
    match k {
        Some(id) => Some(id@),
        None => None,
    }
}

/// A decoded mint account.
#[derive(Clone, Copy, Debug, PartialEq, Eq)]
pub struct MintRecord {
    pub mint_authority: Option<Identity>,
    pub supply: u64,
    pub decimals: u8,
    pub is_initialized: bool,
    pub freeze_authority: Option<Identity>,
}

/// What a mint record holds, with identities as byte sequences.
pub struct MintView {
    pub mint_authority: Option<Seq<u8>>,
    pub supply: u64,
    pub decimals: u8,
    pub is_initialized: bool,
    pub freeze_authority: Option<Seq<u8>>,
}

impl View for MintRecord {
    type V = MintView;

    open spec fn view(&self) -> MintView {
        MintView {
            mint_authority: key_view(self.mint_authority),
            supply: self.supply,
            decimals: self.decimals,
            is_initialized: self.is_initialized,
            freeze_authority: key_view(self.freeze_authority),
        }
    }
}

/// A decoded token-holding account.
#[derive(Clone, Copy, Debug, PartialEq, Eq)]
pub struct HoldingRecord {
    pub mint: Identity,
    pub owner: Identity,
    pub amount: u64,
}

/// What a holding record holds, with identities as byte sequences.
pub struct HoldingView {
    pub mint: Seq<u8>,
    pub owner: Seq<u8>,
    pub amount: u64,
}

impl View for HoldingRecord {
    type V = HoldingView;

    open spec fn view(&self) -> HoldingView {
        HoldingView { mint: self.mint@, owner: self.owner@, amount: self.amount }
    }
}

/// The two independently revocable privileges of a mint.
#[derive(Clone, Copy, Debug, PartialEq, Eq, Structural)]
pub enum AuthorityKind {
    MintIssuance,
    FreezeControl,
}

/// Why a byte buffer could not be read as an account record.
#[derive(Clone, Copy, Debug, PartialEq, Eq, Structural)]
pub enum DecodeError {
    /// The buffer does not have the record's fixed length.
    WrongLength,
    /// A presence flag or state byte holds a value outside its range, or the
    /// record is not initialized.
    Malformed,
}

} // verus!
