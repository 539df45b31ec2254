//! The fixed binary layouts of mint and holding accounts.
//!
//! An optional identity takes 36 bytes: a four-byte little-endian presence
//! tag (`1` present, `0` absent) followed by the 32 identity bytes. Integers
//! are little-endian.
use vstd::prelude::*;
use vstd::bytes::{spec_u64_from_le_bytes, spec_u64_to_le_bytes, lemma_auto_spec_u64_to_from_le_bytes};
use spl_token::solana_program::program_option::COption;
use spl_token::solana_program::program_pack::Pack;
use spl_token::solana_program::pubkey::Pubkey;
use crate::records::{Identity, MintRecord, MintView, HoldingRecord, HoldingView, DecodeError, key_view};

verus! {

/// Length in bytes of a mint account.
pub const MINT_LEN: usize = 82;

/// Length in bytes of a holding account.
pub const HOLDING_LEN: usize = 165;

/// The presence tag of an optional field at `off` is one of the two tags.
pub open spec fn tag_valid(b: Seq<u8>, off: int) -> bool {
    &&& b[off + 1] == 0
    &&& b[off + 2] == 0
    &&& b[off + 3] == 0
    &&& (b[off] == 0 || b[off] == 1)
}

/// The optional identity stored at `off`: the presence tag decides.
pub open spec fn key_at(b: Seq<u8>, off: int) -> Option<Seq<u8>> {
    if b[off] == 1 {
        Some(b.subrange(off + 4, off + 36))
    } else {
        None
    }
}

/// The little-endian `u64` stored at `off`.
pub open spec fn u64_at(b: Seq<u8>, off: int) -> u64 {
    spec_u64_from_le_bytes(b.subrange(off, off + 8))
}

/// The buffer has a mint account's length and every flag in its range.
pub open spec fn mint_layout_valid(b: Seq<u8>) -> bool {
    &&& b.len() == MINT_LEN
    &&& tag_valid(b, 0)
    &&& (b[45] == 0 || b[45] == 1)
    &&& tag_valid(b, 46)
}

/// The buffer is a well-formed, initialized mint account.
pub open spec fn mint_decodable(b: Seq<u8>) -> bool {
    mint_layout_valid(b) && b[45] == 1
}

/// The fields of a mint account, read at their fixed offsets.
pub open spec fn mint_fields(b: Seq<u8>) -> MintView {
    MintView {
        mint_authority: key_at(b, 0),
        supply: u64_at(b, 36),
        decimals: b[44],
        is_initialized: b[45] == 1,
        freeze_authority: key_at(b, 46),
    }
}

/// The buffer has a holding account's length and every flag in its range.
/// A state byte of `1` (initialized) or `2` (frozen) is accepted.
pub open spec fn holding_decodable(b: Seq<u8>) -> bool {
    &&& b.len() == HOLDING_LEN
    &&& tag_valid(b, 72)
    &&& (b[108] == 1 || b[108] == 2)
    &&& tag_valid(b, 109)
    &&& tag_valid(b, 129)
}

/// The fields of a holding account that the library reads.
pub open spec fn holding_fields(b: Seq<u8>) -> HoldingView {
    HoldingView { mint: b.subrange(0, 32), owner: b.subrange(32, 64), amount: u64_at(b, 64) }
}

/// The 36 bytes of an optional identity, with zero bytes after an absent tag.
pub open spec fn key_bytes(k: Option<Seq<u8>>) -> Seq<u8> {
    match k {
        Some(key) => seq![1u8, 0u8, 0u8, 0u8] + key,
        None => seq![0u8, 0u8, 0u8, 0u8] + Seq::new(32, |i: int| 0u8),
    }
}

/// The bytes of a mint account that holds `m`.
pub open spec fn mint_bytes(m: MintView) -> Seq<u8> {
    key_bytes(m.mint_authority) + spec_u64_to_le_bytes(m.supply) + seq![m.decimals]
        + seq![if m.is_initialized { 1u8 } else { 0u8 }] + key_bytes(m.freeze_authority)
}

/// Each identity in the view has 32 bytes.
pub open spec fn mint_view_wf(m: MintView) -> bool {
    &&& (m.mint_authority matches Some(k) ==> k.len() == 32)
    &&& (m.freeze_authority matches Some(k) ==> k.len() == 32)
}

/// A well-formed, initialized mint account whose absent identities are
/// stored as zero bytes: the form in which the layout writes them.
pub open spec fn mint_canonical(b: Seq<u8>) -> bool {
    &&& mint_decodable(b)
    &&& (b[0] == 0 ==> forall|i: int| 4 <= i < 36 ==> b[i] == 0)
    &&& (b[46] == 0 ==> forall|i: int| 50 <= i < 82 ==> b[i] == 0)
}

/// Relies on spl_token's `Mint::unpack`: it accepts exactly the buffers of
/// length 82 whose two presence tags are `[0,0,0,0]` or `[1,0,0,0]` and whose
/// initialized byte is `1`, and reads the fields at their fixed offsets.
#[verifier::external_body]
fn unpack_mint(b: &[u8]) -> (r: Option<MintRecord>)
    ensures
        r is Some <==> mint_decodable(b@),
        r matches Some(m) ==> m@ == mint_fields(b@),
{
    let m = spl_token::state::Mint::unpack(b).ok()?;
    Some(MintRecord {
        mint_authority: Option::from(m.mint_authority).map(|k: Pubkey| Identity { bytes: k.to_bytes() }),
        supply: m.supply,
        decimals: m.decimals,
        is_initialized: m.is_initialized,
        freeze_authority: Option::from(m.freeze_authority).map(|k: Pubkey| Identity { bytes: k.to_bytes() }),
    })
}

/// Relies on spl_token's `Account::unpack`: it accepts exactly the buffers of
/// length 165 whose three presence tags are `[0,0,0,0]` or `[1,0,0,0]` and
/// whose state byte is initialized (`1`) or frozen (`2`), and reads the mint,
/// owner and amount at offsets 0, 32 and 64.
#[verifier::external_body]
fn unpack_holding(b: &[u8]) -> (r: Option<HoldingRecord>)
    ensures
        r is Some <==> holding_decodable(b@),
        r matches Some(h) ==> h@ == holding_fields(b@),
{
    let a = spl_token::state::Account::unpack(b).ok()?;
    Some(HoldingRecord {
        mint: Identity { bytes: a.mint.to_bytes() },
        owner: Identity { bytes: a.owner.to_bytes() },
        amount: a.amount,
    })
}

/// Relies on spl_token's `Mint::pack` into a zeroed buffer of length 82: it
/// writes each field at its fixed offset and leaves an absent identity's
/// 32 bytes untouched.
#[verifier::external_body]
fn pack_mint(m: &MintRecord) -> (r: Vec<u8>)
    ensures
        r@ == mint_bytes(m@),
{
    let mint = spl_token::state::Mint {
        mint_authority: COption::from(m.mint_authority.map(|i| Pubkey::new_from_array(i.bytes))),
        supply: m.supply,
        decimals: m.decimals,
        is_initialized: m.is_initialized,
        freeze_authority: COption::from(m.freeze_authority.map(|i| Pubkey::new_from_array(i.bytes))),
    };
    let mut buf = vec![0u8; spl_token::state::Mint::LEN];
    spl_token::state::Mint::pack(mint, &mut buf).ok();
    buf
}

/// Reads a mint account. The caller has checked that the account is owned
/// by the token program: the buffer alone cannot show that.
pub fn decode_mint(b: &[u8]) -> (r: Result<MintRecord, DecodeError>)
    ensures
        b@.len() != MINT_LEN ==> r == Err::<MintRecord, DecodeError>(DecodeError::WrongLength),
        b@.len() == MINT_LEN && !mint_decodable(b@) ==> r == Err::<MintRecord, DecodeError>(
            DecodeError::Malformed,
        ),
        mint_decodable(b@) ==> (r matches Ok(m) && m@ == mint_fields(b@)),
{
    if b.len() != MINT_LEN {
        return Err(DecodeError::WrongLength);
    }
    match unpack_mint(b) {
        Some(m) => Ok(m),
        None => Err(DecodeError::Malformed),
    }
}

/// Reads a holding account.
pub fn decode_holding(b: &[u8]) -> (r: Result<HoldingRecord, DecodeError>)
    ensures
        b@.len() != HOLDING_LEN ==> r == Err::<HoldingRecord, DecodeError>(
            DecodeError::WrongLength,
        ),
        b@.len() == HOLDING_LEN && !holding_decodable(b@) ==> r == Err::<
            HoldingRecord,
            DecodeError,
        >(DecodeError::Malformed),
        holding_decodable(b@) ==> (r matches Ok(h) && h@ == holding_fields(b@)),
{
    if b.len() != HOLDING_LEN {
        return Err(DecodeError::WrongLength);
    }
    match unpack_holding(b) {
        Some(h) => Ok(h),
        None => Err(DecodeError::Malformed),
    }
}

/// Writes a mint record in the mint account layout.
pub fn encode_mint(m: &MintRecord) -> (r: Vec<u8>)
    ensures
        r@ == mint_bytes(m@),
        r@.len() == MINT_LEN,
{
    proof {
        lemma_auto_spec_u64_to_from_le_bytes();
        lemma_mint_bytes_len(m@);
    }
    pack_mint(m)
}

proof fn lemma_key_bytes_len(k: Option<Seq<u8>>)
    requires
        k matches Some(key) ==> key.len() == 32,
    ensures
        key_bytes(k).len() == 36,
{
}

/// An encoded mint record has the mint account's length.
pub proof fn lemma_mint_bytes_len(m: MintView)
    requires
        mint_view_wf(m),
    ensures
        mint_bytes(m).len() == MINT_LEN,
{
    lemma_auto_spec_u64_to_from_le_bytes();
    lemma_key_bytes_len(m.mint_authority);
    lemma_key_bytes_len(m.freeze_authority);
}

proof fn lemma_key_round_trip(b: Seq<u8>, off: int)
    requires
        0 <= off,
        off + 36 <= b.len(),
        tag_valid(b, off),
        b[off] == 0 ==> forall|i: int| off + 4 <= i < off + 36 ==> b[i] == 0,
    ensures
        key_bytes(key_at(b, off)) == b.subrange(off, off + 36),
{
    assert(key_bytes(key_at(b, off)) =~= b.subrange(off, off + 36));
}

/// Decoding a canonical mint account and encoding the result gives back the
/// same bytes.
pub proof fn lemma_mint_round_trip(b: Seq<u8>)
    requires
        mint_canonical(b),
    ensures
        mint_decodable(b),
        mint_bytes(mint_fields(b)) == b,
{
    lemma_auto_spec_u64_to_from_le_bytes();
    lemma_key_round_trip(b, 0);
    lemma_key_round_trip(b, 46);
    let m = mint_fields(b);
    assert(spec_u64_to_le_bytes(m.supply) == b.subrange(36, 44));
    assert(mint_bytes(m) =~= b);
}

/// Encoding a mint record and decoding the bytes gives back the record.
pub proof fn lemma_mint_encode_decode(m: MintView)
    requires
        mint_view_wf(m),
    ensures
        mint_layout_valid(mint_bytes(m)),
        mint_fields(mint_bytes(m)) == m,
        mint_decodable(mint_bytes(m)) <==> m.is_initialized,
{
    lemma_auto_spec_u64_to_from_le_bytes();
    lemma_mint_bytes_len(m);
    let b = mint_bytes(m);
    assert(b.subrange(36, 44) =~= spec_u64_to_le_bytes(m.supply));
    if let Some(k) = m.mint_authority {
        assert(b.subrange(4, 36) =~= k);
    }
    if let Some(k) = m.freeze_authority {
        assert(b.subrange(50, 82) =~= k);
    }
    assert(mint_fields(b).mint_authority == m.mint_authority);
    assert(mint_fields(b).freeze_authority == m.freeze_authority);
}

/// A mint account whose freeze-authority tag is absent decodes with no
/// freeze authority, whatever the 32 bytes after the tag hold.
pub proof fn lemma_absent_freeze_authority(b: Seq<u8>)
    requires
        mint_decodable(b),
        b[46] == 0,
    ensures
        mint_fields(b).freeze_authority is None,
{
}

} // verus!
