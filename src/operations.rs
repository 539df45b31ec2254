//! The decisions of the user-facing operations. The caller performs the
//! ledger requests; these functions take what came back and say what the
//! operation reports.
use vstd::prelude::*;
use crate::records::{Identity, MintRecord, HoldingRecord, HoldingView, AuthorityKind, DecodeError};
use crate::layout::{decode_mint, decode_holding, mint_decodable, mint_fields, holding_decodable, holding_fields, MINT_LEN, HOLDING_LEN};
use crate::address::{parse_address, is_token_program, address_text_bytes, token_program_key};

verus! {

/// An account as the ledger returns it: its owning program and its data.
#[derive(Clone, Debug)]
pub struct LedgerAccount {
    pub owner: Identity,
    pub data: Vec<u8>,
}

/// Why an operation failed.
#[derive(Clone, Debug, PartialEq, Eq)]
pub enum OpError {
    /// An address argument is not a valid base58 identity.
    InvalidAddress,
    /// The mint account does not exist.
    MintNotFound,
    /// The account is not owned by the token program.
    WrongOwner,
    /// A ledger request failed; the cause is kept as it came.
    Transport(String),
    /// The account data could not be decoded.
    Decode(DecodeError),
    /// The network rejected a revocation; the cause is kept as it came.
    Submission { kind: AuthorityKind, cause: String },
}

/// The decode error that a buffer of `len` bytes of the expected length
/// `expected` gives when it cannot be decoded.
pub open spec fn decode_error_of(len: nat, expected: nat) -> DecodeError {
    if len != expected {
        DecodeError::WrongLength
    } else {
        DecodeError::Malformed
    }
}

/// Parses an address argument.
pub fn parse_address_arg(s: &str) -> (r: Result<Identity, OpError>)
    ensures
        r is Ok <==> address_text_bytes(s@) is Some,
        r matches Ok(id) ==> address_text_bytes(s@) == Some(id@),
        r is Err ==> r == Err::<Identity, OpError>(OpError::InvalidAddress),
{
    match parse_address(s) {
        Some(id) => Ok(id),
        None => Err(OpError::InvalidAddress),
    }
}

/// The owner whose balance is asked for: the one given, else the wallet.
pub fn balance_owner(owner: &Option<String>, wallet: &Identity) -> (r: Result<Identity, OpError>)
    ensures
        owner is None ==> r == Ok::<Identity, OpError>(*wallet),
        owner matches Some(s) ==> (r is Ok <==> address_text_bytes(s@) is Some),
        owner matches Some(s) ==> (r matches Ok(id) ==> address_text_bytes(s@) == Some(id@)),
        r is Err ==> r == Err::<Identity, OpError>(OpError::InvalidAddress),
{
    match owner {
        Some(s) => parse_address_arg(s.as_str()),
        None => Ok(*wallet),
    }
}

/// Checks and decodes a fetched mint account: it must exist, be owned by
/// the token program and decode as an initialized mint.
pub fn verify_mint(account: &Option<LedgerAccount>) -> (r: Result<MintRecord, OpError>)
    ensures
        account is None ==> r == Err::<MintRecord, OpError>(OpError::MintNotFound),
        account matches Some(a) ==> (a.owner@ != token_program_key() ==> r == Err::<
            MintRecord,
            OpError,
        >(OpError::WrongOwner)),
        account matches Some(a) ==> (a.owner@ == token_program_key() && !mint_decodable(a.data@)
            ==> r == Err::<MintRecord, OpError>(
            OpError::Decode(decode_error_of(a.data@.len(), MINT_LEN as nat)),
        )),
        account matches Some(a) ==> (a.owner@ == token_program_key() && mint_decodable(a.data@)
            ==> (r matches Ok(m) && m@ == mint_fields(a.data@))),
{
    match account {
        None => Err(OpError::MintNotFound),
        Some(a) => {
            if !is_token_program(&a.owner) {
                return Err(OpError::WrongOwner);
            }
            match decode_mint(a.data.as_slice()) {
                Ok(m) => Ok(m),
                Err(e) => Err(OpError::Decode(e)),
            }
        },
    }
}

/// Checks and decodes a looked-up holding account. An account that does not
/// exist is no error: the owner holds nothing of the mint. A failed lookup,
/// an account of another program, or data that does not decode is one.
pub fn holding_balance(lookup: &Result<Option<LedgerAccount>, String>) -> (r: Result<
    Option<HoldingRecord>,
    OpError,
>)
    ensures
        lookup matches Err(cause) ==> (r matches Err(OpError::Transport(c)) && c@ == cause@),
        lookup matches Ok(None) ==> r == Ok::<Option<HoldingRecord>, OpError>(None),
        lookup matches Ok(Some(a)) ==> (a.owner@ != token_program_key() ==> r == Err::<
            Option<HoldingRecord>,
            OpError,
        >(OpError::WrongOwner)),
        lookup matches Ok(Some(a)) ==> (a.owner@ == token_program_key() && !holding_decodable(
            a.data@,
        ) ==> r == Err::<Option<HoldingRecord>, OpError>(
            OpError::Decode(decode_error_of(a.data@.len(), HOLDING_LEN as nat)),
        )),
        lookup matches Ok(Some(a)) ==> (a.owner@ == token_program_key() && holding_decodable(
            a.data@,
        ) ==> (r matches Ok(Some(h)) && h@ == holding_fields(a.data@))),
{
    match lookup {
        Err(cause) => Err(OpError::Transport(cause.clone())),
        Ok(None) => Ok(None),
        Ok(Some(a)) => {
            if !is_token_program(&a.owner) {
                return Err(OpError::WrongOwner);
            }
            match decode_holding(a.data.as_slice()) {
                Ok(h) => Ok(Some(h)),
                Err(e) => Err(OpError::Decode(e)),
            }
        },
    }
}

/// A holding account of a listing, with its position in the listing.
#[derive(Clone, Copy, Debug)]
pub struct ListedHolding {
    pub position: usize,
    pub record: HoldingRecord,
}

impl View for ListedHolding {
    type V = (int, HoldingView);

    open spec fn view(&self) -> (int, HoldingView) {
        (self.position as int, self.record@)
    }
}

/// A fetched account of a listing that is owned by the token program and
/// decodes as a holding account.
pub open spec fn listable(item: Option<LedgerAccount>) -> bool {
    item matches Some(a) && a.owner@ == token_program_key() && holding_decodable(a.data@)
}

/// The entries of a listing: each listable account, in order, with its
/// position.
pub open spec fn listed(items: Seq<Option<LedgerAccount>>) -> Seq<(int, HoldingView)>
    decreases items.len(),
{
    if items.len() == 0 {
        seq![]
    } else {
        let prev = listed(items.drop_last());
        if listable(items.last()) {
            prev.push((items.len() - 1, holding_fields(items.last()->Some_0.data@)))
        } else {
            prev
        }
    }
}

/// The positions of the accounts of a listing that are skipped: those not
/// fetched, of another program, or not decodable.
pub open spec fn skipped_positions(items: Seq<Option<LedgerAccount>>) -> Seq<int>
    decreases items.len(),
{
    if items.len() == 0 {
        seq![]
    } else {
        let prev = skipped_positions(items.drop_last());
        if listable(items.last()) {
            prev
        } else {
            prev.push(items.len() - 1)
        }
    }
}

/// The accounts of a listing that decode, and the positions of those skipped.
#[derive(Clone, Debug)]
pub struct Listing {
    pub entries: Vec<ListedHolding>,
    pub skipped: Vec<usize>,
}

/// Decodes each account of a listing; one that is missing, owned by another
/// program, or does not decode is recorded as skipped and the listing goes on.
pub fn list_holdings(items: &Vec<Option<LedgerAccount>>) -> (r: Listing)
    ensures
        r.entries@.map_values(|e: ListedHolding| e@) == listed(items@),
        r.skipped@.map_values(|p: usize| p as int) == skipped_positions(items@),
        r.skipped@.len() + r.entries@.len() == items@.len(),
{
    let mut entries: Vec<ListedHolding> = Vec::new();
    let mut skipped: Vec<usize> = Vec::new();
    let mut i: usize = 0;
    while i < items.len()
        invariant
            0 <= i <= items@.len(),
            entries@.map_values(|e: ListedHolding| e@) == listed(items@.subrange(0, i as int)),
            skipped@.map_values(|p: usize| p as int) == skipped_positions(
                items@.subrange(0, i as int),
            ),
            skipped@.len() + entries@.len() == i,
        decreases items@.len() - i,
    {
        proof {
            assert(items@.subrange(0, i + 1).drop_last() =~= items@.subrange(0, i as int));
            assert(items@.subrange(0, i + 1).last() == items@[i as int]);
        }
        let mut decoded: Option<HoldingRecord> = None;
        if let Some(a) = &items[i] {
            if is_token_program(&a.owner) {
                if let Ok(h) = decode_holding(a.data.as_slice()) {
                    decoded = Some(h);
                }
            }
        }
        match decoded {
            Some(h) => {
                entries.push(ListedHolding { position: i, record: h });
                assert(entries@.map_values(|e: ListedHolding| e@) =~= listed(
                    items@.subrange(0, i + 1),
                ));
                assert(skipped@.map_values(|p: usize| p as int) =~= skipped_positions(
                    items@.subrange(0, i + 1),
                ));
            },
            None => {
                skipped.push(i);
                assert(entries@.map_values(|e: ListedHolding| e@) =~= listed(
                    items@.subrange(0, i + 1),
                ));
                assert(skipped@.map_values(|p: usize| p as int) =~= skipped_positions(
                    items@.subrange(0, i + 1),
                ));
            },
        }
        i = i + 1;
    }
    assert(items@.subrange(0, items@.len() as int) =~= items@);
    Listing { entries, skipped }
}

/// Parses the addresses of a listing; the first that does not parse ends it.
pub fn parse_listing_addresses(texts: &Vec<String>) -> (r: Result<Vec<Identity>, OpError>)
    ensures
        r is Ok <==> forall|i: int| 0 <= i < texts@.len() ==> address_text_bytes(texts@[i]@) is Some,
        r matches Ok(ids) ==> ids@.len() == texts@.len() && forall|i: int|
            0 <= i < texts@.len() ==> address_text_bytes(texts@[i]@) == Some(#[trigger] ids@[i]@),
        r is Err ==> r == Err::<Vec<Identity>, OpError>(OpError::InvalidAddress),
{
    let mut ids: Vec<Identity> = Vec::new();
    let mut i: usize = 0;
    while i < texts.len()
        invariant
            0 <= i <= texts@.len(),
            ids@.len() == i,
            forall|j: int| 0 <= j < i ==> address_text_bytes(texts@[j]@) == Some(#[trigger] ids@[j]@),
        decreases texts@.len() - i,
    {
        match parse_address(texts[i].as_str()) {
            Some(id) => {
                ids.push(id);
            },
            None => {
                return Err(OpError::InvalidAddress);
            },
        }
        i = i + 1;
    }
    assert forall|j: int| 0 <= j < texts@.len() implies address_text_bytes(texts@[j]@) is Some by {
        assert(address_text_bytes(texts@[j]@) == Some(ids@[j]@));
    }
    Ok(ids)
}

/// Reports the submission of a revocation: the signature on success, and
/// the network's rejection, unchanged and marked with the authority kind,
/// otherwise.
pub fn revocation_outcome(kind: AuthorityKind, submitted: Result<String, String>) -> (r: Result<
    String,
    OpError,
>)
    ensures
        submitted matches Ok(sig) ==> r == Ok::<String, OpError>(sig),
        submitted matches Err(cause) ==> r == Err::<String, OpError>(
            OpError::Submission { kind, cause },
        ),
{
    match submitted {
        Ok(sig) => Ok(sig),
        Err(cause) => Err(OpError::Submission { kind, cause }),
    }
}

/// The three read-only steps of an analysis, in their fixed order.
#[derive(Clone, Copy, Debug, PartialEq, Eq, Structural)]
pub enum AnalysisStep {
    VerifyMint,
    HoldingBalance,
    WalletBalance,
}

/// What the caller does next in an analysis.
#[derive(Clone, Copy, Debug, PartialEq, Eq, Structural)]
pub enum AnalysisAction {
    Run(AnalysisStep),
    Finish,
    Abort,
}

/// The action after `done` ended, successfully or not (`None`: at the start).
pub open spec fn analysis_after(done: Option<AnalysisStep>, succeeded: bool) -> AnalysisAction {
    match done {
        None => AnalysisAction::Run(AnalysisStep::VerifyMint),
        Some(step) => if !succeeded {
            AnalysisAction::Abort
        } else {
            match step {
                AnalysisStep::VerifyMint => AnalysisAction::Run(AnalysisStep::HoldingBalance),
                AnalysisStep::HoldingBalance => AnalysisAction::Run(AnalysisStep::WalletBalance),
                AnalysisStep::WalletBalance => AnalysisAction::Finish,
            }
        },
    }
}

/// Sequences an analysis: verify, then the wallet's holding balance, then its
/// network balance; the first failure aborts the rest.
pub fn next_analysis_action(done: Option<AnalysisStep>, succeeded: bool) -> (r: AnalysisAction)
    ensures
        r == analysis_after(done, succeeded),
{
    match done {
        None => AnalysisAction::Run(AnalysisStep::VerifyMint),
        Some(step) => {
            if !succeeded {
                AnalysisAction::Abort
            } else {
                match step {
                    AnalysisStep::VerifyMint => AnalysisAction::Run(AnalysisStep::HoldingBalance),
                    AnalysisStep::HoldingBalance => AnalysisAction::Run(AnalysisStep::WalletBalance),
                    AnalysisStep::WalletBalance => AnalysisAction::Finish,
                }
            }
        },
    }
}

} // verus!
