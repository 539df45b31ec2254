use spl_token::solana_program::pubkey::Pubkey;
use token_ops::address::{derive_holding_address, is_token_program, parse_address, same_identity, token_program_id};
use token_ops::authority::{apply_revocation, build_revocation, AccountRef};
use token_ops::layout::{decode_mint, encode_mint};
use token_ops::operations::{
    balance_owner, holding_balance, list_holdings, next_analysis_action, parse_address_arg,
    parse_listing_addresses, revocation_outcome, verify_mint, AnalysisAction, AnalysisStep,
    LedgerAccount, OpError,
};
use token_ops::records::{AuthorityKind, DecodeError, Identity, MintRecord};

const TOKEN_PROGRAM_BYTES: [u8; 32] = [
    6, 221, 246, 225, 215, 101, 161, 147, 217, 203, 225, 70, 206, 235, 121, 172, 28, 180, 133, 237,
    95, 91, 55, 145, 58, 140, 245, 133, 126, 255, 0, 169,
];

fn id(fill: u8) -> Identity {
    let mut k = [0u8; 32];
    for (i, b) in k.iter_mut().enumerate() {
        *b = fill.wrapping_mul(31).wrapping_add(i as u8);
    }
    Identity { bytes: k }
}

fn holding_buffer(mint: Identity, owner: Identity, amount: u64) -> Vec<u8> {
    let mut b = Vec::new();
    b.extend_from_slice(&mint.bytes);
    b.extend_from_slice(&owner.bytes);
    b.extend_from_slice(&amount.to_le_bytes());
    b.extend_from_slice(&[0u8; 36]);
    b.push(1);
    b.extend_from_slice(&[0u8; 56]);
    b
}

fn sample_mint(authority: Identity) -> MintRecord {
    MintRecord {
        mint_authority: Some(authority),
        supply: 1_000_000,
        decimals: 6,
        is_initialized: true,
        freeze_authority: None,
    }
}

#[test]
fn token_program_identity_bytes() {
    assert_eq!(token_program_id().bytes, TOKEN_PROGRAM_BYTES);
    assert_eq!(token_program_id().bytes, spl_token::id().to_bytes());
    assert!(is_token_program(&Identity { bytes: TOKEN_PROGRAM_BYTES }));
    assert!(!is_token_program(&id(1)));
}

#[test]
fn same_identity_compares_bytes() {
    assert!(same_identity(&id(4), &id(4)));
    let mut other = id(4);
    other.bytes[31] ^= 1;
    assert!(!same_identity(&id(4), &other));
}

#[test]
fn parse_address_decodes_base58() {
    let parsed = parse_address("TokenkegQfeZyiNwAJbNbGKPFXCWuBvf9Ss623VQ5DA").unwrap();
    assert_eq!(parsed.bytes, TOKEN_PROGRAM_BYTES);
    assert_eq!(parse_address("not-an-address-0OIl"), None);
    assert_eq!(parse_address(""), None);
    assert_eq!(parse_address_arg("abc!"), Err(OpError::InvalidAddress));
}

#[test]
fn verify_reports_the_mint_fields() {
    let authority = id(9);
    let data = encode_mint(&sample_mint(authority));
    let account = LedgerAccount { owner: token_program_id(), data };
    let m = verify_mint(&Some(account)).unwrap();
    assert_eq!(m.decimals, 6);
    assert_eq!(m.supply, 1_000_000);
    assert!(m.is_initialized);
    assert_eq!(m.mint_authority, Some(authority));
    assert_eq!(m.freeze_authority, None);
}

#[test]
fn verify_failures() {
    assert_eq!(verify_mint(&None), Err(OpError::MintNotFound));
    let data = encode_mint(&sample_mint(id(1)));
    let foreign = LedgerAccount { owner: id(2), data: data.clone() };
    assert_eq!(verify_mint(&Some(foreign)), Err(OpError::WrongOwner));
    let short = LedgerAccount { owner: token_program_id(), data: data[..81].to_vec() };
    assert_eq!(verify_mint(&Some(short)), Err(OpError::Decode(DecodeError::WrongLength)));
    let mut bad = data;
    bad[45] = 0;
    let uninit = LedgerAccount { owner: token_program_id(), data: bad };
    assert_eq!(verify_mint(&Some(uninit)), Err(OpError::Decode(DecodeError::Malformed)));
}

#[test]
fn balance_without_holding_account_is_empty() {
    assert_eq!(holding_balance(&Ok(None)), Ok(None));
}

#[test]
fn balance_lookup_failure_is_an_error() {
    let cause = "connection refused".to_string();
    assert_eq!(holding_balance(&Err(cause.clone())), Err(OpError::Transport(cause)));
}

#[test]
fn balance_of_foreign_account_is_refused() {
    let account = LedgerAccount { owner: id(7), data: holding_buffer(id(1), id(2), 500) };
    assert_eq!(holding_balance(&Ok(Some(account))), Err(OpError::WrongOwner));
}

#[test]
fn balance_of_existing_holding_account() {
    let account = LedgerAccount { owner: token_program_id(), data: holding_buffer(id(1), id(2), 500) };
    let h = holding_balance(&Ok(Some(account))).unwrap().unwrap();
    assert_eq!(h.amount, 500);
    assert_eq!(h.mint, id(1));
    assert_eq!(h.owner, id(2));
    let broken = LedgerAccount { owner: token_program_id(), data: vec![0u8; 10] };
    assert_eq!(holding_balance(&Ok(Some(broken))), Err(OpError::Decode(DecodeError::WrongLength)));
}

#[test]
fn balance_owner_defaults_to_wallet() {
    let wallet = id(3);
    assert_eq!(balance_owner(&None, &wallet), Ok(wallet));
    let given = Some("TokenkegQfeZyiNwAJbNbGKPFXCWuBvf9Ss623VQ5DA".to_string());
    assert_eq!(balance_owner(&given, &wallet).unwrap().bytes, TOKEN_PROGRAM_BYTES);
    assert_eq!(balance_owner(&Some("###".to_string()), &wallet), Err(OpError::InvalidAddress));
}

#[test]
fn list_accounts_skips_undecodable_record() {
    let mut short = holding_buffer(id(1), id(5), 7);
    short.pop();
    let items = vec![
        Some(LedgerAccount { owner: token_program_id(), data: holding_buffer(id(1), id(5), 10) }),
        Some(LedgerAccount { owner: token_program_id(), data: short }),
        Some(LedgerAccount { owner: token_program_id(), data: holding_buffer(id(2), id(5), 20) }),
    ];
    let listing = list_holdings(&items);
    assert_eq!(listing.entries.len(), 2);
    assert_eq!(listing.skipped, vec![1]);
    assert_eq!(listing.entries[0].position, 0);
    assert_eq!(listing.entries[0].record.amount, 10);
    assert_eq!(listing.entries[1].position, 2);
    assert_eq!(listing.entries[1].record.amount, 20);
}

#[test]
fn list_accounts_skips_missing_and_foreign() {
    let empty = list_holdings(&Vec::new());
    assert_eq!(empty.entries.len(), 0);
    assert!(empty.skipped.is_empty());
    let items = vec![
        None,
        Some(LedgerAccount { owner: token_program_id(), data: holding_buffer(id(1), id(5), 3) }),
        Some(LedgerAccount { owner: id(0), data: holding_buffer(id(1), id(5), 4) }),
    ];
    let listing = list_holdings(&items);
    assert_eq!(listing.skipped, vec![0, 2]);
    assert_eq!(listing.entries.len(), 1);
    assert_eq!(listing.entries[0].position, 1);
    assert_eq!(listing.entries[0].record.amount, 3);
}

#[test]
fn listing_addresses_stop_at_invalid() {
    let good = vec![
        "TokenkegQfeZyiNwAJbNbGKPFXCWuBvf9Ss623VQ5DA".to_string(),
        "ATokenGPvbdGVxr1b2hvZbsiqW5xWH25efTNsLJA8knL".to_string(),
    ];
    let ids = parse_listing_addresses(&good).unwrap();
    assert_eq!(ids.len(), 2);
    assert_eq!(ids[0].bytes, TOKEN_PROGRAM_BYTES);
    let bad = vec![good[0].clone(), "0".to_string()];
    assert_eq!(parse_listing_addresses(&bad), Err(OpError::InvalidAddress));
}

#[test]
fn holding_address_is_deterministic() {
    let a = derive_holding_address(&id(1), &id(2));
    let b = derive_holding_address(&id(1), &id(2));
    assert_eq!(a, b);
    assert_ne!(a, id(1));
    assert_ne!(a, id(2));
    let expected = spl_associated_token_account::get_associated_token_address(
        &Pubkey::new_from_array(id(1).bytes),
        &Pubkey::new_from_array(id(2).bytes),
    );
    assert_eq!(a.bytes, expected.to_bytes());
}

#[test]
fn holding_addresses_of_distinct_pairs_differ() {
    let mut seen = Vec::new();
    for o in 0u8..6 {
        for m in 0u8..6 {
            let a = derive_holding_address(&id(o), &id(m.wrapping_add(100)));
            assert!(!seen.contains(&a));
            seen.push(a);
        }
    }
}

#[test]
fn revocation_instruction_shape() {
    let mint = id(1);
    let authority = id(2);
    let ix = build_revocation(&mint, AuthorityKind::MintIssuance, &authority);
    assert_eq!(ix.program_id.bytes, TOKEN_PROGRAM_BYTES);
    assert_eq!(ix.data, vec![6, 0, 0]);
    assert_eq!(
        ix.accounts,
        vec![
            AccountRef { key: mint, is_signer: false, is_writable: true },
            AccountRef { key: authority, is_signer: true, is_writable: false },
        ]
    );
    let freeze = build_revocation(&mint, AuthorityKind::FreezeControl, &authority);
    assert_eq!(freeze.data, vec![6, 1, 0]);
}

#[test]
fn revoked_mint_authority_decodes_as_none() {
    let m = sample_mint(id(4));
    let revoked = apply_revocation(&m, AuthorityKind::MintIssuance);
    let decoded = decode_mint(&encode_mint(&revoked)).unwrap();
    assert_eq!(decoded.mint_authority, None);
    assert_eq!(decoded.supply, 1_000_000);
    assert_eq!(apply_revocation(&revoked, AuthorityKind::MintIssuance), revoked);
    let m2 = MintRecord { freeze_authority: Some(id(8)), ..m };
    assert_eq!(apply_revocation(&m2, AuthorityKind::FreezeControl).freeze_authority, None);
    assert_eq!(apply_revocation(&m2, AuthorityKind::FreezeControl).mint_authority, Some(id(4)));
}

#[test]
fn rejected_revocation_is_surfaced_unchanged() {
    let cause = "custom program error: 0x4".to_string();
    assert_eq!(
        revocation_outcome(AuthorityKind::MintIssuance, Err(cause.clone())),
        Err(OpError::Submission { kind: AuthorityKind::MintIssuance, cause })
    );
    assert_eq!(revocation_outcome(AuthorityKind::FreezeControl, Ok("sig".to_string())), Ok("sig".to_string()));
}

#[test]
fn analysis_runs_in_order_and_aborts() {
    assert_eq!(next_analysis_action(None, true), AnalysisAction::Run(AnalysisStep::VerifyMint));
    assert_eq!(
        next_analysis_action(Some(AnalysisStep::VerifyMint), true),
        AnalysisAction::Run(AnalysisStep::HoldingBalance)
    );
    assert_eq!(
        next_analysis_action(Some(AnalysisStep::HoldingBalance), true),
        AnalysisAction::Run(AnalysisStep::WalletBalance)
    );
    assert_eq!(next_analysis_action(Some(AnalysisStep::WalletBalance), true), AnalysisAction::Finish);
    assert_eq!(next_analysis_action(Some(AnalysisStep::VerifyMint), false), AnalysisAction::Abort);
    assert_eq!(next_analysis_action(Some(AnalysisStep::HoldingBalance), false), AnalysisAction::Abort);
}
