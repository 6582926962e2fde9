//! The provisioning unit, end to end and under forced failures.

use anchor_lang::prelude::Pubkey;
use anchor_spl::associated_token::get_associated_token_address_with_program_id;
use anchor_spl::token_interface::spl_token_2022::extension::ExtensionType;
use anchor_spl::token_interface::spl_token_2022::state::Mint as MintLayout;

use universal_mint::addresses::derive_metadata_address;
use universal_mint::failure::{FailureKind, Phase, ProvisionFailure};
use universal_mint::ledger::{Account, AccountContents, Ledger};
use universal_mint::provision::{
    create_spl_token_extension_metadata, CreateSplToken22Metadata, RentQuotes,
};

fn id(byte: u8) -> Vec<u8> {
    vec![byte; 32]
}

fn as_pubkey(bytes: &[u8]) -> Pubkey {
    Pubkey::new_from_array(bytes.try_into().unwrap())
}

fn token_program() -> Vec<u8> {
    anchor_spl::token_2022::ID.to_bytes().to_vec()
}

fn ata_program() -> Vec<u8> {
    anchor_spl::associated_token::ID.to_bytes().to_vec()
}

fn holding_address_for(owner: &[u8], mint: &[u8]) -> Vec<u8> {
    get_associated_token_address_with_program_id(
        &as_pubkey(owner),
        &as_pubkey(mint),
        &anchor_spl::token_2022::ID,
    )
    .to_bytes()
    .to_vec()
}

fn funded_ledger(payer: &[u8], lamports: u64) -> Ledger {
    let mut ledger = Ledger::new();
    ledger.accounts.push(Account {
        address: payer.to_vec(),
        lamports,
        space: 0,
        owner_program: Vec::new(),
        contents: AccountContents::Untyped,
    });
    ledger
}

fn find<'a>(ledger: &'a Ledger, address: &[u8]) -> &'a Account {
    ledger
        .accounts
        .iter()
        .find(|a| a.address == address)
        .expect("account should exist")
}

fn quotes() -> RentQuotes {
    RentQuotes { mint_account: 2_000_000, metadata_account: 900_000, holding_account: 1_500_000 }
}

#[test]
fn provisions_a_ticket_asset_end_to_end() {
    let payer = id(1);
    let mint = id(2);
    let program_id = id(7);
    let ata = holding_address_for(&payer, &mint);
    let mut ledger = funded_ledger(&payer, 10_000_000);
    let accounts = CreateSplToken22Metadata {
        payer: payer.clone(),
        mint: mint.clone(),
        ata: ata.clone(),
    };
    let result = create_spl_token_extension_metadata(
        &mut ledger,
        &accounts,
        &b"Ticket".to_vec(),
        &b"Event pass #1".to_vec(),
        &quotes(),
        &program_id,
        &token_program(),
        &ata_program(),
    );
    assert!(result.is_ok());

    let (metadata_address, _bump) = derive_metadata_address(&mint, &program_id).unwrap();

    let mint_account = find(&ledger, &mint);
    let expected_space = ExtensionType::try_calculate_account_len::<MintLayout>(&[
        ExtensionType::MetadataPointer,
    ])
    .unwrap() as u64;
    assert_eq!(mint_account.space, expected_space);
    assert_eq!(mint_account.owner_program, token_program());
    match &mint_account.contents {
        AccountContents::Mint { pointer: Some(pointer), details: Some(details) } => {
            assert_eq!(pointer.metadata_address, metadata_address);
            assert_eq!(pointer.authority, payer);
            assert_eq!(details.decimals, 0);
            assert_eq!(details.mint_authority, payer);
            assert_eq!(details.freeze_authority, Some(payer.clone()));
            assert_eq!(details.supply, 1);
        }
        other => panic!("unexpected mint contents: {:?}", other),
    }

    let record = find(&ledger, &metadata_address);
    assert_eq!(record.space, 8 + 4 + 6 + 4 + 13);
    assert_eq!(
        record.contents,
        AccountContents::Metadata {
            name: b"Ticket".to_vec(),
            description: b"Event pass #1".to_vec(),
        }
    );

    let holding = find(&ledger, &ata);
    assert_eq!(
        holding.contents,
        AccountContents::Holding { owner: payer.clone(), mint: mint.clone(), amount: 1 }
    );

    let payer_account = find(&ledger, &payer);
    assert_eq!(payer_account.lamports, 10_000_000 - 2_000_000 - 900_000 - 1_500_000);
}

#[test]
fn reusing_a_mint_identity_fails_at_allocation() {
    let payer = id(1);
    let mint = id(2);
    let program_id = id(7);
    let ata = holding_address_for(&payer, &mint);
    let mut ledger = funded_ledger(&payer, 100_000_000);
    let accounts = CreateSplToken22Metadata {
        payer: payer.clone(),
        mint: mint.clone(),
        ata: ata.clone(),
    };
    let first = create_spl_token_extension_metadata(
        &mut ledger,
        &accounts,
        &b"Ticket".to_vec(),
        &b"Event pass #1".to_vec(),
        &quotes(),
        &program_id,
        &token_program(),
        &ata_program(),
    );
    assert!(first.is_ok());

    let committed = ledger.clone_ledger();
    let second = create_spl_token_extension_metadata(
        &mut ledger,
        &accounts,
        &b"Another".to_vec(),
        &b"Retry with the same mint".to_vec(),
        &quotes(),
        &program_id,
        &token_program(),
        &ata_program(),
    );
    assert_eq!(
        second,
        Err(ProvisionFailure {
            phase: Phase::AllocateMint,
            kind: FailureKind::PreconditionFailure,
        })
    );
    assert_eq!(ledger, committed);
}

#[test]
fn holding_account_creation_is_idempotent() {
    let payer = id(1);
    let mint = id(2);
    let ata = holding_address_for(&payer, &mint);
    let mut ledger = funded_ledger(&payer, 5_000_000);

    let first = ledger.create_holding(&payer, &ata, &payer, &mint, 1_500_000, &token_program());
    assert!(first.is_ok());
    let after_first = ledger.clone_ledger();

    let second = ledger.create_holding(&payer, &ata, &payer, &mint, 1_500_000, &token_program());
    assert!(second.is_ok());
    assert_eq!(ledger, after_first);

    let holdings = ledger
        .accounts
        .iter()
        .filter(|a| matches!(a.contents, AccountContents::Holding { .. }))
        .count();
    assert_eq!(holdings, 1);
    assert_eq!(find(&ledger, &payer).lamports, 5_000_000 - 1_500_000);
}

#[test]
fn double_initialization_of_the_mint_is_refused() {
    let payer = id(1);
    let mint = id(2);
    let mut ledger = funded_ledger(&payer, 5_000_000);
    assert!(ledger.create_account(&payer, &mint, 1_000_000, 500, &token_program()).is_ok());
    let freeze = Some(payer.clone());
    assert!(ledger.initialize_mint(&mint, 0, &payer, &freeze).is_ok());
    let second = ledger.initialize_mint(&mint, 0, &payer, &freeze);
    assert_eq!(second, Err(FailureKind::PreconditionFailure));
}

#[test]
fn a_late_phase_failure_leaves_no_trace_of_earlier_phases() {
    let payer = id(1);
    let mint = id(2);
    let program_id = id(7);
    // the caller supplies a holding address that does not match the
    // association rule, so the unit fails in its last phases after every
    // allocation and initialization already ran on the working copy
    let wrong_ata = id(9);
    let mut ledger = funded_ledger(&payer, 10_000_000);
    let untouched = ledger.clone_ledger();
    let accounts = CreateSplToken22Metadata {
        payer: payer.clone(),
        mint: mint.clone(),
        ata: wrong_ata,
    };
    let result = create_spl_token_extension_metadata(
        &mut ledger,
        &accounts,
        &b"Ticket".to_vec(),
        &b"Event pass #1".to_vec(),
        &quotes(),
        &program_id,
        &token_program(),
        &ata_program(),
    );
    assert_eq!(
        result,
        Err(ProvisionFailure {
            phase: Phase::CreateHolding,
            kind: FailureKind::PreconditionFailure,
        })
    );
    assert_eq!(ledger, untouched);
    assert_eq!(ledger.accounts.len(), 1);
    assert_eq!(find(&ledger, &payer).lamports, 10_000_000);
}

#[test]
fn an_underfunded_payer_aborts_the_whole_unit() {
    let payer = id(1);
    let mint = id(2);
    let program_id = id(7);
    let ata = holding_address_for(&payer, &mint);
    let mut ledger = funded_ledger(&payer, 2_500_000);
    let untouched = ledger.clone_ledger();
    let accounts = CreateSplToken22Metadata {
        payer: payer.clone(),
        mint: mint.clone(),
        ata,
    };
    // the mint allocation is covered, the metadata allocation is not
    let result = create_spl_token_extension_metadata(
        &mut ledger,
        &accounts,
        &b"Ticket".to_vec(),
        &b"Event pass #1".to_vec(),
        &quotes(),
        &program_id,
        &token_program(),
        &ata_program(),
    );
    assert_eq!(
        result,
        Err(ProvisionFailure {
            phase: Phase::AllocateMetadata,
            kind: FailureKind::InsufficientFunds,
        })
    );
    assert_eq!(ledger, untouched);
}

#[test]
fn minting_demands_the_mint_authority() {
    let payer = id(1);
    let intruder = id(8);
    let mint = id(2);
    let ata = holding_address_for(&payer, &mint);
    let mut ledger = funded_ledger(&payer, 10_000_000);
    assert!(ledger.create_account(&payer, &mint, 1_000_000, 500, &token_program()).is_ok());
    let freeze = Some(payer.clone());
    assert!(ledger.initialize_mint(&mint, 0, &payer, &freeze).is_ok());
    assert!(ledger.create_holding(&payer, &ata, &payer, &mint, 1_500_000, &token_program()).is_ok());
    let refused = ledger.mint_unit(&mint, &ata, &intruder, 1);
    assert_eq!(refused, Err(FailureKind::AuthorityFailure));
    let allowed = ledger.mint_unit(&mint, &ata, &payer, 1);
    assert!(allowed.is_ok());
}

#[test]
fn an_oversized_asset_identity_is_rejected_by_the_deriver() {
    let payer = id(1);
    // a seed over the derivation scheme's length limit: no bump can be found
    let oversized_mint = vec![2u8; 33];
    let program_id = id(7);
    let mut ledger = funded_ledger(&payer, 10_000_000);
    let accounts = CreateSplToken22Metadata {
        payer: payer.clone(),
        mint: oversized_mint,
        ata: id(9),
    };
    let result = create_spl_token_extension_metadata(
        &mut ledger,
        &accounts,
        &b"Ticket".to_vec(),
        &b"Event pass #1".to_vec(),
        &quotes(),
        &program_id,
        &token_program(),
        &ata_program(),
    );
    assert_eq!(
        result,
        Err(ProvisionFailure {
            phase: Phase::DeriveAddress,
            kind: FailureKind::ExternalComputationFailure,
        })
    );
}
