//! The derivation and sizing functions, held against the collaborators'
//! own computations.

use anchor_lang::prelude::Pubkey;
use anchor_spl::associated_token::get_associated_token_address_with_program_id;
use anchor_spl::token_interface::spl_token_2022::extension::ExtensionType;
use anchor_spl::token_interface::spl_token_2022::state::Mint;

use universal_mint::addresses::{derive_holding_address, derive_metadata_address};
use universal_mint::sizing::{compute_metadata_record_space, mint_space_with_metadata_pointer};

fn id(byte: u8) -> Vec<u8> {
    vec![byte; 32]
}

fn as_pubkey(bytes: &[u8]) -> Pubkey {
    Pubkey::new_from_array(bytes.try_into().unwrap())
}

#[test]
fn metadata_derivation_is_deterministic() {
    let mint = id(9);
    let program = id(3);
    let first = derive_metadata_address(&mint, &program).unwrap();
    let second = derive_metadata_address(&mint, &program).unwrap();
    assert_eq!(first, second);
}

#[test]
fn metadata_derivation_matches_the_runtime_rule() {
    let mint = id(42);
    let program = id(5);
    let (address, bump) = derive_metadata_address(&mint, &program).unwrap();
    let (expected, expected_bump) = Pubkey::find_program_address(
        &[&mint, "token22".as_bytes(), "metadata_pointer".as_bytes()],
        &as_pubkey(&program),
    );
    assert_eq!(address, expected.to_bytes().to_vec());
    assert_eq!(bump, expected_bump);
}

#[test]
fn holding_derivation_matches_the_association_rule() {
    let owner = id(1);
    let mint = id(2);
    let token_program = anchor_spl::token_2022::ID.to_bytes().to_vec();
    let ata_program = anchor_spl::associated_token::ID.to_bytes().to_vec();
    let (address, _bump) = derive_holding_address(
        &owner,
        &mint,
        &token_program,
        &ata_program,
    )
    .unwrap();
    let expected = get_associated_token_address_with_program_id(
        &as_pubkey(&owner),
        &as_pubkey(&mint),
        &anchor_spl::token_2022::ID,
    );
    assert_eq!(address, expected.to_bytes().to_vec());
}

#[test]
fn record_space_counts_header_and_both_prefixed_texts() {
    let name = b"Ticket".to_vec();
    let description = b"Event pass #1".to_vec();
    assert_eq!(
        compute_metadata_record_space(&name, &description),
        8 + 4 + 6 + 4 + 13
    );
}

#[test]
fn record_space_of_empty_texts_is_the_bare_header() {
    let empty = Vec::new();
    assert_eq!(compute_metadata_record_space(&empty, &empty), 16);
}

#[test]
fn mint_space_matches_the_live_layout_computation() {
    let expected = ExtensionType::try_calculate_account_len::<Mint>(&[
        ExtensionType::MetadataPointer,
    ])
    .unwrap();
    assert_eq!(mint_space_with_metadata_pointer(), expected);
}
