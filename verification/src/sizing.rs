//! Exact account sizing.
//!
//! The metadata record's size is fixed at creation and must match the space
//! reserved for it exactly; the mint account's size comes from the
//! collaborator's own layout computation, never from a constant of ours.

use vstd::prelude::*;

verus! {

/// Exact byte size of a metadata record: an 8-byte header, then the name and
/// the description, each behind a 4-byte length prefix.
pub open spec fn metadata_record_space(name: Seq<u8>, description: Seq<u8>) -> int {
    8 + 4 + (name.len() as int) + 4 + (description.len() as int)
}

/// Compute the exact space a metadata record needs, in bytes.
pub fn compute_metadata_record_space(name: &Vec<u8>, description: &Vec<u8>) -> (r: u64)
    requires
        metadata_record_space(name@, description@) <= u64::MAX,
    ensures
        r == metadata_record_space(name@, description@),
{
    8 + 4 + (name.len() as u64) + 4 + (description.len() as u64)
}

/// The extension-type code of the metadata-pointer extension, as the token
/// standard numbers its extension kinds.
pub const METADATA_POINTER_EXTENSION_CODE: u16 = 18;

/// What `ExtensionType::try_calculate_account_len` for a mint returns for a
/// given list of extension-type codes.  The total is a function of the
/// collaborator's account layout and the requested extension kinds alone.
pub uninterp spec fn mint_len_with_extensions(extension_codes: Seq<u16>) -> Option<int>;

/// The mathematical value of a size-computation result.
pub open spec fn size_view(r: Option<usize>) -> Option<int> {
    match r {
        Some(n) => Some(n as int),
        None => None,
    }
}

/// Relies on `ExtensionType::try_calculate_account_len::<Mint>`
/// (spl-token-2022-interface, re-exported by anchor_spl): computes the exact
/// byte size of a mint account carrying the given extensions.  Its source
/// computes a fixed total for the metadata-pointer extension, a fixed-size
/// extension kind, and cannot reject it.
#[verifier::external_body]
fn calculate_mint_space_for_metadata_pointer() -> (r: Option<usize>)
    ensures
        size_view(r) == mint_len_with_extensions(seq![METADATA_POINTER_EXTENSION_CODE]),
        r is Some,
{
    anchor_spl::token_interface::spl_token_2022::extension::ExtensionType::try_calculate_account_len::<
        anchor_spl::token_interface::spl_token_2022::state::Mint,
    >(&[anchor_spl::token_interface::spl_token_2022::extension::ExtensionType::MetadataPointer])
        .ok()
}

/// The exact space for a mint account with the metadata-pointer extension,
/// as the collaborator's live layout computation gives it.
pub fn mint_space_with_metadata_pointer() -> (r: usize)
    ensures
        Some(r as int) == mint_len_with_extensions(seq![METADATA_POINTER_EXTENSION_CODE]),
{
    let computed = calculate_mint_space_for_metadata_pointer();
    match computed {
        Some(n) => n,
        None => 0,  // unreachable: the computation cannot reject this extension kind
    }
}

} // verus!
