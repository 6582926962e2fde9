//! Deterministic, namespaced address derivation.
//!
//! A derived address is computed from a list of seed byte strings under a
//! program namespace, together with a disambiguating bump byte.  The
//! derivation is a pure function of its inputs: the same seeds and the same
//! namespace always give the same address and bump, whether a client
//! precomputes them or a later phase recomputes them to sign.

use vstd::prelude::*;

verus! {

/// What `Pubkey::try_find_program_address` returns for the given seed list
/// and program namespace.  The derivation is a function of its arguments
/// alone, so the whole result (including whether a bump was found at all)
/// carries a name here; nothing else is assumed about it.
pub uninterp spec fn pda_of(seeds: Seq<Seq<u8>>, program_id: Seq<u8>) -> Option<(Seq<u8>, u8)>;

/// The mathematical value of a derivation result.
pub open spec fn derivation_view(r: Option<(Vec<u8>, u8)>) -> Option<(Seq<u8>, u8)> {
    match r {
        Some(p) => Some((p.0@, p.1)),
        None => None,
    }
}

/// Relies on `Pubkey::try_find_program_address` (solana-address, re-exported
/// by anchor_lang): finds the largest bump byte for which the seeds plus the
/// bump hash to an address with no private key, returning that address and
/// bump, or `None` when no bump works or a seed is over the length limit.
/// The result depends on the seeds and the program id alone.
#[verifier::external_body]
fn find_program_address3(
    seed0: &Vec<u8>,
    seed1: &Vec<u8>,
    seed2: &Vec<u8>,
    program_id: &Vec<u8>,
) -> (r: Option<(Vec<u8>, u8)>)
    requires
        program_id@.len() == 32,
    ensures
        derivation_view(r) == pda_of(seq![seed0@, seed1@, seed2@], program_id@),
        r matches Some(p) ==> p.0@.len() == 32,
{
    let arr: [u8; 32] = program_id.as_slice().try_into().unwrap();
    let pid = anchor_lang::prelude::Pubkey::new_from_array(arr);
    let seeds: [&[u8]; 3] = [seed0.as_slice(), seed1.as_slice(), seed2.as_slice()];
    let found = anchor_lang::prelude::Pubkey::try_find_program_address(&seeds, &pid);
    found.map(|(address, bump)| (address.to_bytes().to_vec(), bump))
}

/// The fixed namespace tag `"token22"`, as bytes.
pub open spec fn token22_tag() -> Seq<u8> {
    seq![116u8, 111u8, 107u8, 101u8, 110u8, 50u8, 50u8]
}

/// The fixed extension-type tag `"metadata_pointer"`, as bytes.
pub open spec fn metadata_pointer_tag() -> Seq<u8> {
    seq![
        109u8, 101u8, 116u8, 97u8, 100u8, 97u8, 116u8, 97u8, 95u8, 112u8, 111u8, 105u8, 110u8,
        116u8, 101u8, 114u8,
    ]
}

/// The seed list for a metadata record: the asset identity, then the two
/// fixed tags.
pub open spec fn metadata_seeds(mint: Seq<u8>) -> Seq<Seq<u8>> {
    seq![mint, token22_tag(), metadata_pointer_tag()]
}

fn token22_tag_bytes() -> (r: Vec<u8>)
    ensures
        r@ == token22_tag(),
{
    let mut v: Vec<u8> = Vec::new();
    v.push(116);
    v.push(111);
    v.push(107);
    v.push(101);
    v.push(110);
    v.push(50);
    v.push(50);
    proof {
        assert(v@ =~= token22_tag());
    }
    v
}

fn metadata_pointer_tag_bytes() -> (r: Vec<u8>)
    ensures
        r@ == metadata_pointer_tag(),
{
    let mut v: Vec<u8> = Vec::new();
    v.push(109);
    v.push(101);
    v.push(116);
    v.push(97);
    v.push(100);
    v.push(97);
    v.push(116);
    v.push(97);
    v.push(95);
    v.push(112);
    v.push(111);
    v.push(105);
    v.push(110);
    v.push(116);
    v.push(101);
    v.push(114);
    proof {
        assert(v@ =~= metadata_pointer_tag());
    }
    v
}

/// Derive the metadata record address for an asset identity under the given
/// program namespace, together with its bump byte.
pub fn derive_metadata_address(mint: &Vec<u8>, program_id: &Vec<u8>) -> (r: Option<(Vec<u8>, u8)>)
    requires
        program_id@.len() == 32,
    ensures
        derivation_view(r) == pda_of(metadata_seeds(mint@), program_id@),
        r matches Some(p) ==> p.0@.len() == 32,
{
    let tag1 = token22_tag_bytes();
    let tag2 = metadata_pointer_tag_bytes();
    find_program_address3(mint, &tag1, &tag2, program_id)
}

/// The seed list of the collaborator's holding-account association rule: the
/// owner's identity, the token program, and the asset identity.
pub open spec fn holding_seeds(owner: Seq<u8>, token_program: Seq<u8>, mint: Seq<u8>) -> Seq<
    Seq<u8>,
> {
    seq![owner, token_program, mint]
}

/// Derive the associated holding-account address for an (owner, asset) pair:
/// the collaborator's deterministic association rule, namespaced under the
/// associated-token program.
pub fn derive_holding_address(
    owner: &Vec<u8>,
    mint: &Vec<u8>,
    token_program: &Vec<u8>,
    ata_program: &Vec<u8>,
) -> (r: Option<(Vec<u8>, u8)>)
    requires
        ata_program@.len() == 32,
    ensures
        derivation_view(r) == pda_of(holding_seeds(owner@, token_program@, mint@), ata_program@),
        r matches Some(p) ==> p.0@.len() == 32,
{
    find_program_address3(owner, token_program, mint, ata_program)
}

/// Determinism of the derivation: equal asset identities under equal program
/// namespaces always derive the same metadata address and bump, across
/// independent computations.
pub proof fn lemma_metadata_derivation_deterministic(
    mint_a: Seq<u8>,
    program_a: Seq<u8>,
    mint_b: Seq<u8>,
    program_b: Seq<u8>,
)
    requires
        mint_a == mint_b,
        program_a == program_b,
    ensures
        pda_of(metadata_seeds(mint_a), program_a) == pda_of(metadata_seeds(mint_b), program_b),
{
}

} // verus!
