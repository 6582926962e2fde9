//! The provisioning unit of work.
//!
//! One call derives the metadata record address, allocates and sizes the
//! mint account, writes the metadata record, attaches the metadata-pointer
//! extension, initializes the mint, creates the payer's associated holding
//! account, and mints one unit into it.  The unit is all-or-nothing: it
//! mutates a working copy of the ledger and commits only when every phase
//! succeeded, so a failure in any phase leaves the ledger exactly as it
//! was.

use vstd::prelude::*;

use crate::addresses::derive_holding_address;
use crate::addresses::derive_metadata_address;
use crate::addresses::holding_seeds;
use crate::addresses::metadata_seeds;
use crate::addresses::pda_of;
use crate::failure::FailureKind;
use crate::failure::Phase;
use crate::failure::ProvisionFailure;
use crate::ledger::create_account_apply;
use crate::ledger::create_account_check;
use crate::ledger::create_holding_apply;
use crate::ledger::create_holding_check;
use crate::ledger::id_eq;
use crate::ledger::initialize_mint_apply;
use crate::ledger::initialize_mint_check;
use crate::ledger::initialize_pointer_apply;
use crate::ledger::initialize_pointer_check;
use crate::ledger::mint_unit_apply;
use crate::ledger::mint_unit_check;
use crate::ledger::write_metadata_apply;
use crate::ledger::write_metadata_check;
use crate::ledger::clone_bytes;
use crate::ledger::AccountV;
use crate::ledger::ContentsV;
use crate::ledger::Ledger;
use crate::sizing::compute_metadata_record_space;
use crate::sizing::metadata_record_space;
use crate::sizing::mint_len_with_extensions;
use crate::sizing::mint_space_with_metadata_pointer;
use crate::sizing::METADATA_POINTER_EXTENSION_CODE;

verus! {

/// The account identities a provisioning call works on: the paying,
/// authorizing identity, the fresh asset identity, and the caller-supplied
/// holding-account address.
pub struct CreateSplToken22Metadata {
    pub payer: Vec<u8>,
    pub mint: Vec<u8>,
    pub ata: Vec<u8>,
}

/// The minimum balances the ledger's rent model requires for each
/// allocation the unit makes.  The rent model belongs to the surrounding
/// runtime; its figures are inputs here.
#[derive(Clone, Copy, Debug, PartialEq, Eq, Structural)]
pub struct RentQuotes {
    pub mint_account: u64,
    pub metadata_account: u64,
    pub holding_account: u64,
}

/// The verdict and the resulting ledger of one provisioning unit: the
/// phases run in order, each on the state the previous one left, and the
/// first failure aborts the whole unit, leaving the ledger unchanged.
pub open spec fn provision_outcome(
    lv: Map<Seq<u8>, AccountV>,
    payer: Seq<u8>,
    mint: Seq<u8>,
    ata: Seq<u8>,
    name: Seq<u8>,
    description: Seq<u8>,
    quotes: RentQuotes,
    program_id: Seq<u8>,
    token_program: Seq<u8>,
    ata_program: Seq<u8>,
) -> (Result<(), ProvisionFailure>, Map<Seq<u8>, AccountV>) {
    match pda_of(metadata_seeds(mint), program_id) {
        None => (
            Err(
                ProvisionFailure {
                    phase: Phase::DeriveAddress,
                    kind: FailureKind::ExternalComputationFailure,
                },
            ),
            lv,
        ),
        Some(derived) => match mint_len_with_extensions(seq![METADATA_POINTER_EXTENSION_CODE]) {
            None => (
                Err(
                    ProvisionFailure {
                        phase: Phase::AllocateMint,
                        kind: FailureKind::ExternalComputationFailure,
                    },
                ),
                lv,
            ),
            Some(mint_space) => match create_account_check(lv, payer, mint, quotes.mint_account) {
                Err(k) => (Err(ProvisionFailure { phase: Phase::AllocateMint, kind: k }), lv),
                Ok(_) => {
                    let metadata_address = derived.0;
                    let lv1 = create_account_apply(
                        lv,
                        payer,
                        mint,
                        quotes.mint_account,
                        mint_space as u64,
                        token_program,
                    );
                    match create_account_check(
                        lv1,
                        payer,
                        metadata_address,
                        quotes.metadata_account,
                    ) {
                        Err(k) => (
                            Err(ProvisionFailure { phase: Phase::AllocateMetadata, kind: k }),
                            lv,
                        ),
                        Ok(_) => {
                            let lv2 = create_account_apply(
                                lv1,
                                payer,
                                metadata_address,
                                quotes.metadata_account,
                                metadata_record_space(name, description) as u64,
                                program_id,
                            );
                            match write_metadata_check(lv2, metadata_address, name, description) {
                                Err(k) => (
                                    Err(
                                        ProvisionFailure { phase: Phase::WriteMetadata, kind: k },
                                    ),
                                    lv,
                                ),
                                Ok(_) => {
                                    let lv3 = write_metadata_apply(
                                        lv2,
                                        metadata_address,
                                        name,
                                        description,
                                    );
                                    match initialize_pointer_check(lv3, mint) {
                                        Err(k) => (
                                            Err(
                                                ProvisionFailure {
                                                    phase: Phase::InitializePointer,
                                                    kind: k,
                                                },
                                            ),
                                            lv,
                                        ),
                                        Ok(_) => {
                                            let lv4 = initialize_pointer_apply(
                                                lv3,
                                                mint,
                                                payer,
                                                metadata_address,
                                            );
                                            match initialize_mint_check(lv4, mint) {
                                                Err(k) => (
                                                    Err(
                                                        ProvisionFailure {
                                                            phase: Phase::InitializeMint,
                                                            kind: k,
                                                        },
                                                    ),
                                                    lv,
                                                ),
                                                Ok(_) => {
                                                    let lv5 = initialize_mint_apply(
                                                        lv4,
                                                        mint,
                                                        0,
                                                        payer,
                                                        Some(payer),
                                                    );
                                                    provision_holding_outcome(
                                                        lv,
                                                        lv5,
                                                        payer,
                                                        mint,
                                                        ata,
                                                        quotes,
                                                        token_program,
                                                        ata_program,
                                                    )
                                                },
                                            }
                                        },
                                    }
                                },
                            }
                        },
                    }
                },
            },
        },
    }
}

/// The tail of the unit: check the holding-account address against the
/// collaborator's association rule, create the holding account, and mint
/// one unit into it.  `lv` is the untouched ledger to fall back to; `lv5`
/// is the state the initialization phases built.
pub open spec fn provision_holding_outcome(
    lv: Map<Seq<u8>, AccountV>,
    lv5: Map<Seq<u8>, AccountV>,
    payer: Seq<u8>,
    mint: Seq<u8>,
    ata: Seq<u8>,
    quotes: RentQuotes,
    token_program: Seq<u8>,
    ata_program: Seq<u8>,
) -> (Result<(), ProvisionFailure>, Map<Seq<u8>, AccountV>) {
    match pda_of(holding_seeds(payer, token_program, mint), ata_program) {
        None => (
            Err(
                ProvisionFailure {
                    phase: Phase::CreateHolding,
                    kind: FailureKind::ExternalComputationFailure,
                },
            ),
            lv,
        ),
        Some(expected) => {
            if ata != expected.0 {
                (
                    Err(
                        ProvisionFailure {
                            phase: Phase::CreateHolding,
                            kind: FailureKind::PreconditionFailure,
                        },
                    ),
                    lv,
                )
            } else {
                match create_holding_check(lv5, payer, ata, payer, mint, quotes.holding_account) {
                    Err(k) => (
                        Err(ProvisionFailure { phase: Phase::CreateHolding, kind: k }),
                        lv,
                    ),
                    Ok(_) => {
                        let lv6 = create_holding_apply(
                            lv5,
                            payer,
                            ata,
                            payer,
                            mint,
                            quotes.holding_account,
                            token_program,
                        );
                        match mint_unit_check(lv6, mint, ata, payer, 1u64) {
                            Err(k) => (
                                Err(ProvisionFailure { phase: Phase::MintUnit, kind: k }),
                                lv,
                            ),
                            Ok(_) => (Ok(()), mint_unit_apply(lv6, mint, ata, 1u64)),
                        }
                    },
                }
            }
        },
    }
}

/// Provision one unit of a fresh asset for the payer, atomically.
///
/// On success the ledger gains: a mint account at `accounts.mint`, sized by
/// the collaborator's live layout computation, carrying a metadata-pointer
/// extension that names the derived metadata record address and the payer
/// as update authority, initialized with zero decimals and the payer as
/// mint and freeze authority; a metadata record of exactly the two texts;
/// and the payer's associated holding account holding one freshly minted
/// unit.  On failure the ledger is exactly what it was, and the error
/// names the failing phase.
pub fn create_spl_token_extension_metadata(
    ledger: &mut Ledger,
    accounts: &CreateSplToken22Metadata,
    name: &Vec<u8>,
    description: &Vec<u8>,
    quotes: &RentQuotes,
    program_id: &Vec<u8>,
    token_program: &Vec<u8>,
    ata_program: &Vec<u8>,
) -> (r: Result<(), ProvisionFailure>)
    requires
        old(ledger).wf(),
        metadata_record_space(name@, description@) <= u64::MAX,
        program_id@.len() == 32,
        ata_program@.len() == 32,
    ensures
        final(ledger).wf(),
        r == provision_outcome(
            old(ledger)@,
            accounts.payer@,
            accounts.mint@,
            accounts.ata@,
            name@,
            description@,
            *quotes,
            program_id@,
            token_program@,
            ata_program@,
        ).0,
        final(ledger)@ == provision_outcome(
            old(ledger)@,
            accounts.payer@,
            accounts.mint@,
            accounts.ata@,
            name@,
            description@,
            *quotes,
            program_id@,
            token_program@,
            ata_program@,
        ).1,
        r is Err ==> final(ledger)@ == old(ledger)@,
{
    let derived = match derive_metadata_address(&accounts.mint, program_id) {
        None => {
            return Err(
                ProvisionFailure {
                    phase: Phase::DeriveAddress,
                    kind: FailureKind::ExternalComputationFailure,
                },
            );
        },
        Some(d) => d,
    };
    let metadata_address = derived.0;
    let mint_space = mint_space_with_metadata_pointer();
    let mut work = ledger.clone_ledger();
    match work.create_account(
        &accounts.payer,
        &accounts.mint,
        quotes.mint_account,
        mint_space as u64,
        token_program,
    ) {
        Err(k) => {
            return Err(ProvisionFailure { phase: Phase::AllocateMint, kind: k });
        },
        Ok(_) => {},
    }
    let record_space = compute_metadata_record_space(name, description);
    match work.create_account(
        &accounts.payer,
        &metadata_address,
        quotes.metadata_account,
        record_space,
        program_id,
    ) {
        Err(k) => {
            return Err(ProvisionFailure { phase: Phase::AllocateMetadata, kind: k });
        },
        Ok(_) => {},
    }
    match work.write_metadata(&metadata_address, name, description) {
        Err(k) => {
            return Err(ProvisionFailure { phase: Phase::WriteMetadata, kind: k });
        },
        Ok(_) => {},
    }
    match work.initialize_pointer(&accounts.mint, &accounts.payer, &metadata_address) {
        Err(k) => {
            return Err(ProvisionFailure { phase: Phase::InitializePointer, kind: k });
        },
        Ok(_) => {},
    }
    let freeze = Some(clone_bytes(&accounts.payer));
    match work.initialize_mint(&accounts.mint, 0, &accounts.payer, &freeze) {
        Err(k) => {
            return Err(ProvisionFailure { phase: Phase::InitializeMint, kind: k });
        },
        Ok(_) => {},
    }
    let expected_ata = match derive_holding_address(
        &accounts.payer,
        &accounts.mint,
        token_program,
        ata_program,
    ) {
        None => {
            return Err(
                ProvisionFailure {
                    phase: Phase::CreateHolding,
                    kind: FailureKind::ExternalComputationFailure,
                },
            );
        },
        Some(d) => d.0,
    };
    if !id_eq(&accounts.ata, &expected_ata) {
        return Err(
            ProvisionFailure { phase: Phase::CreateHolding, kind: FailureKind::PreconditionFailure },
        );
    }
    match work.create_holding(
        &accounts.payer,
        &accounts.ata,
        &accounts.payer,
        &accounts.mint,
        quotes.holding_account,
        token_program,
    ) {
        Err(k) => {
            return Err(ProvisionFailure { phase: Phase::CreateHolding, kind: k });
        },
        Ok(_) => {},
    }
    match work.mint_unit(&accounts.mint, &accounts.ata, &accounts.payer, 1) {
        Err(k) => {
            return Err(ProvisionFailure { phase: Phase::MintUnit, kind: k });
        },
        Ok(_) => {},
    }
    *ledger = work;
    Ok(())
}

/// Mint creation is not idempotent: once the unit has committed for a mint
/// identity, running the whole unit again with the same mint — whatever
/// texts, rent figures, or holding address the retry supplies — fails at
/// the mint-allocation phase with a precondition failure and leaves the
/// ledger as the first run committed it.  A retry must use a fresh mint
/// identity.
pub proof fn lemma_mint_identity_not_reusable(
    lv: Map<Seq<u8>, AccountV>,
    payer: Seq<u8>,
    mint: Seq<u8>,
    ata: Seq<u8>,
    name: Seq<u8>,
    description: Seq<u8>,
    quotes: RentQuotes,
    again_ata: Seq<u8>,
    again_name: Seq<u8>,
    again_description: Seq<u8>,
    again_quotes: RentQuotes,
    program_id: Seq<u8>,
    token_program: Seq<u8>,
    ata_program: Seq<u8>,
)
    requires
        provision_outcome(
            lv,
            payer,
            mint,
            ata,
            name,
            description,
            quotes,
            program_id,
            token_program,
            ata_program,
        ).0 is Ok,
    ensures
        ({
            let committed = provision_outcome(
                lv,
                payer,
                mint,
                ata,
                name,
                description,
                quotes,
                program_id,
                token_program,
                ata_program,
            ).1;
            let again = provision_outcome(
                committed,
                payer,
                mint,
                again_ata,
                again_name,
                again_description,
                again_quotes,
                program_id,
                token_program,
                ata_program,
            );
            &&& again.0 == Err::<(), ProvisionFailure>(
                ProvisionFailure {
                    phase: Phase::AllocateMint,
                    kind: FailureKind::PreconditionFailure,
                },
            )
            &&& again.1 == committed
        }),
{
    let meta = pda_of(metadata_seeds(mint), program_id).unwrap().0;
    let mint_space = mint_len_with_extensions(seq![METADATA_POINTER_EXTENSION_CODE]).unwrap();
    let lv1 = create_account_apply(
        lv,
        payer,
        mint,
        quotes.mint_account,
        mint_space as u64,
        token_program,
    );
    let lv2 = create_account_apply(
        lv1,
        payer,
        meta,
        quotes.metadata_account,
        metadata_record_space(name, description) as u64,
        program_id,
    );
    let lv3 = write_metadata_apply(lv2, meta, name, description);
    let lv4 = initialize_pointer_apply(lv3, mint, payer, meta);
    let lv5 = initialize_mint_apply(lv4, mint, 0, payer, Some(payer));
    let lv6 = create_holding_apply(lv5, payer, ata, payer, mint, quotes.holding_account, token_program);
    let committed = mint_unit_apply(lv6, mint, ata, 1u64);
    assert(provision_outcome(
        lv,
        payer,
        mint,
        ata,
        name,
        description,
        quotes,
        program_id,
        token_program,
        ata_program,
    ).1 == committed);
    assert(lv1.dom().contains(mint));
    assert(committed.dom().contains(mint));
}

/// What a committed unit establishes.  The mint account is sized by the
/// collaborator's layout computation, owned by the token program, and
/// carries a metadata-pointer extension naming the derived record address
/// with the payer as update authority; its base fields are zero decimals,
/// the payer as mint authority and as freeze authority, and a supply of
/// exactly one.  The record account holds exactly the two texts, in a
/// space of exactly the record's size.  The holding account holds the
/// asset for the payer; when it did not exist before the unit ran, it
/// holds exactly one unit.
pub proof fn lemma_provision_establishes_assets(
    lv: Map<Seq<u8>, AccountV>,
    payer: Seq<u8>,
    mint: Seq<u8>,
    ata: Seq<u8>,
    name: Seq<u8>,
    description: Seq<u8>,
    quotes: RentQuotes,
    program_id: Seq<u8>,
    token_program: Seq<u8>,
    ata_program: Seq<u8>,
)
    requires
        provision_outcome(
            lv,
            payer,
            mint,
            ata,
            name,
            description,
            quotes,
            program_id,
            token_program,
            ata_program,
        ).0 is Ok,
    ensures
        ({
            let committed = provision_outcome(
                lv,
                payer,
                mint,
                ata,
                name,
                description,
                quotes,
                program_id,
                token_program,
                ata_program,
            ).1;
            let meta = pda_of(metadata_seeds(mint), program_id).unwrap().0;
            &&& committed.dom().contains(mint)
            &&& committed[mint].contents matches ContentsV::Mint {
                pointer: Some(p),
                details: Some(d),
            } && p.metadata_address == meta && p.authority == payer && d.decimals == 0
                && d.mint_authority == payer && d.freeze_authority == Some(payer) && d.supply == 1
            &&& committed[mint].space == mint_len_with_extensions(
                seq![METADATA_POINTER_EXTENSION_CODE],
            ).unwrap() as u64
            &&& committed[mint].owner_program == token_program
            &&& committed.dom().contains(meta)
            &&& committed[meta].contents == ContentsV::Metadata { name, description }
            &&& committed[meta].space == metadata_record_space(name, description) as u64
            &&& committed.dom().contains(ata)
            &&& committed[ata].contents matches ContentsV::Holding {
                owner: o,
                mint: m,
                amount: _,
            } && o == payer && m == mint
            &&& !lv.dom().contains(ata) ==> committed[ata].contents == (ContentsV::Holding {
                owner: payer,
                mint,
                amount: 1,
            })
        }),
{
    let meta = pda_of(metadata_seeds(mint), program_id).unwrap().0;
    let mint_space = mint_len_with_extensions(seq![METADATA_POINTER_EXTENSION_CODE]).unwrap();
    let lv1 = create_account_apply(
        lv,
        payer,
        mint,
        quotes.mint_account,
        mint_space as u64,
        token_program,
    );
    let lv2 = create_account_apply(
        lv1,
        payer,
        meta,
        quotes.metadata_account,
        metadata_record_space(name, description) as u64,
        program_id,
    );
    let lv3 = write_metadata_apply(lv2, meta, name, description);
    let lv4 = initialize_pointer_apply(lv3, mint, payer, meta);
    let lv5 = initialize_mint_apply(lv4, mint, 0, payer, Some(payer));
    let lv6 = create_holding_apply(lv5, payer, ata, payer, mint, quotes.holding_account, token_program);
    let committed = mint_unit_apply(lv6, mint, ata, 1u64);
    assert(provision_outcome(
        lv,
        payer,
        mint,
        ata,
        name,
        description,
        quotes,
        program_id,
        token_program,
        ata_program,
    ).1 == committed);
    // the touched addresses are pairwise distinct where it matters
    assert(mint != payer);
    assert(meta != mint && meta != payer);
    assert(lv5[mint].contents matches ContentsV::Mint { .. });
    assert(lv6[mint] == lv5[mint]);
    assert(lv6[mint].contents matches ContentsV::Mint { details: Some(d), .. } ==> d.supply == 0);
    assert(ata != mint && ata != meta);
    assert(lv6[meta] == lv3[meta]);
    assert(committed[meta] == lv3[meta]);
    assert(committed[mint].contents matches ContentsV::Mint { pointer: Some(p), .. }
        ==> p.metadata_address == meta);
}

} // verus!
