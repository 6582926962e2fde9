//! The failure taxonomy of the provisioning unit.
//!
//! Every failure aborts the whole unit; the caller receives a single signal
//! naming the phase that failed and the kind of failure.

use vstd::prelude::*;

verus! {

/// Why a step failed.
#[derive(Clone, Copy, Debug, PartialEq, Eq, Structural)]
pub enum FailureKind {
    /// A target identity already exists, or an account has the wrong state
    /// or size for the step.
    PreconditionFailure,
    /// A signing authority does not match the one an initialization or mint
    /// call demands.
    AuthorityFailure,
    /// The funding identity cannot cover the balance an allocation needs.
    InsufficientFunds,
    /// A collaborator's derivation or layout computation rejected the
    /// requested configuration.
    ExternalComputationFailure,
}

/// The phases of the provisioning unit, in execution order.
#[derive(Clone, Copy, Debug, PartialEq, Eq, Structural)]
pub enum Phase {
    /// Derive the metadata record address from the asset identity.
    DeriveAddress,
    /// Allocate the mint account, sized for the metadata-pointer extension.
    AllocateMint,
    /// Allocate the metadata record account, sized to its exact contents.
    AllocateMetadata,
    /// Write the metadata record.
    WriteMetadata,
    /// Attach the metadata-pointer extension to the mint account.
    InitializePointer,
    /// Initialize the mint itself.
    InitializeMint,
    /// Create the payer's associated holding account.
    CreateHolding,
    /// Mint one unit into the holding account.
    MintUnit,
}

/// The single failure signal the caller receives: which phase failed, and
/// why.  All earlier writes of the unit are discarded.
#[derive(Clone, Copy, Debug, PartialEq, Eq, Structural)]
pub struct ProvisionFailure {
    pub phase: Phase,
    pub kind: FailureKind,
}

} // verus!
