//! A single-transaction resource-provisioning protocol for a ledger: derive
//! a program-owned metadata address from a deterministic seed, allocate and
//! size a fresh asset-mint account for a metadata-pointer extension,
//! initialize the extension and the mint, create the payer's associated
//! holding account, and mint one unit into it — all as one all-or-nothing
//! unit of work.

pub mod addresses;
pub mod failure;
pub mod ledger;
pub mod provision;
pub mod sizing;
