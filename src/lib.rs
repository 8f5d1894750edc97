//! Owner-authenticated record registries: a deployment registry addressed by
//! (owner, creation time) and a domain-link registry addressed by a case-folded
//! name, with field validation, owner-gated mutation and soft delete.
pub mod identity;
pub mod address;
pub mod ledger;
pub mod text;
pub mod deployer;
pub mod domain_linker;
