//! A rental marketplace: landlords list properties, verified applicants make
//! time-bounded offers that every prospective tenant has to co-sign, and an
//! accepted offer becomes a tenancy while the rent moves from the lead tenant
//! to the landlord.
//!
//! - [`types`], [`bounded`] and [`cosign`] hold the records, their bounded
//!   lists and the co-signature lists.
//! - [`dispatch`] and [`rules`] decide every command from the records at
//!   hand.
//! - [`ledger`] is the fungible ledger that offers are backed by and paid on.
//! - [`model`] is the marketplace as a mathematical state machine, and
//!   [`pallet`] the one that runs, in memory.
//! - [`laws`] states what holds of every run.

pub mod bounded;
pub mod cosign;
pub mod dispatch;
pub mod laws;
pub mod ledger;
pub mod model;
pub mod pallet;
pub mod rules;
pub mod types;

pub use bounded::{
    ApplicantOfferIds, ListingOfferIds, TenantIds, TenantSignatures, MAX_NUMBER_OF_TENANTS,
    MAX_OFFERS_PER_APPLICANT, MAX_OFFERS_PER_LISTING,
};
pub use dispatch::{Error, Origin};
pub use ledger::{FreezeReason, Ledger, LedgerError, Preservation};
pub use pallet::{Event, Pallet};
pub use rules::{Hold, Settlement};
pub use types::{
    AccountId, Balance, BlockNumber, Listing, ListingId, Offer, OfferId, OfferStatus, Property,
    PropertyId, Tenancy, TenancyId, H256,
};
