//! The records of the marketplace and their mathematical views.

use crate::bounded::{
    signature_seq, signatures_clone, tenant_ids_clone, tenant_seq, TenantIds, TenantSignatures,
};
use vstd::prelude::*;

verus! {

/// An account of the ledger, and a party of the marketplace.
pub type AccountId = u64;

/// Logical time.
pub type BlockNumber = u64;

/// An amount of the ledger's asset.
pub type Balance = u128;

/// A 256-bit hash.
pub type H256 = [u8; 32];

/// The id of a property: its place in the order of registration, from one.
pub type PropertyId = u128;

/// The id of a listing: its place in the order of creation, from one.
pub type ListingId = u128;

/// The id of an offer: its place in the order of submission, from one.
pub type OfferId = u128;

/// The id of a tenancy.
pub type TenancyId = u128;

/// A registered property. Never changes once it is registered.
#[derive(Clone, Copy, Debug, PartialEq, Eq)]
pub struct Property {
    pub property_id: PropertyId,
    pub landlord_id: AccountId,
    pub address: H256,
    pub postal_code: H256,
}

/// A property put up for rent. Never changes once it is created.
#[derive(Clone, Copy, Debug, PartialEq, Eq)]
pub struct Listing {
    pub listing_id: ListingId,
    pub property_id: PropertyId,
    pub rental_price: u32,
    pub availability_date: BlockNumber,
    pub lister: AccountId,
}

/// Where an offer stands. No command leaves an offer `Cancelled` or `Rejected`.
#[derive(Clone, Copy, Debug, PartialEq, Eq, Structural)]
pub enum OfferStatus {
    Cancelled,
    Pending,
    Accepted,
    Rejected,
}

/// An offer to rent a property.
#[derive(Debug, PartialEq, Eq)]
pub struct Offer {
    pub offer_id: OfferId,
    pub property_id: PropertyId,
    pub offer_price: u32,
    pub offer_start_date: BlockNumber,
    pub offer_end_date: BlockNumber,
    pub lead_tenant: AccountId,
    pub prospective_tenant_ids: TenantIds,
    pub prospective_tenant_signatures: TenantSignatures,
    pub valid_until: BlockNumber,
    pub all_signed: bool,
    pub offer_status: OfferStatus,
}

/// What an [`Offer`] holds, with its lists as sequences.
pub struct OfferView {
    pub offer_id: OfferId,
    pub property_id: PropertyId,
    pub offer_price: u32,
    pub offer_start_date: BlockNumber,
    pub offer_end_date: BlockNumber,
    pub lead_tenant: AccountId,
    pub prospective_tenant_ids: Seq<AccountId>,
    pub prospective_tenant_signatures: Seq<(AccountId, bool)>,
    pub valid_until: BlockNumber,
    pub all_signed: bool,
    pub offer_status: OfferStatus,
}

/// A lease that an accepted offer has become.
#[derive(Debug, PartialEq, Eq)]
pub struct Tenancy {
    pub property_id: PropertyId,
    pub rental_price: u32,
    pub start_date: BlockNumber,
    pub end_date: BlockNumber,
    pub tenant_ids: TenantIds,
}

/// What a [`Tenancy`] holds, with its tenants as a sequence.
pub struct TenancyView {
    pub property_id: PropertyId,
    pub rental_price: u32,
    pub start_date: BlockNumber,
    pub end_date: BlockNumber,
    pub tenant_ids: Seq<AccountId>,
}

impl OfferView {
    /// The tenancy that this offer becomes when it is accepted.
    pub open spec fn tenancy(self) -> TenancyView {
        TenancyView {
            property_id: self.property_id,
            rental_price: self.offer_price,
            start_date: self.offer_start_date,
            end_date: self.offer_end_date,
            tenant_ids: self.prospective_tenant_ids,
        }
    }
}

impl View for Offer {
    type V = OfferView;

    open spec fn view(&self) -> OfferView {
        OfferView {
            offer_id: self.offer_id,
            property_id: self.property_id,
            offer_price: self.offer_price,
            offer_start_date: self.offer_start_date,
            offer_end_date: self.offer_end_date,
            lead_tenant: self.lead_tenant,
            prospective_tenant_ids: tenant_seq(self.prospective_tenant_ids),
            prospective_tenant_signatures: signature_seq(self.prospective_tenant_signatures),
            valid_until: self.valid_until,
            all_signed: self.all_signed,
            offer_status: self.offer_status,
        }
    }
}

impl View for Tenancy {
    type V = TenancyView;

    open spec fn view(&self) -> TenancyView {
        TenancyView {
            property_id: self.property_id,
            rental_price: self.rental_price,
            start_date: self.start_date,
            end_date: self.end_date,
            tenant_ids: tenant_seq(self.tenant_ids),
        }
    }
}

impl Property {
    pub fn new(
        property_id: PropertyId,
        landlord_id: AccountId,
        address: H256,
        postal_code: H256,
    ) -> (property: Property)
        ensures
            property == (Property { property_id, landlord_id, address, postal_code }),
    {
        Property { property_id, landlord_id, address, postal_code }
    }

    /// The listing that puts this property up for rent.
    pub fn create_listing(
        self,
        listing_id: ListingId,
        rental_price: u32,
        availability_date: BlockNumber,
        lister: AccountId,
    ) -> (listing: Listing)
        ensures
            listing == (Listing {
                listing_id,
                property_id: self.property_id,
                rental_price,
                availability_date,
                lister,
            }),
    {
        Listing { listing_id, property_id: self.property_id, rental_price, availability_date, lister }
    }
}

impl Offer {
    /// A pending offer with the given contents.
    pub fn new(
        offer_id: OfferId,
        property_id: PropertyId,
        offer_price: u32,
        offer_start_date: BlockNumber,
        offer_end_date: BlockNumber,
        lead_tenant: AccountId,
        prospective_tenant_ids: TenantIds,
        prospective_tenant_signatures: TenantSignatures,
        valid_until: BlockNumber,
        all_signed: bool,
    ) -> (offer: Offer)
        ensures
            offer == (Offer {
                offer_id,
                property_id,
                offer_price,
                offer_start_date,
                offer_end_date,
                lead_tenant,
                prospective_tenant_ids,
                prospective_tenant_signatures,
                valid_until,
                all_signed,
                offer_status: OfferStatus::Pending,
            }),
    {
        Offer {
            offer_id,
            property_id,
            offer_price,
            offer_start_date,
            offer_end_date,
            lead_tenant,
            prospective_tenant_ids,
            prospective_tenant_signatures,
            valid_until,
            all_signed,
            offer_status: OfferStatus::Pending,
        }
    }
}

impl Clone for Offer {
    fn clone(&self) -> (copy: Offer)
        ensures
            copy@ == self@,
    {
        Offer {
            offer_id: self.offer_id,
            property_id: self.property_id,
            offer_price: self.offer_price,
            offer_start_date: self.offer_start_date,
            offer_end_date: self.offer_end_date,
            lead_tenant: self.lead_tenant,
            prospective_tenant_ids: tenant_ids_clone(&self.prospective_tenant_ids),
            prospective_tenant_signatures: signatures_clone(&self.prospective_tenant_signatures),
            valid_until: self.valid_until,
            all_signed: self.all_signed,
            offer_status: self.offer_status,
        }
    }
}

impl Tenancy {
    /// The tenancy that an offer becomes: its property, price, dates and tenants.
    pub fn new(offer: Offer) -> (tenancy: Tenancy)
        ensures
            tenancy@ == offer@.tenancy(),
    {
        Tenancy {
            property_id: offer.property_id,
            rental_price: offer.offer_price,
            start_date: offer.offer_start_date,
            end_date: offer.offer_end_date,
            tenant_ids: offer.prospective_tenant_ids,
        }
    }
}

impl Clone for Tenancy {
    fn clone(&self) -> (copy: Tenancy)
        ensures
            copy@ == self@,
    {
        Tenancy {
            property_id: self.property_id,
            rental_price: self.rental_price,
            start_date: self.start_date,
            end_date: self.end_date,
            tenant_ids: tenant_ids_clone(&self.tenant_ids),
        }
    }
}

} // verus!
