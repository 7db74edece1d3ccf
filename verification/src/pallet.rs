//! The marketplace that runs: [`Pallet`] keeps the state in ordered maps and
//! carries out each command exactly as [`PalletView`] says.

use crate::bounded::{
    applicant_offer_seq, applicant_offers_as_vec, applicant_offers_new, applicant_offers_try_push,
    listing_offer_seq, listing_offers_as_vec, listing_offers_new, listing_offers_try_push,
    tenant_ids_as_vec, tenant_seq, ApplicantOfferIds, ListingOfferIds, TenantIds,
    MAX_OFFERS_PER_APPLICANT, MAX_OFFERS_PER_LISTING,
};
use crate::dispatch::{ensure_root, Error, Origin};
use crate::laws::{
    law_accept_offer_keeps_sound, law_create_listing_keeps_sound, law_empty_is_sound,
    law_register_applicant_keeps_sound, law_register_landlord_keeps_sound,
    law_register_property_keeps_sound, law_sign_offer_keeps_sound, law_submit_offer_keeps_sound,
};
use crate::ledger::Ledger;
use crate::model::PalletView;
use crate::rules;
use crate::types::{
    AccountId, BlockNumber, Listing, ListingId, Offer, OfferId, OfferView, Property, PropertyId,
    Tenancy, TenancyView, H256,
};
use std::collections::{BTreeMap, BTreeSet};
use vstd::prelude::*;

verus! {

/// What a command that went through reports.
#[derive(Debug, PartialEq, Eq)]
pub enum Event {
    NewApplicantRegistered { applicant_id: AccountId },
    NewLandlordRegistered { landlord_id: AccountId },
    NewPropertyRegistered { address: H256, postal_code: H256 },
    NewListingCreated { property_id: PropertyId, rental_price: u32, availability_date: BlockNumber },
    NewOfferSubmitted {
        listing_id: ListingId,
        offer_price: u32,
        offer_start_date: BlockNumber,
        offer_end_date: BlockNumber,
        prospective_tenant_ids: TenantIds,
    },
    OfferAccepted { offer_id: OfferId },
    ApplicantSignedOffer { applicant_id: AccountId },
}

/// The offers of a map, each as its view.
pub open spec fn offer_views(offers: Map<OfferId, Offer>) -> Map<OfferId, OfferView> {
    Map::new(|id: OfferId| offers.contains_key(id), |id: OfferId| offers[id]@)
}

/// The tenancies of a map, each as its view.
pub open spec fn tenancy_views(tenancies: Map<PropertyId, Tenancy>) -> Map<PropertyId, TenancyView> {
    Map::new(|id: PropertyId| tenancies.contains_key(id), |id: PropertyId| tenancies[id]@)
}

/// The lists of a map of listings, each as the sequence it holds.
pub open spec fn listing_list_views(lists: Map<ListingId, ListingOfferIds>) -> Map<
    ListingId,
    Seq<OfferId>,
> {
    Map::new(|id: ListingId| lists.contains_key(id), |id: ListingId| listing_offer_seq(lists[id]))
}

/// The lists of a map of applicants, each as the sequence it holds.
pub open spec fn applicant_list_views(lists: Map<AccountId, ApplicantOfferIds>) -> Map<
    AccountId,
    Seq<OfferId>,
> {
    Map::new(|who: AccountId| lists.contains_key(who), |who: AccountId| applicant_offer_seq(lists[who]))
}

/// The marketplace.
pub struct Pallet {
    verified_applicants: BTreeSet<AccountId>,
    verified_landlords: BTreeSet<AccountId>,
    properties: BTreeMap<PropertyId, Property>,
    property_counter: PropertyId,
    listings: BTreeMap<ListingId, Listing>,
    listing_counter: ListingId,
    offers: BTreeMap<OfferId, Offer>,
    offer_counter: OfferId,
    listing_offers: BTreeMap<ListingId, ListingOfferIds>,
    applicant_offers: BTreeMap<AccountId, ApplicantOfferIds>,
    tenancies: BTreeMap<PropertyId, Tenancy>,
}

impl View for Pallet {
    type V = PalletView;

    closed spec fn view(&self) -> PalletView {
        PalletView {
            verified_applicants: self.verified_applicants@,
            verified_landlords: self.verified_landlords@,
            properties: self.properties@,
            property_counter: self.property_counter,
            listings: self.listings@,
            listing_counter: self.listing_counter,
            offers: offer_views(self.offers@),
            offer_counter: self.offer_counter,
            listing_offers: listing_list_views(self.listing_offers@),
            applicant_offers: applicant_list_views(self.applicant_offers@),
            tenancies: tenancy_views(self.tenancies@),
        }
    }
}

/// Tells whether every account of `ids` is in `verified`.
fn all_verified(verified: &BTreeSet<AccountId>, ids: &Vec<AccountId>) -> (all: bool)
    ensures
        all == (forall|i: int| 0 <= i < ids@.len() ==> verified@.contains(#[trigger] ids@[i])),
{
    let mut i: usize = 0;
    while i < ids.len()
        invariant
            i <= ids.len(),
            forall|j: int| 0 <= j < i ==> verified@.contains(#[trigger] ids@[j]),
        decreases ids.len() - i,
    {
        if !verified.contains(&ids[i]) {
            return false;
        }
        i += 1;
    }
    true
}

/// The number of offers made on a listing.
fn listing_offer_count(lists: &BTreeMap<ListingId, ListingOfferIds>, listing_id: ListingId) -> (count:
    usize)
    ensures
        count == (if lists@.contains_key(listing_id) {
            listing_offer_seq(lists@[listing_id]).len()
        } else {
            0
        }),
{
    match lists.get(&listing_id) {
        Some(list) => listing_offers_as_vec(list).len(),
        None => 0,
    }
}

/// The number of offers made by an applicant.
fn applicant_offer_count(lists: &BTreeMap<AccountId, ApplicantOfferIds>, applicant_id: AccountId) -> (count:
    usize)
    ensures
        count == (if lists@.contains_key(applicant_id) {
            applicant_offer_seq(lists@[applicant_id]).len()
        } else {
            0
        }),
{
    match lists.get(&applicant_id) {
        Some(list) => applicant_offers_as_vec(list).len(),
        None => 0,
    }
}

/// Appends an offer to the list of a listing that has room for it.
fn push_listing_offer(
    lists: &mut BTreeMap<ListingId, ListingOfferIds>,
    listing_id: ListingId,
    offer_id: OfferId,
)
    requires
        old(lists)@.contains_key(listing_id) ==> listing_offer_seq(old(lists)@[listing_id]).len()
            < MAX_OFFERS_PER_LISTING,
    ensures
        listing_list_views(final(lists)@) == listing_list_views(old(lists)@).insert(
            listing_id,
            if old(lists)@.contains_key(listing_id) {
                listing_offer_seq(old(lists)@[listing_id]).push(offer_id)
            } else {
                Seq::<OfferId>::empty().push(offer_id)
            },
        ),
{
    let mut list = match lists.remove(&listing_id) {
        Some(list) => list,
        None => listing_offers_new(),
    };
    let pushed = listing_offers_try_push(&mut list, offer_id);
    assert(pushed is Ok);  // there was room
    lists.insert(listing_id, list);
}

/// Appends an offer to the list of an applicant that has room for it.
fn push_applicant_offer(
    lists: &mut BTreeMap<AccountId, ApplicantOfferIds>,
    applicant_id: AccountId,
    offer_id: OfferId,
)
    requires
        old(lists)@.contains_key(applicant_id) ==> applicant_offer_seq(
            old(lists)@[applicant_id],
        ).len() < MAX_OFFERS_PER_APPLICANT,
    ensures
        applicant_list_views(final(lists)@) == applicant_list_views(old(lists)@).insert(
            applicant_id,
            if old(lists)@.contains_key(applicant_id) {
                applicant_offer_seq(old(lists)@[applicant_id]).push(offer_id)
            } else {
                Seq::<OfferId>::empty().push(offer_id)
            },
        ),
{
    let mut list = match lists.remove(&applicant_id) {
        Some(list) => list,
        None => applicant_offers_new(),
    };
    let pushed = applicant_offers_try_push(&mut list, offer_id);
    assert(pushed is Ok);  // there was room
    lists.insert(applicant_id, list);
}

/// Copies a list of offer ids.
fn copy_ids(ids: &Vec<OfferId>) -> (copy: Vec<OfferId>)
    ensures
        copy@ == ids@,
{
    let mut copy: Vec<OfferId> = Vec::new();
    let mut i: usize = 0;
    while i < ids.len()
        invariant
            i <= ids.len(),
            copy@ == ids@.take(i as int),
        decreases ids.len() - i,
    {
        copy.push(ids[i]);
        i += 1;
    }
    copy
}

impl Pallet {
    /// Whether the marketplace is sound. Every command keeps it so.
    pub open spec fn wf(&self) -> bool {
        self@.inv()
    }

    /// A marketplace in which nothing has happened yet.
    pub fn new() -> (pallet: Pallet)
        ensures
            pallet.wf(),
            pallet@ == PalletView::empty(),
    {
        let pallet = Pallet {
            verified_applicants: BTreeSet::new(),
            verified_landlords: BTreeSet::new(),
            properties: BTreeMap::new(),
            property_counter: 0,
            listings: BTreeMap::new(),
            listing_counter: 0,
            offers: BTreeMap::new(),
            offer_counter: 0,
            listing_offers: BTreeMap::new(),
            applicant_offers: BTreeMap::new(),
            tenancies: BTreeMap::new(),
        };
        proof {
            law_empty_is_sound();
        }
        pallet
    }

    /// A verified applicant makes an offer on a listing, for the tenants named.
    ///
    /// The offer is refused, and nothing changes, for the first reason that
    /// [`PalletView::submit_offer`] names. Otherwise the offer is
    /// stored as pending under the next offer id, the id is appended to the
    /// lists of the listing and of the applicant, and the offered price goes
    /// on hold in `ledger` under the offer's tag.
    pub fn submit_offer(
        &mut self,
        ledger: &mut Ledger,
        now: BlockNumber,
        origin: Origin,
        listing_id: ListingId,
        offer_price: u32,
        offer_start_date: BlockNumber,
        offer_end_date: BlockNumber,
        prospective_tenant_ids: TenantIds,
        valid_until: BlockNumber,
    ) -> (r: Result<Event, Error>)
        requires
            old(self).wf(),
        ensures
            final(self).wf(),
            match old(self)@.submit_offer(
                old(ledger)@,
                now,
                origin,
                listing_id,
                offer_price,
                offer_start_date,
                offer_end_date,
                tenant_seq(prospective_tenant_ids),
                valid_until,
            ) {
                Ok((next, next_ledger)) => {
                    &&& r == Ok::<Event, Error>(
                        Event::NewOfferSubmitted {
                            listing_id,
                            offer_price,
                            offer_start_date,
                            offer_end_date,
                            prospective_tenant_ids,
                        },
                    )
                    &&& final(self)@ == next
                    &&& final(ledger)@ == next_ledger
                },
                Err(e) => {
                    &&& r == Err::<Event, Error>(e)
                    &&& final(self)@ == old(self)@
                    &&& final(ledger)@ == old(ledger)@
                },
            },
    {
        let (applicant_id, applicant_verified) = match origin {
            Origin::Signed(who) => (who, self.verified_applicants.contains(&who)),
            _ => (0, false),
        };
        let listing = match self.listings.get(&listing_id) {
            Some(listing) => Some(*listing),
            None => None,
        };
        let offer = match rules::submit_offer(
            now,
            origin,
            applicant_verified,
            listing,
            ledger.balance(applicant_id),
            offer_price,
            offer_start_date,
            offer_end_date,
            &prospective_tenant_ids,
            all_verified(&self.verified_applicants, tenant_ids_as_vec(&prospective_tenant_ids)),
            valid_until,
            self.offer_counter,
            listing_offer_count(&self.listing_offers, listing_id),
            applicant_offer_count(&self.applicant_offers, applicant_id),
        ) {
            Ok(offer) => offer,
            Err(e) => {
                return Err(e);
            },
        };
        let hold = offer.hold();
        if ledger.place_hold(hold.reason, hold.who, hold.amount).is_err() {
            return Err(Error::InsufficientFundsForOffer);
        }
        let offer_id = offer.offer_id;
        push_listing_offer(&mut self.listing_offers, listing_id, offer_id);
        push_applicant_offer(&mut self.applicant_offers, applicant_id, offer_id);
        self.offers.insert(offer_id, offer);
        self.offer_counter = offer_id;
        proof {
            let next = old(self)@.submit_offer(
                old(ledger)@,
                now,
                origin,
                listing_id,
                offer_price,
                offer_start_date,
                offer_end_date,
                tenant_seq(prospective_tenant_ids),
                valid_until,
            )->Ok_0.0;
            assert(self@ =~= next);
            law_submit_offer_keeps_sound(
                old(self)@,
                old(ledger)@,
                now,
                origin,
                listing_id,
                offer_price,
                offer_start_date,
                offer_end_date,
                tenant_seq(prospective_tenant_ids),
                valid_until,
            );
        }
        Ok(
            Event::NewOfferSubmitted {
                listing_id,
                offer_price,
                offer_start_date,
                offer_end_date,
                prospective_tenant_ids,
            },
        )
    }

    /// The landlord of the offer's property accepts the offer.
    ///
    /// The acceptance is refused, and nothing changes, for the first reason
    /// that [`PalletView::accept_offer`] names. Otherwise the offer
    /// becomes accepted, its hold in `ledger` is released, its price is paid
    /// from the lead tenant to the landlord, and its tenancy is recorded.
    pub fn accept_offer(
        &mut self,
        ledger: &mut Ledger,
        now: BlockNumber,
        origin: Origin,
        offer_id: OfferId,
    ) -> (r: Result<Event, Error>)
        requires
            old(self).wf(),
        ensures
            final(self).wf(),
            match old(self)@.accept_offer(old(ledger)@, now, origin, offer_id) {
                Ok((next, next_ledger)) => {
                    &&& r == Ok::<Event, Error>(Event::OfferAccepted { offer_id })
                    &&& final(self)@ == next
                    &&& final(ledger)@ == next_ledger
                },
                Err(e) => {
                    &&& r == Err::<Event, Error>(e)
                    &&& final(self)@ == old(self)@
                    &&& final(ledger)@ == old(ledger)@
                },
            },
    {
        let offer = self.offers.get(&offer_id);
        let (property, tenancy_exists) = match offer {
            Some(offer) => (
                match self.properties.get(&offer.property_id) {
                    Some(property) => Some(*property),
                    None => None,
                },
                self.tenancies.contains_key(&offer.property_id),
            ),
            None => (None, false),
        };
        let acceptance = match rules::accept_offer(now, origin, offer, property, tenancy_exists) {
            Ok(acceptance) => acceptance,
            Err(e) => {
                return Err(e);
            },
        };
        let settlement = acceptance.settlement;
        if ledger.settle(settlement.reason, settlement.from, settlement.to, settlement.amount).is_err() {
            return Err(Error::InsufficientFundsForOffer);
        }
        let accepted = acceptance.offer;
        let tenancy = acceptance.tenancy;
        let property_id = tenancy.property_id;
        self.offers.insert(offer_id, accepted);
        self.tenancies.insert(property_id, tenancy);
        proof {
            let next = old(self)@.accept_offer(old(ledger)@, now, origin, offer_id)->Ok_0.0;
            assert(self@ =~= next);
            law_accept_offer_keeps_sound(old(self)@, old(ledger)@, now, origin, offer_id);
        }
        Ok(Event::OfferAccepted { offer_id })
    }

    /// A verified applicant signs an offer.
    ///
    /// Refused, with nothing changed, when the caller is no verified applicant
    /// (`Unauthorized`), the offer does not exist (`OfferDoesNotExist`), its
    /// validity has passed (`OfferExpired`) or it is no longer pending
    /// (`OfferCannotBeAccepted`), in that order. Otherwise every entry of the
    /// caller in the co-signature list is signed, and the offer is fully
    /// signed exactly when every entry is. A caller without an entry changes
    /// no entry.
    pub fn sign_offer(&mut self, now: BlockNumber, origin: Origin, offer_id: OfferId) -> (r: Result<
        Event,
        Error,
    >)
        requires
            old(self).wf(),
        ensures
            final(self).wf(),
            match old(self)@.sign_offer(now, origin, offer_id) {
                Ok(next) => {
                    &&& r == Ok::<Event, Error>(
                        Event::ApplicantSignedOffer { applicant_id: origin->Signed_0 },
                    )
                    &&& final(self)@ == next
                },
                Err(e) => r == Err::<Event, Error>(e) && final(self)@ == old(self)@,
            },
    {
        let (applicant_id, signer_verified) = match origin {
            Origin::Signed(who) => (who, self.verified_applicants.contains(&who)),
            _ => (0, false),
        };
        let signed = match rules::sign_offer(now, origin, signer_verified, self.offers.get(&offer_id)) {
            Ok(signed) => signed,
            Err(e) => {
                return Err(e);
            },
        };
        self.offers.insert(offer_id, signed);
        proof {
            let next = old(self)@.sign_offer(now, origin, offer_id)->Ok_0;
            assert(self@ =~= next);
            law_sign_offer_keeps_sound(old(self)@, now, origin, offer_id);
        }
        Ok(Event::ApplicantSignedOffer { applicant_id })
    }

    /// A landlord puts a property of theirs up for rent.
    ///
    /// Refused, with nothing changed, when the caller holds no account
    /// (`Unauthorized`), the property is not registered
    /// (`PropertyDoesNotExist`), the caller is not its landlord
    /// (`Unauthorized`) or the listing ids are used up (`TooManyListings`),
    /// in that order. Otherwise the listing is stored under the next listing
    /// id.
    pub fn create_listing(
        &mut self,
        origin: Origin,
        property_id: PropertyId,
        rental_price: u32,
        availability_date: BlockNumber,
    ) -> (r: Result<Event, Error>)
        requires
            old(self).wf(),
        ensures
            final(self).wf(),
            match old(self)@.create_listing(origin, property_id, rental_price, availability_date) {
                Ok(next) => {
                    &&& r == Ok::<Event, Error>(
                        Event::NewListingCreated { property_id, rental_price, availability_date },
                    )
                    &&& final(self)@ == next
                },
                Err(e) => r == Err::<Event, Error>(e) && final(self)@ == old(self)@,
            },
    {
        let property = match self.properties.get(&property_id) {
            Some(property) => Some(*property),
            None => None,
        };
        let listing = match rules::create_listing(
            origin,
            property,
            self.listing_counter,
            rental_price,
            availability_date,
        ) {
            Ok(listing) => listing,
            Err(e) => {
                return Err(e);
            },
        };
        let listing_id = listing.listing_id;
        self.listings.insert(listing_id, listing);
        self.listing_counter = listing_id;
        proof {
            let next = old(self)@.create_listing(
                origin,
                property_id,
                rental_price,
                availability_date,
            )->Ok_0;
            assert(self@ =~= next);
            law_create_listing_keeps_sound(
                old(self)@,
                origin,
                property_id,
                rental_price,
                availability_date,
            );
        }
        Ok(Event::NewListingCreated { property_id, rental_price, availability_date })
    }

    /// The authority registers a property for a landlord.
    ///
    /// Refused, with nothing changed, when the caller is not the authority
    /// (`Unauthorized`) or the property ids are used up (`TooManyProperties`).
    /// Otherwise the property is stored under the next property id. The same
    /// address can be registered again, under another id.
    pub fn register_property(
        &mut self,
        origin: Origin,
        address: H256,
        postal_code: H256,
        landlord_id: AccountId,
    ) -> (r: Result<Event, Error>)
        requires
            old(self).wf(),
        ensures
            final(self).wf(),
            match old(self)@.register_property(origin, address, postal_code, landlord_id) {
                Ok(next) => {
                    &&& r == Ok::<Event, Error>(Event::NewPropertyRegistered { address, postal_code })
                    &&& final(self)@ == next
                },
                Err(e) => r == Err::<Event, Error>(e) && final(self)@ == old(self)@,
            },
    {
        let property = match rules::register_property(
            origin,
            self.property_counter,
            address,
            postal_code,
            landlord_id,
        ) {
            Ok(property) => property,
            Err(e) => {
                return Err(e);
            },
        };
        let property_id = property.property_id;
        self.properties.insert(property_id, property);
        self.property_counter = property_id;
        proof {
            let next = old(self)@.register_property(origin, address, postal_code, landlord_id)->Ok_0;
            assert(self@ =~= next);
            law_register_property_keeps_sound(old(self)@, origin, address, postal_code, landlord_id);
        }
        Ok(Event::NewPropertyRegistered { address, postal_code })
    }

    /// The authority vouches for an applicant. Vouching again changes nothing.
    /// Refused with `Unauthorized` when the caller is not the authority.
    pub fn register_applicant(&mut self, origin: Origin, applicant_id: AccountId) -> (r: Result<
        Event,
        Error,
    >)
        requires
            old(self).wf(),
        ensures
            final(self).wf(),
            match old(self)@.register_applicant(origin, applicant_id) {
                Ok(next) => {
                    &&& r == Ok::<Event, Error>(Event::NewApplicantRegistered { applicant_id })
                    &&& final(self)@ == next
                },
                Err(e) => r == Err::<Event, Error>(e) && final(self)@ == old(self)@,
            },
    {
        if let Err(e) = ensure_root(origin) {
            return Err(e);
        }
        self.verified_applicants.insert(applicant_id);
        proof {
            assert(self@ =~= old(self)@.register_applicant(origin, applicant_id)->Ok_0);
            law_register_applicant_keeps_sound(old(self)@, origin, applicant_id);
        }
        Ok(Event::NewApplicantRegistered { applicant_id })
    }

    /// The authority vouches for a landlord. Vouching again changes nothing.
    /// Refused with `Unauthorized` when the caller is not the authority.
    pub fn register_landlord(&mut self, origin: Origin, landlord_id: AccountId) -> (r: Result<
        Event,
        Error,
    >)
        requires
            old(self).wf(),
        ensures
            final(self).wf(),
            match old(self)@.register_landlord(origin, landlord_id) {
                Ok(next) => {
                    &&& r == Ok::<Event, Error>(Event::NewLandlordRegistered { landlord_id })
                    &&& final(self)@ == next
                },
                Err(e) => r == Err::<Event, Error>(e) && final(self)@ == old(self)@,
            },
    {
        if let Err(e) = ensure_root(origin) {
            return Err(e);
        }
        self.verified_landlords.insert(landlord_id);
        proof {
            assert(self@ =~= old(self)@.register_landlord(origin, landlord_id)->Ok_0);
            law_register_landlord_keeps_sound(old(self)@, origin, landlord_id);
        }
        Ok(Event::NewLandlordRegistered { landlord_id })
    }

    /// The property registered under `property_id`, if there is one.
    pub fn get_property(&self, property_id: PropertyId) -> (property: Option<Property>)
        ensures
            property == (if self@.properties.contains_key(property_id) {
                Some(self@.properties[property_id])
            } else {
                None
            }),
    {
        match self.properties.get(&property_id) {
            Some(property) => Some(*property),
            None => None,
        }
    }

    /// The listing created under `listing_id`, if there is one.
    pub fn get_listing(&self, listing_id: ListingId) -> (listing: Option<Listing>)
        ensures
            listing == (if self@.listings.contains_key(listing_id) {
                Some(self@.listings[listing_id])
            } else {
                None
            }),
    {
        match self.listings.get(&listing_id) {
            Some(listing) => Some(*listing),
            None => None,
        }
    }

    /// A copy of the offer submitted under `offer_id`, if there is one.
    pub fn get_offer(&self, offer_id: OfferId) -> (offer: Option<Offer>)
        ensures
            match offer {
                Some(offer) => self@.offers.contains_key(offer_id) && offer@
                    == self@.offers[offer_id],
                None => !self@.offers.contains_key(offer_id),
            },
    {
        match self.offers.get(&offer_id) {
            Some(offer) => Some(offer.clone()),
            None => None,
        }
    }

    /// A copy of the tenancy of the property `property_id`, if it is let.
    pub fn get_tenancy(&self, property_id: PropertyId) -> (tenancy: Option<Tenancy>)
        ensures
            match tenancy {
                Some(tenancy) => self@.tenancies.contains_key(property_id) && tenancy@
                    == self@.tenancies[property_id],
                None => !self@.tenancies.contains_key(property_id),
            },
    {
        match self.tenancies.get(&property_id) {
            Some(tenancy) => Some(tenancy.clone()),
            None => None,
        }
    }

    /// Whether the authority has vouched for `who` as an applicant.
    pub fn is_verified_applicant(&self, who: AccountId) -> (verified: bool)
        ensures
            verified == self@.verified_applicants.contains(who),
    {
        self.verified_applicants.contains(&who)
    }

    /// Whether the authority has vouched for `who` as a landlord.
    pub fn is_verified_landlord(&self, who: AccountId) -> (verified: bool)
        ensures
            verified == self@.verified_landlords.contains(who),
    {
        self.verified_landlords.contains(&who)
    }

    /// The offers made on a listing so far, oldest first.
    pub fn offers_on_listing(&self, listing_id: ListingId) -> (ids: Vec<OfferId>)
        ensures
            ids@ == self@.offers_on(listing_id),
    {
        match self.listing_offers.get(&listing_id) {
            Some(list) => copy_ids(listing_offers_as_vec(list)),
            None => Vec::new(),
        }
    }

    /// The offers made by an applicant so far, oldest first.
    pub fn offers_of_applicant(&self, applicant_id: AccountId) -> (ids: Vec<OfferId>)
        ensures
            ids@ == self@.offers_of(applicant_id),
    {
        match self.applicant_offers.get(&applicant_id) {
            Some(list) => copy_ids(applicant_offers_as_vec(list)),
            None => Vec::new(),
        }
    }

    /// The id of the property registered last; zero before the first.
    pub fn property_count(&self) -> (count: PropertyId)
        ensures
            count == self@.property_counter,
    {
        self.property_counter
    }

    /// The id of the listing created last; zero before the first.
    pub fn listing_count(&self) -> (count: ListingId)
        ensures
            count == self@.listing_counter,
    {
        self.listing_counter
    }

    /// The id of the offer submitted last; zero before the first.
    pub fn offer_count(&self) -> (count: OfferId)
        ensures
            count == self@.offer_counter,
    {
        self.offer_counter
    }
}

} // verus!
