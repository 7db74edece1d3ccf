//! The marketplace as a state machine over mathematical values.
//!
//! [`PalletView`] is the whole state. Each command is a function from the
//! state and the command's arguments to the next state or to the error that
//! refuses the command; a refused command leaves everything as it was.

use crate::bounded::{MAX_OFFERS_PER_APPLICANT, MAX_OFFERS_PER_LISTING};
use crate::dispatch::{Error, Origin};
use crate::ledger::{FreezeReason, LedgerView};
use crate::rules::{
    listing_created, offer_accepted, offer_signed, offer_submitted, property_registered,
};
use crate::types::{
    AccountId, BlockNumber, Listing, ListingId, OfferId, OfferView, Property, PropertyId,
    TenancyView, H256,
};
use vstd::prelude::*;

verus! {

/// The state of the marketplace.
#[verifier::ext_equal]
pub struct PalletView {
    /// The applicants who may make and sign offers.
    pub verified_applicants: Set<AccountId>,
    /// The landlords who were vouched for.
    pub verified_landlords: Set<AccountId>,
    pub properties: Map<PropertyId, Property>,
    /// The id of the property registered last; zero before the first.
    pub property_counter: PropertyId,
    pub listings: Map<ListingId, Listing>,
    /// The id of the listing created last; zero before the first.
    pub listing_counter: ListingId,
    pub offers: Map<OfferId, OfferView>,
    /// The id of the offer submitted last; zero before the first.
    pub offer_counter: OfferId,
    /// The offers made on each listing, oldest first.
    pub listing_offers: Map<ListingId, Seq<OfferId>>,
    /// The offers made by each applicant, oldest first.
    pub applicant_offers: Map<AccountId, Seq<OfferId>>,
    /// The tenancy of each let property.
    pub tenancies: Map<PropertyId, TenancyView>,
}

impl PalletView {
    /// The marketplace before the first command.
    pub open spec fn empty() -> PalletView {
        PalletView {
            verified_applicants: Set::empty(),
            verified_landlords: Set::empty(),
            properties: Map::empty(),
            property_counter: 0,
            listings: Map::empty(),
            listing_counter: 0,
            offers: Map::empty(),
            offer_counter: 0,
            listing_offers: Map::empty(),
            applicant_offers: Map::empty(),
            tenancies: Map::empty(),
        }
    }

    /// The offers made on a listing so far.
    pub open spec fn offers_on(self, listing_id: ListingId) -> Seq<OfferId> {
        if self.listing_offers.contains_key(listing_id) {
            self.listing_offers[listing_id]
        } else {
            Seq::empty()
        }
    }

    /// The offers made by an applicant so far.
    pub open spec fn offers_of(self, applicant_id: AccountId) -> Seq<OfferId> {
        if self.applicant_offers.contains_key(applicant_id) {
            self.applicant_offers[applicant_id]
        } else {
            Seq::empty()
        }
    }

    /// Every id in use was handed out by its counter, and every record is
    /// stored under its own id.
    pub open spec fn ids_from_counters(self) -> bool {
        &&& forall|id: PropertyId| #[trigger]
            self.properties.contains_key(id) ==> 1 <= id <= self.property_counter
                && self.properties[id].property_id == id
        &&& forall|id: ListingId| #[trigger]
            self.listings.contains_key(id) ==> 1 <= id <= self.listing_counter
                && self.listings[id].listing_id == id
        &&& forall|id: OfferId| #[trigger]
            self.offers.contains_key(id) ==> 1 <= id <= self.offer_counter
                && self.offers[id].offer_id == id
    }

    /// A listing is of a registered property and was made by its landlord.
    pub open spec fn listings_by_landlords(self) -> bool {
        forall|id: ListingId| #[trigger]
            self.listings.contains_key(id) ==> self.properties.contains_key(
                self.listings[id].property_id,
            ) && self.listings[id].lister
                == self.properties[self.listings[id].property_id].landlord_id
    }

    /// An offer is well formed, is for a registered property, names verified
    /// applicants only, and has a tenancy to show once it is accepted.
    pub open spec fn offers_sound(self) -> bool {
        forall|id: OfferId| #[trigger]
            self.offers.contains_key(id) ==> {
                let offer = self.offers[id];
                &&& offer.wf()
                &&& self.properties.contains_key(offer.property_id)
                &&& self.verified_applicants.contains(offer.lead_tenant)
                &&& forall|i: int|
                    0 <= i < offer.prospective_tenant_ids.len()
                        ==> self.verified_applicants.contains(
                        #[trigger] offer.prospective_tenant_ids[i],
                    )
                &&& offer.offer_status is Accepted ==> self.tenancies.contains_key(
                    offer.property_id,
                )
            }
    }

    /// The offer lists stay within their bounds and name offers that exist:
    /// a listing's list belongs to a listing, an applicant's list holds that
    /// applicant's own offers.
    pub open spec fn lists_sound(self) -> bool {
        &&& forall|id: ListingId| #[trigger]
            self.listing_offers.contains_key(id) ==> {
                &&& self.listings.contains_key(id)
                &&& self.listing_offers[id].len() <= MAX_OFFERS_PER_LISTING
                &&& forall|i: int|
                    0 <= i < self.listing_offers[id].len() ==> self.offers.contains_key(
                        #[trigger] self.listing_offers[id][i],
                    )
            }
        &&& forall|who: AccountId| #[trigger]
            self.applicant_offers.contains_key(who) ==> {
                &&& self.applicant_offers[who].len() <= MAX_OFFERS_PER_APPLICANT
                &&& forall|i: int|
                    0 <= i < self.applicant_offers[who].len() ==> {
                        &&& self.offers.contains_key(#[trigger] self.applicant_offers[who][i])
                        &&& self.offers[self.applicant_offers[who][i]].lead_tenant == who
                    }
            }
    }

    /// A tenancy is stored under its property, which is registered, and is
    /// what an accepted offer for that property has become.
    pub open spec fn tenancies_from_offers(self) -> bool {
        forall|id: PropertyId| #[trigger]
            self.tenancies.contains_key(id) ==> {
                &&& self.tenancies[id].property_id == id
                &&& self.properties.contains_key(id)
                &&& exists|offer_id: OfferId|
                    {
                        &&& #[trigger] self.offers.contains_key(offer_id)
                        &&& self.offers[offer_id].offer_status is Accepted
                        &&& self.offers[offer_id].tenancy() == self.tenancies[id]
                    }
            }
    }

    /// What holds of the marketplace between any two commands.
    pub open spec fn inv(self) -> bool {
        &&& self.ids_from_counters()
        &&& self.listings_by_landlords()
        &&& self.offers_sound()
        &&& self.lists_sound()
        &&& self.tenancies_from_offers()
    }

    /// The property registered under `property_id`, if there is one.
    pub open spec fn property_of(self, property_id: PropertyId) -> Option<Property> {
        if self.properties.contains_key(property_id) {
            Some(self.properties[property_id])
        } else {
            None
        }
    }

    /// The listing created under `listing_id`, if there is one.
    pub open spec fn listing_of(self, listing_id: ListingId) -> Option<Listing> {
        if self.listings.contains_key(listing_id) {
            Some(self.listings[listing_id])
        } else {
            None
        }
    }

    /// The offer submitted under `offer_id`, if there is one.
    pub open spec fn offer_of(self, offer_id: OfferId) -> Option<OfferView> {
        if self.offers.contains_key(offer_id) {
            Some(self.offers[offer_id])
        } else {
            None
        }
    }

    /// Whether `origin` is a verified applicant.
    pub open spec fn is_applicant(self, origin: Origin) -> bool {
        match origin {
            Origin::Signed(who) => self.verified_applicants.contains(who),
            _ => false,
        }
    }

    /// Whether every account of `ids` is a verified applicant.
    pub open spec fn all_applicants(self, ids: Seq<AccountId>) -> bool {
        forall|i: int| 0 <= i < ids.len() ==> self.verified_applicants.contains(#[trigger] ids[i])
    }

    /// The authority vouches for an applicant.
    pub open spec fn register_applicant(self, origin: Origin, applicant_id: AccountId) -> Result<
        PalletView,
        Error,
    > {
        if origin is Root {
            Ok(
                PalletView {
                    verified_applicants: self.verified_applicants.insert(applicant_id),
                    ..self
                },
            )
        } else {
            Err(Error::Unauthorized)
        }
    }

    /// The authority vouches for a landlord.
    pub open spec fn register_landlord(self, origin: Origin, landlord_id: AccountId) -> Result<
        PalletView,
        Error,
    > {
        if origin is Root {
            Ok(
                PalletView {
                    verified_landlords: self.verified_landlords.insert(landlord_id),
                    ..self
                },
            )
        } else {
            Err(Error::Unauthorized)
        }
    }

    /// The authority registers a property for a landlord: the property that
    /// [`property_registered`] decides on is stored under its id, the next
    /// one.
    pub open spec fn register_property(
        self,
        origin: Origin,
        address: H256,
        postal_code: H256,
        landlord_id: AccountId,
    ) -> Result<PalletView, Error> {
        match property_registered(origin, self.property_counter, address, postal_code, landlord_id) {
            Ok(property) => Ok(
                PalletView {
                    properties: self.properties.insert(property.property_id, property),
                    property_counter: property.property_id,
                    ..self
                },
            ),
            Err(e) => Err(e),
        }
    }

    /// A landlord puts a property up for rent: the listing that
    /// [`listing_created`] decides on is stored under its id, the next one.
    pub open spec fn create_listing(
        self,
        origin: Origin,
        property_id: PropertyId,
        rental_price: u32,
        availability_date: BlockNumber,
    ) -> Result<PalletView, Error> {
        match listing_created(
            origin,
            self.property_of(property_id),
            self.listing_counter,
            rental_price,
            availability_date,
        ) {
            Ok(listing) => Ok(
                PalletView {
                    listings: self.listings.insert(listing.listing_id, listing),
                    listing_counter: listing.listing_id,
                    ..self
                },
            ),
            Err(e) => Err(e),
        }
    }

    /// A verified applicant makes an offer on a listing.
    ///
    /// The offer is refused for the first reason that [`offer_submitted`]
    /// finds, and with `InsufficientFundsForOffer` when the ledger cannot
    /// take the hold. Otherwise the offer is stored as pending under the next
    /// offer id, the id is appended to the lists of the listing and of the
    /// applicant, and the offered price goes on hold under the offer's tag.
    pub open spec fn submit_offer(
        self,
        ledger: LedgerView,
        now: BlockNumber,
        origin: Origin,
        listing_id: ListingId,
        offer_price: u32,
        offer_start_date: BlockNumber,
        offer_end_date: BlockNumber,
        prospective_tenant_ids: Seq<AccountId>,
        valid_until: BlockNumber,
    ) -> Result<(PalletView, LedgerView), Error> {
        let applicant_id = origin->Signed_0;
        match offer_submitted(
            now,
            origin,
            self.is_applicant(origin),
            self.listing_of(listing_id),
            ledger.free[applicant_id],
            offer_price,
            offer_start_date,
            offer_end_date,
            prospective_tenant_ids,
            self.all_applicants(prospective_tenant_ids),
            valid_until,
            self.offer_counter,
            self.offers_on(listing_id).len(),
            self.offers_of(applicant_id).len(),
        ) {
            Ok(offer) => match ledger.place_hold(
                offer.hold().reason,
                offer.hold().who,
                offer.hold().amount,
            ) {
                Ok(next_ledger) => Ok(
                    (
                        PalletView {
                            offers: self.offers.insert(offer.offer_id, offer),
                            offer_counter: offer.offer_id,
                            listing_offers: self.listing_offers.insert(
                                listing_id,
                                self.offers_on(listing_id).push(offer.offer_id),
                            ),
                            applicant_offers: self.applicant_offers.insert(
                                applicant_id,
                                self.offers_of(applicant_id).push(offer.offer_id),
                            ),
                            ..self
                        },
                        next_ledger,
                    ),
                ),
                Err(_) => Err(Error::InsufficientFundsForOffer),
            },
            Err(e) => Err(e),
        }
    }

    /// A verified applicant signs an offer: the offer that [`offer_signed`]
    /// decides on takes the place of the one signed.
    pub open spec fn sign_offer(self, now: BlockNumber, origin: Origin, offer_id: OfferId) -> Result<
        PalletView,
        Error,
    > {
        match offer_signed(now, origin, self.is_applicant(origin), self.offer_of(offer_id)) {
            Ok(signed) => Ok(PalletView { offers: self.offers.insert(offer_id, signed), ..self }),
            Err(e) => Err(e),
        }
    }

    /// The property that the offer `offer_id` is for, if both are there.
    pub open spec fn property_on_offer(self, offer_id: OfferId) -> Option<Property> {
        match self.offer_of(offer_id) {
            Some(offer) => self.property_of(offer.property_id),
            None => None,
        }
    }

    /// Whether the offer `offer_id` is there and its property is let.
    pub open spec fn let_already(self, offer_id: OfferId) -> bool {
        match self.offer_of(offer_id) {
            Some(offer) => self.tenancies.contains_key(offer.property_id),
            None => false,
        }
    }

    /// The landlord accepts an offer.
    ///
    /// The acceptance is refused for the first reason that [`offer_accepted`]
    /// finds, and with `InsufficientFundsForOffer` when the ledger cannot
    /// settle: when the lead tenant cannot pay the price and stay alive, or
    /// the landlord's balance cannot take it. Otherwise the offer becomes
    /// accepted, its hold is released, its price is paid from the lead tenant
    /// to the landlord, and its tenancy is recorded.
    pub open spec fn accept_offer(
        self,
        ledger: LedgerView,
        now: BlockNumber,
        origin: Origin,
        offer_id: OfferId,
    ) -> Result<(PalletView, LedgerView), Error> {
        match offer_accepted(
            now,
            origin,
            self.offer_of(offer_id),
            self.property_on_offer(offer_id),
            self.let_already(offer_id),
        ) {
            Ok(acceptance) => match ledger.settle(
                acceptance.settlement.reason,
                acceptance.settlement.from,
                acceptance.settlement.to,
                acceptance.settlement.amount,
            ) {
                Ok(next_ledger) => Ok(
                    (
                        PalletView {
                            offers: self.offers.insert(offer_id, acceptance.offer),
                            tenancies: self.tenancies.insert(
                                acceptance.tenancy.property_id,
                                acceptance.tenancy,
                            ),
                            ..self
                        },
                        next_ledger,
                    ),
                ),
                Err(_) => Err(Error::InsufficientFundsForOffer),
            },
            Err(e) => Err(e),
        }
    }
}

/// A command with its arguments.
pub enum Command {
    RegisterApplicant { applicant_id: AccountId },
    RegisterLandlord { landlord_id: AccountId },
    RegisterProperty { address: H256, postal_code: H256, landlord_id: AccountId },
    CreateListing { property_id: PropertyId, rental_price: u32, availability_date: BlockNumber },
    SubmitOffer {
        listing_id: ListingId,
        offer_price: u32,
        offer_start_date: BlockNumber,
        offer_end_date: BlockNumber,
        prospective_tenant_ids: Seq<AccountId>,
        valid_until: BlockNumber,
    },
    SignOffer { offer_id: OfferId },
    AcceptOffer { offer_id: OfferId },
}

/// The ledger beside a marketplace that a command has not touched.
pub open spec fn beside(next: Result<PalletView, Error>, ledger: LedgerView) -> Result<
    (PalletView, LedgerView),
    Error,
> {
    match next {
        Ok(state) => Ok((state, ledger)),
        Err(e) => Err(e),
    }
}

impl PalletView {
    /// One step of the marketplace and its ledger: what `command`, issued by
    /// `origin` at time `now`, makes of them, or why it is refused.
    pub open spec fn step(
        self,
        ledger: LedgerView,
        now: BlockNumber,
        origin: Origin,
        command: Command,
    ) -> Result<(PalletView, LedgerView), Error> {
        match command {
            Command::RegisterApplicant { applicant_id } => beside(
                self.register_applicant(origin, applicant_id),
                ledger,
            ),
            Command::RegisterLandlord { landlord_id } => beside(
                self.register_landlord(origin, landlord_id),
                ledger,
            ),
            Command::RegisterProperty { address, postal_code, landlord_id } => beside(
                self.register_property(origin, address, postal_code, landlord_id),
                ledger,
            ),
            Command::CreateListing { property_id, rental_price, availability_date } => beside(
                self.create_listing(origin, property_id, rental_price, availability_date),
                ledger,
            ),
            Command::SubmitOffer {
                listing_id,
                offer_price,
                offer_start_date,
                offer_end_date,
                prospective_tenant_ids,
                valid_until,
            } => self.submit_offer(
                ledger,
                now,
                origin,
                listing_id,
                offer_price,
                offer_start_date,
                offer_end_date,
                prospective_tenant_ids,
                valid_until,
            ),
            Command::SignOffer { offer_id } => beside(self.sign_offer(now, origin, offer_id), ledger),
            Command::AcceptOffer { offer_id } => self.accept_offer(ledger, now, origin, offer_id),
        }
    }

    /// What the ledger has to hold for `who` under the tag of offer
    /// `offer_id`: the offered price while the offer of `who` is pending,
    /// and nothing otherwise.
    pub open spec fn owed_hold(self, who: AccountId, offer_id: OfferId) -> u128 {
        if self.offers.contains_key(offer_id) && self.offers[offer_id].offer_status is Pending
            && self.offers[offer_id].lead_tenant == who {
            self.offers[offer_id].offer_price as u128
        } else {
            0
        }
    }

    /// Whether the ledger holds exactly what the offers call for: under each
    /// offer tag the price of a pending offer, for its lead tenant, and
    /// nothing else.
    pub open spec fn escrow_matches(self, ledger: LedgerView) -> bool {
        forall|who: AccountId, offer_id: OfferId| #[trigger]
            ledger.held[(who, FreezeReason::Offer(offer_id))] == self.owed_hold(who, offer_id)
    }
}

} // verus!
