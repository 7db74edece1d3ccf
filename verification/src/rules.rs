//! The rules of the marketplace, on the records at hand.
//!
//! Every command is decided here, from what its caller has looked up, and
//! the decision says what to store and what to ask of the ledger. Whoever
//! keeps the records, in memory or elsewhere, looks up, asks here, and
//! stores.

use crate::bounded::{
    signatures_as_vec, signatures_from_vec, tenant_ids_as_vec, tenant_ids_clone, tenant_seq,
    TenantIds, MAX_NUMBER_OF_TENANTS, MAX_OFFERS_PER_APPLICANT, MAX_OFFERS_PER_LISTING,
};
use crate::cosign::{
    all_entries_signed, every_entry_signed, initial_signature_list, initial_signatures,
    sign_entries, signatures_match, signed_by,
};
use crate::dispatch::{ensure_root, ensure_signed, next_id, Error, Origin};
use crate::ledger::FreezeReason;
use crate::types::{
    AccountId, Balance, BlockNumber, Listing, ListingId, Offer, OfferId, OfferStatus, OfferView,
    Property, PropertyId, Tenancy, TenancyView, H256,
};
use vstd::prelude::*;

verus! {

/// An amount to put on hold.
#[derive(Clone, Copy, Debug, PartialEq, Eq, Structural)]
pub struct Hold {
    pub reason: FreezeReason,
    pub who: AccountId,
    pub amount: Balance,
}

/// A hold to release and a payment to make in its place. The payment must
/// leave the payer's account alive.
#[derive(Clone, Copy, Debug, PartialEq, Eq, Structural)]
pub struct Settlement {
    pub reason: FreezeReason,
    pub from: AccountId,
    pub to: AccountId,
    pub amount: Balance,
}

/// What is wrong with the terms of an offer made at `now` on `listing`, if
/// anything: its validity has to reach into the future, its start must not
/// lie in the past, must come before its end and not before the listing is
/// available, and it has to name a tenant.
pub open spec fn terms_refusal(
    now: BlockNumber,
    listing: Listing,
    offer_start_date: BlockNumber,
    offer_end_date: BlockNumber,
    tenant_count: nat,
    valid_until: BlockNumber,
) -> Option<Error> {
    if valid_until <= now {
        Some(Error::OfferValidUntilMustBeFuture)
    } else if !(offer_start_date >= now && offer_start_date < offer_end_date && offer_start_date
        >= listing.availability_date) {
        Some(Error::InvalidOfferStartDate)
    } else if tenant_count == 0 {
        Some(Error::TenantsIdsCannotBeEmpty)
    } else {
        None
    }
}

/// Checks the terms of an offer made at `now` on `listing`.
pub fn check_offer_terms(
    now: BlockNumber,
    listing: &Listing,
    offer_start_date: BlockNumber,
    offer_end_date: BlockNumber,
    prospective_tenant_ids: &TenantIds,
    valid_until: BlockNumber,
) -> (r: Result<(), Error>)
    ensures
        r == (match terms_refusal(
            now,
            *listing,
            offer_start_date,
            offer_end_date,
            tenant_seq(*prospective_tenant_ids).len(),
            valid_until,
        ) {
            Some(e) => Err::<(), Error>(e),
            None => Ok::<(), Error>(()),
        }),
{
    if valid_until <= now {
        return Err(Error::OfferValidUntilMustBeFuture);
    }
    if !(offer_start_date >= now && offer_start_date < offer_end_date && offer_start_date
        >= listing.availability_date) {
        return Err(Error::InvalidOfferStartDate);
    }
    if tenant_ids_as_vec(prospective_tenant_ids).len() == 0 {
        return Err(Error::TenantsIdsCannotBeEmpty);
    }
    Ok(())
}

/// Lets the landlord of `property` pass and nobody else.
pub fn ensure_landlord(property: &Property, caller: AccountId) -> (r: Result<(), Error>)
    ensures
        r == (if property.landlord_id == caller {
            Ok::<(), Error>(())
        } else {
            Err::<(), Error>(Error::Unauthorized)
        }),
{
    if property.landlord_id == caller {
        Ok(())
    } else {
        Err(Error::Unauthorized)
    }
}

impl OfferView {
    /// What holds of every offer that the marketplace keeps.
    pub open spec fn wf(self) -> bool {
        &&& 1 <= self.prospective_tenant_ids.len() <= MAX_NUMBER_OF_TENANTS
        &&& signatures_match(self.prospective_tenant_signatures, self.prospective_tenant_ids)
        &&& self.all_signed ==> every_entry_signed(self.prospective_tenant_signatures)
        &&& self.offer_start_date < self.offer_end_date
        &&& (self.offer_status is Pending || self.offer_status is Accepted)
    }

    /// The offer as it is submitted: pending, with the lead tenant's entries
    /// signed, and fully signed only if it names a single tenant.
    pub open spec fn submitted(
        offer_id: OfferId,
        listing: Listing,
        offer_price: u32,
        offer_start_date: BlockNumber,
        offer_end_date: BlockNumber,
        applicant_id: AccountId,
        prospective_tenant_ids: Seq<AccountId>,
        valid_until: BlockNumber,
    ) -> OfferView {
        OfferView {
            offer_id,
            property_id: listing.property_id,
            offer_price,
            offer_start_date,
            offer_end_date,
            lead_tenant: applicant_id,
            prospective_tenant_ids,
            prospective_tenant_signatures: initial_signatures(prospective_tenant_ids, applicant_id),
            valid_until,
            all_signed: prospective_tenant_ids.len() == 1,
            offer_status: OfferStatus::Pending,
        }
    }

    /// The offer after `who` has signed it at `now`, or why it cannot be
    /// signed: its validity has passed, it is no longer pending, or its
    /// co-signature list is longer than such a list can be.
    pub open spec fn sign(self, now: BlockNumber, who: AccountId) -> Result<OfferView, Error> {
        if now > self.valid_until {
            Err(Error::OfferExpired)
        } else if self.offer_status != OfferStatus::Pending {
            Err(Error::OfferCannotBeAccepted)
        } else if self.prospective_tenant_signatures.len() > MAX_NUMBER_OF_TENANTS {
            Err(Error::TooManyTenants)
        } else {
            let signatures = signed_by(self.prospective_tenant_signatures, who);
            Ok(
                OfferView {
                    prospective_tenant_signatures: signatures,
                    all_signed: every_entry_signed(signatures),
                    ..self
                },
            )
        }
    }

    /// Why the offer cannot be accepted at `now`, if it cannot: its validity
    /// has passed, it is no longer pending, a signature is missing, or its
    /// start does not lie ahead any more.
    pub open spec fn acceptance_refusal(self, now: BlockNumber) -> Option<Error> {
        if now > self.valid_until {
            Some(Error::OfferExpired)
        } else if self.offer_status != OfferStatus::Pending {
            Some(Error::OfferCannotBeAccepted)
        } else if !self.all_signed {
            Some(Error::OfferNotFullySigned)
        } else if self.offer_start_date <= now {
            Some(Error::InvalidOfferStartDate)
        } else {
            None
        }
    }

    /// The offer once it is accepted.
    pub open spec fn accepted(self) -> OfferView {
        OfferView { offer_status: OfferStatus::Accepted, ..self }
    }

    /// The hold that backs the offer: its price, of its lead tenant, under
    /// its own tag.
    pub open spec fn hold(self) -> Hold {
        Hold {
            reason: FreezeReason::Offer(self.offer_id),
            who: self.lead_tenant,
            amount: self.offer_price as Balance,
        }
    }

    /// What accepting the offer asks of the ledger: to release its hold and
    /// to pay its price from the lead tenant to the landlord.
    pub open spec fn settlement(self, landlord_id: AccountId) -> Settlement {
        Settlement {
            reason: FreezeReason::Offer(self.offer_id),
            from: self.lead_tenant,
            to: landlord_id,
            amount: self.offer_price as Balance,
        }
    }
}

impl Offer {
    /// The offer that `applicant_id` submits on `listing` for the tenants
    /// named. Refused with `TooManyTenants` when there are more tenants than
    /// an offer can name.
    pub fn submitted(
        offer_id: OfferId,
        listing: &Listing,
        offer_price: u32,
        offer_start_date: BlockNumber,
        offer_end_date: BlockNumber,
        applicant_id: AccountId,
        prospective_tenant_ids: &TenantIds,
        valid_until: BlockNumber,
    ) -> (r: Result<Offer, Error>)
        ensures
            match r {
                Ok(offer) => tenant_seq(*prospective_tenant_ids).len() <= MAX_NUMBER_OF_TENANTS
                    && offer@ == OfferView::submitted(
                    offer_id,
                    *listing,
                    offer_price,
                    offer_start_date,
                    offer_end_date,
                    applicant_id,
                    tenant_seq(*prospective_tenant_ids),
                    valid_until,
                ),
                Err(e) => tenant_seq(*prospective_tenant_ids).len() > MAX_NUMBER_OF_TENANTS && e
                    == Error::TooManyTenants,
            },
    {
        let ids = tenant_ids_as_vec(prospective_tenant_ids);
        let all_signed = ids.len() == 1;
        match signatures_from_vec(initial_signature_list(ids, applicant_id)) {
            Ok(signatures) => Ok(
                Offer::new(
                    offer_id,
                    listing.property_id,
                    offer_price,
                    offer_start_date,
                    offer_end_date,
                    applicant_id,
                    tenant_ids_clone(prospective_tenant_ids),
                    signatures,
                    valid_until,
                    all_signed,
                ),
            ),
            Err(_) => Err(Error::TooManyTenants),
        }
    }

    /// The offer after `who` has signed it at `now`: every entry of `who` is
    /// signed, every other entry is as it was, and the offer is fully signed
    /// exactly when every entry is. Refused when the validity of the offer
    /// has passed (`OfferExpired`), the offer is no longer pending
    /// (`OfferCannotBeAccepted`), or its co-signature list is longer than
    /// such a list can be (`TooManyTenants`), in that order.
    pub fn sign(&self, now: BlockNumber, who: AccountId) -> (r: Result<Offer, Error>)
        ensures
            match self@.sign(now, who) {
                Ok(signed) => r is Ok && r->Ok_0@ == signed,
                Err(e) => r == Err::<Offer, Error>(e),
            },
    {
        if now > self.valid_until {
            return Err(Error::OfferExpired);
        }
        if self.offer_status != OfferStatus::Pending {
            return Err(Error::OfferCannotBeAccepted);
        }
        let pairs = sign_entries(signatures_as_vec(&self.prospective_tenant_signatures), who);
        let all_signed = all_entries_signed(&pairs);
        match signatures_from_vec(pairs) {
            Ok(signatures) => Ok(
                Offer {
                    offer_id: self.offer_id,
                    property_id: self.property_id,
                    offer_price: self.offer_price,
                    offer_start_date: self.offer_start_date,
                    offer_end_date: self.offer_end_date,
                    lead_tenant: self.lead_tenant,
                    prospective_tenant_ids: tenant_ids_clone(&self.prospective_tenant_ids),
                    prospective_tenant_signatures: signatures,
                    valid_until: self.valid_until,
                    all_signed,
                    offer_status: self.offer_status,
                },
            ),
            Err(_) => Err(Error::TooManyTenants),
        }
    }

    /// Checks that the offer can be accepted at `now`.
    pub fn check_acceptable(&self, now: BlockNumber) -> (r: Result<(), Error>)
        ensures
            r == (match self@.acceptance_refusal(now) {
                Some(e) => Err::<(), Error>(e),
                None => Ok::<(), Error>(()),
            }),
    {
        if now > self.valid_until {
            return Err(Error::OfferExpired);
        }
        if self.offer_status != OfferStatus::Pending {
            return Err(Error::OfferCannotBeAccepted);
        }
        if !self.all_signed {
            return Err(Error::OfferNotFullySigned);
        }
        if self.offer_start_date <= now {
            return Err(Error::InvalidOfferStartDate);
        }
        Ok(())
    }

    /// The offer once it is accepted, and the tenancy it becomes.
    pub fn accept(&self) -> (r: (Offer, Tenancy))
        ensures
            r.0@ == self@.accepted(),
            r.1@ == self@.tenancy(),
    {
        let mut accepted = self.clone();
        accepted.offer_status = OfferStatus::Accepted;
        (accepted, Tenancy::new(self.clone()))
    }

    /// The hold that backs the offer.
    pub fn hold(&self) -> (hold: Hold)
        ensures
            hold == self@.hold(),
    {
        Hold {
            reason: FreezeReason::Offer(self.offer_id),
            who: self.lead_tenant,
            amount: self.offer_price as Balance,
        }
    }

    /// What accepting the offer asks of the ledger.
    pub fn settlement(&self, landlord_id: AccountId) -> (settlement: Settlement)
        ensures
            settlement == self@.settlement(landlord_id),
    {
        Settlement {
            reason: FreezeReason::Offer(self.offer_id),
            from: self.lead_tenant,
            to: landlord_id,
            amount: self.offer_price as Balance,
        }
    }
}

/// What accepting an offer comes to.
#[derive(Debug, PartialEq, Eq)]
pub struct Acceptance {
    /// The offer, now accepted.
    pub offer: Offer,
    /// The tenancy to record for the offer's property.
    pub tenancy: Tenancy,
    /// What to ask of the ledger.
    pub settlement: Settlement,
}

/// What accepting an offer comes to, as mathematics.
pub struct AcceptanceView {
    pub offer: OfferView,
    pub tenancy: TenancyView,
    pub settlement: Settlement,
}

impl View for Acceptance {
    type V = AcceptanceView;

    open spec fn view(&self) -> AcceptanceView {
        AcceptanceView { offer: self.offer@, tenancy: self.tenancy@, settlement: self.settlement }
    }
}

/// The property that the authority registers after `counter` properties:
/// it gets the next id. Refused when the caller is not the authority
/// (`Unauthorized`) or the ids are used up (`TooManyProperties`).
pub open spec fn property_registered(
    origin: Origin,
    counter: PropertyId,
    address: H256,
    postal_code: H256,
    landlord_id: AccountId,
) -> Result<Property, Error> {
    if !(origin is Root) {
        Err(Error::Unauthorized)
    } else if counter == PropertyId::MAX {
        Err(Error::TooManyProperties)
    } else {
        Ok(Property { property_id: (counter + 1) as PropertyId, landlord_id, address, postal_code })
    }
}

/// Decides the registration of a property.
pub fn register_property(
    origin: Origin,
    counter: PropertyId,
    address: H256,
    postal_code: H256,
    landlord_id: AccountId,
) -> (r: Result<Property, Error>)
    ensures
        r == property_registered(origin, counter, address, postal_code, landlord_id),
{
    if let Err(e) = ensure_root(origin) {
        return Err(e);
    }
    match next_id(counter, Error::TooManyProperties) {
        Ok(property_id) => Ok(Property::new(property_id, landlord_id, address, postal_code)),
        Err(e) => Err(e),
    }
}

/// The listing that a caller creates for `property` after `counter`
/// listings: it gets the next id. Refused when the caller holds no account
/// (`Unauthorized`), there is no such property (`PropertyDoesNotExist`), the
/// caller is not its landlord (`Unauthorized`) or the ids are used up
/// (`TooManyListings`), in that order.
pub open spec fn listing_created(
    origin: Origin,
    property: Option<Property>,
    counter: ListingId,
    rental_price: u32,
    availability_date: BlockNumber,
) -> Result<Listing, Error> {
    match origin {
        Origin::Signed(landlord_id) => match property {
            Some(property) => {
                if property.landlord_id != landlord_id {
                    Err(Error::Unauthorized)
                } else if counter == ListingId::MAX {
                    Err(Error::TooManyListings)
                } else {
                    Ok(
                        Listing {
                            listing_id: (counter + 1) as ListingId,
                            property_id: property.property_id,
                            rental_price,
                            availability_date,
                            lister: landlord_id,
                        },
                    )
                }
            },
            None => Err(Error::PropertyDoesNotExist),
        },
        _ => Err(Error::Unauthorized),
    }
}

/// Decides the creation of a listing.
pub fn create_listing(
    origin: Origin,
    property: Option<Property>,
    counter: ListingId,
    rental_price: u32,
    availability_date: BlockNumber,
) -> (r: Result<Listing, Error>)
    ensures
        r == listing_created(origin, property, counter, rental_price, availability_date),
{
    let landlord_id = match ensure_signed(origin) {
        Ok(who) => who,
        Err(e) => {
            return Err(e);
        },
    };
    let property = match property {
        Some(property) => property,
        None => {
            return Err(Error::PropertyDoesNotExist);
        },
    };
    if let Err(e) = ensure_landlord(&property, landlord_id) {
        return Err(e);
    }
    match next_id(counter, Error::TooManyListings) {
        Ok(listing_id) => Ok(
            property.create_listing(listing_id, rental_price, availability_date, landlord_id),
        ),
        Err(e) => Err(e),
    }
}

/// The offer that a caller submits at `now`, after `offer_counter` offers.
///
/// The caller has looked up: whether the caller is a verified applicant, the
/// listing, the caller's free balance, whether every tenant named is a
/// verified applicant, and how many offers the listing and the caller have
/// already. The offer is refused for the first of these reasons that holds:
/// the caller is no verified applicant (`Unauthorized`); there is no such
/// listing (`ListingDoesNotExist`); the free balance does not cover the
/// price (`InsufficientFundsForOffer`); the terms are wrong
/// ([`terms_refusal`]); a tenant is not verified
/// (`AllApplicantsMustBeVerified`); the ids are used up (`TooManyOffers`);
/// there are more tenants than an offer can name (`TooManyTenants`); the
/// listing has all the offers it can take (`TooManyOffersOnListing`); so has
/// the caller (`MaxOffersForApplicantReached`).
pub open spec fn offer_submitted(
    now: BlockNumber,
    origin: Origin,
    applicant_verified: bool,
    listing: Option<Listing>,
    free_balance: Balance,
    offer_price: u32,
    offer_start_date: BlockNumber,
    offer_end_date: BlockNumber,
    prospective_tenant_ids: Seq<AccountId>,
    tenants_verified: bool,
    valid_until: BlockNumber,
    offer_counter: OfferId,
    offers_on_listing: nat,
    offers_of_applicant: nat,
) -> Result<OfferView, Error> {
    match origin {
        Origin::Signed(applicant_id) => {
            if !applicant_verified {
                Err(Error::Unauthorized)
            } else if listing is None {
                Err(Error::ListingDoesNotExist)
            } else if free_balance < offer_price {
                Err(Error::InsufficientFundsForOffer)
            } else if terms_refusal(
                now,
                listing->Some_0,
                offer_start_date,
                offer_end_date,
                prospective_tenant_ids.len(),
                valid_until,
            ) is Some {
                Err(
                    terms_refusal(
                        now,
                        listing->Some_0,
                        offer_start_date,
                        offer_end_date,
                        prospective_tenant_ids.len(),
                        valid_until,
                    )->Some_0,
                )
            } else if !tenants_verified {
                Err(Error::AllApplicantsMustBeVerified)
            } else if offer_counter == OfferId::MAX {
                Err(Error::TooManyOffers)
            } else if prospective_tenant_ids.len() > MAX_NUMBER_OF_TENANTS {
                Err(Error::TooManyTenants)
            } else if offers_on_listing >= MAX_OFFERS_PER_LISTING {
                Err(Error::TooManyOffersOnListing)
            } else if offers_of_applicant >= MAX_OFFERS_PER_APPLICANT {
                Err(Error::MaxOffersForApplicantReached)
            } else {
                Ok(
                    OfferView::submitted(
                        (offer_counter + 1) as OfferId,
                        listing->Some_0,
                        offer_price,
                        offer_start_date,
                        offer_end_date,
                        applicant_id,
                        prospective_tenant_ids,
                        valid_until,
                    ),
                )
            }
        },
        _ => Err(Error::Unauthorized),
    }
}

/// Decides the submission of an offer. The offer that comes back is to be
/// stored under its id and appended to the lists of the listing and of the
/// caller, and its [`Offer::hold`] is to be placed.
pub fn submit_offer(
    now: BlockNumber,
    origin: Origin,
    applicant_verified: bool,
    listing: Option<Listing>,
    free_balance: Balance,
    offer_price: u32,
    offer_start_date: BlockNumber,
    offer_end_date: BlockNumber,
    prospective_tenant_ids: &TenantIds,
    tenants_verified: bool,
    valid_until: BlockNumber,
    offer_counter: OfferId,
    offers_on_listing: usize,
    offers_of_applicant: usize,
) -> (r: Result<Offer, Error>)
    ensures
        match offer_submitted(
            now,
            origin,
            applicant_verified,
            listing,
            free_balance,
            offer_price,
            offer_start_date,
            offer_end_date,
            tenant_seq(*prospective_tenant_ids),
            tenants_verified,
            valid_until,
            offer_counter,
            offers_on_listing as nat,
            offers_of_applicant as nat,
        ) {
            Ok(offer) => r is Ok && r->Ok_0@ == offer,
            Err(e) => r == Err::<Offer, Error>(e),
        },
{
    let applicant_id = match ensure_signed(origin) {
        Ok(who) => who,
        Err(e) => {
            return Err(e);
        },
    };
    if !applicant_verified {
        return Err(Error::Unauthorized);
    }
    let listing = match listing {
        Some(listing) => listing,
        None => {
            return Err(Error::ListingDoesNotExist);
        },
    };
    if free_balance < offer_price as Balance {
        return Err(Error::InsufficientFundsForOffer);
    }
    if let Err(e) = check_offer_terms(
        now,
        &listing,
        offer_start_date,
        offer_end_date,
        prospective_tenant_ids,
        valid_until,
    ) {
        return Err(e);
    }
    if !tenants_verified {
        return Err(Error::AllApplicantsMustBeVerified);
    }
    let offer_id = match next_id(offer_counter, Error::TooManyOffers) {
        Ok(id) => id,
        Err(e) => {
            return Err(e);
        },
    };
    let offer = match Offer::submitted(
        offer_id,
        &listing,
        offer_price,
        offer_start_date,
        offer_end_date,
        applicant_id,
        prospective_tenant_ids,
        valid_until,
    ) {
        Ok(offer) => offer,
        Err(e) => {
            return Err(e);
        },
    };
    if offers_on_listing >= MAX_OFFERS_PER_LISTING as usize {
        return Err(Error::TooManyOffersOnListing);
    }
    if offers_of_applicant >= MAX_OFFERS_PER_APPLICANT as usize {
        return Err(Error::MaxOffersForApplicantReached);
    }
    Ok(offer)
}

/// The offer after a caller has signed it at `now`. Refused when the caller
/// is no verified applicant (`Unauthorized`), there is no such offer
/// (`OfferDoesNotExist`), or the offer cannot be signed
/// ([`OfferView::sign`]), in that order.
pub open spec fn offer_signed(
    now: BlockNumber,
    origin: Origin,
    signer_verified: bool,
    offer: Option<OfferView>,
) -> Result<OfferView, Error> {
    match origin {
        Origin::Signed(applicant_id) => {
            if !signer_verified {
                Err(Error::Unauthorized)
            } else {
                match offer {
                    Some(offer) => offer.sign(now, applicant_id),
                    None => Err(Error::OfferDoesNotExist),
                }
            }
        },
        _ => Err(Error::Unauthorized),
    }
}

/// Decides the signing of an offer. The offer that comes back is to be
/// stored in place of the one that was looked up.
pub fn sign_offer(now: BlockNumber, origin: Origin, signer_verified: bool, offer: Option<&Offer>) -> (r:
    Result<Offer, Error>)
    ensures
        match offer_signed(
            now,
            origin,
            signer_verified,
            match offer {
                Some(offer) => Some(offer@),
                None => None,
            },
        ) {
            Ok(signed) => r is Ok && r->Ok_0@ == signed,
            Err(e) => r == Err::<Offer, Error>(e),
        },
{
    let applicant_id = match ensure_signed(origin) {
        Ok(who) => who,
        Err(e) => {
            return Err(e);
        },
    };
    if !signer_verified {
        return Err(Error::Unauthorized);
    }
    match offer {
        Some(offer) => offer.sign(now, applicant_id),
        None => Err(Error::OfferDoesNotExist),
    }
}

/// What accepting an offer at `now` comes to.
///
/// The caller has looked up the offer, the property that the offer is for,
/// and whether that property has a tenancy. The acceptance is refused for
/// the first of these reasons that holds: the caller holds no account
/// (`Unauthorized`); there is no such offer (`OfferDoesNotExist`); the offer
/// cannot be accepted ([`OfferView::acceptance_refusal`]); its property is
/// not registered (`PropertyDoesNotExist`); the caller is not the landlord
/// of the property (`Unauthorized`); the property is let already
/// (`TenancyAlreadyExists`).
pub open spec fn offer_accepted(
    now: BlockNumber,
    origin: Origin,
    offer: Option<OfferView>,
    property: Option<Property>,
    tenancy_exists: bool,
) -> Result<AcceptanceView, Error> {
    match origin {
        Origin::Signed(landlord_id) => match offer {
            Some(offer) => {
                if offer.acceptance_refusal(now) is Some {
                    Err(offer.acceptance_refusal(now)->Some_0)
                } else if property is None {
                    Err(Error::PropertyDoesNotExist)
                } else if property->Some_0.landlord_id != landlord_id {
                    Err(Error::Unauthorized)
                } else if tenancy_exists {
                    Err(Error::TenancyAlreadyExists)
                } else {
                    Ok(
                        AcceptanceView {
                            offer: offer.accepted(),
                            tenancy: offer.tenancy(),
                            settlement: offer.settlement(landlord_id),
                        },
                    )
                }
            },
            None => Err(Error::OfferDoesNotExist),
        },
        _ => Err(Error::Unauthorized),
    }
}

/// Decides the acceptance of an offer. Of what comes back, the offer is to
/// be stored in place of the one that was looked up and the tenancy under
/// the offer's property, once the ledger has settled the settlement.
pub fn accept_offer(
    now: BlockNumber,
    origin: Origin,
    offer: Option<&Offer>,
    property: Option<Property>,
    tenancy_exists: bool,
) -> (r: Result<Acceptance, Error>)
    ensures
        match offer_accepted(
            now,
            origin,
            match offer {
                Some(offer) => Some(offer@),
                None => None,
            },
            property,
            tenancy_exists,
        ) {
            Ok(acceptance) => r is Ok && r->Ok_0@ == acceptance,
            Err(e) => r == Err::<Acceptance, Error>(e),
        },
{
    let landlord_id = match ensure_signed(origin) {
        Ok(who) => who,
        Err(e) => {
            return Err(e);
        },
    };
    let offer = match offer {
        Some(offer) => offer,
        None => {
            return Err(Error::OfferDoesNotExist);
        },
    };
    if let Err(e) = offer.check_acceptable(now) {
        return Err(e);
    }
    let property = match property {
        Some(property) => property,
        None => {
            return Err(Error::PropertyDoesNotExist);
        },
    };
    if let Err(e) = ensure_landlord(&property, landlord_id) {
        return Err(e);
    }
    if tenancy_exists {
        return Err(Error::TenancyAlreadyExists);
    }
    let settlement = offer.settlement(landlord_id);
    let (accepted, tenancy) = offer.accept();
    Ok(Acceptance { offer: accepted, tenancy, settlement })
}

} // verus!
