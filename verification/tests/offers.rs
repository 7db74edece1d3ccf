use frame_support::BoundedVec;
use real_estate::{
    Error, Event, FreezeReason, Ledger, LedgerError, OfferStatus, Origin, Pallet, Preservation,
    Property, TenantIds, MAX_NUMBER_OF_TENANTS, MAX_OFFERS_PER_APPLICANT, MAX_OFFERS_PER_LISTING,
};

const ADDRESS: [u8; 32] = [1u8; 32];
const POSTAL_CODE: [u8; 32] = [1u8; 32];

fn tenants(ids: &[u64]) -> TenantIds {
    let mut list = BoundedVec::new();
    for id in ids {
        list.try_push(*id).unwrap();
    }
    list
}

/// Applicants 1, 101 and 102 are verified, applicant 1 and 101 own 1000 each,
/// landlord 2 has registered property 1 and listed it for 1000 from time 50.
fn market_with_listing() -> (Pallet, Ledger) {
    let mut market = Pallet::new();
    let mut ledger = Ledger::new(1);
    market.register_applicant(Origin::Root, 1).unwrap();
    market.register_applicant(Origin::Root, 101).unwrap();
    market.register_applicant(Origin::Root, 102).unwrap();
    ledger.mint_into(1, 1000).unwrap();
    ledger.mint_into(101, 1000).unwrap();
    market.register_property(Origin::Root, ADDRESS, POSTAL_CODE, 2).unwrap();
    market.create_listing(Origin::Signed(2), 1, 1000, 50).unwrap();
    (market, ledger)
}

#[test]
fn balance_is_frozen_on_submit_offer() {
    let mut market = Pallet::new();
    let mut ledger = Ledger::new(1);
    assert!(market.register_applicant(Origin::Root, 1).is_ok());
    let _ = ledger.mint_into(1, 1000);
    assert_eq!(ledger.balance(1), 1000);
    assert!(market.register_property(Origin::Root, [1u8; 32], [1u8; 32], 2).is_ok());
    assert!(market.create_listing(Origin::Signed(2), 1, 1000, 50).is_ok());
    let mut tenants = BoundedVec::new();
    tenants.try_push(1).unwrap();
    assert!(market
        .submit_offer(&mut ledger, 1, Origin::Signed(1), 1, 900, 51, 101, tenants, 100)
        .is_ok());

    assert_eq!(ledger.transfer(1, 2, 101, Preservation::Expendable), Err(LedgerError::Frozen));
}

#[test]
fn funds_are_transferred_on_offer_accepted() {
    let mut market = Pallet::new();
    let mut ledger = Ledger::new(1);
    assert!(market.register_applicant(Origin::Root, 101).is_ok());
    assert!(market.register_applicant(Origin::Root, 102).is_ok());
    let _ = ledger.mint_into(101, 1000);
    assert_eq!(ledger.balance(101), 1000);
    assert!(market.register_property(Origin::Root, [1u8; 32], [1u8; 32], 2).is_ok());
    assert!(market.create_listing(Origin::Signed(2), 1, 1000, 50).is_ok());
    let mut tenants = BoundedVec::new();
    tenants.try_push(101).unwrap();
    tenants.try_push(102).unwrap();
    assert!(market
        .submit_offer(&mut ledger, 1, Origin::Signed(101), 1, 900, 51, 101, tenants, 100)
        .is_ok());
    assert!(market.sign_offer(1, Origin::Signed(102), 1).is_ok());

    assert_eq!(ledger.balance(2), 0);
    let p = Property {
        property_id: 1,
        landlord_id: 2,
        address: [1u8; 32],
        postal_code: [1u8; 32],
    };
    assert_eq!(market.get_property(1).unwrap(), p);
    assert_eq!(ledger.balance(2), 0);
    assert!(market.accept_offer(&mut ledger, 1, Origin::Signed(2), 1).is_ok());
    assert_eq!(ledger.balance(2), 900);
}

#[test]
fn solo_offer_is_held_signed_and_settled() {
    let (mut market, mut ledger) = market_with_listing();
    assert_eq!(
        market.submit_offer(&mut ledger, 1, Origin::Signed(1), 1, 900, 51, 101, tenants(&[1]), 100),
        Ok(Event::NewOfferSubmitted {
            listing_id: 1,
            offer_price: 900,
            offer_start_date: 51,
            offer_end_date: 101,
            prospective_tenant_ids: tenants(&[1]),
        })
    );
    let offer = market.get_offer(1).unwrap();
    assert_eq!(offer.offer_id, 1);
    assert_eq!(offer.property_id, 1);
    assert_eq!(offer.offer_price, 900);
    assert_eq!(offer.offer_start_date, 51);
    assert_eq!(offer.offer_end_date, 101);
    assert_eq!(offer.lead_tenant, 1);
    assert_eq!(offer.prospective_tenant_ids.to_vec(), vec![1]);
    assert_eq!(offer.prospective_tenant_signatures.to_vec(), vec![(1, true)]);
    assert_eq!(offer.valid_until, 100);
    assert!(offer.all_signed);
    assert_eq!(offer.offer_status, OfferStatus::Pending);
    assert_eq!(ledger.balance_on_hold(FreezeReason::Offer(1), 1), 900);
    assert_eq!(ledger.balance(1), 100);
    assert_eq!(market.offers_on_listing(1), vec![1]);
    assert_eq!(market.offers_of_applicant(1), vec![1]);
    assert!(market.get_tenancy(1).is_none());

    assert_eq!(
        market.accept_offer(&mut ledger, 1, Origin::Signed(2), 1),
        Ok(Event::OfferAccepted { offer_id: 1 })
    );
    assert_eq!(ledger.balance_on_hold(FreezeReason::Offer(1), 1), 0);
    assert_eq!(ledger.balance(1), 100);
    assert_eq!(ledger.balance(2), 900);
    assert_eq!(market.get_offer(1).unwrap().offer_status, OfferStatus::Accepted);
    let tenancy = market.get_tenancy(1).unwrap();
    assert_eq!(tenancy.property_id, 1);
    assert_eq!(tenancy.rental_price, 900);
    assert_eq!(tenancy.start_date, 51);
    assert_eq!(tenancy.end_date, 101);
    assert_eq!(tenancy.tenant_ids.to_vec(), vec![1]);
}

#[test]
fn shared_offer_needs_every_signature() {
    let (mut market, mut ledger) = market_with_listing();
    assert!(market
        .submit_offer(&mut ledger, 1, Origin::Signed(101), 1, 900, 51, 101, tenants(&[101, 102]), 100)
        .is_ok());
    let offer = market.get_offer(1).unwrap();
    assert!(!offer.all_signed);
    assert_eq!(offer.prospective_tenant_signatures.to_vec(), vec![(101, true), (102, false)]);
    assert_eq!(offer.prospective_tenant_ids.to_vec(), vec![101, 102]);

    assert_eq!(
        market.sign_offer(1, Origin::Signed(102), 1),
        Ok(Event::ApplicantSignedOffer { applicant_id: 102 })
    );
    let offer = market.get_offer(1).unwrap();
    assert!(offer.all_signed);
    assert_eq!(offer.prospective_tenant_signatures.to_vec(), vec![(101, true), (102, true)]);
    assert_eq!(offer.offer_status, OfferStatus::Pending);

    assert_eq!(
        market.accept_offer(&mut ledger, 1, Origin::Signed(2), 1),
        Ok(Event::OfferAccepted { offer_id: 1 })
    );
    assert_eq!(ledger.balance(2), 900);
    assert_eq!(ledger.balance(101), 100);
    assert_eq!(ledger.balance_on_hold(FreezeReason::Offer(1), 101), 0);
    let tenancy = market.get_tenancy(1).unwrap();
    assert_eq!(tenancy.rental_price, 900);
    assert_eq!(tenancy.start_date, 51);
    assert_eq!(tenancy.end_date, 101);
    assert_eq!(tenancy.tenant_ids.to_vec(), vec![101, 102]);
}

#[test]
fn unsigned_offer_cannot_be_accepted() {
    let (mut market, mut ledger) = market_with_listing();
    assert!(market
        .submit_offer(&mut ledger, 1, Origin::Signed(101), 1, 900, 51, 101, tenants(&[101, 102]), 100)
        .is_ok());
    assert_eq!(
        market.accept_offer(&mut ledger, 1, Origin::Signed(2), 1),
        Err(Error::OfferNotFullySigned)
    );
    // Nothing has moved.
    assert_eq!(market.get_offer(1).unwrap().offer_status, OfferStatus::Pending);
    assert!(!market.get_offer(1).unwrap().all_signed);
    assert!(market.get_tenancy(1).is_none());
    assert_eq!(ledger.balance(101), 100);
    assert_eq!(ledger.balance_on_hold(FreezeReason::Offer(1), 101), 900);
    assert_eq!(ledger.balance(2), 0);
}

#[test]
fn accepted_offer_cannot_be_accepted_again() {
    let (mut market, mut ledger) = market_with_listing();
    assert!(market
        .submit_offer(&mut ledger, 1, Origin::Signed(1), 1, 900, 51, 101, tenants(&[1]), 100)
        .is_ok());
    assert!(market.accept_offer(&mut ledger, 1, Origin::Signed(2), 1).is_ok());
    assert_eq!(
        market.accept_offer(&mut ledger, 1, Origin::Signed(2), 1),
        Err(Error::OfferCannotBeAccepted)
    );
    assert_eq!(
        market.accept_offer(&mut ledger, 50, Origin::Signed(2), 1),
        Err(Error::OfferCannotBeAccepted)
    );
    assert_eq!(ledger.balance(2), 900);
    assert_eq!(ledger.balance(1), 100);
    assert_eq!(ledger.balance_on_hold(FreezeReason::Offer(1), 1), 0);
    assert_eq!(market.get_offer(1).unwrap().offer_status, OfferStatus::Accepted);
    assert_eq!(market.get_tenancy(1).unwrap().rental_price, 900);
    // Nor can it be signed any more.
    assert_eq!(market.sign_offer(1, Origin::Signed(1), 1), Err(Error::OfferCannotBeAccepted));
}

#[test]
fn expired_offer_is_dead() {
    let (mut market, mut ledger) = market_with_listing();
    assert!(market
        .submit_offer(&mut ledger, 1, Origin::Signed(101), 1, 900, 150, 200, tenants(&[101, 102]), 100)
        .is_ok());
    assert_eq!(market.sign_offer(101, Origin::Signed(102), 1), Err(Error::OfferExpired));
    assert_eq!(
        market.accept_offer(&mut ledger, 101, Origin::Signed(2), 1),
        Err(Error::OfferExpired)
    );
    assert_eq!(
        market.get_offer(1).unwrap().prospective_tenant_signatures.to_vec(),
        vec![(101, true), (102, false)]
    );
    // At the last moment of its validity the offer can still be signed and accepted.
    assert!(market.sign_offer(100, Origin::Signed(102), 1).is_ok());
    assert!(market.accept_offer(&mut ledger, 100, Origin::Signed(2), 1).is_ok());
    // Once its validity has passed, even an accepted offer answers "expired".
    assert_eq!(
        market.accept_offer(&mut ledger, 101, Origin::Signed(2), 1),
        Err(Error::OfferExpired)
    );
}

#[test]
fn full_listing_takes_no_further_offer() {
    let (mut market, mut ledger) = market_with_listing();
    for n in 0..MAX_OFFERS_PER_LISTING {
        assert_eq!(market.offer_count(), n as u128);
        assert!(market
            .submit_offer(&mut ledger, 1, Origin::Signed(1), 1, 10, 51, 101, tenants(&[1]), 100)
            .is_ok());
    }
    assert_eq!(market.offer_count(), 16);
    assert_eq!(ledger.balance(1), 1000 - 16 * 10);
    assert_eq!(
        market.submit_offer(&mut ledger, 1, Origin::Signed(1), 1, 10, 51, 101, tenants(&[1]), 100),
        Err(Error::TooManyOffersOnListing)
    );
    // Another applicant fares no better.
    assert_eq!(
        market.submit_offer(&mut ledger, 1, Origin::Signed(101), 1, 10, 51, 101, tenants(&[101]), 100),
        Err(Error::TooManyOffersOnListing)
    );
    // The refused offers have left no trace.
    assert_eq!(market.offer_count(), 16);
    assert!(market.get_offer(17).is_none());
    assert_eq!(market.offers_on_listing(1), (1..=16).collect::<Vec<u128>>());
    assert_eq!(market.offers_of_applicant(1), (1..=16).collect::<Vec<u128>>());
    assert_eq!(market.offers_of_applicant(101), Vec::<u128>::new());
    assert_eq!(ledger.balance(1), 840);
    assert_eq!(ledger.balance(101), 1000);
    assert_eq!(ledger.balance_on_hold(FreezeReason::Offer(17), 1), 0);
    assert_eq!(ledger.balance_on_hold(FreezeReason::Offer(17), 101), 0);
    assert_eq!(ledger.balance_on_hold(FreezeReason::Offer(16), 1), 10);
}

#[test]
fn applicant_with_a_full_list_makes_no_further_offer() {
    let (mut market, mut ledger) = market_with_listing();
    market.create_listing(Origin::Signed(2), 1, 1000, 50).unwrap();
    market.create_listing(Origin::Signed(2), 1, 1000, 50).unwrap();
    for n in 0..MAX_OFFERS_PER_APPLICANT {
        let listing_id = if n < MAX_OFFERS_PER_LISTING { 1 } else { 2 };
        assert!(market
            .submit_offer(&mut ledger, 1, Origin::Signed(1), listing_id, 10, 51, 101, tenants(&[1]), 100)
            .is_ok());
    }
    assert_eq!(market.offer_count(), 32);
    assert_eq!(
        market.submit_offer(&mut ledger, 1, Origin::Signed(1), 3, 10, 51, 101, tenants(&[1]), 100),
        Err(Error::MaxOffersForApplicantReached)
    );
    assert_eq!(market.offer_count(), 32);
    assert!(market.get_offer(33).is_none());
    assert_eq!(market.offers_on_listing(3), Vec::<u128>::new());
    assert_eq!(market.offers_on_listing(2), (17..=32).collect::<Vec<u128>>());
    assert_eq!(market.offers_of_applicant(1).len(), 32);
    assert_eq!(ledger.balance(1), 1000 - 32 * 10);
    // Somebody else can still offer on the third listing.
    assert!(market
        .submit_offer(&mut ledger, 1, Origin::Signed(101), 3, 10, 51, 101, tenants(&[101]), 100)
        .is_ok());
    assert_eq!(market.offers_on_listing(3), vec![33]);
}

#[test]
fn offer_ids_count_up_and_skip_refusals() {
    let (mut market, mut ledger) = market_with_listing();
    assert_eq!(market.offer_count(), 0);
    assert!(market
        .submit_offer(&mut ledger, 1, Origin::Signed(1), 1, 100, 51, 101, tenants(&[1]), 100)
        .is_ok());
    assert_eq!(market.offer_count(), 1);
    assert_eq!(
        market.submit_offer(&mut ledger, 1, Origin::Signed(1), 9, 100, 51, 101, tenants(&[1]), 100),
        Err(Error::ListingDoesNotExist)
    );
    assert_eq!(market.offer_count(), 1);
    assert!(market
        .submit_offer(&mut ledger, 1, Origin::Signed(101), 1, 100, 51, 101, tenants(&[101]), 100)
        .is_ok());
    assert_eq!(market.offer_count(), 2);
    assert_eq!(market.get_offer(1).unwrap().lead_tenant, 1);
    assert_eq!(market.get_offer(2).unwrap().lead_tenant, 101);
    assert_eq!(market.get_offer(2).unwrap().offer_id, 2);
    assert_eq!(market.offers_on_listing(1), vec![1, 2]);
    assert_eq!(market.offers_of_applicant(1), vec![1]);
    assert_eq!(market.offers_of_applicant(101), vec![2]);
    assert_eq!(market.property_count(), 1);
    assert_eq!(market.listing_count(), 1);
}

#[test]
fn offers_on_one_listing_are_independent() {
    let (mut market, mut ledger) = market_with_listing();
    assert!(market
        .submit_offer(&mut ledger, 1, Origin::Signed(1), 1, 900, 51, 101, tenants(&[1]), 100)
        .is_ok());
    assert!(market
        .submit_offer(&mut ledger, 1, Origin::Signed(101), 1, 800, 52, 102, tenants(&[101]), 100)
        .is_ok());
    assert!(market.accept_offer(&mut ledger, 1, Origin::Signed(2), 1).is_ok());
    let other = market.get_offer(2).unwrap();
    assert_eq!(other.offer_status, OfferStatus::Pending);
    assert!(other.all_signed);
    assert_eq!(other.offer_price, 800);
    assert_eq!(ledger.balance_on_hold(FreezeReason::Offer(2), 101), 800);
    assert_eq!(ledger.balance(101), 200);
    assert_eq!(ledger.balance(2), 900);
    // The property is let now: the other offer stays pending, with its funds on hold.
    assert_eq!(
        market.accept_offer(&mut ledger, 1, Origin::Signed(2), 2),
        Err(Error::TenancyAlreadyExists)
    );
    assert_eq!(market.get_offer(2).unwrap().offer_status, OfferStatus::Pending);
    assert_eq!(ledger.balance_on_hold(FreezeReason::Offer(2), 101), 800);
    assert_eq!(market.get_tenancy(1).unwrap().rental_price, 900);
}

#[test]
fn signature_of_an_unlisted_applicant_changes_nothing() {
    let (mut market, mut ledger) = market_with_listing();
    assert!(market
        .submit_offer(&mut ledger, 1, Origin::Signed(101), 1, 900, 51, 101, tenants(&[101, 102]), 100)
        .is_ok());
    assert_eq!(
        market.sign_offer(1, Origin::Signed(1), 1),
        Ok(Event::ApplicantSignedOffer { applicant_id: 1 })
    );
    let offer = market.get_offer(1).unwrap();
    assert!(!offer.all_signed);
    assert_eq!(offer.prospective_tenant_signatures.to_vec(), vec![(101, true), (102, false)]);
    assert_eq!(offer.prospective_tenant_ids.to_vec(), vec![101, 102]);
    // Signing twice changes nothing either.
    assert!(market.sign_offer(1, Origin::Signed(101), 1).is_ok());
    assert_eq!(
        market.get_offer(1).unwrap().prospective_tenant_signatures.to_vec(),
        vec![(101, true), (102, false)]
    );
}

#[test]
fn offer_naming_only_the_lead_tenant_twice_waits_for_one_signature() {
    let (mut market, mut ledger) = market_with_listing();
    assert!(market
        .submit_offer(&mut ledger, 1, Origin::Signed(101), 1, 900, 51, 101, tenants(&[101, 101]), 100)
        .is_ok());
    let offer = market.get_offer(1).unwrap();
    assert!(!offer.all_signed);
    assert_eq!(offer.prospective_tenant_signatures.to_vec(), vec![(101, true), (101, true)]);
    assert_eq!(
        market.accept_offer(&mut ledger, 1, Origin::Signed(2), 1),
        Err(Error::OfferNotFullySigned)
    );
    // Any signature, even of an applicant who is not named, recounts the entries.
    assert!(market.sign_offer(1, Origin::Signed(1), 1).is_ok());
    assert!(market.get_offer(1).unwrap().all_signed);
}

#[test]
fn lead_tenant_need_not_be_a_tenant() {
    let (mut market, mut ledger) = market_with_listing();
    assert!(market
        .submit_offer(&mut ledger, 1, Origin::Signed(1), 1, 900, 51, 101, tenants(&[101, 102]), 100)
        .is_ok());
    let offer = market.get_offer(1).unwrap();
    assert_eq!(offer.lead_tenant, 1);
    assert_eq!(offer.prospective_tenant_signatures.to_vec(), vec![(101, false), (102, false)]);
    assert!(market.sign_offer(1, Origin::Signed(101), 1).is_ok());
    assert!(!market.get_offer(1).unwrap().all_signed);
    assert!(market.sign_offer(2, Origin::Signed(102), 1).is_ok());
    assert!(market.get_offer(1).unwrap().all_signed);
    // A tenant named alone is signed at once, whoever submits the offer.
    assert!(market
        .submit_offer(&mut ledger, 1, Origin::Signed(1), 1, 50, 51, 101, tenants(&[102]), 100)
        .is_ok());
    let solo = market.get_offer(2).unwrap();
    assert!(solo.all_signed);
    assert_eq!(solo.prospective_tenant_signatures.to_vec(), vec![(102, true)]);
}

#[test]
fn submit_offer_refusals_come_in_order() {
    let (mut market, mut ledger) = market_with_listing();
    market.register_applicant(Origin::Root, 5).unwrap();
    // Not a verified applicant, and everything else wrong as well.
    assert_eq!(
        market.submit_offer(&mut ledger, 60, Origin::Signed(9), 9, 5000, 40, 30, tenants(&[]), 10),
        Err(Error::Unauthorized)
    );
    assert_eq!(
        market.submit_offer(&mut ledger, 60, Origin::Root, 9, 5000, 40, 30, tenants(&[]), 10),
        Err(Error::Unauthorized)
    );
    assert_eq!(
        market.submit_offer(&mut ledger, 60, Origin::Unsigned, 1, 900, 61, 101, tenants(&[1]), 100),
        Err(Error::Unauthorized)
    );
    assert_eq!(
        market.submit_offer(&mut ledger, 60, Origin::Signed(1), 9, 5000, 40, 30, tenants(&[]), 10),
        Err(Error::ListingDoesNotExist)
    );
    assert_eq!(
        market.submit_offer(&mut ledger, 60, Origin::Signed(1), 1, 1001, 40, 30, tenants(&[]), 10),
        Err(Error::InsufficientFundsForOffer)
    );
    assert_eq!(
        market.submit_offer(&mut ledger, 60, Origin::Signed(5), 1, 1, 61, 101, tenants(&[5]), 100),
        Err(Error::InsufficientFundsForOffer)
    );
    assert_eq!(
        market.submit_offer(&mut ledger, 60, Origin::Signed(1), 1, 1000, 40, 30, tenants(&[]), 60),
        Err(Error::OfferValidUntilMustBeFuture)
    );
    assert_eq!(
        market.submit_offer(&mut ledger, 60, Origin::Signed(1), 1, 1000, 40, 30, tenants(&[]), 10),
        Err(Error::OfferValidUntilMustBeFuture)
    );
    // Start in the past.
    assert_eq!(
        market.submit_offer(&mut ledger, 60, Origin::Signed(1), 1, 1000, 59, 101, tenants(&[]), 61),
        Err(Error::InvalidOfferStartDate)
    );
    // Start not before the end.
    assert_eq!(
        market.submit_offer(&mut ledger, 60, Origin::Signed(1), 1, 1000, 70, 70, tenants(&[]), 61),
        Err(Error::InvalidOfferStartDate)
    );
    // Start before the listing is available.
    assert_eq!(
        market.submit_offer(&mut ledger, 10, Origin::Signed(1), 1, 1000, 49, 70, tenants(&[]), 61),
        Err(Error::InvalidOfferStartDate)
    );
    assert_eq!(
        market.submit_offer(&mut ledger, 60, Origin::Signed(1), 1, 1000, 60, 70, tenants(&[]), 61),
        Err(Error::TenantsIdsCannotBeEmpty)
    );
    assert_eq!(
        market.submit_offer(&mut ledger, 60, Origin::Signed(1), 1, 1000, 60, 70, tenants(&[1, 9]), 61),
        Err(Error::AllApplicantsMustBeVerified)
    );
    // Nothing of all this has left a trace.
    assert_eq!(market.offer_count(), 0);
    assert!(market.get_offer(1).is_none());
    assert_eq!(market.offers_on_listing(1), Vec::<u128>::new());
    assert_eq!(market.offers_of_applicant(1), Vec::<u128>::new());
    assert_eq!(ledger.balance(1), 1000);
    assert_eq!(ledger.balance_on_hold(FreezeReason::Offer(1), 1), 0);
    // An offer that starts now, on the day the listing becomes available, with the whole
    // balance and as many tenants as an offer can name, goes through.
    let eight = vec![1; MAX_NUMBER_OF_TENANTS as usize];
    assert!(market
        .submit_offer(&mut ledger, 50, Origin::Signed(1), 1, 1000, 50, 51, tenants(&eight), 51)
        .is_ok());
    assert_eq!(ledger.balance(1), 0);
    assert_eq!(ledger.balance_on_hold(FreezeReason::Offer(1), 1), 1000);
    assert_eq!(market.get_offer(1).unwrap().prospective_tenant_ids.len(), 8);
}

#[test]
fn offer_needs_free_funds() {
    let (mut market, mut ledger) = market_with_listing();
    assert!(market
        .submit_offer(&mut ledger, 1, Origin::Signed(1), 1, 900, 51, 101, tenants(&[1]), 100)
        .is_ok());
    // 900 of the 1000 are on hold: a second offer of 101 finds 100.
    assert_eq!(
        market.submit_offer(&mut ledger, 1, Origin::Signed(1), 1, 101, 51, 101, tenants(&[1]), 100),
        Err(Error::InsufficientFundsForOffer)
    );
    assert!(market
        .submit_offer(&mut ledger, 1, Origin::Signed(1), 1, 100, 51, 101, tenants(&[1]), 100)
        .is_ok());
    assert_eq!(ledger.balance(1), 0);
    assert_eq!(ledger.balance_on_hold(FreezeReason::Offer(1), 1), 900);
    assert_eq!(ledger.balance_on_hold(FreezeReason::Offer(2), 1), 100);
}

#[test]
fn sign_offer_refusals_come_in_order() {
    let (mut market, mut ledger) = market_with_listing();
    assert!(market
        .submit_offer(&mut ledger, 1, Origin::Signed(101), 1, 900, 51, 101, tenants(&[101, 102]), 100)
        .is_ok());
    assert_eq!(market.sign_offer(200, Origin::Signed(9), 7), Err(Error::Unauthorized));
    assert_eq!(market.sign_offer(200, Origin::Root, 1), Err(Error::Unauthorized));
    assert_eq!(market.sign_offer(200, Origin::Unsigned, 1), Err(Error::Unauthorized));
    assert_eq!(market.sign_offer(200, Origin::Signed(102), 7), Err(Error::OfferDoesNotExist));
    assert_eq!(market.sign_offer(200, Origin::Signed(102), 1), Err(Error::OfferExpired));
    assert_eq!(
        market.get_offer(1).unwrap().prospective_tenant_signatures.to_vec(),
        vec![(101, true), (102, false)]
    );
}

#[test]
fn accept_offer_refusals_come_in_order() {
    let (mut market, mut ledger) = market_with_listing();
    assert!(market
        .submit_offer(&mut ledger, 1, Origin::Signed(101), 1, 900, 51, 101, tenants(&[101, 102]), 100)
        .is_ok());
    assert_eq!(market.accept_offer(&mut ledger, 1, Origin::Root, 1), Err(Error::Unauthorized));
    assert_eq!(market.accept_offer(&mut ledger, 1, Origin::Unsigned, 7), Err(Error::Unauthorized));
    assert_eq!(
        market.accept_offer(&mut ledger, 200, Origin::Signed(3), 7),
        Err(Error::OfferDoesNotExist)
    );
    assert_eq!(
        market.accept_offer(&mut ledger, 200, Origin::Signed(3), 1),
        Err(Error::OfferExpired)
    );
    assert_eq!(
        market.accept_offer(&mut ledger, 60, Origin::Signed(3), 1),
        Err(Error::OfferNotFullySigned)
    );
    assert!(market.sign_offer(60, Origin::Signed(102), 1).is_ok());
    // The start date has to lie ahead still.
    assert_eq!(
        market.accept_offer(&mut ledger, 60, Origin::Signed(3), 1),
        Err(Error::InvalidOfferStartDate)
    );
    assert_eq!(
        market.accept_offer(&mut ledger, 51, Origin::Signed(3), 1),
        Err(Error::InvalidOfferStartDate)
    );
    assert_eq!(market.accept_offer(&mut ledger, 50, Origin::Signed(3), 1), Err(Error::Unauthorized));
    assert_eq!(
        market.accept_offer(&mut ledger, 50, Origin::Signed(101), 1),
        Err(Error::Unauthorized)
    );
    assert_eq!(market.get_offer(1).unwrap().offer_status, OfferStatus::Pending);
    assert!(market.get_tenancy(1).is_none());
    assert_eq!(ledger.balance_on_hold(FreezeReason::Offer(1), 101), 900);
    assert_eq!(
        market.accept_offer(&mut ledger, 50, Origin::Signed(2), 1),
        Ok(Event::OfferAccepted { offer_id: 1 })
    );
}

#[test]
fn acceptance_fails_whole_when_the_tenant_cannot_pay() {
    let mut market = Pallet::new();
    let mut ledger = Ledger::new(200);
    market.register_applicant(Origin::Root, 1).unwrap();
    ledger.mint_into(1, 1000).unwrap();
    market.register_property(Origin::Root, ADDRESS, POSTAL_CODE, 2).unwrap();
    market.create_listing(Origin::Signed(2), 1, 1000, 50).unwrap();
    assert!(market
        .submit_offer(&mut ledger, 1, Origin::Signed(1), 1, 900, 51, 101, tenants(&[1]), 100)
        .is_ok());
    // Paying 900 would leave the tenant with 100, under the minimum balance of 200.
    assert_eq!(
        market.accept_offer(&mut ledger, 1, Origin::Signed(2), 1),
        Err(Error::InsufficientFundsForOffer)
    );
    assert_eq!(market.get_offer(1).unwrap().offer_status, OfferStatus::Pending);
    assert!(market.get_tenancy(1).is_none());
    assert_eq!(ledger.balance(1), 100);
    assert_eq!(ledger.balance_on_hold(FreezeReason::Offer(1), 1), 900);
    assert_eq!(ledger.balance(2), 0);
    // With 100 more the payment leaves 200, and the offer goes through.
    ledger.mint_into(1, 100).unwrap();
    assert!(market.accept_offer(&mut ledger, 1, Origin::Signed(2), 1).is_ok());
    assert_eq!(ledger.balance(1), 200);
    assert_eq!(ledger.balance(2), 900);
}

#[test]
fn landlord_may_rent_from_themselves() {
    let mut market = Pallet::new();
    let mut ledger = Ledger::new(1);
    market.register_applicant(Origin::Root, 2).unwrap();
    ledger.mint_into(2, 1000).unwrap();
    market.register_property(Origin::Root, ADDRESS, POSTAL_CODE, 2).unwrap();
    market.create_listing(Origin::Signed(2), 1, 1000, 50).unwrap();
    assert!(market
        .submit_offer(&mut ledger, 1, Origin::Signed(2), 1, 900, 51, 101, tenants(&[2]), 100)
        .is_ok());
    assert_eq!(ledger.balance(2), 100);
    assert!(market.accept_offer(&mut ledger, 1, Origin::Signed(2), 1).is_ok());
    assert_eq!(ledger.balance(2), 1000);
    assert_eq!(ledger.balance_on_hold(FreezeReason::Offer(1), 2), 0);
    assert_eq!(market.get_tenancy(1).unwrap().tenant_ids.to_vec(), vec![2]);
}

#[test]
fn free_offer_holds_and_pays_nothing() {
    let (mut market, mut ledger) = market_with_listing();
    assert!(market
        .submit_offer(&mut ledger, 1, Origin::Signed(102), 1, 0, 51, 101, tenants(&[102]), 100)
        .is_ok());
    assert_eq!(ledger.balance(102), 0);
    assert_eq!(ledger.balance_on_hold(FreezeReason::Offer(1), 102), 0);
    assert!(market.accept_offer(&mut ledger, 1, Origin::Signed(2), 1).is_ok());
    assert_eq!(ledger.balance(102), 0);
    assert_eq!(ledger.balance(2), 0);
    assert_eq!(market.get_tenancy(1).unwrap().rental_price, 0);
}
