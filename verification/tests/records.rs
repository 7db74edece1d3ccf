use frame_support::BoundedVec;
use real_estate::{Offer, OfferStatus, Property, Tenancy};

#[test]
fn property_new_keeps_its_fields() {
    let p = Property::new(1, 2, [1u8; 32], [3u8; 32]);
    assert_eq!(p.property_id, 1);
    assert_eq!(p.landlord_id, 2);
    assert_eq!(p.address, [1u8; 32]);
    assert_eq!(p.postal_code, [3u8; 32]);
}

#[test]
fn listing_takes_the_property_id() {
    let p = Property::new(7, 2, [1u8; 32], [3u8; 32]);
    let l = p.create_listing(4, 1000, 50, 2);
    assert_eq!(l.listing_id, 4);
    assert_eq!(l.property_id, 7);
    assert_eq!(l.rental_price, 1000);
    assert_eq!(l.availability_date, 50);
    assert_eq!(l.lister, 2);
}

#[test]
fn new_offer_is_pending() {
    let ids = BoundedVec::try_from(vec![101u64, 102]).unwrap();
    let signatures = BoundedVec::try_from(vec![(101u64, true), (102u64, false)]).unwrap();
    let offer = Offer::new(3, 7, 900, 51, 101, 101, ids, signatures, 100, false);
    assert_eq!(offer.offer_id, 3);
    assert_eq!(offer.property_id, 7);
    assert_eq!(offer.offer_price, 900);
    assert_eq!(offer.offer_start_date, 51);
    assert_eq!(offer.offer_end_date, 101);
    assert_eq!(offer.lead_tenant, 101);
    assert_eq!(offer.prospective_tenant_ids.to_vec(), vec![101, 102]);
    assert_eq!(offer.prospective_tenant_signatures.to_vec(), vec![(101, true), (102, false)]);
    assert_eq!(offer.valid_until, 100);
    assert!(!offer.all_signed);
    assert_eq!(offer.offer_status, OfferStatus::Pending);
}

#[test]
fn offer_clone_is_equal() {
    let ids = BoundedVec::try_from(vec![101u64, 102]).unwrap();
    let signatures = BoundedVec::try_from(vec![(101u64, true), (102u64, false)]).unwrap();
    let offer = Offer::new(3, 7, 900, 51, 101, 101, ids, signatures, 100, false);
    assert_eq!(offer.clone(), offer);
}

#[test]
fn tenancy_takes_over_the_offer() {
    let ids = BoundedVec::try_from(vec![101u64, 102]).unwrap();
    let signatures = BoundedVec::try_from(vec![(101u64, true), (102u64, true)]).unwrap();
    let offer = Offer::new(3, 7, 900, 51, 101, 101, ids, signatures, 100, true);
    let tenancy = Tenancy::new(offer);
    assert_eq!(tenancy.property_id, 7);
    assert_eq!(tenancy.rental_price, 900);
    assert_eq!(tenancy.start_date, 51);
    assert_eq!(tenancy.end_date, 101);
    assert_eq!(tenancy.tenant_ids.to_vec(), vec![101, 102]);
    assert_eq!(tenancy.clone(), tenancy);
}
