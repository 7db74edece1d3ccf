//! The bounded lists of the marketplace.
//!
//! The lists are `BoundedVec`s of `frame_support`. Verus does not look inside
//! them: each list type gets a name for the sequence it holds, and the few
//! methods the marketplace calls are wrapped in functions whose contracts are
//! taken on trust from the source of `bounded-collections`, where a list
//! bounded by `ConstU32<N>` takes an item while it holds fewer than `N`.

use frame_support::traits::ConstU32;
use frame_support::BoundedVec;
use vstd::prelude::*;

verus! {

/// The most prospective tenants one offer can name.
pub const MAX_NUMBER_OF_TENANTS: u32 = 8;

/// The most offers that can be open on one listing.
pub const MAX_OFFERS_PER_LISTING: u32 = 16;

/// The most offers one applicant can have made.
pub const MAX_OFFERS_PER_APPLICANT: u32 = 32;

/// `BoundedVec` of `bounded-collections`, as `frame_support` hands it on: a
/// vector whose length never exceeds the bound `S`. Nothing is known of it
/// but what the wrappers below say.
#[verifier::external_type_specification]
#[verifier::external_body]
#[verifier::reject_recursive_types(T)]
#[verifier::reject_recursive_types(S)]
pub struct ExBoundedVec<T, S>(BoundedVec<T, S>);

/// `ConstU32` of `bounded-collections`: the bound `T` as a type.
#[verifier::external_type_specification]
#[verifier::external_body]
pub struct ExConstU32<const T: u32>(ConstU32<T>);

/// The prospective tenants of an offer, in the order they were named.
pub type TenantIds = BoundedVec<u64, ConstU32<MAX_NUMBER_OF_TENANTS>>;

/// One `(tenant, signed)` pair per prospective tenant of an offer.
pub type TenantSignatures = BoundedVec<(u64, bool), ConstU32<MAX_NUMBER_OF_TENANTS>>;

/// The offers made on one listing, oldest first.
pub type ListingOfferIds = BoundedVec<u128, ConstU32<MAX_OFFERS_PER_LISTING>>;

/// The offers made by one applicant, oldest first.
pub type ApplicantOfferIds = BoundedVec<u128, ConstU32<MAX_OFFERS_PER_APPLICANT>>;

/// The account ids that a tenant list holds.
pub uninterp spec fn tenant_seq(ids: TenantIds) -> Seq<u64>;

/// The pairs that a co-signature list holds.
pub uninterp spec fn signature_seq(signatures: TenantSignatures) -> Seq<(u64, bool)>;

/// The offer ids that a listing's list holds.
pub uninterp spec fn listing_offer_seq(list: ListingOfferIds) -> Seq<u128>;

/// The offer ids that an applicant's list holds.
pub uninterp spec fn applicant_offer_seq(list: ApplicantOfferIds) -> Seq<u128>;

/// `AsRef<Vec<T>>::as_ref` of `BoundedVec`: a reference to the vector inside.
/// Trusted: that vector holds exactly what [`tenant_seq`] names.
#[verifier::external_body]
pub(crate) fn tenant_ids_as_vec(ids: &TenantIds) -> (v: &Vec<u64>)
    ensures
        v@ == tenant_seq(*ids),
{
    ids.as_ref()
}

/// `Clone::clone` of `BoundedVec`, which clones the vector inside.
/// Trusted: the copy holds the same ids in the same order.
#[verifier::external_body]
pub(crate) fn tenant_ids_clone(ids: &TenantIds) -> (copy: TenantIds)
    ensures
        tenant_seq(copy) == tenant_seq(*ids),
{
    ids.clone()
}

/// `TryFrom<Vec<T>>::try_from` of `BoundedVec`.
/// Trusted: a vector no longer than the bound is taken as it is; a longer one
/// is handed back untouched.
#[verifier::external_body]
pub(crate) fn signatures_from_vec(pairs: Vec<(u64, bool)>) -> (r: Result<
    TenantSignatures,
    Vec<(u64, bool)>,
>)
    ensures
        match r {
            Ok(signatures) => pairs@.len() <= MAX_NUMBER_OF_TENANTS && signature_seq(signatures)
                == pairs@,
            Err(rest) => pairs@.len() > MAX_NUMBER_OF_TENANTS && rest@ == pairs@,
        },
{
    BoundedVec::try_from(pairs)
}

/// `AsRef<Vec<T>>::as_ref` of `BoundedVec`: a reference to the vector inside.
/// Trusted: that vector holds exactly what [`signature_seq`] names.
#[verifier::external_body]
pub(crate) fn signatures_as_vec(signatures: &TenantSignatures) -> (v: &Vec<(u64, bool)>)
    ensures
        v@ == signature_seq(*signatures),
{
    signatures.as_ref()
}

/// `Clone::clone` of `BoundedVec`, which clones the vector inside.
/// Trusted: the copy holds the same pairs in the same order.
#[verifier::external_body]
pub(crate) fn signatures_clone(signatures: &TenantSignatures) -> (copy: TenantSignatures)
    ensures
        signature_seq(copy) == signature_seq(*signatures),
{
    signatures.clone()
}

/// `BoundedVec::new`. Trusted: the new list is empty.
#[verifier::external_body]
pub(crate) fn listing_offers_new() -> (list: ListingOfferIds)
    ensures
        listing_offer_seq(list) == Seq::<u128>::empty(),
{
    BoundedVec::new()
}

/// `BoundedVec::try_push`. Trusted: below the bound the id is appended; at the
/// bound the list stays as it is and the id comes back.
#[verifier::external_body]
pub(crate) fn listing_offers_try_push(list: &mut ListingOfferIds, id: u128) -> (r: Result<(), u128>)
    ensures
        match r {
            Ok(_) => listing_offer_seq(*old(list)).len() < MAX_OFFERS_PER_LISTING
                && listing_offer_seq(*final(list)) == listing_offer_seq(*old(list)).push(id),
            Err(back) => listing_offer_seq(*old(list)).len() >= MAX_OFFERS_PER_LISTING && back == id
                && listing_offer_seq(*final(list)) == listing_offer_seq(*old(list)),
        },
{
    list.try_push(id)
}

/// `AsRef<Vec<T>>::as_ref` of `BoundedVec`: a reference to the vector inside.
/// Trusted: that vector holds exactly what [`listing_offer_seq`] names.
#[verifier::external_body]
pub(crate) fn listing_offers_as_vec(list: &ListingOfferIds) -> (v: &Vec<u128>)
    ensures
        v@ == listing_offer_seq(*list),
{
    list.as_ref()
}

/// `BoundedVec::new`. Trusted: the new list is empty.
#[verifier::external_body]
pub(crate) fn applicant_offers_new() -> (list: ApplicantOfferIds)
    ensures
        applicant_offer_seq(list) == Seq::<u128>::empty(),
{
    BoundedVec::new()
}

/// `BoundedVec::try_push`. Trusted: below the bound the id is appended; at the
/// bound the list stays as it is and the id comes back.
#[verifier::external_body]
pub(crate) fn applicant_offers_try_push(list: &mut ApplicantOfferIds, id: u128) -> (r: Result<
    (),
    u128,
>)
    ensures
        match r {
            Ok(_) => applicant_offer_seq(*old(list)).len() < MAX_OFFERS_PER_APPLICANT
                && applicant_offer_seq(*final(list)) == applicant_offer_seq(*old(list)).push(id),
            Err(back) => applicant_offer_seq(*old(list)).len() >= MAX_OFFERS_PER_APPLICANT && back
                == id && applicant_offer_seq(*final(list)) == applicant_offer_seq(*old(list)),
        },
{
    list.try_push(id)
}

/// `AsRef<Vec<T>>::as_ref` of `BoundedVec`: a reference to the vector inside.
/// Trusted: that vector holds exactly what [`applicant_offer_seq`] names.
#[verifier::external_body]
pub(crate) fn applicant_offers_as_vec(list: &ApplicantOfferIds) -> (v: &Vec<u128>)
    ensures
        v@ == applicant_offer_seq(*list),
{
    list.as_ref()
}

} // verus!
