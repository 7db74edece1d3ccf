//! What holds of every run of the marketplace.

use crate::cosign::{every_entry_signed, is_listed, lemma_unlisted_signer_changes_nothing};
use crate::dispatch::{Error, Origin};
use crate::ledger::{FreezeReason, LedgerView, Preservation};
use crate::model::{Command, PalletView};
use crate::types::{AccountId, Balance, BlockNumber, ListingId, OfferId, PropertyId, H256};
use vstd::prelude::*;

verus! {

/// Tenancies stay backed by accepted offers when nothing is taken away:
/// the tenancies are the same, no property is removed, and every accepted
/// offer is still there with the same contents.
proof fn lemma_tenancies_carry_over(state: PalletView, next: PalletView)
    requires
        state.tenancies_from_offers(),
        next.tenancies == state.tenancies,
        forall|id: PropertyId| #[trigger]
            state.properties.contains_key(id) ==> next.properties.contains_key(id),
        forall|id: OfferId|
            #[trigger] state.offers.contains_key(id) && state.offers[id].offer_status is Accepted
                ==> next.offers.contains_key(id) && next.offers[id] == state.offers[id],
    ensures
        next.tenancies_from_offers(),
{
    assert forall|id: PropertyId| #[trigger] next.tenancies.contains_key(id) implies {
        &&& next.tenancies[id].property_id == id
        &&& next.properties.contains_key(id)
        &&& exists|offer_id: OfferId|
            {
                &&& #[trigger] next.offers.contains_key(offer_id)
                &&& next.offers[offer_id].offer_status is Accepted
                &&& next.offers[offer_id].tenancy() == next.tenancies[id]
            }
    } by {
        assert(state.tenancies.contains_key(id));
        let witness = choose|offer_id: OfferId|
            {
                &&& #[trigger] state.offers.contains_key(offer_id)
                &&& state.offers[offer_id].offer_status is Accepted
                &&& state.offers[offer_id].tenancy() == state.tenancies[id]
            };
        assert(next.offers.contains_key(witness));
    }
}

/// The empty marketplace is sound.
pub proof fn law_empty_is_sound()
    ensures
        PalletView::empty().inv(),
{
}

/// Vouching for an applicant keeps the marketplace sound.
pub proof fn law_register_applicant_keeps_sound(
    state: PalletView,
    origin: Origin,
    applicant_id: AccountId,
)
    requires
        state.inv(),
        state.register_applicant(origin, applicant_id) is Ok,
    ensures
        state.register_applicant(origin, applicant_id)->Ok_0.inv(),
{
    let next = state.register_applicant(origin, applicant_id)->Ok_0;
    lemma_tenancies_carry_over(state, next);
}

/// Vouching for a landlord keeps the marketplace sound.
pub proof fn law_register_landlord_keeps_sound(
    state: PalletView,
    origin: Origin,
    landlord_id: AccountId,
)
    requires
        state.inv(),
        state.register_landlord(origin, landlord_id) is Ok,
    ensures
        state.register_landlord(origin, landlord_id)->Ok_0.inv(),
{
    let next = state.register_landlord(origin, landlord_id)->Ok_0;
    lemma_tenancies_carry_over(state, next);
}

/// Registering a property keeps the marketplace sound.
pub proof fn law_register_property_keeps_sound(
    state: PalletView,
    origin: Origin,
    address: H256,
    postal_code: H256,
    landlord_id: AccountId,
)
    requires
        state.inv(),
        state.register_property(origin, address, postal_code, landlord_id) is Ok,
    ensures
        state.register_property(origin, address, postal_code, landlord_id)->Ok_0.inv(),
{
    let next = state.register_property(origin, address, postal_code, landlord_id)->Ok_0;
    assert(!state.properties.contains_key(next.property_counter));
    lemma_tenancies_carry_over(state, next);
}

/// Creating a listing keeps the marketplace sound.
pub proof fn law_create_listing_keeps_sound(
    state: PalletView,
    origin: Origin,
    property_id: PropertyId,
    rental_price: u32,
    availability_date: BlockNumber,
)
    requires
        state.inv(),
        state.create_listing(origin, property_id, rental_price, availability_date) is Ok,
    ensures
        state.create_listing(origin, property_id, rental_price, availability_date)->Ok_0.inv(),
{
    let next = state.create_listing(origin, property_id, rental_price, availability_date)->Ok_0;
    assert(!state.listings.contains_key(next.listing_counter));
    lemma_tenancies_carry_over(state, next);
}

/// Submitting an offer keeps the marketplace sound.
pub proof fn law_submit_offer_keeps_sound(
    state: PalletView,
    ledger: LedgerView,
    now: BlockNumber,
    origin: Origin,
    listing_id: ListingId,
    offer_price: u32,
    offer_start_date: BlockNumber,
    offer_end_date: BlockNumber,
    prospective_tenant_ids: Seq<AccountId>,
    valid_until: BlockNumber,
)
    requires
        state.inv(),
        state.submit_offer(
            ledger,
            now,
            origin,
            listing_id,
            offer_price,
            offer_start_date,
            offer_end_date,
            prospective_tenant_ids,
            valid_until,
        ) is Ok,
    ensures
        state.submit_offer(
            ledger,
            now,
            origin,
            listing_id,
            offer_price,
            offer_start_date,
            offer_end_date,
            prospective_tenant_ids,
            valid_until,
        )->Ok_0.0.inv(),
{
    let next = state.submit_offer(
        ledger,
        now,
        origin,
        listing_id,
        offer_price,
        offer_start_date,
        offer_end_date,
        prospective_tenant_ids,
        valid_until,
    )->Ok_0.0;
    lemma_tenancies_carry_over(state, next);
}

/// Signing an offer keeps the marketplace sound.
pub proof fn law_sign_offer_keeps_sound(
    state: PalletView,
    now: BlockNumber,
    origin: Origin,
    offer_id: OfferId,
)
    requires
        state.inv(),
        state.sign_offer(now, origin, offer_id) is Ok,
    ensures
        state.sign_offer(now, origin, offer_id)->Ok_0.inv(),
{
    let next = state.sign_offer(now, origin, offer_id)->Ok_0;
    lemma_tenancies_carry_over(state, next);
}

/// Accepting an offer keeps the marketplace sound.
pub proof fn law_accept_offer_keeps_sound(
    state: PalletView,
    ledger: LedgerView,
    now: BlockNumber,
    origin: Origin,
    offer_id: OfferId,
)
    requires
        state.inv(),
        state.accept_offer(ledger, now, origin, offer_id) is Ok,
    ensures
        state.accept_offer(ledger, now, origin, offer_id)->Ok_0.0.inv(),
{
    let next = state.accept_offer(ledger, now, origin, offer_id)->Ok_0.0;
    assert forall|id: PropertyId| #[trigger] next.tenancies.contains_key(id) implies {
        &&& next.tenancies[id].property_id == id
        &&& next.properties.contains_key(id)
        &&& exists|other: OfferId|
            {
                &&& #[trigger] next.offers.contains_key(other)
                &&& next.offers[other].offer_status is Accepted
                &&& next.offers[other].tenancy() == next.tenancies[id]
            }
    } by {
        if id == state.offers[offer_id].property_id {
            // The new tenancy is what the offer just accepted has become.
            assert(next.offers.contains_key(offer_id));
        } else {
            // An older tenancy keeps the offer it came from.
            let witness = choose|other: OfferId|
                {
                    &&& #[trigger] state.offers.contains_key(other)
                    &&& state.offers[other].offer_status is Accepted
                    &&& state.offers[other].tenancy() == state.tenancies[id]
                };
            assert(next.offers.contains_key(witness));
        }
    }
}

/// Every command that goes through keeps the marketplace sound.
pub proof fn law_step_keeps_sound(
    state: PalletView,
    ledger: LedgerView,
    now: BlockNumber,
    origin: Origin,
    command: Command,
)
    requires
        state.inv(),
        state.step(ledger, now, origin, command) is Ok,
    ensures
        state.step(ledger, now, origin, command)->Ok_0.0.inv(),
{
    match command {
        Command::RegisterApplicant { applicant_id } => {
            law_register_applicant_keeps_sound(state, origin, applicant_id);
        },
        Command::RegisterLandlord { landlord_id } => {
            law_register_landlord_keeps_sound(state, origin, landlord_id);
        },
        Command::RegisterProperty { address, postal_code, landlord_id } => {
            law_register_property_keeps_sound(state, origin, address, postal_code, landlord_id);
        },
        Command::CreateListing { property_id, rental_price, availability_date } => {
            law_create_listing_keeps_sound(
                state,
                origin,
                property_id,
                rental_price,
                availability_date,
            );
        },
        Command::SubmitOffer {
            listing_id,
            offer_price,
            offer_start_date,
            offer_end_date,
            prospective_tenant_ids,
            valid_until,
        } => {
            law_submit_offer_keeps_sound(
                state,
                ledger,
                now,
                origin,
                listing_id,
                offer_price,
                offer_start_date,
                offer_end_date,
                prospective_tenant_ids,
                valid_until,
            );
        },
        Command::SignOffer { offer_id } => {
            law_sign_offer_keeps_sound(state, now, origin, offer_id);
        },
        Command::AcceptOffer { offer_id } => {
            law_accept_offer_keeps_sound(state, ledger, now, origin, offer_id);
        },
    }
}

/// Each counter counts the creations of its kind: a command that goes through
/// raises the counter of what it creates by exactly one and leaves the other
/// counters alone, and the record it creates is stored under the new count,
/// an id that was not in use.
pub proof fn law_counters_count_creations(
    state: PalletView,
    ledger: LedgerView,
    now: BlockNumber,
    origin: Origin,
    command: Command,
)
    requires
        state.inv(),
        state.step(ledger, now, origin, command) is Ok,
    ensures
        ({
            let next = state.step(ledger, now, origin, command)->Ok_0.0;
            &&& next.property_counter == state.property_counter + (if command is RegisterProperty {
                1int
            } else {
                0int
            })
            &&& next.listing_counter == state.listing_counter + (if command is CreateListing {
                1int
            } else {
                0int
            })
            &&& next.offer_counter == state.offer_counter + (if command is SubmitOffer {
                1int
            } else {
                0int
            })
            &&& command is RegisterProperty ==> !state.properties.contains_key(
                next.property_counter,
            ) && next.properties.contains_key(next.property_counter)
            &&& command is CreateListing ==> !state.listings.contains_key(next.listing_counter)
                && next.listings.contains_key(next.listing_counter)
            &&& command is SubmitOffer ==> !state.offers.contains_key(next.offer_counter)
                && next.offers.contains_key(next.offer_counter)
        }),
{
}

/// No id is used twice: a command that goes through takes no record away.
/// Properties, listings and tenancies stay exactly as they are; an offer keeps
/// everything but its co-signatures and its status; who was vouched for stays
/// vouched for.
pub proof fn law_records_are_kept(
    state: PalletView,
    ledger: LedgerView,
    now: BlockNumber,
    origin: Origin,
    command: Command,
)
    requires
        state.inv(),
        state.step(ledger, now, origin, command) is Ok,
    ensures
        ({
            let next = state.step(ledger, now, origin, command)->Ok_0.0;
            &&& forall|id: PropertyId| #[trigger]
                state.properties.contains_key(id) ==> next.properties.contains_key(id)
                    && next.properties[id] == state.properties[id]
            &&& forall|id: ListingId| #[trigger]
                state.listings.contains_key(id) ==> next.listings.contains_key(id)
                    && next.listings[id] == state.listings[id]
            &&& forall|id: PropertyId| #[trigger]
                state.tenancies.contains_key(id) ==> next.tenancies.contains_key(id)
                    && next.tenancies[id] == state.tenancies[id]
            &&& forall|id: OfferId| #[trigger]
                state.offers.contains_key(id) ==> {
                    &&& next.offers.contains_key(id)
                    &&& next.offers[id].offer_id == state.offers[id].offer_id
                    &&& next.offers[id].property_id == state.offers[id].property_id
                    &&& next.offers[id].offer_price == state.offers[id].offer_price
                    &&& next.offers[id].offer_start_date == state.offers[id].offer_start_date
                    &&& next.offers[id].offer_end_date == state.offers[id].offer_end_date
                    &&& next.offers[id].lead_tenant == state.offers[id].lead_tenant
                    &&& next.offers[id].prospective_tenant_ids
                        == state.offers[id].prospective_tenant_ids
                    &&& next.offers[id].valid_until == state.offers[id].valid_until
                    &&& state.offers[id].offer_status is Accepted
                        ==> next.offers[id].offer_status is Accepted
                }
            &&& state.verified_applicants.subset_of(next.verified_applicants)
            &&& state.verified_landlords.subset_of(next.verified_landlords)
        }),
{
}

/// An offer for a single tenant is fully signed from the moment it is
/// submitted.
pub proof fn law_solo_offer_is_signed_at_once(
    state: PalletView,
    ledger: LedgerView,
    now: BlockNumber,
    origin: Origin,
    listing_id: ListingId,
    offer_price: u32,
    offer_start_date: BlockNumber,
    offer_end_date: BlockNumber,
    prospective_tenant_ids: Seq<AccountId>,
    valid_until: BlockNumber,
)
    requires
        prospective_tenant_ids.len() == 1,
        state.submit_offer(
            ledger,
            now,
            origin,
            listing_id,
            offer_price,
            offer_start_date,
            offer_end_date,
            prospective_tenant_ids,
            valid_until,
        ) is Ok,
    ensures
        ({
            let next = state.submit_offer(
                ledger,
                now,
                origin,
                listing_id,
                offer_price,
                offer_start_date,
                offer_end_date,
                prospective_tenant_ids,
                valid_until,
            )->Ok_0.0;
            let offer = next.offers[next.offer_counter];
            &&& offer.all_signed
            &&& every_entry_signed(offer.prospective_tenant_signatures)
        }),
{
}

/// An offer for several tenants is not fully signed when it is submitted:
/// only the entries of the lead tenant are signed.
pub proof fn law_shared_offer_awaits_signatures(
    state: PalletView,
    ledger: LedgerView,
    now: BlockNumber,
    origin: Origin,
    listing_id: ListingId,
    offer_price: u32,
    offer_start_date: BlockNumber,
    offer_end_date: BlockNumber,
    prospective_tenant_ids: Seq<AccountId>,
    valid_until: BlockNumber,
)
    requires
        prospective_tenant_ids.len() > 1,
        state.submit_offer(
            ledger,
            now,
            origin,
            listing_id,
            offer_price,
            offer_start_date,
            offer_end_date,
            prospective_tenant_ids,
            valid_until,
        ) is Ok,
    ensures
        ({
            let next = state.submit_offer(
                ledger,
                now,
                origin,
                listing_id,
                offer_price,
                offer_start_date,
                offer_end_date,
                prospective_tenant_ids,
                valid_until,
            )->Ok_0.0;
            let offer = next.offers[next.offer_counter];
            &&& !offer.all_signed
            &&& offer.prospective_tenant_signatures.len() == prospective_tenant_ids.len()
            &&& forall|i: int|
                0 <= i < prospective_tenant_ids.len() ==> #[trigger] offer.prospective_tenant_signatures[i]
                    == (prospective_tenant_ids[i], prospective_tenant_ids[i] == origin->Signed_0)
        }),
{
}

/// A signature marks the entries of the signer and no other: every entry of
/// the signer is signed, every other entry is as it was, the offer is fully
/// signed exactly when every entry is signed, and nothing else in the
/// marketplace changes.
pub proof fn law_signature_marks_the_signer_only(
    state: PalletView,
    now: BlockNumber,
    origin: Origin,
    offer_id: OfferId,
)
    requires
        state.sign_offer(now, origin, offer_id) is Ok,
    ensures
        ({
            let next = state.sign_offer(now, origin, offer_id)->Ok_0;
            let before = state.offers[offer_id].prospective_tenant_signatures;
            let after = next.offers[offer_id].prospective_tenant_signatures;
            &&& after.len() == before.len()
            &&& forall|i: int|
                0 <= i < before.len() ==> {
                    &&& (#[trigger] after[i]).0 == before[i].0
                    &&& before[i].0 == origin->Signed_0 ==> after[i].1
                    &&& before[i].0 != origin->Signed_0 ==> after[i].1 == before[i].1
                }
            &&& next.offers[offer_id].all_signed == every_entry_signed(after)
            &&& next.offers.dom() == state.offers.dom()
            &&& forall|other: OfferId|
                other != offer_id && #[trigger] state.offers.contains_key(other)
                    ==> next.offers[other] == state.offers[other]
            &&& next == (PalletView { offers: next.offers, ..state })
        }),
{
}

/// The signature of an account that the offer does not name changes nothing,
/// provided the offer says of itself what its entries say: that it is fully
/// signed exactly when every entry is signed.
pub proof fn law_unlisted_signature_changes_nothing(
    state: PalletView,
    now: BlockNumber,
    origin: Origin,
    offer_id: OfferId,
)
    requires
        state.sign_offer(now, origin, offer_id) is Ok,
        !is_listed(state.offers[offer_id].prospective_tenant_signatures, origin->Signed_0),
        state.offers[offer_id].all_signed == every_entry_signed(
            state.offers[offer_id].prospective_tenant_signatures,
        ),
    ensures
        state.sign_offer(now, origin, offer_id) == Ok::<PalletView, Error>(state),
{
    lemma_unlisted_signer_changes_nothing(
        state.offers[offer_id].prospective_tenant_signatures,
        origin->Signed_0,
    );
    assert(state.sign_offer(now, origin, offer_id)->Ok_0 =~= state);
}

/// An unlisted signer never changes an entry, whatever the offer says of
/// itself.
pub proof fn law_unlisted_signature_changes_no_entry(
    state: PalletView,
    now: BlockNumber,
    origin: Origin,
    offer_id: OfferId,
)
    requires
        state.sign_offer(now, origin, offer_id) is Ok,
        !is_listed(state.offers[offer_id].prospective_tenant_signatures, origin->Signed_0),
    ensures
        state.sign_offer(now, origin, offer_id)->Ok_0.offers[offer_id].prospective_tenant_signatures
            == state.offers[offer_id].prospective_tenant_signatures,
{
    lemma_unlisted_signer_changes_nothing(
        state.offers[offer_id].prospective_tenant_signatures,
        origin->Signed_0,
    );
}

/// In a sound marketplace no signature is refused for the length of the
/// co-signature list: every list is within the bound.
pub proof fn law_signing_never_overflows(
    state: PalletView,
    now: BlockNumber,
    origin: Origin,
    offer_id: OfferId,
)
    requires
        state.inv(),
    ensures
        state.sign_offer(now, origin, offer_id) != Err::<PalletView, Error>(Error::TooManyTenants),
{
}

/// An accepted offer cannot be accepted again: while its validity lasts,
/// whoever tries, with whatever ledger, is told that the offer cannot be
/// accepted.
pub proof fn law_accepted_offer_cannot_be_accepted_again(
    state: PalletView,
    ledger: LedgerView,
    now: BlockNumber,
    origin: Origin,
    offer_id: OfferId,
    later_ledger: LedgerView,
    later: BlockNumber,
    later_caller: AccountId,
)
    requires
        state.accept_offer(ledger, now, origin, offer_id) is Ok,
        later <= state.offers[offer_id].valid_until,
    ensures
        state.accept_offer(ledger, now, origin, offer_id)->Ok_0.0.accept_offer(
            later_ledger,
            later,
            Origin::Signed(later_caller),
            offer_id,
        ) == Err::<(PalletView, LedgerView), Error>(Error::OfferCannotBeAccepted),
{
}

/// Offers are independent: accepting one leaves every other offer as it was,
/// status included, and touches no hold but its own.
pub proof fn law_acceptance_leaves_other_offers_alone(
    state: PalletView,
    ledger: LedgerView,
    now: BlockNumber,
    origin: Origin,
    offer_id: OfferId,
    other: OfferId,
)
    requires
        state.inv(),
        ledger.wf(),
        state.accept_offer(ledger, now, origin, offer_id) is Ok,
        other != offer_id,
    ensures
        ({
            let (next, next_ledger) = state.accept_offer(ledger, now, origin, offer_id)->Ok_0;
            &&& next.offers.contains_key(other) == state.offers.contains_key(other)
            &&& state.offers.contains_key(other) ==> next.offers[other] == state.offers[other]
            &&& forall|who: AccountId| #[trigger]
                next_ledger.held[(who, FreezeReason::Offer(other))] == ledger.held[(
                    who,
                    FreezeReason::Offer(other),
                )]
        }),
{
}

/// Before the first command the marketplace owes no hold: it is in step with
/// every ledger that holds nothing under an offer's tag, the empty ledger
/// among them.
pub proof fn law_empty_market_owes_nothing(ledger: LedgerView, minimum_balance: Balance)
    requires
        forall|who: AccountId, offer_id: OfferId| #[trigger]
            ledger.held[(who, FreezeReason::Offer(offer_id))] == 0,
    ensures
        PalletView::empty().escrow_matches(ledger),
        PalletView::empty().escrow_matches(LedgerView::empty(minimum_balance)),
        LedgerView::empty(minimum_balance).wf(),
{
}

/// The ledger keeps speaking of every account and of every tag, whatever is
/// done to it.
pub proof fn law_ledger_stays_total(
    ledger: LedgerView,
    reason: FreezeReason,
    from: AccountId,
    to: AccountId,
    amount: Balance,
    preservation: Preservation,
)
    requires
        ledger.wf(),
    ensures
        ledger.mint_into(to, amount) is Ok ==> ledger.mint_into(to, amount)->Ok_0.wf(),
        ledger.place_hold(reason, from, amount) is Ok ==> ledger.place_hold(
            reason,
            from,
            amount,
        )->Ok_0.wf(),
        ledger.release_hold(reason, from) is Ok ==> ledger.release_hold(reason, from)->Ok_0.wf(),
        ledger.transfer(from, to, amount, preservation) is Ok ==> ledger.transfer(
            from,
            to,
            amount,
            preservation,
        )->Ok_0.wf(),
        ledger.settle(reason, from, to, amount) is Ok ==> ledger.settle(
            reason,
            from,
            to,
            amount,
        )->Ok_0.wf(),
{
}

/// Holds and payments neither make nor lose funds. Putting on hold and
/// releasing move an amount between the free balance of an account and one
/// of its holds; a transfer moves it between two free balances; and no
/// other free balance and no other hold is touched.
pub proof fn law_ledger_conserves_funds(
    ledger: LedgerView,
    reason: FreezeReason,
    from: AccountId,
    to: AccountId,
    amount: Balance,
    preservation: Preservation,
)
    requires
        ledger.wf(),
    ensures
        ledger.place_hold(reason, from, amount) is Ok ==> ({
            let next = ledger.place_hold(reason, from, amount)->Ok_0;
            &&& next.free[from] + next.held[(from, reason)] == ledger.free[from] + ledger.held[(
                from,
                reason,
            )]
            &&& next.held[(from, reason)] == ledger.held[(from, reason)] + amount
            &&& forall|who: AccountId| who != from ==> #[trigger] next.free[who] == ledger.free[who]
            &&& forall|tag: (AccountId, FreezeReason)|
                tag != (from, reason) ==> #[trigger] next.held[tag] == ledger.held[tag]
        }),
        ledger.release_hold(reason, from) is Ok ==> ({
            let next = ledger.release_hold(reason, from)->Ok_0;
            &&& next.free[from] == ledger.free[from] + ledger.held[(from, reason)]
            &&& next.held[(from, reason)] == 0
            &&& forall|who: AccountId| who != from ==> #[trigger] next.free[who] == ledger.free[who]
            &&& forall|tag: (AccountId, FreezeReason)|
                tag != (from, reason) ==> #[trigger] next.held[tag] == ledger.held[tag]
        }),
        ledger.transfer(from, to, amount, preservation) is Ok ==> ({
            let next = ledger.transfer(from, to, amount, preservation)->Ok_0;
            &&& from != to ==> next.free[from] == ledger.free[from] - amount && next.free[to]
                == ledger.free[to] + amount
            &&& from == to ==> next.free[from] == ledger.free[from]
            &&& forall|who: AccountId|
                who != from && who != to ==> #[trigger] next.free[who] == ledger.free[who]
            &&& next.held == ledger.held
        }),
{
}

/// Every command that goes through keeps the escrow in step with the offers.
pub proof fn law_step_keeps_escrow(
    state: PalletView,
    ledger: LedgerView,
    now: BlockNumber,
    origin: Origin,
    command: Command,
)
    requires
        state.inv(),
        ledger.wf(),
        state.escrow_matches(ledger),
        state.step(ledger, now, origin, command) is Ok,
    ensures
        ({
            let (next, next_ledger) = state.step(ledger, now, origin, command)->Ok_0;
            next.escrow_matches(next_ledger)
        }),
{
}

/// Payments that are no business of the marketplace leave the escrow in step
/// with the offers: minting and transfers touch no hold.
pub proof fn law_payments_keep_escrow(
    state: PalletView,
    ledger: LedgerView,
    from: AccountId,
    to: AccountId,
    amount: Balance,
    preservation: Preservation,
)
    requires
        ledger.wf(),
        state.escrow_matches(ledger),
    ensures
        ledger.mint_into(to, amount) is Ok ==> state.escrow_matches(
            ledger.mint_into(to, amount)->Ok_0,
        ),
        ledger.transfer(from, to, amount, preservation) is Ok ==> state.escrow_matches(
            ledger.transfer(from, to, amount, preservation)->Ok_0,
        ),
{
}

/// What is on hold for a submitted offer is its price: right after the
/// submission the hold under the offer's tag has grown by exactly the offered
/// price, which came out of the applicant's free balance.
pub proof fn law_submission_holds_the_price(
    state: PalletView,
    ledger: LedgerView,
    now: BlockNumber,
    origin: Origin,
    listing_id: ListingId,
    offer_price: u32,
    offer_start_date: BlockNumber,
    offer_end_date: BlockNumber,
    prospective_tenant_ids: Seq<AccountId>,
    valid_until: BlockNumber,
)
    requires
        state.inv(),
        ledger.wf(),
        state.submit_offer(
            ledger,
            now,
            origin,
            listing_id,
            offer_price,
            offer_start_date,
            offer_end_date,
            prospective_tenant_ids,
            valid_until,
        ) is Ok,
    ensures
        ({
            let (next, next_ledger) = state.submit_offer(
                ledger,
                now,
                origin,
                listing_id,
                offer_price,
                offer_start_date,
                offer_end_date,
                prospective_tenant_ids,
                valid_until,
            )->Ok_0;
            let applicant_id = origin->Signed_0;
            let tag = (applicant_id, FreezeReason::Offer(next.offer_counter));
            &&& next_ledger.held[tag] == ledger.held[tag] + offer_price
            &&& next_ledger.free[applicant_id] == ledger.free[applicant_id] - offer_price
            &&& state.escrow_matches(ledger) ==> next_ledger.held[tag] == offer_price
        }),
{
}

/// Acceptance pays the price out of the escrow. With the escrow in step with
/// the offers, the hold of the accepted offer is its price before and nothing
/// after, the landlord's free balance grows by exactly the price, and the
/// lead tenant's free balance is what it was: the released hold has paid.
pub proof fn law_acceptance_pays_the_price(
    state: PalletView,
    ledger: LedgerView,
    now: BlockNumber,
    origin: Origin,
    offer_id: OfferId,
)
    requires
        state.inv(),
        ledger.wf(),
        state.escrow_matches(ledger),
        state.accept_offer(ledger, now, origin, offer_id) is Ok,
    ensures
        ({
            let (next, next_ledger) = state.accept_offer(ledger, now, origin, offer_id)->Ok_0;
            let offer = state.offers[offer_id];
            let landlord_id = origin->Signed_0;
            let tag = (offer.lead_tenant, FreezeReason::Offer(offer_id));
            &&& ledger.held[tag] == offer.offer_price
            &&& next_ledger.held[tag] == 0
            &&& landlord_id != offer.lead_tenant ==> {
                &&& next_ledger.free[landlord_id] == ledger.free[landlord_id] + offer.offer_price
                &&& next_ledger.free[offer.lead_tenant] == ledger.free[offer.lead_tenant]
            }
            &&& landlord_id == offer.lead_tenant ==> next_ledger.free[landlord_id]
                == ledger.free[landlord_id] + offer.offer_price
            &&& next.tenancies.contains_key(offer.property_id)
            &&& next.tenancies[offer.property_id] == offer.tenancy()
        }),
{
}

} // verus!
