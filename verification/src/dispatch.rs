//! Who issues a command, and why a command is refused.

use crate::types::AccountId;
use vstd::prelude::*;

verus! {

/// Who issues a command.
#[derive(Clone, Copy, Debug, PartialEq, Eq, Structural)]
pub enum Origin {
    /// The privileged authority.
    Root,
    /// The holder of an account.
    Signed(AccountId),
    /// Nobody: the command came without a signature.
    Unsigned,
}

/// Why a command was refused.
#[derive(Clone, Copy, Debug, PartialEq, Eq, Structural)]
pub enum Error {
    TooManyProperties,
    TooManyListings,
    TooManyOffers,
    LandlordNotVerified,
    PropertyDoesNotExist,
    ListingDoesNotExist,
    OfferDoesNotExist,
    /// The caller may not perform this action.
    Unauthorized,
    InvalidOfferStartDate,
    TenantsIdsCannotBeEmpty,
    AllApplicantsMustBeVerified,
    TooManyOffersOnListing,
    TenancyAlreadyExists,
    MaxOffersForApplicantReached,
    InsufficientFundsForOffer,
    OfferExpired,
    OfferValidUntilMustBeFuture,
    OfferCannotBeAccepted,
    TooManyTenants,
    OfferNotFullySigned,
}

/// Lets the authority pass and nobody else.
pub fn ensure_root(origin: Origin) -> (r: Result<(), Error>)
    ensures
        r == (if origin is Root {
            Ok::<(), Error>(())
        } else {
            Err::<(), Error>(Error::Unauthorized)
        }),
{
    match origin {
        Origin::Root => Ok(()),
        _ => Err(Error::Unauthorized),
    }
}

/// Lets the holder of an account pass, and says which account it is.
pub fn ensure_signed(origin: Origin) -> (r: Result<AccountId, Error>)
    ensures
        r == (match origin {
            Origin::Signed(who) => Ok::<AccountId, Error>(who),
            _ => Err::<AccountId, Error>(Error::Unauthorized),
        }),
{
    match origin {
        Origin::Signed(who) => Ok(who),
        _ => Err(Error::Unauthorized),
    }
}

/// The id after `counter`, or `exhausted` when there is none.
pub fn next_id(counter: u128, exhausted: Error) -> (r: Result<u128, Error>)
    ensures
        r == (if counter == u128::MAX {
            Err::<u128, Error>(exhausted)
        } else {
            Ok::<u128, Error>((counter + 1) as u128)
        }),
{
    match counter.checked_add(1) {
        Some(id) => Ok(id),
        None => Err(exhausted),
    }
}

} // verus!
