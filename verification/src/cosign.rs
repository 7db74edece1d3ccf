//! Co-signatures: one `(tenant, signed)` pair per prospective tenant of an
//! offer, in the order the tenants were named.

use crate::types::AccountId;
use vstd::prelude::*;

verus! {

/// The co-signature list of a fresh offer. A tenant who is named alone counts
/// as signed; among several, only the entries of the lead tenant do.
pub open spec fn initial_signatures(tenants: Seq<AccountId>, lead: AccountId) -> Seq<
    (AccountId, bool),
> {
    Seq::new(tenants.len(), |i: int| (tenants[i], tenants.len() == 1 || tenants[i] == lead))
}

/// The list after `who` has signed: every entry of `who` is signed, every
/// other entry is as it was.
pub open spec fn signed_by(signatures: Seq<(AccountId, bool)>, who: AccountId) -> Seq<
    (AccountId, bool),
> {
    Seq::new(
        signatures.len(),
        |i: int| (signatures[i].0, signatures[i].1 || signatures[i].0 == who),
    )
}

/// Whether every entry of the list is signed.
pub open spec fn every_entry_signed(signatures: Seq<(AccountId, bool)>) -> bool {
    forall|i: int| 0 <= i < signatures.len() ==> (#[trigger] signatures[i]).1
}

/// Whether `who` has an entry in the list.
pub open spec fn is_listed(signatures: Seq<(AccountId, bool)>, who: AccountId) -> bool {
    exists|i: int| 0 <= i < signatures.len() && (#[trigger] signatures[i]).0 == who
}

/// Whether the list names exactly `tenants`, entry by entry.
pub open spec fn signatures_match(
    signatures: Seq<(AccountId, bool)>,
    tenants: Seq<AccountId>,
) -> bool {
    &&& signatures.len() == tenants.len()
    &&& forall|i: int| 0 <= i < signatures.len() ==> (#[trigger] signatures[i]).0 == tenants[i]
}

/// Builds the co-signature list of a fresh offer.
pub fn initial_signature_list(tenants: &Vec<AccountId>, lead: AccountId) -> (pairs: Vec<
    (AccountId, bool),
>)
    ensures
        pairs@ == initial_signatures(tenants@, lead),
{
    let solo = tenants.len() == 1;
    let mut pairs: Vec<(AccountId, bool)> = Vec::new();
    let mut i: usize = 0;
    while i < tenants.len()
        invariant
            i <= tenants.len(),
            solo == (tenants@.len() == 1),
            pairs@.len() == i,
            forall|j: int|
                0 <= j < i ==> pairs@[j] == (tenants@[j], tenants@.len() == 1 || tenants@[j] == lead),
        decreases tenants.len() - i,
    {
        let tenant = tenants[i];
        pairs.push((tenant, solo || tenant == lead));
        i += 1;
    }
    pairs
}

/// Signs every entry of `who`; a list without such an entry comes back as it was.
pub fn sign_entries(signatures: &Vec<(AccountId, bool)>, who: AccountId) -> (pairs: Vec<
    (AccountId, bool),
>)
    ensures
        pairs@ == signed_by(signatures@, who),
{
    let mut pairs: Vec<(AccountId, bool)> = Vec::new();
    let mut i: usize = 0;
    while i < signatures.len()
        invariant
            i <= signatures.len(),
            pairs@.len() == i,
            forall|j: int|
                0 <= j < i ==> pairs@[j] == (
                    signatures@[j].0,
                    signatures@[j].1 || signatures@[j].0 == who,
                ),
        decreases signatures.len() - i,
    {
        let entry = signatures[i];
        pairs.push((entry.0, entry.1 || entry.0 == who));
        i += 1;
    }
    pairs
}

/// Tells whether every entry of the list is signed.
pub fn all_entries_signed(signatures: &Vec<(AccountId, bool)>) -> (all: bool)
    ensures
        all == every_entry_signed(signatures@),
{
    let mut i: usize = 0;
    while i < signatures.len()
        invariant
            i <= signatures.len(),
            forall|j: int| 0 <= j < i ==> (#[trigger] signatures@[j]).1,
        decreases signatures.len() - i,
    {
        if !signatures[i].1 {
            return false;
        }
        i += 1;
    }
    true
}

/// A signer without an entry leaves the list as it was.
pub proof fn lemma_unlisted_signer_changes_nothing(
    signatures: Seq<(AccountId, bool)>,
    who: AccountId,
)
    requires
        !is_listed(signatures, who),
    ensures
        signed_by(signatures, who) == signatures,
{
    assert(signed_by(signatures, who) =~= signatures);
}

} // verus!
