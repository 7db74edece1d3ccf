//! The fungible ledger that offers are settled on.
//!
//! Every account has a free balance. A hold moves an amount out of the free
//! balance and keeps it under a tag made of the account and the reason; funds
//! on hold cannot be spent until they are released. The marketplace shares the
//! ledger with whoever else uses it and reaches it only through the named
//! operations below.

use crate::types::{AccountId, Balance, OfferId};
use std::collections::BTreeMap;
use vstd::prelude::*;

verus! {

/// Why funds are on hold.
#[derive(Clone, Copy, Debug, PartialEq, Eq, Structural)]
pub enum FreezeReason {
    /// They back the offer with this id.
    Offer(OfferId),
}

/// Whether a transfer may empty the account it takes from.
#[derive(Clone, Copy, Debug, PartialEq, Eq, Structural)]
pub enum Preservation {
    /// The account may be left with anything, nothing included.
    Expendable,
    /// What is taken must leave the minimum balance in the account.
    Protect,
    /// What is taken must leave the minimum balance in the account.
    Preserve,
}

/// Why the ledger refused an operation. A refused operation changes nothing.
#[derive(Clone, Copy, Debug, PartialEq, Eq, Structural)]
pub enum LedgerError {
    /// There is not as much in the free balance as was to go on hold.
    FundsUnavailable,
    /// There is not as much in the free balance as was to be paid; what is on
    /// hold stays frozen until it is released.
    Frozen,
    /// The payment would leave the account with less than the minimum
    /// balance.
    NotExpendable,
    /// A balance would exceed what the ledger can count.
    Overflow,
}

/// The ledger as mathematics. Both maps are total: an account that was never
/// seen has a free balance of zero, a tag that was never used holds zero.
#[verifier::ext_equal]
pub struct LedgerView {
    pub minimum_balance: Balance,
    pub free: Map<AccountId, Balance>,
    pub held: Map<(AccountId, FreezeReason), Balance>,
}

impl LedgerView {
    /// The ledger without funds.
    pub open spec fn empty(minimum_balance: Balance) -> LedgerView {
        LedgerView {
            minimum_balance,
            free: Map::total(|who: AccountId| 0),
            held: Map::total(|tag: (AccountId, FreezeReason)| 0),
        }
    }

    /// Whether the ledger speaks of every account and of every tag.
    pub open spec fn wf(self) -> bool {
        &&& forall|who: AccountId| #[trigger] self.free.contains_key(who)
        &&& forall|tag: (AccountId, FreezeReason)| #[trigger] self.held.contains_key(tag)
    }

    /// Adds `amount` to the free balance of `who`.
    pub open spec fn mint_into(self, who: AccountId, amount: Balance) -> Result<
        LedgerView,
        LedgerError,
    > {
        if self.free[who] + amount > Balance::MAX {
            Err(LedgerError::Overflow)
        } else {
            Ok(LedgerView { free: self.free.insert(who, (self.free[who] + amount) as Balance), ..self })
        }
    }

    /// Moves `amount` from the free balance of `who` onto the hold tagged
    /// `reason`, on top of what that hold has already.
    pub open spec fn place_hold(self, reason: FreezeReason, who: AccountId, amount: Balance) -> Result<
        LedgerView,
        LedgerError,
    > {
        if self.free[who] < amount {
            Err(LedgerError::FundsUnavailable)
        } else if self.held[(who, reason)] + amount > Balance::MAX {
            Err(LedgerError::Overflow)
        } else {
            Ok(
                LedgerView {
                    free: self.free.insert(who, (self.free[who] - amount) as Balance),
                    held: self.held.insert(
                        (who, reason),
                        (self.held[(who, reason)] + amount) as Balance,
                    ),
                    ..self
                },
            )
        }
    }

    /// Moves all that the hold tagged `reason` has back to the free balance of
    /// `who`.
    pub open spec fn release_hold(self, reason: FreezeReason, who: AccountId) -> Result<
        LedgerView,
        LedgerError,
    > {
        if self.free[who] + self.held[(who, reason)] > Balance::MAX {
            Err(LedgerError::Overflow)
        } else {
            Ok(
                LedgerView {
                    free: self.free.insert(
                        who,
                        (self.free[who] + self.held[(who, reason)]) as Balance,
                    ),
                    held: self.held.insert((who, reason), 0),
                    ..self
                },
            )
        }
    }

    /// Moves `amount` from the free balance of `from` to that of `to`.
    pub open spec fn transfer(
        self,
        from: AccountId,
        to: AccountId,
        amount: Balance,
        preservation: Preservation,
    ) -> Result<LedgerView, LedgerError> {
        if self.free[from] < amount {
            Err(LedgerError::Frozen)
        } else if preservation != Preservation::Expendable && amount > 0 && self.free[from]
            - amount < self.minimum_balance {
            Err(LedgerError::NotExpendable)
        } else if from == to {
            Ok(self)
        } else if self.free[to] + amount > Balance::MAX {
            Err(LedgerError::Overflow)
        } else {
            Ok(
                LedgerView {
                    free: self.free.insert(from, (self.free[from] - amount) as Balance).insert(
                        to,
                        (self.free[to] + amount) as Balance,
                    ),
                    ..self
                },
            )
        }
    }

    /// Releases the hold tagged `reason` of `from`, then pays `amount` from
    /// `from` to `to` without letting `from` fall under the minimum balance.
    pub open spec fn settle(
        self,
        reason: FreezeReason,
        from: AccountId,
        to: AccountId,
        amount: Balance,
    ) -> Result<LedgerView, LedgerError> {
        match self.release_hold(reason, from) {
            Ok(released) => released.transfer(from, to, amount, Preservation::Preserve),
            Err(e) => Err(e),
        }
    }
}

/// What a map says of a key: its entry, or zero where it has none.
pub open spec fn amount_at<K>(entries: Map<K, Balance>, key: K) -> Balance {
    if entries.contains_key(key) {
        entries[key]
    } else {
        0
    }
}

/// The id that a reason carries.
pub open spec fn reason_id(reason: FreezeReason) -> OfferId {
    match reason {
        FreezeReason::Offer(id) => id,
    }
}

/// An in-memory ledger.
pub struct Ledger {
    minimum_balance: Balance,
    free: BTreeMap<AccountId, Balance>,
    holds: BTreeMap<(AccountId, OfferId), Balance>,
}

impl View for Ledger {
    type V = LedgerView;

    closed spec fn view(&self) -> LedgerView {
        LedgerView {
            minimum_balance: self.minimum_balance,
            free: Map::total(|who: AccountId| amount_at(self.free@, who)),
            held: Map::total(
                |tag: (AccountId, FreezeReason)| amount_at(self.holds@, (tag.0, reason_id(tag.1))),
            ),
        }
    }
}

impl Ledger {
    /// The view of a ledger speaks of every account and of every tag.
    pub proof fn lemma_view_is_total(&self)
        ensures
            self@.wf(),
    {
    }

    /// A ledger without funds, on which an account that has to stay alive keeps
    /// at least `minimum_balance`.
    pub fn new(minimum_balance: Balance) -> (ledger: Ledger)
        ensures
            ledger@ == LedgerView::empty(minimum_balance),
    {
        Ledger { minimum_balance, free: BTreeMap::new(), holds: BTreeMap::new() }
    }

    /// The least that an account has to keep to stay alive.
    pub fn minimum_balance(&self) -> (amount: Balance)
        ensures
            amount == self@.minimum_balance,
    {
        self.minimum_balance
    }

    /// The free balance of `who`: what it can spend or put on hold.
    pub fn balance(&self, who: AccountId) -> (amount: Balance)
        ensures
            amount == self@.free[who],
    {
        match self.free.get(&who) {
            Some(amount) => *amount,
            None => 0,
        }
    }

    /// What the hold of `who` tagged `reason` has.
    pub fn balance_on_hold(&self, reason: FreezeReason, who: AccountId) -> (amount: Balance)
        ensures
            amount == self@.held[(who, reason)],
    {
        let FreezeReason::Offer(id) = reason;
        match self.holds.get(&(who, id)) {
            Some(amount) => *amount,
            None => 0,
        }
    }

    /// Creates `amount` in the free balance of `who`.
    pub fn mint_into(&mut self, who: AccountId, amount: Balance) -> (r: Result<(), LedgerError>)
        ensures
            match old(self)@.mint_into(who, amount) {
                Ok(next) => r is Ok && final(self)@ == next,
                Err(e) => r == Err::<(), LedgerError>(e) && final(self)@ == old(self)@,
            },
    {
        let free = self.balance(who);
        match free.checked_add(amount) {
            Some(sum) => {
                self.free.insert(who, sum);
                Ok(())
            },
            None => Err(LedgerError::Overflow),
        }
    }

    /// Puts `amount` of the free balance of `who` on the hold tagged `reason`.
    pub fn place_hold(&mut self, reason: FreezeReason, who: AccountId, amount: Balance) -> (r:
        Result<(), LedgerError>)
        ensures
            match old(self)@.place_hold(reason, who, amount) {
                Ok(next) => r is Ok && final(self)@ == next,
                Err(e) => r == Err::<(), LedgerError>(e) && final(self)@ == old(self)@,
            },
    {
        let free = self.balance(who);
        if free < amount {
            return Err(LedgerError::FundsUnavailable);
        }
        let held = self.balance_on_hold(reason, who);
        let FreezeReason::Offer(id) = reason;
        match held.checked_add(amount) {
            Some(sum) => {
                self.free.insert(who, free - amount);
                self.holds.insert((who, id), sum);
                Ok(())
            },
            None => Err(LedgerError::Overflow),
        }
    }

    /// Releases the hold of `who` tagged `reason` and says how much it had.
    pub fn release_hold(&mut self, reason: FreezeReason, who: AccountId) -> (r: Result<
        Balance,
        LedgerError,
    >)
        ensures
            match old(self)@.release_hold(reason, who) {
                Ok(next) => r == Ok::<Balance, LedgerError>(old(self)@.held[(who, reason)])
                    && final(self)@ == next,
                Err(e) => r == Err::<Balance, LedgerError>(e) && final(self)@ == old(self)@,
            },
    {
        let free = self.balance(who);
        let held = self.balance_on_hold(reason, who);
        let FreezeReason::Offer(id) = reason;
        match free.checked_add(held) {
            Some(sum) => {
                self.free.insert(who, sum);
                self.holds.insert((who, id), 0);
                Ok(held)
            },
            None => Err(LedgerError::Overflow),
        }
    }

    /// Pays `amount` from the free balance of `from` to `to`.
    pub fn transfer(
        &mut self,
        from: AccountId,
        to: AccountId,
        amount: Balance,
        preservation: Preservation,
    ) -> (r: Result<(), LedgerError>)
        ensures
            match old(self)@.transfer(from, to, amount, preservation) {
                Ok(next) => r is Ok && final(self)@ == next,
                Err(e) => r == Err::<(), LedgerError>(e) && final(self)@ == old(self)@,
            },
    {
        let available = self.balance(from);
        if available < amount {
            return Err(LedgerError::Frozen);
        }
        let keeps_alive = match preservation {
            Preservation::Expendable => false,
            Preservation::Protect => true,
            Preservation::Preserve => true,
        };
        if keeps_alive && amount > 0 && available - amount < self.minimum_balance {
            return Err(LedgerError::NotExpendable);
        }
        if from == to {
            return Ok(());
        }
        let there = self.balance(to);
        match there.checked_add(amount) {
            Some(sum) => {
                self.free.insert(from, available - amount);
                self.free.insert(to, sum);
                Ok(())
            },
            None => Err(LedgerError::Overflow),
        }
    }

    /// Releases the hold of `from` tagged `reason` and pays `amount` from `from`
    /// to `to`, keeping `from` alive. Both happen or neither does.
    pub fn settle(&mut self, reason: FreezeReason, from: AccountId, to: AccountId, amount: Balance) -> (r:
        Result<(), LedgerError>)
        ensures
            match old(self)@.settle(reason, from, to, amount) {
                Ok(next) => r is Ok && final(self)@ == next,
                Err(e) => r == Err::<(), LedgerError>(e) && final(self)@ == old(self)@,
            },
    {
        let released = match self.release_hold(reason, from) {
            Ok(amount) => amount,
            Err(e) => {
                return Err(e);
            },
        };
        match self.transfer(from, to, amount, Preservation::Preserve) {
            Ok(()) => Ok(()),
            Err(e) => {
                // Nothing was paid: the released amount goes back on hold, which
                // cannot fail, and the ledger is as it was.
                let back = self.place_hold(reason, from, released);
                assert(back is Ok);
                assert(self@ =~= old(self)@);
                Err(e)
            },
        }
    }
}

} // verus!
