//! Client accounts and the balance movements a ledger applies to them.

use crate::amount::{fits, Amount};
use vstd::prelude::*;

verus! {

/// Identifies a client.
pub type ClientId = u16;

/// The balances of one client.
#[derive(Clone, Copy, Debug, PartialEq, Eq, Structural)]
pub struct Account {
    pub client_id: ClientId,
    /// Funds the client can use at once: `total - held`.
    pub available: Amount,
    /// Funds frozen while a dispute is open: `total - available`.
    pub held: Amount,
    /// All funds of the client: `available + held`.
    pub total: Amount,
    /// Set once a chargeback has gone through.
    pub locked: bool,
}

/// An account with its balances as whole numbers of ten-thousandths.
pub struct AccountView {
    pub client_id: ClientId,
    pub available: int,
    pub held: int,
    pub total: int,
    pub locked: bool,
}

impl View for Account {
    type V = AccountView;

    open spec fn view(&self) -> AccountView {
        AccountView {
            client_id: self.client_id,
            available: self.available@,
            held: self.held@,
            total: self.total@,
            locked: self.locked,
        }
    }
}

impl AccountView {
    /// The account a client has before anything was booked to it.
    pub open spec fn zero(client_id: ClientId) -> AccountView {
        AccountView { client_id, available: 0, held: 0, total: 0, locked: false }
    }

    /// The bookkeeping identity: the total is what is available plus what is held.
    pub open spec fn balanced(self) -> bool {
        self.total == self.available + self.held
    }

    /// Whether all three balances can be held by an [`Amount`].
    pub open spec fn in_range(self) -> bool {
        fits(self.available) && fits(self.held) && fits(self.total)
    }

    /// New funds arrive: available and total grow by `amount`.
    pub open spec fn deposit(self, amount: int) -> AccountView {
        AccountView { available: self.available + amount, total: self.total + amount, ..self }
    }

    /// Funds leave: available and total shrink by `amount`.
    pub open spec fn withdraw(self, amount: int) -> AccountView {
        AccountView { available: self.available - amount, total: self.total - amount, ..self }
    }

    /// A dispute opens: `amount` moves from available to held.
    pub open spec fn hold(self, amount: int) -> AccountView {
        AccountView { available: self.available - amount, held: self.held + amount, ..self }
    }

    /// A dispute is resolved: `amount` moves back from held to available.
    pub open spec fn release(self, amount: int) -> AccountView {
        AccountView { available: self.available + amount, held: self.held - amount, ..self }
    }

    /// A dispute ends in a chargeback: `amount` leaves held and total, and the
    /// account is locked.
    pub open spec fn charge_back(self, amount: int) -> AccountView {
        AccountView { held: self.held - amount, total: self.total - amount, locked: true, ..self }
    }
}

impl Account {
    /// A fresh account with all balances at zero.
    pub fn new(client_id: ClientId) -> (account: Account)
        ensures
            account@ == AccountView::zero(client_id),
    {
        Account {
            client_id,
            available: Amount::zero(),
            held: Amount::zero(),
            total: Amount::zero(),
            locked: false,
        }
    }

    /// The account after a deposit of `amount`, or `None` when a balance
    /// would leave the range of [`Amount`].
    pub fn deposit(&self, amount: Amount) -> (r: Option<Account>)
        ensures
            r is Some <==> self@.deposit(amount@).in_range(),
            r matches Some(a) ==> a@ == self@.deposit(amount@),
    {
        proof {
            use_type_invariant(self.held);
        }
        match (self.available.checked_add(amount), self.total.checked_add(amount)) {
            (Some(available), Some(total)) => Some(Account { available, total, ..*self }),
            _ => None,
        }
    }

    /// The account after a withdrawal of `amount`, or `None` when a balance
    /// would leave the range of [`Amount`].
    pub fn withdraw(&self, amount: Amount) -> (r: Option<Account>)
        ensures
            r is Some <==> self@.withdraw(amount@).in_range(),
            r matches Some(a) ==> a@ == self@.withdraw(amount@),
    {
        proof {
            use_type_invariant(self.held);
        }
        match (self.available.checked_sub(amount), self.total.checked_sub(amount)) {
            (Some(available), Some(total)) => Some(Account { available, total, ..*self }),
            _ => None,
        }
    }

    /// The account after `amount` was moved from available to held, or `None`
    /// when a balance would leave the range of [`Amount`].
    pub fn hold(&self, amount: Amount) -> (r: Option<Account>)
        ensures
            r is Some <==> self@.hold(amount@).in_range(),
            r matches Some(a) ==> a@ == self@.hold(amount@),
    {
        proof {
            use_type_invariant(self.total);
        }
        match (self.available.checked_sub(amount), self.held.checked_add(amount)) {
            (Some(available), Some(held)) => Some(Account { available, held, ..*self }),
            _ => None,
        }
    }

    /// The account after `amount` was moved back from held to available, or
    /// `None` when a balance would leave the range of [`Amount`].
    pub fn release(&self, amount: Amount) -> (r: Option<Account>)
        ensures
            r is Some <==> self@.release(amount@).in_range(),
            r matches Some(a) ==> a@ == self@.release(amount@),
    {
        proof {
            use_type_invariant(self.total);
        }
        match (self.available.checked_add(amount), self.held.checked_sub(amount)) {
            (Some(available), Some(held)) => Some(Account { available, held, ..*self }),
            _ => None,
        }
    }

    /// The locked account after `amount` was taken out of held and total, or
    /// `None` when a balance would leave the range of [`Amount`].
    pub fn charge_back(&self, amount: Amount) -> (r: Option<Account>)
        ensures
            r is Some <==> self@.charge_back(amount@).in_range(),
            r matches Some(a) ==> a@ == self@.charge_back(amount@),
    {
        proof {
            use_type_invariant(self.available);
        }
        match (self.held.checked_sub(amount), self.total.checked_sub(amount)) {
            (Some(held), Some(total)) => Some(Account { held, total, locked: true, ..*self }),
            _ => None,
        }
    }
}

} // verus!
