//! The rules of the ledger as a state machine over its mathematical model.
//!
//! [`verdict`] says whether a record is applied or why it is rejected,
//! [`step`] says what the ledger is afterwards, and [`run`] folds a sequence
//! of records. The executable processor is verified against these functions.

use crate::account::{AccountView, ClientId};
use crate::ledger::LedgerView;
use crate::transaction::{
    DisputeState, Outcome, RejectReason, Transaction, TransactionView, TxId, Type,
};
use vstd::prelude::*;

verus! {

impl Type {
    /// Whether records of this kind are kept for later reference.
    pub open spec fn is_stored_kind(self) -> bool {
        self is Deposit || self is Withdraw || self is Withdrawal
    }

    /// The dispute state that a dispute, resolution or chargeback needs the
    /// referenced transaction to be in.
    pub open spec fn needed_state(self) -> DisputeState {
        if self is Dispute {
            DisputeState::Undisputed
        } else {
            DisputeState::Disputed
        }
    }

    /// The dispute state in which a dispute, resolution or chargeback leaves
    /// the referenced transaction.
    pub open spec fn resulting_state(self) -> DisputeState {
        if self is Dispute {
            DisputeState::Disputed
        } else {
            DisputeState::Closed
        }
    }
}

impl LedgerView {
    /// The ledger before any record.
    pub open spec fn empty() -> LedgerView {
        LedgerView { accounts: Map::empty(), transactions: Map::empty() }
    }

    /// The account of `client_id`, or a zeroed one where the client has none.
    pub open spec fn account_or_zero(self, client_id: ClientId) -> AccountView {
        if self.accounts.contains_key(client_id) {
            self.accounts[client_id]
        } else {
            AccountView::zero(client_id)
        }
    }

    /// The amount that a dispute over the transaction stored under `tx_id`
    /// moves between the balances of its client.
    pub open spec fn disputed_amount(self, tx_id: TxId) -> int {
        self.transactions[tx_id].amount_or_zero()
    }
}

/// The account of the record's client as it is once the record is applied.
pub open spec fn account_after(ledger: LedgerView, record: TransactionView) -> AccountView {
    let account = ledger.account_or_zero(record.client_id);
    match record.type_ {
        Type::Deposit => account.deposit(record.amount_or_zero()),
        Type::Withdraw | Type::Withdrawal => account.withdraw(record.amount_or_zero()),
        Type::Dispute => account.hold(ledger.disputed_amount(record.tx_id)),
        Type::Resolve => account.release(ledger.disputed_amount(record.tx_id)),
        Type::Chargeback => account.charge_back(ledger.disputed_amount(record.tx_id)),
    }
}

/// The transaction stored under the record's id once the record is applied:
/// the record itself for a deposit or withdrawal, else the referenced
/// transaction in its new dispute state.
pub open spec fn transaction_after(ledger: LedgerView, record: TransactionView) -> TransactionView {
    if record.type_.is_stored_kind() {
        record.stored()
    } else {
        ledger.transactions[record.tx_id].with_state(record.type_.resulting_state())
    }
}

/// Why a deposit or withdrawal is rejected before its effect on the balances
/// is looked at, if it is.
pub open spec fn funding_fault(ledger: LedgerView, record: TransactionView) -> Option<RejectReason> {
    if record.amount is None {
        Some(RejectReason::MissingAmount)
    } else if record.type_ is Deposit {
        if ledger.transactions.contains_key(record.tx_id) {
            Some(RejectReason::DuplicateTransaction)
        } else {
            None
        }
    } else if record.amount->0 > ledger.account_or_zero(record.client_id).available {
        Some(RejectReason::InsufficientFunds)
    } else {
        None
    }
}

/// Why a dispute, resolution or chargeback cannot act on the transaction it
/// references, if it cannot.
pub open spec fn reference_fault(ledger: LedgerView, record: TransactionView) -> Option<RejectReason> {
    if !ledger.transactions.contains_key(record.tx_id) {
        Some(RejectReason::UnknownTransaction)
    } else if ledger.transactions[record.tx_id].client_id != record.client_id {
        Some(RejectReason::ClientMismatch)
    } else if ledger.transactions[record.tx_id].dispute_state() != record.type_.needed_state() {
        Some(RejectReason::InvalidDisputeState)
    } else {
        None
    }
}

/// Whether `record` is applied to `ledger`, or why not.
///
/// A deposit needs an amount and an id under which nothing is stored yet. A
/// withdrawal needs an amount that is no more than what is available to its
/// client; its id may be taken, and the withdrawal then takes the place of
/// what was stored. A dispute needs a stored transaction of the same client
/// that was never disputed; a resolution or chargeback needs one that is under
/// dispute. Last, the balances that the record leads to must be ones that an
/// amount can hold. The first of these that fails is the reason given.
pub open spec fn verdict(ledger: LedgerView, record: TransactionView) -> Outcome {
    let fault = if record.type_.is_stored_kind() {
        funding_fault(ledger, record)
    } else {
        reference_fault(ledger, record)
    };
    match fault {
        Some(reason) => Outcome::Rejected(reason),
        None => if account_after(ledger, record).in_range() {
            Outcome::Applied
        } else {
            Outcome::Rejected(RejectReason::BalanceOverflow)
        },
    }
}

/// The ledger after `record`: unchanged where the record is rejected, else
/// with the client's account and the transaction under the record's id
/// replaced by their new values.
pub open spec fn step(ledger: LedgerView, record: TransactionView) -> LedgerView {
    if verdict(ledger, record) is Applied {
        LedgerView {
            accounts: ledger.accounts.insert(record.client_id, account_after(ledger, record)),
            transactions: ledger.transactions.insert(
                record.tx_id,
                transaction_after(ledger, record),
            ),
        }
    } else {
        ledger
    }
}

/// The ledger after all of `records`, taken in order.
pub open spec fn run(ledger: LedgerView, records: Seq<TransactionView>) -> LedgerView
    decreases records.len(),
{
    if records.len() == 0 {
        ledger
    } else {
        step(run(ledger, records.drop_last()), records.last())
    }
}

/// The records of a batch as the rules see them.
pub open spec fn record_views(records: Seq<Transaction>) -> Seq<TransactionView> {
    records.map_values(|record: Transaction| record@)
}

/// The outcome of each of `records` when they are taken in order.
pub open spec fn outcomes(ledger: LedgerView, records: Seq<TransactionView>) -> Seq<Outcome> {
    Seq::new(records.len(), |i: int| verdict(run(ledger, records.take(i)), records[i]))
}

impl LedgerView {
    /// Every account satisfies the bookkeeping identity.
    pub open spec fn balanced(self) -> bool {
        forall|client_id: ClientId| #[trigger]
            self.accounts.contains_key(client_id) ==> self.accounts[client_id].balanced()
    }

    /// What holds of every ledger that records have built up from the empty
    /// one: accounts and transactions are filed under their own ids, every
    /// account is balanced, and every stored transaction is a deposit or a
    /// withdrawal with an amount whose client has an account.
    pub open spec fn wf(self) -> bool {
        &&& self.balanced()
        &&& forall|client_id: ClientId| #[trigger]
            self.accounts.contains_key(client_id) ==> self.accounts[client_id].client_id
                == client_id
        &&& forall|tx_id: TxId| #[trigger]
            self.transactions.contains_key(tx_id) ==> {
                let stored = self.transactions[tx_id];
                &&& stored.tx_id == tx_id
                &&& stored.type_.is_stored_kind()
                &&& stored.amount is Some
                &&& self.accounts.contains_key(stored.client_id)
            }
    }
}

} // verus!
