//! Transaction records as they arrive and as the ledger keeps them.

use crate::account::ClientId;
use crate::amount::Amount;
use vstd::prelude::*;

verus! {

/// Identifies a deposit or withdrawal.
pub type TxId = u32;

/// The kind of a transaction record.
#[derive(Clone, Copy, Debug, PartialEq, Eq, Structural)]
pub enum Type {
    /// Ends a dispute by taking the disputed funds away and locking the
    /// account.
    Chargeback,
    /// Credits funds to the client.
    Deposit,
    /// Claims that a stored transaction was in error; its funds are held.
    Dispute,
    /// Ends a dispute by releasing the held funds.
    Resolve,
    /// A withdrawal, under its shorter keyword.
    Withdraw,
    /// Debits funds from the client.
    Withdrawal,
}

/// Where a stored transaction stands in the dispute lifecycle.
#[derive(Clone, Copy, Debug, PartialEq, Eq, Structural)]
pub enum DisputeState {
    /// Never disputed.
    Undisputed,
    /// Under dispute: its amount is held.
    Disputed,
    /// The dispute was resolved or charged back.
    Closed,
}

/// A financial transaction.
///
/// Records arrive in chronological order, but their ids need not be ordered.
/// Deposits and withdrawals that the ledger accepts are kept for later
/// reference; disputes, resolutions and chargebacks name such a kept
/// transaction by `tx_id` and carry no amount of their own.
#[derive(Clone, Copy, Debug, PartialEq, Eq)]
pub struct Transaction {
    pub type_: Type,
    pub client_id: ClientId,
    pub tx_id: TxId,
    /// Present on deposits and withdrawals.
    pub amount: Option<Amount>,
    /// Absent until disputed, `Some(true)` while under dispute, `Some(false)`
    /// once the dispute is over.
    pub disputed: Option<bool>,
}

/// A transaction with its amount as a whole number of ten-thousandths.
pub struct TransactionView {
    pub type_: Type,
    pub client_id: ClientId,
    pub tx_id: TxId,
    pub amount: Option<int>,
    pub disputed: Option<bool>,
}

impl View for Transaction {
    type V = TransactionView;

    open spec fn view(&self) -> TransactionView {
        TransactionView {
            type_: self.type_,
            client_id: self.client_id,
            tx_id: self.tx_id,
            amount: match self.amount {
                Some(a) => Some(a@),
                None => None,
            },
            disputed: self.disputed,
        }
    }
}

impl TransactionView {
    /// The dispute state that the `disputed` field encodes.
    pub open spec fn dispute_state(self) -> DisputeState {
        match self.disputed {
            None => DisputeState::Undisputed,
            Some(true) => DisputeState::Disputed,
            Some(false) => DisputeState::Closed,
        }
    }

    /// The amount of this transaction, or nothing where it has none.
    pub open spec fn amount_or_zero(self) -> int {
        match self.amount {
            Some(a) => a,
            None => 0,
        }
    }

    /// The record as the ledger keeps it: not yet disputed.
    pub open spec fn stored(self) -> TransactionView {
        TransactionView { disputed: None, ..self }
    }

    /// The same transaction in another dispute state.
    pub open spec fn with_state(self, state: DisputeState) -> TransactionView {
        TransactionView {
            disputed: match state {
                DisputeState::Undisputed => None,
                DisputeState::Disputed => Some(true),
                DisputeState::Closed => Some(false),
            },
            ..self
        }
    }
}

impl Transaction {
    /// Where this transaction stands in the dispute lifecycle.
    pub fn dispute_state(&self) -> (state: DisputeState)
        ensures
            state == self@.dispute_state(),
    {
        match self.disputed {
            None => DisputeState::Undisputed,
            Some(true) => DisputeState::Disputed,
            Some(false) => DisputeState::Closed,
        }
    }
}

/// Why a record was turned away.
#[derive(Clone, Copy, Debug, PartialEq, Eq, Structural)]
pub enum RejectReason {
    /// A deposit reuses the id of a stored transaction.
    DuplicateTransaction,
    /// The referenced transaction is not stored.
    UnknownTransaction,
    /// The referenced transaction belongs to another client.
    ClientMismatch,
    /// The referenced transaction is not in the dispute state that the record
    /// needs.
    InvalidDisputeState,
    /// A withdrawal asks for more than is available.
    InsufficientFunds,
    /// A deposit or withdrawal carries no amount.
    MissingAmount,
    /// A balance would leave the range that an amount can hold.
    BalanceOverflow,
}

/// What became of a record.
#[derive(Clone, Copy, Debug, PartialEq, Eq, Structural)]
pub enum Outcome {
    /// The record took effect.
    Applied,
    /// The record was turned away and the ledger is as it was.
    Rejected(RejectReason),
}

} // verus!
