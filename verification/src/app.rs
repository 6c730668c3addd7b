//! The transaction processor: it takes records one at a time, in order, and
//! books each to the ledger or rejects it.

use crate::account::{Account, ClientId};
use crate::amount::Amount;
use crate::ledger::{Ledger, LedgerView};
use crate::laws::lemma_step_keeps_wf;
use crate::rules::{outcomes, record_views, reference_fault, run, step, verdict};
use crate::transaction::{DisputeState, Outcome, RejectReason, Transaction, TxId, Type};
use vstd::prelude::*;

verus! {

/// The account of `client_id` as the rules see it: the stored one, or a
/// zeroed one where the client has none yet. Nothing is inserted.
fn current_account(ledger: &Ledger, client_id: ClientId) -> (account: Account)
    ensures
        account@ == ledger@.account_or_zero(client_id),
{
    match ledger.get_account(client_id) {
        Some(account) => *account,
        None => Account::new(client_id),
    }
}

/// Books an accepted deposit or withdrawal: the client's account becomes
/// `updated` and the record is stored, not yet disputed.
fn book_funding(ledger: &mut Ledger, record: Transaction, updated: Account)
    ensures
        final(ledger)@.accounts == old(ledger)@.accounts.insert(record.client_id, updated@),
        final(ledger)@.transactions == old(ledger)@.transactions.insert(
            record.tx_id,
            record@.stored(),
        ),
{
    *ledger.get_or_create_account(record.client_id) = updated;
    ledger.insert_transaction(Transaction { disputed: None, ..record });
}

/// Takes a deposit.
fn apply_deposit(ledger: &mut Ledger, record: Transaction) -> (outcome: Outcome)
    requires
        record.type_ is Deposit,
    ensures
        outcome == verdict(old(ledger)@, record@),
        final(ledger)@ == step(old(ledger)@, record@),
{
    let amount = match record.amount {
        Some(amount) => amount,
        None => return Outcome::Rejected(RejectReason::MissingAmount),
    };
    if ledger.has_transaction(record.tx_id) {
        return Outcome::Rejected(RejectReason::DuplicateTransaction);
    }
    match current_account(ledger, record.client_id).deposit(amount) {
        Some(updated) => {
            book_funding(ledger, record, updated);
            Outcome::Applied
        },
        None => Outcome::Rejected(RejectReason::BalanceOverflow),
    }
}

/// Takes a withdrawal.
fn apply_withdrawal(ledger: &mut Ledger, record: Transaction) -> (outcome: Outcome)
    requires
        record.type_ is Withdraw || record.type_ is Withdrawal,
    ensures
        outcome == verdict(old(ledger)@, record@),
        final(ledger)@ == step(old(ledger)@, record@),
{
    let amount = match record.amount {
        Some(amount) => amount,
        None => return Outcome::Rejected(RejectReason::MissingAmount),
    };
    let account = current_account(ledger, record.client_id);
    if amount.exceeds(account.available) {
        return Outcome::Rejected(RejectReason::InsufficientFunds);
    }
    match account.withdraw(amount) {
        Some(updated) => {
            book_funding(ledger, record, updated);
            Outcome::Applied
        },
        None => Outcome::Rejected(RejectReason::BalanceOverflow),
    }
}

/// Looks up the transaction that a dispute, resolution or chargeback names
/// and checks that the record may act on it.
fn referenced_transaction(ledger: &Ledger, record: &Transaction) -> (r: Result<
    Transaction,
    RejectReason,
>)
    requires
        !record.type_.is_stored_kind(),
    ensures
        match r {
            Ok(stored) => reference_fault(ledger@, record@) is None && stored@
                == ledger@.transactions[record.tx_id],
            Err(reason) => reference_fault(ledger@, record@) == Some(reason),
        },
{
    let stored = match ledger.get_transaction(record.tx_id) {
        Some(stored) => *stored,
        None => return Err(RejectReason::UnknownTransaction),
    };
    let needed = match record.type_ {
        Type::Dispute => DisputeState::Undisputed,
        _ => DisputeState::Disputed,
    };
    if stored.client_id != record.client_id {
        Err(RejectReason::ClientMismatch)
    } else if stored.dispute_state() != needed {
        Err(RejectReason::InvalidDisputeState)
    } else {
        Ok(stored)
    }
}

/// Takes a dispute, a resolution or a chargeback.
fn apply_dispute_step(ledger: &mut Ledger, record: Transaction) -> (outcome: Outcome)
    requires
        !record.type_.is_stored_kind(),
    ensures
        outcome == verdict(old(ledger)@, record@),
        final(ledger)@ == step(old(ledger)@, record@),
{
    let stored = match referenced_transaction(ledger, &record) {
        Ok(stored) => stored,
        Err(reason) => return Outcome::Rejected(reason),
    };
    let amount = match stored.amount {
        Some(amount) => amount,
        None => Amount::zero(),
    };
    let account = current_account(ledger, record.client_id);
    let (moved, disputed) = match record.type_ {
        Type::Dispute => (account.hold(amount), true),
        Type::Resolve => (account.release(amount), false),
        _ => (account.charge_back(amount), false),
    };
    match moved {
        Some(updated) => {
            *ledger.get_or_create_account(record.client_id) = updated;
            match ledger.get_transaction_mut(record.tx_id) {
                Some(stored) => stored.disputed = Some(disputed),
                None => {},
            }
            Outcome::Applied
        },
        None => Outcome::Rejected(RejectReason::BalanceOverflow),
    }
}

/// Applies one record to a ledger.
fn apply(ledger: &mut Ledger, record: Transaction) -> (outcome: Outcome)
    ensures
        outcome == verdict(old(ledger)@, record@),
        final(ledger)@ == step(old(ledger)@, record@),
{
    match record.type_ {
        Type::Deposit => apply_deposit(ledger, record),
        Type::Withdraw | Type::Withdrawal => apply_withdrawal(ledger, record),
        Type::Dispute | Type::Resolve | Type::Chargeback => apply_dispute_step(ledger, record),
    }
}

/// The transaction processor with the ledger it owns.
///
/// An `App` starts empty and changes only by processing records, so its
/// ledger is always well-formed: in particular every account satisfies
/// `total == available + held`.
#[derive(Debug)]
pub struct App {
    ledger: Ledger,
}

impl View for App {
    type V = LedgerView;

    closed spec fn view(&self) -> LedgerView {
        self.ledger@
    }
}

impl Default for App {
    /// A processor with an empty ledger.
    fn default() -> (app: App)
        ensures
            app@ == LedgerView::empty(),
    {
        App::new()
    }
}

impl App {
    /// The ledger of every `App` is well-formed.
    #[verifier::type_invariant]
    pub open spec fn well_formed(self) -> bool {
        self@.wf()
    }

    /// A processor with an empty ledger.
    pub fn new() -> (app: App)
        ensures
            app@ == LedgerView::empty(),
    {
        App { ledger: Ledger::new() }
    }

    /// Processes one record: books it to the ledger, or rejects it and leaves
    /// the ledger as it was.
    ///
    /// No rejection is final for the run, and a locked account is not closed:
    /// records for it are processed like any other.
    pub fn process_transaction(&mut self, tx: Transaction) -> (outcome: Outcome)
        ensures
            outcome == verdict(old(self)@, tx@),
            final(self)@ == step(old(self)@, tx@),
            final(self)@.wf(),
    {
        proof {
            use_type_invariant(&*self);
            lemma_step_keeps_wf(self@, tx@);
        }
        let mut ledger = Ledger::new();
        std::mem::swap(&mut self.ledger, &mut ledger);
        let outcome = apply(&mut ledger, tx);
        self.ledger = ledger;
        outcome
    }

    /// Processes a batch of records in the order given and reports what
    /// became of each.
    pub fn process_transactions(&mut self, txs: &[Transaction]) -> (results: Vec<Outcome>)
        ensures
            final(self)@ == run(old(self)@, record_views(txs@)),
            results@ == outcomes(old(self)@, record_views(txs@)),
            final(self)@.wf(),
    {
        proof {
            use_type_invariant(&*self);
        }
        let ghost records = record_views(txs@);
        let mut results: Vec<Outcome> = Vec::new();
        let mut i: usize = 0;
        while i < txs.len()
            invariant
                i <= txs.len(),
                records == record_views(txs@),
                self@ == run(old(self)@, records.take(i as int)),
                self@.wf(),
                results@.len() == i,
                forall|k: int|
                    0 <= k < i ==> results@[k] == verdict(
                        run(old(self)@, records.take(k)),
                        #[trigger] records[k],
                    ),
            decreases txs.len() - i,
        {
            let outcome = self.process_transaction(txs[i]);
            proof {
                let next = records.take(i + 1);
                assert(next.drop_last() == records.take(i as int));
                assert(next.last() == txs[i as int]@);
            }
            results.push(outcome);
            i += 1;
        }
        proof {
            assert(records.take(i as int) == records);
        }
        results
    }

    /// The account of `client_id`, if any record has been booked to that
    /// client.
    pub fn account(&self, client_id: ClientId) -> (account: Option<Account>)
        ensures
            account is Some <==> self@.accounts.contains_key(client_id),
            account matches Some(a) ==> a@ == self@.accounts[client_id] && a.client_id
                == client_id && a@.balanced(),
    {
        proof {
            use_type_invariant(self);
        }
        match self.ledger.get_account(client_id) {
            Some(account) => Some(*account),
            None => None,
        }
    }

    /// Whether a deposit or withdrawal is stored under `tx_id`.
    pub fn has_transaction(&self, tx_id: TxId) -> (found: bool)
        ensures
            found == self@.transactions.contains_key(tx_id),
    {
        self.ledger.has_transaction(tx_id)
    }

    /// The deposit or withdrawal stored under `tx_id`, if there is one.
    pub fn transaction(&self, tx_id: TxId) -> (tx: Option<Transaction>)
        ensures
            tx is Some <==> self@.transactions.contains_key(tx_id),
            tx matches Some(t) ==> t@ == self@.transactions[tx_id],
    {
        match self.ledger.get_transaction(tx_id) {
            Some(tx) => Some(*tx),
            None => None,
        }
    }

    /// The final state of every account, each client's once, in no
    /// particular order.
    pub fn accounts(&self) -> (accounts: Vec<Account>)
        ensures
            accounts@.len() == self@.accounts.len(),
            forall|i: int|
                0 <= i < accounts@.len() ==> {
                    let account = #[trigger] accounts@[i];
                    &&& self@.accounts.contains_key(account.client_id)
                    &&& account@ == self@.accounts[account.client_id]
                    &&& account@.balanced()
                },
            forall|i: int, j: int|
                0 <= i < j < accounts@.len() ==> (#[trigger] accounts@[i]).client_id
                    != (#[trigger] accounts@[j]).client_id,
    {
        proof {
            use_type_invariant(self);
        }
        let accounts = self.ledger.accounts();
        proof {
            let clients = choose|clients: Seq<ClientId>|
                {
                    &&& clients.no_duplicates()
                    &&& clients.to_set() == self@.accounts.dom()
                    &&& clients.len() == accounts@.len()
                    &&& forall|i: int|
                        0 <= i < clients.len() ==> accounts@[i]@ == #[trigger] self@.accounts[clients[i]]
                };
            assert forall|i: int| 0 <= i < accounts@.len() implies (#[trigger] accounts@[i]).client_id
                == clients[i] by {
                assert(clients.to_set().contains(clients[i]));
                assert(accounts@[i]@ == self@.accounts[clients[i]]);
            }
            clients.unique_seq_to_set();
        }
        accounts
    }
}

} // verus!
