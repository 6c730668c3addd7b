//! Storage for accounts and transactions, indexed by their ids.

use crate::account::{Account, AccountView, ClientId};
use crate::transaction::{Transaction, TransactionView, TxId};
use std::collections::hash_map::Entry;
use std::collections::HashMap;
use vstd::prelude::*;
use vstd::std_specs::iter::IteratorSpec;

verus! {

broadcast use vstd::std_specs::hash::group_hash_axioms;

/// What a ledger holds: every account by its client, and every stored
/// transaction by its id.
#[verifier::ext_equal]
pub struct LedgerView {
    pub accounts: Map<ClientId, AccountView>,
    pub transactions: Map<TxId, TransactionView>,
}

/// The accounts and the stored transactions. A plain store: it keeps what it
/// is given and enforces no rule of its own.
#[derive(Debug)]
pub struct Ledger {
    accounts: HashMap<ClientId, Account>,
    transactions: HashMap<TxId, Transaction>,
}

impl View for Ledger {
    type V = LedgerView;

    closed spec fn view(&self) -> LedgerView {
        LedgerView {
            accounts: self.accounts@.map_values(|a: Account| a@),
            transactions: self.transactions@.map_values(|t: Transaction| t@),
        }
    }
}

impl Default for Ledger {
    /// A ledger without accounts or transactions.
    fn default() -> (ledger: Ledger)
        ensures
            ledger@.accounts == Map::<ClientId, AccountView>::empty(),
            ledger@.transactions == Map::<TxId, TransactionView>::empty(),
    {
        Ledger::new()
    }
}

impl Ledger {
    /// A ledger without accounts or transactions.
    pub fn new() -> (ledger: Ledger)
        ensures
            ledger@.accounts == Map::<ClientId, AccountView>::empty(),
            ledger@.transactions == Map::<TxId, TransactionView>::empty(),
    {
        Ledger { accounts: HashMap::new(), transactions: HashMap::new() }
    }

    /// The account of `client_id`; a zeroed one is inserted first if the
    /// client has none yet.
    pub fn get_or_create_account(&mut self, client_id: ClientId) -> (account: &mut Account)
        ensures
            account@ == (if old(self)@.accounts.contains_key(client_id) {
                old(self)@.accounts[client_id]
            } else {
                AccountView::zero(client_id)
            }),
            final(self)@.accounts == old(self)@.accounts.insert(client_id, final(account)@),
            final(self)@.transactions == old(self)@.transactions,
    {
        self.accounts.entry(client_id).or_insert(Account::new(client_id))
    }

    /// The account of `client_id`, if there is one.
    pub fn get_account(&self, client_id: ClientId) -> (account: Option<&Account>)
        ensures
            account is Some <==> self@.accounts.contains_key(client_id),
            account matches Some(a) ==> a@ == self@.accounts[client_id],
    {
        self.accounts.get(&client_id)
    }

    /// Whether a transaction is stored under `tx_id`.
    pub fn has_transaction(&self, tx_id: TxId) -> (found: bool)
        ensures
            found == self@.transactions.contains_key(tx_id),
    {
        self.transactions.contains_key(&tx_id)
    }

    /// The transaction stored under `tx_id`, if there is one.
    pub fn get_transaction(&self, tx_id: TxId) -> (tx: Option<&Transaction>)
        ensures
            tx is Some <==> self@.transactions.contains_key(tx_id),
            tx matches Some(t) ==> t@ == self@.transactions[tx_id],
    {
        self.transactions.get(&tx_id)
    }

    /// The transaction stored under `tx_id`, if there is one, for changing it
    /// in place.
    pub fn get_transaction_mut(&mut self, tx_id: TxId) -> (tx: Option<&mut Transaction>)
        ensures
            tx is Some <==> old(self)@.transactions.contains_key(tx_id),
            final(self)@.accounts == old(self)@.accounts,
            match tx {
                Some(t) => t@ == old(self)@.transactions[tx_id]
                    && final(self)@.transactions == old(self)@.transactions.insert(tx_id, final(t)@),
                None => final(self)@.transactions == old(self)@.transactions,
            },
    {
        match self.transactions.entry(tx_id) {
            Entry::Occupied(entry) => Some(entry.into_mut()),
            Entry::Vacant(_) => None,
        }
    }

    /// A copy of every account, each client's once, in no particular order.
    pub fn accounts(&self) -> (accounts: Vec<Account>)
        ensures
            exists|clients: Seq<ClientId>|
                {
                    &&& clients.no_duplicates()
                    &&& clients.to_set() == self@.accounts.dom()
                    &&& clients.len() == accounts@.len()
                    &&& forall|i: int|
                        0 <= i < clients.len() ==> accounts@[i]@ == #[trigger] self@.accounts[clients[i]]
                },
    {
        let mut accounts: Vec<Account> = Vec::new();
        let iter = self.accounts.iter();
        let ghost entries = iter.remaining();
        for entry in it: iter
            invariant
                it.seq() == entries,
                accounts@.len() == it.index(),
                forall|i: int| 0 <= i < accounts@.len() ==> accounts@[i] == *entries[i].1,
        {
            accounts.push(*entry.1);
        }
        proof {
            let clients = Seq::new(entries.len(), |i: int| *entries[i].0);
            assert forall|i: int, j: int|
                0 <= i < clients.len() && 0 <= j < clients.len() && i != j implies clients[i]
                != clients[j] by {
                if clients[i] == clients[j] {
                    assert(self.accounts@.contains_key(*entries[i].0));
                    assert(self.accounts@.contains_key(*entries[j].0));
                    assert(entries[i].1 == entries[j].1);
                    assert(entries[i] == entries[j]);
                }
            }
            assert forall|client_id: ClientId|
                self@.accounts.dom().contains(client_id) implies clients.to_set().contains(
                client_id,
            ) by {
                let entry = (&client_id, &self.accounts@[client_id]);
                assert(entries.contains(entry));
                let i = choose|i: int| 0 <= i < entries.len() && entries[i] == entry;
                assert(clients[i] == client_id);
            }
            assert(clients.to_set() =~= self@.accounts.dom());
        }
        accounts
    }

    /// Stores `tx` under its id, in place of any transaction stored there
    /// before.
    pub fn insert_transaction(&mut self, tx: Transaction)
        ensures
            final(self)@.transactions == old(self)@.transactions.insert(tx.tx_id, tx@),
            final(self)@.accounts == old(self)@.accounts,
    {
        self.transactions.insert(tx.tx_id, tx);
    }
}

} // verus!
