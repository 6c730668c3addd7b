//! Laws of the ledger's rules, each proved of [`verdict`], [`step`] and
//! [`run`] for every ledger and every record.

use crate::account::ClientId;
use crate::ledger::LedgerView;
use crate::rules::{run, step, verdict};
use crate::transaction::{DisputeState, Outcome, RejectReason, TransactionView, TxId};
use vstd::prelude::*;

verus! {

/// A record never breaks the bookkeeping identity: if every account is
/// balanced before it, every account is balanced after it.
pub proof fn lemma_step_keeps_balance(ledger: LedgerView, record: TransactionView)
    requires
        ledger.balanced(),
    ensures
        step(ledger, record).balanced(),
{
}

/// However many records are processed, every account stays balanced.
pub proof fn lemma_run_keeps_balance(ledger: LedgerView, records: Seq<TransactionView>)
    requires
        ledger.balanced(),
    ensures
        run(ledger, records).balanced(),
    decreases records.len(),
{
    if records.len() > 0 {
        lemma_run_keeps_balance(ledger, records.drop_last());
        lemma_step_keeps_balance(run(ledger, records.drop_last()), records.last());
    }
}

/// A record takes a well-formed ledger to a well-formed ledger.
pub proof fn lemma_step_keeps_wf(ledger: LedgerView, record: TransactionView)
    requires
        ledger.wf(),
    ensures
        step(ledger, record).wf(),
{
}

/// Any sequence of records takes a well-formed ledger to a well-formed
/// ledger.
pub proof fn lemma_run_keeps_wf(ledger: LedgerView, records: Seq<TransactionView>)
    requires
        ledger.wf(),
    ensures
        run(ledger, records).wf(),
    decreases records.len(),
{
    if records.len() > 0 {
        lemma_run_keeps_wf(ledger, records.drop_last());
        lemma_step_keeps_wf(run(ledger, records.drop_last()), records.last());
    }
}

/// Every ledger that records have built up from the empty one is well-formed,
/// so each of its accounts is balanced.
pub proof fn lemma_run_from_empty_is_wf(records: Seq<TransactionView>)
    ensures
        run(LedgerView::empty(), records).wf(),
{
    lemma_run_keeps_wf(LedgerView::empty(), records);
}

/// A rejected record changes nothing: no account, no stored transaction.
pub proof fn lemma_rejection_changes_nothing(ledger: LedgerView, record: TransactionView)
    requires
        verdict(ledger, record) is Rejected,
    ensures
        step(ledger, record) == ledger,
{
}

/// A record touches at most the account of its own client and the
/// transaction stored under its own id; every other account and stored
/// transaction stays as it is, and none appears or disappears.
pub proof fn lemma_step_touches_one_account(
    ledger: LedgerView,
    record: TransactionView,
    client_id: ClientId,
    tx_id: TxId,
)
    ensures
        client_id != record.client_id ==> step(ledger, record).accounts.contains_key(client_id)
            == ledger.accounts.contains_key(client_id) && step(ledger, record).accounts[client_id]
            == ledger.accounts[client_id],
        tx_id != record.tx_id ==> step(ledger, record).transactions.contains_key(tx_id)
            == ledger.transactions.contains_key(tx_id) && step(
            ledger,
            record,
        ).transactions[tx_id] == ledger.transactions[tx_id],
{
}

/// An account is never removed: a client that has one keeps it.
pub proof fn lemma_step_keeps_accounts(
    ledger: LedgerView,
    record: TransactionView,
    client_id: ClientId,
)
    requires
        ledger.accounts.contains_key(client_id),
    ensures
        step(ledger, record).accounts.contains_key(client_id),
{
}

/// A dispute, resolution or chargeback changes nothing of a stored
/// transaction but its dispute state.
pub proof fn lemma_dispute_changes_only_state(
    ledger: LedgerView,
    record: TransactionView,
    tx_id: TxId,
)
    requires
        record.type_ is Dispute || record.type_ is Resolve || record.type_ is Chargeback,
        ledger.transactions.contains_key(tx_id),
    ensures
        step(ledger, record).transactions[tx_id] == (TransactionView {
            disputed: step(ledger, record).transactions[tx_id].disputed,
            ..ledger.transactions[tx_id]
        }),
{
}

/// A stored transaction is never removed: an id that is taken stays taken.
pub proof fn lemma_step_keeps_transactions(
    ledger: LedgerView,
    record: TransactionView,
    tx_id: TxId,
)
    requires
        ledger.transactions.contains_key(tx_id),
    ensures
        step(ledger, record).transactions.contains_key(tx_id),
{
}

/// An id that is taken stays taken through any sequence of records.
pub proof fn lemma_run_keeps_transactions(
    ledger: LedgerView,
    records: Seq<TransactionView>,
    tx_id: TxId,
)
    requires
        ledger.transactions.contains_key(tx_id),
    ensures
        run(ledger, records).transactions.contains_key(tx_id),
    decreases records.len(),
{
    if records.len() > 0 {
        lemma_run_keeps_transactions(ledger, records.drop_last(), tx_id);
        lemma_step_keeps_transactions(run(ledger, records.drop_last()), records.last(), tx_id);
    }
}

/// A deposit under an id that is already stored is rejected as a duplicate
/// (or for its missing amount) and changes neither an account nor a stored
/// transaction.
pub proof fn lemma_replayed_deposit_changes_nothing(ledger: LedgerView, record: TransactionView)
    requires
        record.type_ is Deposit,
        ledger.transactions.contains_key(record.tx_id),
    ensures
        verdict(ledger, record) == Outcome::Rejected(
            if record.amount is None {
                RejectReason::MissingAmount
            } else {
                RejectReason::DuplicateTransaction
            },
        ),
        step(ledger, record) == ledger,
{
}

/// Deposits are idempotent: processing the same deposit again, at once or
/// after any other records, leaves the ledger as it is.
pub proof fn lemma_deposit_is_idempotent(
    ledger: LedgerView,
    record: TransactionView,
    between: Seq<TransactionView>,
)
    requires
        record.type_ is Deposit,
    ensures
        step(step(ledger, record), record) == step(ledger, record),
        verdict(ledger, record) is Applied ==> step(run(step(ledger, record), between), record)
            == run(step(ledger, record), between),
{
    if verdict(ledger, record) is Applied {
        lemma_run_keeps_transactions(step(ledger, record), between, record.tx_id);
    }
}

/// A withdrawal is applied only if its amount is at most what is available
/// to the client at that moment; one that asks for more is rejected for
/// insufficient funds and changes nothing.
pub proof fn lemma_withdrawal_needs_funds(ledger: LedgerView, record: TransactionView)
    requires
        record.type_ is Withdraw || record.type_ is Withdrawal,
    ensures
        verdict(ledger, record) is Applied ==> record.amount is Some && record.amount->0
            <= ledger.account_or_zero(record.client_id).available,
        record.amount is Some && record.amount->0 > ledger.account_or_zero(
            record.client_id,
        ).available ==> verdict(ledger, record) == Outcome::Rejected(
            RejectReason::InsufficientFunds,
        ) && step(ledger, record) == ledger,
{
}

/// A dispute, resolution or chargeback that names a transaction which is not
/// stored, or one of another client, is rejected and changes nothing.
pub proof fn lemma_bad_reference_is_rejected(ledger: LedgerView, record: TransactionView)
    requires
        record.type_ is Dispute || record.type_ is Resolve || record.type_ is Chargeback,
        !ledger.transactions.contains_key(record.tx_id) || ledger.transactions[record.tx_id].client_id
            != record.client_id,
    ensures
        verdict(ledger, record) == Outcome::Rejected(
            if ledger.transactions.contains_key(record.tx_id) {
                RejectReason::ClientMismatch
            } else {
                RejectReason::UnknownTransaction
            },
        ),
        step(ledger, record) == ledger,
{
}

/// The dispute lifecycle is strict: a dispute is applied only to a
/// transaction that was never disputed, a resolution or chargeback only to
/// one that is under dispute; the first leaves it disputed, the others
/// closed.
pub proof fn lemma_dispute_lifecycle(ledger: LedgerView, record: TransactionView)
    requires
        record.type_ is Dispute || record.type_ is Resolve || record.type_ is Chargeback,
        verdict(ledger, record) is Applied,
    ensures
        ledger.transactions.contains_key(record.tx_id),
        ledger.transactions[record.tx_id].dispute_state() == (if record.type_ is Dispute {
            DisputeState::Undisputed
        } else {
            DisputeState::Disputed
        }),
        step(ledger, record).transactions[record.tx_id].dispute_state() == (if record.type_
            is Dispute {
            DisputeState::Disputed
        } else {
            DisputeState::Closed
        }),
{
}

/// A chargeback that is applied locks the account of its client and takes
/// the disputed amount out of held and total.
pub proof fn lemma_chargeback_locks(ledger: LedgerView, record: TransactionView)
    requires
        record.type_ is Chargeback,
        verdict(ledger, record) is Applied,
    ensures
        step(ledger, record).accounts.contains_key(record.client_id),
        step(ledger, record).accounts[record.client_id] == ledger.account_or_zero(
            record.client_id,
        ).charge_back(ledger.disputed_amount(record.tx_id)),
        step(ledger, record).accounts[record.client_id].locked,
{
}

/// No record unlocks an account or removes it.
pub proof fn lemma_step_keeps_lock(ledger: LedgerView, record: TransactionView, client_id: ClientId)
    requires
        ledger.accounts.contains_key(client_id),
        ledger.accounts[client_id].locked,
    ensures
        step(ledger, record).accounts.contains_key(client_id),
        step(ledger, record).accounts[client_id].locked,
{
}

/// A locked account stays locked for good, whatever records follow.
pub proof fn lemma_lock_is_permanent(
    ledger: LedgerView,
    records: Seq<TransactionView>,
    client_id: ClientId,
)
    requires
        ledger.accounts.contains_key(client_id),
        ledger.accounts[client_id].locked,
    ensures
        run(ledger, records).accounts.contains_key(client_id),
        run(ledger, records).accounts[client_id].locked,
    decreases records.len(),
{
    if records.len() > 0 {
        lemma_lock_is_permanent(ledger, records.drop_last(), client_id);
        lemma_step_keeps_lock(run(ledger, records.drop_last()), records.last(), client_id);
    }
}

/// Only a chargeback locks: if an account is locked after a record and was
/// not before, the record is a chargeback of that client that was applied.
pub proof fn lemma_only_chargeback_locks(
    ledger: LedgerView,
    record: TransactionView,
    client_id: ClientId,
)
    requires
        !ledger.account_or_zero(client_id).locked,
        step(ledger, record).account_or_zero(client_id).locked,
    ensures
        record.type_ is Chargeback,
        record.client_id == client_id,
        verdict(ledger, record) is Applied,
{
}

/// Of the records that drive a dispute, only the chargeback touches a total:
/// disputes and resolutions move funds between available and held and leave
/// every total as it is.
pub proof fn lemma_only_chargeback_changes_total(
    ledger: LedgerView,
    record: TransactionView,
    client_id: ClientId,
)
    requires
        record.type_ is Dispute || record.type_ is Resolve || record.type_ is Chargeback,
        step(ledger, record).account_or_zero(client_id).total != ledger.account_or_zero(
            client_id,
        ).total,
    ensures
        record.type_ is Chargeback,
        record.client_id == client_id,
        verdict(ledger, record) is Applied,
{
}

} // verus!
