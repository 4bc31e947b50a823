//! What holds of every run of the engine, stated over its states and proved.

use crate::account::AccountView;
use crate::engine::{
    id_limit, lemma_frozen_below_nonnegative, lemma_step_keeps_wf, EngineView,
};
use crate::error::TransactionError;
use crate::transaction::TransactionView;
use vstd::prelude::*;

verus! {

/// After any well-formed record, every account is balanced: its total is what is available and
/// what is held together.
pub proof fn lemma_accounts_stay_balanced(state: EngineView, tx: TransactionView, client: u16)
    requires
        state.wf(),
        tx.is_applicable(),
    ensures
        state.step(tx).account(client).balanced(),
{
    lemma_step_keeps_wf(state, tx);
}

/// In a sound state no account holds a negative sum: what is held is what the ledger freezes,
/// and the ledger's amounts are not negative.
pub proof fn lemma_held_is_nonnegative(state: EngineView, client: u16)
    requires
        state.wf(),
    ensures
        state.account(client).held == if state.accounts.contains_key(client) {
            state.frozen_of(client)
        } else {
            0
        },
        state.account(client).held >= 0,
{
    assert forall|u: u32| state.transactions.contains_key(u) implies (
    #[trigger] state.transactions[u]).moved() >= 0 by {
        assert(state.entry_wf(u));
    }
    lemma_frozen_below_nonnegative(state.transactions, client, id_limit());
}

/// A record leaves what is available at or above zero, unless it is a dispute over more than
/// is available.
pub proof fn lemma_available_stays_nonnegative(state: EngineView, tx: TransactionView, client: u16)
    requires
        state.wf(),
        tx.is_applicable(),
        state.account(client).available >= 0,
        tx.variant is Dispute && state.outcome(tx) is Ok ==> state.amount_of(tx) <= state.account(
            tx.client,
        ).available,
    ensures
        state.step(tx).account(client).available >= 0,
{
    if state.outcome(tx) is Ok && !tx.moves_funds() {
        assert(state.entry_wf(tx.tx));
    }
}

/// A locked account answers every record with `LockedAccount`, and the record changes neither
/// an account nor the ledger.
pub proof fn lemma_locked_account_rejects(state: EngineView, tx: TransactionView)
    requires
        state.account(tx.client).locked,
    ensures
        state.outcome(tx) == Err::<(), TransactionError>(TransactionError::LockedAccount),
        state.step(tx) == state,
{
    assert(state.step(tx).accounts =~= state.accounts);
}

/// Once an account is locked it stays locked, whatever records follow.
pub proof fn lemma_lock_is_permanent(state: EngineView, tx: TransactionView, client: u16)
    requires
        state.account(client).locked,
    ensures
        state.step(tx).account(client).locked,
{
}

/// A dispute that is accepted and then resolved leaves the state as it was before the dispute:
/// every balance, the lock and the ledger.
pub proof fn lemma_dispute_then_resolve(
    state: EngineView,
    dispute: TransactionView,
    resolve: TransactionView,
)
    requires
        state.wf(),
        dispute.variant is Dispute,
        resolve.variant is Resolve,
        resolve.client == dispute.client,
        resolve.tx == dispute.tx,
        state.outcome(dispute) is Ok,
    ensures
        state.step(dispute).outcome(resolve) is Ok,
        state.step(dispute).step(resolve) == state,
        !state.step(dispute).step(resolve).account(dispute.client).locked,
{
    let disputed = state.step(dispute);
    let resolved = disputed.step(resolve);
    assert(state.entry_wf(dispute.tx));
    assert(resolved.accounts =~= state.accounts);
    assert(resolved.transactions =~= state.transactions);
}

/// A dispute, a resolution or a chargeback by a client whose account is not locked, about
/// another client's transaction, is answered with `TransactionNotFound` and changes no balance,
/// no lock and no ledger entry.
pub proof fn lemma_foreign_transaction_is_not_found(state: EngineView, tx: TransactionView)
    requires
        !tx.moves_funds(),
        state.transactions.contains_key(tx.tx),
        state.transactions[tx.tx].client != tx.client,
        !state.account(tx.client).locked,
    ensures
        state.outcome(tx) == Err::<(), TransactionError>(TransactionError::TransactionNotFound),
        state.step(tx).transactions == state.transactions,
        forall|c: u16| state.step(tx).account(c) == state.account(c),
{
}

/// A record about a transaction id that the ledger does not hold, by a client whose account
/// is not locked, is answered with `TransactionNotFound` and changes no balance, no lock and no
/// ledger entry.
pub proof fn lemma_unknown_transaction_is_not_found(state: EngineView, tx: TransactionView)
    requires
        !tx.moves_funds(),
        !state.transactions.contains_key(tx.tx),
        !state.account(tx.client).locked,
    ensures
        state.outcome(tx) == Err::<(), TransactionError>(TransactionError::TransactionNotFound),
        state.step(tx).transactions == state.transactions,
        forall|c: u16| state.step(tx).account(c) == state.account(c),
{
}

/// After a deposit or a withdrawal is accepted, a second one under the same transaction id, for
/// an account that is not locked, is answered with `DuplicateTransaction`, and the accounts
/// and the ledger show the first alone.
pub proof fn lemma_no_double_application(
    state: EngineView,
    first: TransactionView,
    second: TransactionView,
)
    requires
        first.moves_funds(),
        second.moves_funds(),
        second.tx == first.tx,
        state.outcome(first) is Ok,
        !state.step(first).account(second.client).locked,
    ensures
        state.step(first).outcome(second) == Err::<(), TransactionError>(
            TransactionError::DuplicateTransaction,
        ),
        state.step(first).step(second).transactions == state.step(first).transactions,
        forall|c: u16| state.step(first).step(second).account(c) == state.step(first).account(c),
{
}

/// A refused record changes no balance, no lock and no ledger entry.
pub proof fn lemma_refused_record_changes_nothing(state: EngineView, tx: TransactionView)
    requires
        state.outcome(tx) is Err,
    ensures
        state.step(tx).transactions == state.transactions,
        forall|c: u16| state.step(tx).account(c) == state.account(c),
{
}

/// A transaction that is charged back is never under dispute again, resolved or charged back
/// again: in a sound state every such record about it is refused.
pub proof fn lemma_chargeback_is_final(state: EngineView, tx: TransactionView)
    requires
        state.wf(),
        !tx.moves_funds(),
        state.transactions.contains_key(tx.tx),
        state.transactions[tx.tx].chargeback,
    ensures
        state.outcome(tx) is Err,
        state.outcome(tx) != Err::<(), TransactionError>(TransactionError::TransactionChargedback),
{
    assert(state.entry_wf(tx.tx));
}

/// A record for a client changes no other client's account.
pub proof fn lemma_other_accounts_untouched(state: EngineView, tx: TransactionView, client: u16)
    requires
        client != tx.client,
    ensures
        state.step(tx).account(client) == state.account(client),
        state.step(tx).accounts.contains_key(client) == state.accounts.contains_key(client),
{
}

/// A record opens the account of its client where the client has none, and no other account.
/// Where the record is refused, the account that it opens has no funds and is not locked.
pub proof fn lemma_first_reference_opens_account(state: EngineView, tx: TransactionView)
    ensures
        state.step(tx).accounts.dom() == state.accounts.dom().insert(tx.client),
        !state.accounts.contains_key(tx.client) && state.outcome(tx) is Err ==> state.step(
            tx,
        ).accounts[tx.client] == AccountView::opened(tx.client),
{
    assert(state.step(tx).accounts.dom() =~= state.accounts.dom().insert(tx.client));
}

} // verus!
