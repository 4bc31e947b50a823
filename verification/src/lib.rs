//! A payment engine: a ledger of deposits and withdrawals and a registry of client accounts,
//! driven one record at a time through deposits, withdrawals, disputes, resolutions and
//! chargebacks.

pub mod account;
pub mod amount;
pub mod decimal;
pub mod engine;
pub mod error;
pub mod laws;
pub mod transaction;

pub use account::Account;
pub use amount::{Amount, DecimalParts};
pub use engine::PaymentEngine;
pub use error::{RunError, TransactionError};
pub use transaction::{Transaction, TransactionVariant};

use engine::{is_listing, EngineView};
use transaction::TransactionView;
use vstd::prelude::*;

verus! {

/// The state after a run over `records`, in their order, from the empty state; or the reason
/// for which the run stopped, at the first record that stops it.
pub open spec fn replay(records: Seq<TransactionView>) -> Result<EngineView, RunError>
    decreases records.len(),
{
    if records.len() == 0 {
        Ok(EngineView::empty())
    } else {
        match replay(records.drop_last()) {
            Ok(state) => state.advance(records.last()),
            Err(e) => Err(e),
        }
    }
}

/// The views of a sequence of records.
pub open spec fn record_views(records: Seq<Transaction>) -> Seq<TransactionView> {
    records.map_values(|t: Transaction| t@)
}

/// A run that has stopped after some of its records has stopped for good.
pub proof fn lemma_replay_stops(records: Seq<TransactionView>, k: int)
    requires
        0 <= k <= records.len(),
        replay(records.take(k)) is Err,
    ensures
        replay(records) == replay(records.take(k)),
    decreases records.len() - k,
{
    if k < records.len() {
        assert(records.take(k + 1).drop_last() =~= records.take(k));
        lemma_replay_stops(records, k + 1);
    } else {
        assert(records.take(k) =~= records);
    }
}

/// A run that has not stopped is in a sound state.
pub proof fn lemma_replay_is_sound(records: Seq<TransactionView>)
    ensures
        replay(records) matches Ok(state) ==> state.wf(),
    decreases records.len(),
{
    if records.len() > 0 {
        lemma_replay_is_sound(records.drop_last());
        if let Ok(state) = replay(records.drop_last()) {
            if records.last().is_applicable() {
                engine::lemma_step_keeps_wf(state, records.last());
            }
        }
    }
}

/// Replays `records`, in their order, on an engine with no transaction and no account, and
/// lists the accounts at the end in the order of their client ids.
///
/// A record that has not the shape of its kind, or whose amount is negative, is passed over.
/// A record that is refused with `TransactionNotFound` is dropped and the run goes on. A
/// record that is refused for another reason stops the run with that reason, and a record
/// that cannot be applied exactly stops it with `OutOfRange`.
pub fn run(records: Vec<Transaction>) -> (r: Result<Vec<Account>, RunError>)
    ensures
        match replay(record_views(records@)) {
            Ok(state) => r matches Ok(accounts) && is_listing(
                accounts@.map_values(|a: Account| a@),
                state.accounts,
            ),
            Err(e) => r == Err::<Vec<Account>, RunError>(e),
        },
{
    let mut engine = PaymentEngine::default();
    let ghost views = record_views(records@);
    assert(views.take(0) =~= Seq::empty());
    let mut i: usize = 0;
    while i < records.len()
        invariant
            i <= records.len(),
            views == record_views(records@),
            engine.wf(),
            replay(views.take(i as int)) == Ok::<EngineView, RunError>(engine@),
        decreases records.len() - i,
    {
        let tx = records[i];
        proof {
            assert(views.take(i + 1).drop_last() =~= views.take(i as int));
            assert(views.take(i + 1).last() == tx@);
        }
        match engine.advance(tx) {
            Ok(()) => {},
            Err(e) => {
                proof {
                    lemma_replay_stops(views, i + 1);
                }
                return Err(e);
            },
        }
        i = i + 1;
    }
    assert(views.take(i as int) =~= views);
    Ok(engine.listing())
}

} // verus!
