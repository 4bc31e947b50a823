//! The payment engine: the ledger of accepted deposits and withdrawals, the registry of client
//! accounts, and the rule by which one record changes both.

use crate::account::{Account, AccountView};
use crate::error::{RunError, TransactionError};
use crate::transaction::{Transaction, TransactionVariant, TransactionView};
use std::collections::HashMap;
use vstd::prelude::*;

verus! {

broadcast use vstd::std_specs::hash::group_hash_axioms;

/// The ledger and the accounts of one run.
#[derive(Debug)]
pub struct PaymentEngine {
    transactions: HashMap<u32, Transaction>,
    accounts: HashMap<u16, Account>,
}

/// The state of an engine: the ledger by transaction id and the accounts by client id, with
/// every amount in ten-thousandths.
pub struct EngineView {
    pub transactions: Map<u32, TransactionView>,
    pub accounts: Map<u16, AccountView>,
}

/// The views of the transactions of a ledger.
pub open spec fn transaction_views(ledger: Map<u32, Transaction>) -> Map<u32, TransactionView> {
    ledger.map_values(|t: Transaction| t@)
}

/// The views of the accounts of a registry.
pub open spec fn account_views(registry: Map<u16, Account>) -> Map<u16, AccountView> {
    registry.map_values(|a: Account| a@)
}

impl View for PaymentEngine {
    type V = EngineView;

    closed spec fn view(&self) -> EngineView {
        EngineView {
            transactions: transaction_views(self.transactions@),
            accounts: account_views(self.accounts@),
        }
    }
}

/// One more than the largest transaction id.
pub open spec fn id_limit() -> nat {
    0x1_0000_0000
}

/// What the ledger entry with id `t` freezes of the funds of `client`: its amount while it is
/// that client's, under dispute and not charged back, else nothing.
pub open spec fn frozen(ledger: Map<u32, TransactionView>, client: u16, t: u32) -> int {
    if ledger.contains_key(t) && ledger[t].client == client && ledger[t].disputed
        && !ledger[t].chargeback {
        ledger[t].moved()
    } else {
        0
    }
}

/// What the ledger entries with an id below `n` freeze of the funds of `client`.
pub open spec fn frozen_below(ledger: Map<u32, TransactionView>, client: u16, n: nat) -> int
    decreases n,
{
    if n == 0 {
        0
    } else {
        frozen_below(ledger, client, (n - 1) as nat) + frozen(ledger, client, (n - 1) as u32)
    }
}

impl EngineView {
    /// The state before any record: no transaction and no account.
    pub open spec fn empty() -> EngineView {
        EngineView { transactions: Map::empty(), accounts: Map::empty() }
    }

    /// The account of `client`, which is the opened account while no record has named the
    /// client.
    pub open spec fn account(self, client: u16) -> AccountView {
        if self.accounts.contains_key(client) {
            self.accounts[client]
        } else {
            AccountView::opened(client)
        }
    }

    /// The record names a transaction of the ledger that belongs to the record's client.
    pub open spec fn owns(self, tx: TransactionView) -> bool {
        self.transactions.contains_key(tx.tx) && self.transactions[tx.tx].client == tx.client
    }

    /// The amount that the record would move: its own for a deposit or a withdrawal, else that
    /// of the ledger entry it names.
    pub open spec fn amount_of(self, tx: TransactionView) -> int {
        if tx.moves_funds() {
            tx.moved()
        } else {
            self.transactions[tx.tx].moved()
        }
    }

    /// What the engine answers to a record.
    ///
    /// A locked account refuses every record. A deposit or a withdrawal needs a transaction id
    /// that the ledger does not hold, and a withdrawal needs the funds to be available. A
    /// dispute, a resolution and a chargeback need a ledger entry with the record's transaction
    /// id and client; a dispute needs that entry not to be under dispute, the other two need it
    /// to be.
    pub open spec fn outcome(self, tx: TransactionView) -> Result<(), TransactionError> {
        if self.account(tx.client).locked {
            Err(TransactionError::LockedAccount)
        } else if tx.moves_funds() {
            if self.transactions.contains_key(tx.tx) {
                Err(TransactionError::DuplicateTransaction)
            } else {
                self.account(tx.client).outcome(tx.variant, tx.moved())
            }
        } else if !self.owns(tx) {
            Err(TransactionError::TransactionNotFound)
        } else if tx.variant is Dispute {
            if self.transactions[tx.tx].disputed {
                Err(TransactionError::AlreadyDisputed)
            } else {
                Ok(())
            }
        } else {
            if self.transactions[tx.tx].disputed {
                Ok(())
            } else {
                Err(TransactionError::NotDisputed)
            }
        }
    }

    /// The ledger after a record.
    pub open spec fn ledger_after(self, tx: TransactionView) -> Map<u32, TransactionView> {
        if self.outcome(tx) is Err {
            self.transactions
        } else if tx.moves_funds() {
            self.transactions.insert(tx.tx, tx.entry())
        } else {
            self.transactions.insert(tx.tx, self.transactions[tx.tx].marked(tx.variant))
        }
    }

    /// The account of the record's client after the record.
    pub open spec fn account_after(self, tx: TransactionView) -> AccountView {
        if self.outcome(tx) is Err {
            self.account(tx.client)
        } else {
            self.account(tx.client).apply(tx.variant, self.amount_of(tx))
        }
    }

    /// The state after a record. The record's client has an account from then on, whatever the
    /// answer was; a refused record changes nothing else.
    pub open spec fn step(self, tx: TransactionView) -> EngineView {
        EngineView {
            transactions: self.ledger_after(tx),
            accounts: self.accounts.insert(tx.client, self.account_after(tx)),
        }
    }

    /// The record can be applied exactly: where it is accepted, the amount it moves and the
    /// balances that result are in range.
    pub open spec fn admits(self, tx: TransactionView) -> bool {
        self.outcome(tx) is Ok ==> self.account(tx.client).admits(tx.variant, self.amount_of(tx))
    }

    /// What a run does with one record. A record that is not fit to be applied is passed
    /// over. A record that cannot be applied exactly stops the run. Every other record is
    /// applied; where it is refused, the run goes on if the reason is `TransactionNotFound`,
    /// and stops with the reason if it is another.
    pub open spec fn advance(self, tx: TransactionView) -> Result<EngineView, RunError> {
        if !tx.is_applicable() {
            Ok(self)
        } else if !self.admits(tx) {
            Err(RunError::OutOfRange)
        } else {
            match self.outcome(tx) {
                Ok(()) => Ok(self.step(tx)),
                Err(TransactionError::TransactionNotFound) => Ok(self.step(tx)),
                Err(e) => Err(RunError::Rejected(e)),
            }
        }
    }

    /// The ledger entry with id `t` is sound: it is a deposit or a withdrawal under its own id,
    /// with an amount that is not negative, and its client has an account. An entry that is
    /// charged back is still marked as disputed, and its client's account is locked.
    pub open spec fn entry_wf(self, t: u32) -> bool {
        let entry = self.transactions[t];
        &&& entry.tx == t
        &&& entry.moves_funds()
        &&& entry.amount is Some
        &&& entry.moved() >= 0
        &&& self.accounts.contains_key(entry.client)
        &&& entry.chargeback ==> entry.disputed && self.accounts[entry.client].locked
    }

    /// What the ledger freezes of the funds of `client`: the amounts of the client's
    /// transactions that are under dispute and not charged back.
    pub open spec fn frozen_of(self, client: u16) -> int {
        frozen_below(self.transactions, client, id_limit())
    }

    /// The state is sound: every account stands under its own client id, is balanced and holds
    /// what the ledger freezes of its client's funds, and every ledger entry is sound.
    pub open spec fn wf(self) -> bool {
        &&& forall|c: u16| #[trigger]
            self.accounts.contains_key(c) ==> self.accounts[c].client == c
                && self.accounts[c].balanced() && self.accounts[c].held == self.frozen_of(c)
        &&& forall|t: u32| #[trigger] self.transactions.contains_key(t) ==> self.entry_wf(t)
    }
}

/// Two ledgers that freeze the same of a client's funds under every id but `t` differ, in what
/// they freeze below `n`, by what they freeze under `t`.
pub proof fn lemma_frozen_below_differs_at(
    before: Map<u32, TransactionView>,
    after: Map<u32, TransactionView>,
    client: u16,
    t: u32,
    n: nat,
)
    requires
        forall|u: u32| u != t ==> frozen(before, client, u) == frozen(after, client, u),
        n <= id_limit(),
    ensures
        frozen_below(after, client, n) == frozen_below(before, client, n) + if t < n {
            frozen(after, client, t) - frozen(before, client, t)
        } else {
            0
        },
    decreases n,
{
    if n > 0 {
        lemma_frozen_below_differs_at(before, after, client, t, (n - 1) as nat);
    }
}

/// A ledger whose amounts are not negative freezes no negative sum.
pub proof fn lemma_frozen_below_nonnegative(ledger: Map<u32, TransactionView>, client: u16, n: nat)
    requires
        forall|u: u32| ledger.contains_key(u) ==> (#[trigger] ledger[u]).moved() >= 0,
    ensures
        frozen_below(ledger, client, n) >= 0,
    decreases n,
{
    if n > 0 {
        lemma_frozen_below_nonnegative(ledger, client, (n - 1) as nat);
    }
}

/// A ledger with no transaction of a client freezes nothing of that client's funds.
pub proof fn lemma_frozen_below_of_stranger(
    ledger: Map<u32, TransactionView>,
    client: u16,
    n: nat,
)
    requires
        forall|u: u32| ledger.contains_key(u) ==> (#[trigger] ledger[u]).client != client,
    ensures
        frozen_below(ledger, client, n) == 0,
    decreases n,
{
    if n > 0 {
        lemma_frozen_below_of_stranger(ledger, client, (n - 1) as nat);
    }
}

/// A record that is well formed takes a sound state to a sound state.
pub proof fn lemma_step_keeps_wf(state: EngineView, tx: TransactionView)
    requires
        state.wf(),
        tx.is_applicable(),
    ensures
        state.step(tx).wf(),
{
    let next = state.step(tx);
    assert forall|c: u16| #[trigger] next.accounts.contains_key(c) implies next.accounts[c].client
        == c && next.accounts[c].balanced() && next.accounts[c].held == next.frozen_of(c) by {
        lemma_frozen_below_differs_at(
            state.transactions,
            next.transactions,
            c,
            tx.tx,
            id_limit(),
        );
        if !state.accounts.contains_key(c) {
            lemma_frozen_below_of_stranger(state.transactions, c, id_limit());
        }
    }
    assert forall|t: u32| #[trigger] next.transactions.contains_key(t) implies next.entry_wf(
        t,
    ) by {
        if state.transactions.contains_key(t) {
            assert(state.entry_wf(t));
        }
    }
}

/// `listing` holds each account of the registry once, in the order of the client ids.
pub open spec fn is_listing(listing: Seq<AccountView>, accounts: Map<u16, AccountView>) -> bool {
    &&& forall|i: int|
        0 <= i < listing.len() ==> accounts.contains_key((#[trigger] listing[i]).client)
            && accounts[listing[i].client] == listing[i]
    &&& forall|i: int, j: int|
        0 <= i < j < listing.len() ==> (#[trigger] listing[i]).client < (
        #[trigger] listing[j]).client
    &&& forall|c: u16| #[trigger]
        accounts.contains_key(c) ==> exists|i: int|
            0 <= i < listing.len() && (#[trigger] listing[i]).client == c
}

impl Default for PaymentEngine {
    /// An engine with no transaction and no account.
    fn default() -> (r: PaymentEngine)
        ensures
            r@ == EngineView::empty(),
            r.wf(),
    {
        let r = PaymentEngine { transactions: HashMap::new(), accounts: HashMap::new() };
        assert(r@.transactions =~= Map::empty());
        assert(r@.accounts =~= Map::empty());
        r
    }
}

impl PaymentEngine {
    /// The engine's state is sound.
    pub open spec fn wf(&self) -> bool {
        self@.wf()
    }

    /// Whether a record can be applied exactly.
    pub fn admits(&self, tx: &Transaction) -> (r: bool)
        requires
            self.wf(),
            tx@.is_valid(),
        ensures
            r == self@.admits(tx@),
    {
        let account = self.account(tx.client);
        if account.locked() {
            return true;
        }
        match tx.variant {
            TransactionVariant::Deposit | TransactionVariant::Withdrawal => {
                if self.transactions.contains_key(&tx.tx) {
                    return true;
                }
                account.admits(&tx.variant, tx.amount.unwrap())
            },
            _ => {
                match self.transactions.get(&tx.tx) {
                    Some(entry) => {
                        assert(self@.entry_wf(tx.tx));
                        if entry.client != tx.client {
                            return true;
                        }
                        let refused = match tx.variant {
                            TransactionVariant::Dispute => entry.can_dispute().is_err(),
                            _ => entry.can_resolve_or_chargeback().is_err(),
                        };
                        if refused {
                            return true;
                        }
                        account.admits(&tx.variant, entry.amount.unwrap())
                    },
                    None => true,
                }
            },
        }
    }

    /// The account of `client`: the one in the registry, or the opened account while the
    /// registry holds none.
    fn account(&self, client: u16) -> (r: Account)
        ensures
            r@ == self@.account(client),
    {
        match self.accounts.get(&client) {
            Some(account) => *account,
            None => Account::new(client),
        }
    }

    /// Puts the account of the record's client into the registry and, where there is one, the
    /// new ledger entry into the ledger.
    fn settle(&mut self, client: u16, account: Account, tx: u32, entry: Option<Transaction>)
        ensures
            final(self)@.accounts == old(self)@.accounts.insert(client, account@),
            final(self)@.transactions == match entry {
                Some(entry) => old(self)@.transactions.insert(tx, entry@),
                None => old(self)@.transactions,
            },
    {
        self.accounts.insert(client, account);
        assert(account_views(self.accounts@) =~= account_views(old(self).accounts@).insert(
            client,
            account@,
        ));
        match entry {
            Some(entry) => {
                self.transactions.insert(tx, entry);
                assert(transaction_views(self.transactions@) =~= transaction_views(
                    old(self).transactions@,
                ).insert(tx, entry@));
            },
            None => {},
        }
    }

    /// Applies one record.
    ///
    /// The record's client gets an account if it has none. Then the record is answered as
    /// [`EngineView::outcome`] says, and where it is accepted, the account and the ledger change
    /// as [`EngineView::step`] says. A record that is refused changes no balance and no ledger
    /// entry.
    pub fn insert(&mut self, tx: Transaction) -> (r: Result<(), TransactionError>)
        requires
            old(self).wf(),
            tx@.is_applicable(),
            old(self)@.admits(tx@),
        ensures
            final(self).wf(),
            r == old(self)@.outcome(tx@),
            final(self)@ == old(self)@.step(tx@),
    {
        proof {
            lemma_step_keeps_wf(self@, tx@);
        }
        let mut account = self.account(tx.client);
        if account.locked() {
            self.settle(tx.client, account, tx.tx, None);
            return Err(TransactionError::LockedAccount);
        }
        match tx.variant {
            TransactionVariant::Deposit | TransactionVariant::Withdrawal => {
                // An accepted transaction is never written over.
                if self.transactions.contains_key(&tx.tx) {
                    self.settle(tx.client, account, tx.tx, None);
                    return Err(TransactionError::DuplicateTransaction);
                }
                let amount = tx.amount.unwrap();
                match account.transaction(&tx.variant, amount) {
                    Ok(()) => {
                        let entry = Transaction { disputed: false, chargeback: false, ..tx };
                        self.settle(tx.client, account, tx.tx, Some(entry));
                        Ok(())
                    },
                    Err(e) => {
                        self.settle(tx.client, account, tx.tx, None);
                        Err(e)
                    },
                }
            },
            TransactionVariant::Dispute => {
                let mut entry = match self.owned(&tx) {
                    Some(entry) => entry,
                    None => {
                        self.settle(tx.client, account, tx.tx, None);
                        return Err(TransactionError::TransactionNotFound);
                    },
                };
                match entry.can_dispute() {
                    Ok(()) => {},
                    Err(e) => {
                        self.settle(tx.client, account, tx.tx, None);
                        return Err(e);
                    },
                }
                // The amount under dispute is the one that the ledger holds.
                let amount = entry.amount.unwrap();
                let result = account.transaction(&tx.variant, amount);
                entry.disputed = true;
                self.settle(tx.client, account, tx.tx, Some(entry));
                result
            },
            TransactionVariant::Resolve | TransactionVariant::Chargeback => {
                let mut entry = match self.owned(&tx) {
                    Some(entry) => entry,
                    None => {
                        self.settle(tx.client, account, tx.tx, None);
                        return Err(TransactionError::TransactionNotFound);
                    },
                };
                match entry.can_resolve_or_chargeback() {
                    Ok(()) => {},
                    Err(e) => {
                        self.settle(tx.client, account, tx.tx, None);
                        return Err(e);
                    },
                }
                let amount = entry.amount.unwrap();
                let result = account.transaction(&tx.variant, amount);
                match tx.variant {
                    TransactionVariant::Resolve => {
                        entry.disputed = false;
                    },
                    _ => {
                        entry.chargeback = true;
                    },
                }
                self.settle(tx.client, account, tx.tx, Some(entry));
                result
            },
        }
    }

    /// Takes one record of a run.
    ///
    /// A record that has not the shape of its kind, or whose amount is negative, is passed
    /// over and changes nothing. A record that cannot be applied exactly stops the run with
    /// `OutOfRange` and changes nothing. Every other record is applied: the run goes on where
    /// it is accepted or refused with `TransactionNotFound`, and stops with the reason where
    /// it is refused for another.
    pub fn advance(&mut self, tx: Transaction) -> (r: Result<(), RunError>)
        requires
            old(self).wf(),
        ensures
            final(self).wf(),
            match old(self)@.advance(tx@) {
                Ok(state) => r == Ok::<(), RunError>(()) && final(self)@ == state,
                Err(e) => r == Err::<(), RunError>(e),
            },
            r == Err::<(), RunError>(RunError::OutOfRange) ==> final(self)@ == old(self)@,
            r matches Err(RunError::Rejected(_)) ==> final(self)@ == old(self)@.step(tx@),
    {
        let fit = tx.is_valid() && match tx.amount {
            Some(amount) => !amount.is_negative(),
            None => true,
        };
        if !fit {
            return Ok(());
        }
        if !self.admits(&tx) {
            return Err(RunError::OutOfRange);
        }
        match self.insert(tx) {
            // A record about a transaction that is not in the ledger is dropped.
            Err(TransactionError::TransactionNotFound) => Ok(()),
            // Every other refusal stops the run.
            Err(e) => Err(RunError::Rejected(e)),
            Ok(()) => Ok(()),
        }
    }

    /// The ledger entry that the record names, where the ledger holds one under the record's
    /// transaction id that belongs to the record's client.
    fn owned(&self, tx: &Transaction) -> (r: Option<Transaction>)
        requires
            self.wf(),
        ensures
            r is Some <==> self@.owns(tx@),
            r matches Some(entry) ==> entry@ == self@.transactions[tx.tx] && self@.entry_wf(tx.tx),
    {
        match self.transactions.get(&tx.tx) {
            Some(entry) => {
                if entry.client != tx.client {
                    // Another client's transaction is answered as an unknown one.
                    return None;
                }
                Some(*entry)
            },
            None => None,
        }
    }

    /// The accounts in the order of their client ids.
    pub fn listing(&self) -> (r: Vec<Account>)
        requires
            self.wf(),
        ensures
            is_listing(r@.map_values(|a: Account| a@), self@.accounts),
    {
        let mut out: Vec<Account> = Vec::new();
        let mut next: u32 = 0;
        while next <= 0xffff
            invariant
                self.wf(),
                next <= 0x1_0000,
                forall|i: int|
                    0 <= i < out.len() ==> (#[trigger] out[i])@.client < next
                        && self@.accounts.contains_key(out[i]@.client)
                        && self@.accounts[out[i]@.client] == out[i]@,
                forall|i: int, j: int|
                    0 <= i < j < out.len() ==> (#[trigger] out[i])@.client < (
                    #[trigger] out[j])@.client,
                forall|c: u16|
                    c < next && #[trigger] self@.accounts.contains_key(c) ==> exists|i: int|
                        0 <= i < out.len() && (#[trigger] out[i])@.client == c,
            decreases 0x1_0000 - next,
        {
            let client: u16 = next as u16;
            let ghost before = out@;
            match self.accounts.get(&client) {
                Some(account) => {
                    out.push(*account);
                    assert(self@.accounts.contains_key(client));
                    assert(self@.accounts[client] == account@);
                    assert(out[out.len() - 1]@.client == client);
                    assert forall|c: u16|
                        c < next + 1 && #[trigger] self@.accounts.contains_key(c) implies exists|
                        i: int,
                    |
                        0 <= i < out.len() && (#[trigger] out[i])@.client == c by {
                        if c < next {
                            let i = choose|i: int|
                                0 <= i < before.len() && (#[trigger] before[i])@.client == c;
                            assert(out[i]@.client == c);
                        } else {
                            assert(out[out.len() - 1]@.client == c);
                        }
                    }
                },
                None => {},
            }
            next = next + 1;
        }
        proof {
            let listing = out@.map_values(|a: Account| a@);
            assert forall|c: u16| #[trigger] self@.accounts.contains_key(c) implies exists|i: int|
                0 <= i < listing.len() && (#[trigger] listing[i]).client == c by {
                let i = choose|i: int| 0 <= i < out.len() && (#[trigger] out[i])@.client == c;
                assert(listing[i].client == c);
            }
        }
        out
    }

    /// The accounts by client id.
    pub fn accounts(&self) -> (r: &HashMap<u16, Account>)
        ensures
            account_views(r@) == self@.accounts,
    {
        &self.accounts
    }

    /// The ledger by transaction id.
    pub fn transactions(&self) -> (r: &HashMap<u32, Transaction>)
        ensures
            transaction_views(r@) == self@.transactions,
    {
        &self.transactions
    }
}

} // verus!
