//! Client accounts and the effect of each kind of record on their balances.

use crate::amount::Amount;
use crate::decimal::is_mantissa;
use crate::error::TransactionError;
use crate::transaction::TransactionVariant;
use vstd::prelude::*;

verus! {

/// The account of one client.
///
/// `available` is what the client can withdraw, `held` is what is frozen while transactions are
/// under dispute, and `total` is their sum. A chargeback locks the account for good.
#[derive(Debug, Clone, Copy)]
pub struct Account {
    client: u16,
    available: Amount,
    held: Amount,
    total: Amount,
    locked: bool,
}

/// An account with its balances in ten-thousandths.
pub struct AccountView {
    pub client: u16,
    pub available: int,
    pub held: int,
    pub total: int,
    pub locked: bool,
}

impl View for Account {
    type V = AccountView;

    closed spec fn view(&self) -> AccountView {
        AccountView {
            client: self.client,
            available: self.available@,
            held: self.held@,
            total: self.total@,
            locked: self.locked,
        }
    }
}

impl AccountView {
    /// The account of a client that no record has named yet: no funds, not locked.
    pub open spec fn opened(client: u16) -> AccountView {
        AccountView { client, available: 0, held: 0, total: 0, locked: false }
    }

    /// The total is what is available and what is held together.
    pub open spec fn balanced(self) -> bool {
        self.total == self.available + self.held
    }

    /// Neither what is available nor what is held is below zero.
    pub open spec fn nonnegative(self) -> bool {
        self.available >= 0 && self.held >= 0
    }

    /// Each balance is in the range in which sums and differences are exact.
    pub open spec fn in_range(self) -> bool {
        is_mantissa(self.available) && is_mantissa(self.held) && is_mantissa(self.total)
    }

    /// The account after a deposit of `amount`.
    pub open spec fn deposit(self, amount: int) -> AccountView {
        AccountView { available: self.available + amount, total: self.total + amount, ..self }
    }

    /// The account after a withdrawal of `amount`.
    pub open spec fn withdraw(self, amount: int) -> AccountView {
        AccountView { available: self.available - amount, total: self.total - amount, ..self }
    }

    /// The account after `amount` is put under dispute.
    pub open spec fn dispute(self, amount: int) -> AccountView {
        AccountView { available: self.available - amount, held: self.held + amount, ..self }
    }

    /// The account after a dispute over `amount` is resolved.
    pub open spec fn resolve(self, amount: int) -> AccountView {
        AccountView { available: self.available + amount, held: self.held - amount, ..self }
    }

    /// The account after a chargeback of `amount`.
    pub open spec fn chargeback(self, amount: int) -> AccountView {
        AccountView {
            held: self.held - amount,
            total: self.total - amount,
            locked: true,
            ..self
        }
    }

    /// What the account answers to a record of the given kind over `amount`: a locked account
    /// refuses every record, and a withdrawal needs the funds to be available.
    pub open spec fn outcome(self, variant: TransactionVariant, amount: int) -> Result<
        (),
        TransactionError,
    > {
        if self.locked {
            Err(TransactionError::LockedAccount)
        } else if variant is Withdrawal && self.available < amount {
            Err(TransactionError::InsufficientFunds)
        } else {
            Ok(())
        }
    }

    /// The account after a record of the given kind over `amount`: changed where the record is
    /// accepted, as it was where it is refused.
    pub open spec fn apply(self, variant: TransactionVariant, amount: int) -> AccountView {
        if self.outcome(variant, amount) is Err {
            self
        } else {
            match variant {
                TransactionVariant::Deposit => self.deposit(amount),
                TransactionVariant::Withdrawal => self.withdraw(amount),
                TransactionVariant::Dispute => self.dispute(amount),
                TransactionVariant::Resolve => self.resolve(amount),
                TransactionVariant::Chargeback => self.chargeback(amount),
            }
        }
    }

    /// The record can be applied exactly: where the account accepts it, the amount and the
    /// balances that result are in range.
    pub open spec fn admits(self, variant: TransactionVariant, amount: int) -> bool {
        self.outcome(variant, amount) is Ok ==> is_mantissa(amount) && self.apply(
            variant,
            amount,
        ).in_range()
    }
}

impl Account {
    #[verifier::type_invariant]
    spec fn sound(self) -> bool {
        self@.in_range() && self@.balanced()
    }

    /// The account of `client`, with no funds and not locked.
    pub fn new(client: u16) -> (r: Account)
        ensures
            r@ == AccountView::opened(client),
    {
        Self {
            client,
            available: Amount::zero(),
            held: Amount::zero(),
            total: Amount::zero(),
            locked: false,
        }
    }

    /// The client that owns the account.
    pub fn client(&self) -> (r: u16)
        ensures
            r == self@.client,
    {
        self.client
    }

    /// The funds that the client can withdraw.
    pub fn available(&self) -> (r: Amount)
        ensures
            r@ == self@.available,
            r.in_range(),
    {
        proof {
            use_type_invariant(self);
        }
        self.available
    }

    /// The funds that are available or held. The account is balanced and its balances are in
    /// range.
    pub fn total(&self) -> (r: Amount)
        ensures
            r@ == self@.total,
            r.in_range(),
            self@.balanced(),
            self@.in_range(),
    {
        proof {
            use_type_invariant(self);
        }
        self.total
    }

    /// The funds that are held while transactions are under dispute.
    pub fn held(&self) -> (r: Amount)
        ensures
            r@ == self@.held,
            r.in_range(),
    {
        proof {
            use_type_invariant(self);
        }
        self.held
    }

    /// Whether the account is locked.
    pub fn locked(&self) -> (r: bool)
        ensures
            r == self@.locked,
    {
        self.locked
    }

    fn deposit(&mut self, amount: Amount)
        requires
            amount.in_range(),
            old(self)@.deposit(amount@).in_range(),
        ensures
            final(self)@ == old(self)@.deposit(amount@),
    {
        proof {
            use_type_invariant(&*self);
        }
        let mut available = self.available;
        let mut total = self.total;
        available.add_assign(amount);
        total.add_assign(amount);
        *self = Account { client: self.client, available, held: self.held, total, locked: self.locked };
    }

    fn withdraw(&mut self, amount: Amount) -> (r: Result<(), TransactionError>)
        requires
            old(self)@.available >= amount@ ==> amount.in_range() && old(self)@.withdraw(
                amount@,
            ).in_range(),
        ensures
            old(self)@.available < amount@ ==> r == Err::<(), TransactionError>(
                TransactionError::InsufficientFunds,
            ) && final(self)@ == old(self)@,
            old(self)@.available >= amount@ ==> r == Ok::<(), TransactionError>(()) && final(self)@
                == old(self)@.withdraw(amount@),
    {
        proof {
            use_type_invariant(&*self);
        }
        if self.available < amount {
            return Err(TransactionError::InsufficientFunds);
        }
        let mut available = self.available;
        let mut total = self.total;
        available.sub_assign(amount);
        total.sub_assign(amount);
        *self = Account { client: self.client, available, held: self.held, total, locked: self.locked };
        Ok(())
    }

    fn dispute(&mut self, amount: Amount)
        requires
            amount.in_range(),
            old(self)@.dispute(amount@).in_range(),
        ensures
            final(self)@ == old(self)@.dispute(amount@),
    {
        proof {
            use_type_invariant(&*self);
        }
        let mut available = self.available;
        let mut held = self.held;
        available.sub_assign(amount);
        held.add_assign(amount);
        *self = Account { client: self.client, available, held, total: self.total, locked: self.locked };
    }

    fn resolve(&mut self, amount: Amount)
        requires
            amount.in_range(),
            old(self)@.resolve(amount@).in_range(),
        ensures
            final(self)@ == old(self)@.resolve(amount@),
    {
        proof {
            use_type_invariant(&*self);
        }
        let mut available = self.available;
        let mut held = self.held;
        available.add_assign(amount);
        held.sub_assign(amount);
        *self = Account { client: self.client, available, held, total: self.total, locked: self.locked };
    }

    fn chargeback(&mut self, amount: Amount)
        requires
            amount.in_range(),
            old(self)@.chargeback(amount@).in_range(),
        ensures
            final(self)@ == old(self)@.chargeback(amount@),
    {
        proof {
            use_type_invariant(&*self);
        }
        let mut total = self.total;
        let mut held = self.held;
        total.sub_assign(amount);
        held.sub_assign(amount);
        *self = Account { client: self.client, available: self.available, held, total, locked: true };
    }

    /// Whether a record of the given kind over `amount` can be applied exactly.
    pub fn admits(&self, variant: &TransactionVariant, amount: Amount) -> (r: bool)
        ensures
            r == self@.admits(*variant, amount@),
    {
        proof {
            use_type_invariant(self);
        }
        if self.locked {
            return true;
        }
        if !amount.is_in_range() {
            return match variant {
                TransactionVariant::Withdrawal => self.available < amount,
                _ => false,
            };
        }
        match variant {
            TransactionVariant::Deposit => self.available.sum_in_range(&amount)
                && self.total.sum_in_range(&amount),
            TransactionVariant::Withdrawal => self.available < amount
                || self.available.difference_in_range(&amount) && self.total.difference_in_range(
                &amount,
            ),
            TransactionVariant::Dispute => self.available.difference_in_range(&amount)
                && self.held.sum_in_range(&amount),
            TransactionVariant::Resolve => self.available.sum_in_range(&amount)
                && self.held.difference_in_range(&amount),
            TransactionVariant::Chargeback => self.total.difference_in_range(&amount)
                && self.held.difference_in_range(&amount),
        }
    }

    /// Applies a record of the given kind over `amount` to the account.
    ///
    /// A locked account refuses every record, and a withdrawal of more than is available is
    /// refused; a refused record leaves the account as it was. Every other record moves
    /// `amount` as its kind says, and a chargeback locks the account.
    pub fn transaction(&mut self, variant: &TransactionVariant, amount: Amount) -> (r: Result<
        (),
        TransactionError,
    >)
        requires
            old(self)@.admits(*variant, amount@),
        ensures
            r == old(self)@.outcome(*variant, amount@),
            final(self)@ == old(self)@.apply(*variant, amount@),
            final(self)@.balanced(),
            final(self)@.in_range(),
    {
        proof {
            use_type_invariant(&*self);
        }
        if self.locked {
            return Err(TransactionError::LockedAccount);
        }
        match variant {
            TransactionVariant::Deposit => {
                self.deposit(amount);
                Ok(())
            },
            TransactionVariant::Withdrawal => self.withdraw(amount),
            TransactionVariant::Dispute => {
                self.dispute(amount);
                Ok(())
            },
            TransactionVariant::Resolve => {
                self.resolve(amount);
                Ok(())
            },
            TransactionVariant::Chargeback => {
                self.chargeback(amount);
                Ok(())
            },
        }
    }
}

} // verus!
