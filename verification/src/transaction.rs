//! Records: what comes in, and what the ledger keeps of a deposit or withdrawal.

use crate::amount::Amount;
use crate::error::TransactionError;
use vstd::prelude::*;

verus! {

/// The kind of a record.
#[derive(Debug, Clone, Copy, PartialEq, Eq, Structural)]
pub enum TransactionVariant {
    Deposit,
    Withdrawal,
    Dispute,
    Resolve,
    Chargeback,
}

/// A record. An incoming record names its kind, its client and a transaction id; a deposit or a
/// withdrawal carries an amount, the other kinds carry none. The ledger keeps each accepted
/// deposit and withdrawal, with a mark while it is under dispute and a mark once it is charged
/// back.
#[derive(Debug, Clone, Copy)]
pub struct Transaction {
    pub variant: TransactionVariant,
    pub client: u16,
    pub tx: u32,
    pub amount: Option<Amount>,
    pub disputed: bool,
    pub chargeback: bool,
}

/// A record with its amount in ten-thousandths.
pub struct TransactionView {
    pub variant: TransactionVariant,
    pub client: u16,
    pub tx: u32,
    pub amount: Option<int>,
    pub disputed: bool,
    pub chargeback: bool,
}

impl View for Transaction {
    type V = TransactionView;

    open spec fn view(&self) -> TransactionView {
        TransactionView {
            variant: self.variant,
            client: self.client,
            tx: self.tx,
            amount: match self.amount {
                Some(amount) => Some(amount@),
                None => None,
            },
            disputed: self.disputed,
            chargeback: self.chargeback,
        }
    }
}

impl TransactionView {
    /// The record moves funds: it is a deposit or a withdrawal.
    pub open spec fn moves_funds(self) -> bool {
        self.variant is Deposit || self.variant is Withdrawal
    }

    /// The record has the shape of its kind: an amount exactly where it moves funds.
    pub open spec fn is_valid(self) -> bool {
        if self.moves_funds() {
            self.amount is Some
        } else {
            self.amount is None
        }
    }

    /// The amount of the record, zero where it carries none.
    pub open spec fn moved(self) -> int {
        match self.amount {
            Some(amount) => amount,
            None => 0,
        }
    }

    /// The record is fit to be applied: it has the shape of its kind, and its amount is not
    /// negative.
    pub open spec fn is_applicable(self) -> bool {
        self.is_valid() && self.moved() >= 0
    }

    /// What the ledger keeps of an accepted deposit or withdrawal: the record, under no dispute
    /// and not charged back.
    pub open spec fn entry(self) -> TransactionView {
        TransactionView { disputed: false, chargeback: false, ..self }
    }

    /// The ledger entry after a record of the given kind about it is accepted: a dispute marks
    /// it as disputed, a resolution takes the mark away, a chargeback leaves the mark and
    /// marks the entry as charged back.
    pub open spec fn marked(self, variant: TransactionVariant) -> TransactionView {
        match variant {
            TransactionVariant::Dispute => TransactionView { disputed: true, ..self },
            TransactionVariant::Resolve => TransactionView { disputed: false, ..self },
            TransactionVariant::Chargeback => TransactionView { chargeback: true, ..self },
            _ => self,
        }
    }

    /// Whether a dispute of this transaction may be opened, and why not.
    pub open spec fn can_dispute(self) -> Result<(), TransactionError> {
        if self.disputed {
            Err(TransactionError::AlreadyDisputed)
        } else if self.chargeback {
            Err(TransactionError::TransactionChargedback)
        } else {
            Ok(())
        }
    }

    /// Whether a dispute of this transaction may be closed, and why not.
    pub open spec fn can_resolve_or_chargeback(self) -> Result<(), TransactionError> {
        if !self.disputed {
            Err(TransactionError::NotDisputed)
        } else if self.chargeback {
            Err(TransactionError::TransactionChargedback)
        } else {
            Ok(())
        }
    }
}

impl Transaction {
    /// Whether the record has the shape of its kind: a deposit or a withdrawal carries an
    /// amount, a dispute, a resolution or a chargeback carries none.
    pub fn is_valid(&self) -> (r: bool)
        ensures
            r == self@.is_valid(),
    {
        match self.variant {
            TransactionVariant::Deposit | TransactionVariant::Withdrawal => self.amount.is_some(),
            _ => self.amount.is_none(),
        }
    }

    /// Checks that a dispute of this transaction may be opened: it is not under dispute and has
    /// not been charged back.
    pub fn can_dispute(&self) -> (r: Result<(), TransactionError>)
        ensures
            r == self@.can_dispute(),
    {
        if self.disputed {
            return Err(TransactionError::AlreadyDisputed);
        }
        if self.chargeback {
            return Err(TransactionError::TransactionChargedback);
        }
        Ok(())
    }

    /// Checks that a dispute of this transaction may be closed, by a resolution or by a
    /// chargeback: it is under dispute and has not been charged back.
    pub fn can_resolve_or_chargeback(&self) -> (r: Result<(), TransactionError>)
        ensures
            r == self@.can_resolve_or_chargeback(),
    {
        if !self.disputed {
            return Err(TransactionError::NotDisputed);
        }
        if self.chargeback {
            return Err(TransactionError::TransactionChargedback);
        }
        Ok(())
    }
}

} // verus!
