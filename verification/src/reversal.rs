//! Reversal: undoing a recorded transfer.
//!
//! A `Cancellation` names a recorded operation by its hash and says of which
//! kind it is. Only a transfer has an inverse. The inverse is applied to the
//! balances as they are when the reversal runs, so a receiver that has spent
//! the funds in the meantime makes the reversal fail; no balance is ever
//! driven below zero.

use vstd::prelude::*;
use vstd::pervasive::unreached;
use crate::error::Error;
use crate::keys::ContentHash;
use crate::ledger::Ledger;
use crate::ledger::LedgerView;
use crate::operations::Cancellation;
use crate::operations::Operation;
use crate::operations::Transfer;
use crate::operations::TRANSFER_TAG;

verus! {

impl Transfer {
    /// Undoing a transfer fails when its sender or its receiver has no wallet
    /// now, or when the receiver now has less than the amount to spend.
    pub open spec fn spec_reversal_failure(self, ledger: LedgerView) -> Option<Error> {
        if !ledger.has_wallet(self.from) {
            Some(Error::SenderNotFound)
        } else if !ledger.has_wallet(self.to) {
            Some(Error::ReceiverNotFound)
        } else if ledger.wallet(self.to).balance < self.amount {
            Some(Error::InsufficientCurrencyAmount)
        } else {
            None
        }
    }

    /// The ledger after the transfer was undone: the receiver debited and the
    /// sender credited by the amount, both under `hash`.
    pub open spec fn spec_reversed(self, ledger: LedgerView, hash: ContentHash) -> LedgerView {
        ledger.debited(self.to, self.amount, hash, 0).credited(self.from, self.amount, hash)
    }

    /// Whether the ledger has room for undoing the transfer: where that
    /// would succeed between two wallets, the sender's spendable funds and
    /// the amount together must not exceed `u64::MAX`.
    pub open spec fn spec_reversal_fits(self, ledger: LedgerView) -> bool {
        self.spec_reversal_failure(ledger) is None && self.from != self.to ==> ledger.wallet(
            self.from,
        ).balance + self.amount <= u64::MAX
    }

    /// Whether the ledger has room for undoing the transfer.
    pub fn reversal_fits(&self, ledger: &Ledger) -> (fits: bool)
        requires
            ledger@.wf(),
        ensures
            fits == self.spec_reversal_fits(ledger@),
    {
        if self.from == self.to {
            return true;
        }
        let held = match ledger.wallet(&self.from) {
            Some(sender) => sender.balance,
            None => {
                return true;
            },
        };
        match ledger.wallet(&self.to) {
            Some(receiver) => receiver.balance < self.amount || self.amount <= u64::MAX - held,
            None => true,
        }
    }

    /// Applies the inverse of the transfer to the balances as they stand,
    /// noting `hash` against both wallets.
    pub fn reverse(&self, ledger: &mut Ledger, hash: &ContentHash) -> (result: Result<(), Error>)
        requires
            old(ledger)@.wf(),
            self.spec_reversal_fits(old(ledger)@),
        ensures
            final(ledger)@.wf(),
            self.spec_reversal_failure(old(ledger)@) is Some ==> final(ledger)@ == old(ledger)@
                && result == Err::<(), Error>(self.spec_reversal_failure(old(ledger)@)->Some_0),
            self.spec_reversal_failure(old(ledger)@) is None ==> final(ledger)@
                == self.spec_reversed(old(ledger)@, *hash) && result is Ok,
            final(ledger)@.total_value() == old(ledger)@.total_value(),
            final(ledger)@.operations == old(ledger)@.operations,
    {
        if ledger.wallet(&self.from).is_none() {
            return Err(Error::SenderNotFound);
        }
        let available = match ledger.wallet(&self.to) {
            Some(receiver) => receiver.balance,
            None => {
                return Err(Error::ReceiverNotFound);
            },
        };
        if available < self.amount {
            return Err(Error::InsufficientCurrencyAmount);
        }
        proof {
            ledger@.lemma_debited(self.to, self.amount, *hash, 0);
        }
        ledger.decrease_wallet_balance(&self.to, self.amount, hash, 0)?;
        proof {
            ledger@.lemma_credited(self.from, self.amount, *hash);
        }
        ledger.increase_wallet_balance(&self.from, self.amount, hash, 0);
        Ok(())
    }
}

impl Cancellation {
    /// Whether the reversal's claim about the kind of the referenced operation
    /// is true of the log: where it claims a transfer and the hash is
    /// recorded, the recorded operation is a transfer.
    pub open spec fn spec_well_tagged(self, ledger: LedgerView) -> bool {
        self.type_transaction == TRANSFER_TAG && ledger.has_operation(self.tx_hash)
            ==> ledger.operation(self.tx_hash) is Transfer
    }

    /// Whether the ledger has room for the reversal: where it refers to a
    /// recorded transfer, the ledger must have room for undoing that.
    pub open spec fn spec_fits(self, ledger: LedgerView) -> bool {
        self.type_transaction == TRANSFER_TAG && ledger.has_operation(self.tx_hash)
            && ledger.operation(self.tx_hash) is Transfer ==> (ledger.operation(
            self.tx_hash,
        )->Transfer_0).spec_reversal_fits(ledger)
    }

    /// A reversal fails when the referenced hash is not in the log, or, where
    /// it refers to a transfer, when that transfer cannot be undone.
    pub open spec fn spec_failure(self, ledger: LedgerView) -> Option<Error>
        recommends
            self.spec_well_tagged(ledger),
    {
        if !ledger.has_operation(self.tx_hash) {
            Some(Error::OperationNotFound)
        } else if self.type_transaction != TRANSFER_TAG {
            None
        } else {
            ledger.operation(self.tx_hash)->Transfer_0.spec_reversal_failure(ledger)
        }
    }

    /// The ledger after the reversal: a referenced transfer undone under the
    /// reversal's hash, an operation of any other kind left as it is.
    pub open spec fn spec_applied(self, ledger: LedgerView, hash: ContentHash) -> LedgerView
        recommends
            self.spec_well_tagged(ledger),
    {
        if self.type_transaction == TRANSFER_TAG {
            ledger.operation(self.tx_hash)->Transfer_0.spec_reversed(ledger, hash).recorded(
                hash,
                Operation::Cancellation(self),
            )
        } else {
            ledger.recorded(hash, Operation::Cancellation(self))
        }
    }

    /// Whether the reversal's claim about the kind of the referenced operation
    /// is true of the log.
    pub fn well_tagged(&self, ledger: &Ledger) -> (claim_holds: bool)
        requires
            ledger@.wf(),
        ensures
            claim_holds == self.spec_well_tagged(ledger@),
    {
        if self.type_transaction != TRANSFER_TAG {
            return true;
        }
        match ledger.fetch_operation(&self.tx_hash) {
            Some(Operation::Transfer(_)) => true,
            Some(_) => false,
            None => true,
        }
    }

    /// Whether the ledger has room for the reversal.
    pub fn fits(&self, ledger: &Ledger) -> (fits: bool)
        requires
            ledger@.wf(),
        ensures
            fits == self.spec_fits(ledger@),
    {
        if self.type_transaction != TRANSFER_TAG {
            return true;
        }
        match ledger.fetch_operation(&self.tx_hash) {
            Some(Operation::Transfer(transfer)) => transfer.reversal_fits(ledger),
            Some(_) => true,
            None => true,
        }
    }

    /// Undoes the referenced operation. The caller vouches for the kind that
    /// the reversal claims.
    pub fn execute(&self, ledger: &mut Ledger, hash: &ContentHash) -> (result: Result<(), Error>)
        requires
            old(ledger)@.wf(),
            self.spec_well_tagged(old(ledger)@),
            self.spec_fits(old(ledger)@),
        ensures
            final(ledger)@.wf(),
            self.spec_failure(old(ledger)@) is Some ==> final(ledger)@ == old(ledger)@ && result
                == Err::<(), Error>(self.spec_failure(old(ledger)@)->Some_0),
            self.spec_failure(old(ledger)@) is None ==> final(ledger)@ == self.spec_applied(
                old(ledger)@,
                *hash,
            ) && result is Ok,
            final(ledger)@.total_value() == old(ledger)@.total_value(),
    {
        let original = match ledger.fetch_operation(&self.tx_hash) {
            None => {
                return Err(Error::OperationNotFound);
            },
            Some(operation) => {
                if self.type_transaction == TRANSFER_TAG {
                    match operation {
                        Operation::Transfer(transfer) => Some(transfer.clone()),
                        _ => unreached(),
                    }
                } else {
                    None
                }
            },
        };
        if let Some(transfer) = original {
            match transfer.reverse(ledger, hash) {
                Ok(()) => {},
                Err(error) => {
                    return Err(error);
                },
            }
        }
        proof {
            ledger@.lemma_recorded(*hash, Operation::Cancellation(*self));
        }
        ledger.record_operation(*hash, Operation::Cancellation(self.clone()));
        Ok(())
    }
}

} // verus!
