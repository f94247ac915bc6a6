//! Execution: what each operation does to the ledger.
//!
//! Execution comes after validation. Each kind of operation has a failure
//! rule, which names the error for a ledger on which it cannot run, and an
//! effect, which is the ledger after it ran. An operation that fails leaves
//! the ledger exactly as it was; one that succeeds applies its whole effect
//! and is recorded in the log under its hash.
//!
//! Balances are `u64`s. An operation whose effect would take a balance beyond
//! `u64::MAX` does not fit the ledger and cannot be executed; `fits` tells.

use vstd::prelude::*;
use crate::error::Error;
use crate::keys::ContentHash;
use crate::ledger::Ledger;
use crate::ledger::LedgerView;
use crate::operations::CreateWallet;
use crate::operations::Issue;
use crate::operations::MailAcceptance;
use crate::operations::MailPreparation;
use crate::operations::Operation;
use crate::operations::Transfer;

verus! {

impl CreateWallet {
    /// A creation fails when the key already has a wallet.
    pub open spec fn spec_failure(self, ledger: LedgerView) -> Option<Error> {
        if ledger.has_wallet(self.pub_key) {
            Some(Error::WalletAlreadyExists)
        } else {
            None
        }
    }

    /// The ledger after the creation: one more wallet, with no funds.
    pub open spec fn spec_applied(self, ledger: LedgerView, hash: ContentHash) -> LedgerView {
        ledger.opened(self.pub_key, self.name, hash).recorded(hash, Operation::CreateWallet(self))
    }

    /// Opens the wallet, unless one exists for the key.
    pub fn execute(&self, ledger: &mut Ledger, hash: &ContentHash) -> (result: Result<(), Error>)
        requires
            old(ledger)@.wf(),
        ensures
            final(ledger)@.wf(),
            self.spec_failure(old(ledger)@) is Some ==> final(ledger)@ == old(ledger)@ && result
                == Err::<(), Error>(self.spec_failure(old(ledger)@)->Some_0),
            self.spec_failure(old(ledger)@) is None ==> final(ledger)@ == self.spec_applied(
                old(ledger)@,
                *hash,
            ) && result is Ok,
    {
        if ledger.wallet(&self.pub_key).is_some() {
            return Err(Error::WalletAlreadyExists);
        }
        ledger.create_wallet(&self.pub_key, self.name.clone(), hash);
        ledger.record_operation(*hash, Operation::CreateWallet(self.clone()));
        Ok(())
    }
}

impl Transfer {
    /// A transfer fails when the sender or the receiver has no wallet, or
    /// when the sender has less than the amount to spend.
    pub open spec fn spec_failure(self, ledger: LedgerView) -> Option<Error> {
        if !ledger.has_wallet(self.from) {
            Some(Error::SenderNotFound)
        } else if !ledger.has_wallet(self.to) {
            Some(Error::ReceiverNotFound)
        } else if ledger.wallet(self.from).balance < self.amount {
            Some(Error::InsufficientCurrencyAmount)
        } else {
            None
        }
    }

    /// The ledger after the transfer: the sender debited and the receiver
    /// credited by the amount, both under the transfer's hash.
    pub open spec fn spec_applied(self, ledger: LedgerView, hash: ContentHash) -> LedgerView {
        ledger.debited(self.from, self.amount, hash, 0).credited(
            self.to,
            self.amount,
            hash,
        ).recorded(hash, Operation::Transfer(self))
    }

    /// Whether the ledger has room for the transfer: where it would succeed
    /// between two wallets, the receiver's spendable funds and the amount
    /// together must not exceed `u64::MAX`.
    pub open spec fn spec_fits(self, ledger: LedgerView) -> bool {
        self.spec_failure(ledger) is None && self.from != self.to ==> ledger.wallet(
            self.to,
        ).balance + self.amount <= u64::MAX
    }

    /// Whether the ledger has room for the transfer.
    pub fn fits(&self, ledger: &Ledger) -> (fits: bool)
        requires
            ledger@.wf(),
        ensures
            fits == self.spec_fits(ledger@),
    {
        if self.from == self.to {
            return true;
        }
        let available = match ledger.wallet(&self.from) {
            Some(sender) => sender.balance,
            None => {
                return true;
            },
        };
        match ledger.wallet(&self.to) {
            Some(receiver) => available < self.amount || self.amount <= u64::MAX
                - receiver.balance,
            None => true,
        }
    }

    /// Moves the amount from the sender to the receiver.
    pub fn execute(&self, ledger: &mut Ledger, hash: &ContentHash) -> (result: Result<(), Error>)
        requires
            old(ledger)@.wf(),
            self.spec_fits(old(ledger)@),
        ensures
            final(ledger)@.wf(),
            self.spec_failure(old(ledger)@) is Some ==> final(ledger)@ == old(ledger)@ && result
                == Err::<(), Error>(self.spec_failure(old(ledger)@)->Some_0),
            self.spec_failure(old(ledger)@) is None ==> final(ledger)@ == self.spec_applied(
                old(ledger)@,
                *hash,
            ) && result is Ok,
            result is Ok ==> final(ledger)@.total_value() == old(ledger)@.total_value(),
    {
        let available = match ledger.wallet(&self.from) {
            Some(sender) => sender.balance,
            None => {
                return Err(Error::SenderNotFound);
            },
        };
        if ledger.wallet(&self.to).is_none() {
            return Err(Error::ReceiverNotFound);
        }
        if available < self.amount {
            return Err(Error::InsufficientCurrencyAmount);
        }
        proof {
            ledger@.lemma_debited(self.from, self.amount, *hash, 0);
        }
        ledger.decrease_wallet_balance(&self.from, self.amount, hash, 0)?;
        proof {
            ledger@.lemma_credited(self.to, self.amount, *hash);
        }
        ledger.increase_wallet_balance(&self.to, self.amount, hash, 0);
        proof {
            ledger@.lemma_recorded(*hash, Operation::Transfer(*self));
        }
        ledger.record_operation(*hash, Operation::Transfer(self.clone()));
        Ok(())
    }
}

impl Issue {
    /// An issue fails when the receiver has no wallet.
    pub open spec fn spec_failure(self, ledger: LedgerView) -> Option<Error> {
        if !ledger.has_wallet(self.pub_key) {
            Some(Error::ReceiverNotFound)
        } else {
            None
        }
    }

    /// The ledger after the issue: the receiver credited by the amount.
    pub open spec fn spec_applied(self, ledger: LedgerView, hash: ContentHash) -> LedgerView {
        ledger.credited(self.pub_key, self.amount, hash).recorded(hash, Operation::Issue(self))
    }

    /// Whether the ledger has room for the issue: the receiver's spendable
    /// funds and the amount together must not exceed `u64::MAX`.
    pub open spec fn spec_fits(self, ledger: LedgerView) -> bool {
        ledger.has_wallet(self.pub_key) ==> ledger.wallet(self.pub_key).balance + self.amount
            <= u64::MAX
    }

    /// Whether the ledger has room for the issue.
    pub fn fits(&self, ledger: &Ledger) -> (fits: bool)
        requires
            ledger@.wf(),
        ensures
            fits == self.spec_fits(ledger@),
    {
        match ledger.wallet(&self.pub_key) {
            Some(receiver) => self.amount <= u64::MAX - receiver.balance,
            None => true,
        }
    }

    /// Mints the amount into the receiver's wallet.
    pub fn execute(&self, ledger: &mut Ledger, hash: &ContentHash) -> (result: Result<(), Error>)
        requires
            old(ledger)@.wf(),
            self.spec_fits(old(ledger)@),
        ensures
            final(ledger)@.wf(),
            self.spec_failure(old(ledger)@) is Some ==> final(ledger)@ == old(ledger)@ && result
                == Err::<(), Error>(self.spec_failure(old(ledger)@)->Some_0),
            self.spec_failure(old(ledger)@) is None ==> final(ledger)@ == self.spec_applied(
                old(ledger)@,
                *hash,
            ) && result is Ok,
            result is Ok ==> final(ledger)@.total_value() == old(ledger)@.total_value()
                + self.amount,
    {
        if ledger.wallet(&self.pub_key).is_none() {
            return Err(Error::ReceiverNotFound);
        }
        ledger.increase_wallet_balance(&self.pub_key, self.amount, hash, 0);
        proof {
            ledger@.lemma_recorded(*hash, Operation::Issue(*self));
        }
        ledger.record_operation(*hash, Operation::Issue(self.clone()));
        Ok(())
    }
}

impl MailPreparation {
    /// A freeze fails when the owner has no wallet, or has less than the
    /// amount to spend.
    pub open spec fn spec_failure(self, ledger: LedgerView) -> Option<Error> {
        if !ledger.has_wallet(self.pub_key) {
            Some(Error::SenderNotFound)
        } else if ledger.wallet(self.pub_key).balance < self.amount {
            Some(Error::InsufficientCurrencyAmount)
        } else {
            None
        }
    }

    /// The ledger after the freeze: the amount moved from the owner's
    /// spendable funds to its frozen funds, marked with the amount.
    pub open spec fn spec_applied(self, ledger: LedgerView, hash: ContentHash) -> LedgerView {
        ledger.debited(self.pub_key, self.amount, hash, self.amount).recorded(
            hash,
            Operation::MailPreparation(self),
        )
    }

    /// Whether the ledger has room for the freeze: where it would succeed,
    /// the owner's frozen funds and the amount together must not exceed
    /// `u64::MAX`.
    pub open spec fn spec_fits(self, ledger: LedgerView) -> bool {
        self.spec_failure(ledger) is None ==> ledger.wallet(self.pub_key).freezed_balance
            + self.amount <= u64::MAX
    }

    /// Whether the ledger has room for the freeze.
    pub fn fits(&self, ledger: &Ledger) -> (fits: bool)
        requires
            ledger@.wf(),
        ensures
            fits == self.spec_fits(ledger@),
    {
        match ledger.wallet(&self.pub_key) {
            Some(owner) => owner.balance < self.amount || self.amount <= u64::MAX
                - owner.freezed_balance,
            None => true,
        }
    }

    /// Moves the amount into escrow.
    pub fn execute(&self, ledger: &mut Ledger, hash: &ContentHash) -> (result: Result<(), Error>)
        requires
            old(ledger)@.wf(),
            self.spec_fits(old(ledger)@),
        ensures
            final(ledger)@.wf(),
            self.spec_failure(old(ledger)@) is Some ==> final(ledger)@ == old(ledger)@ && result
                == Err::<(), Error>(self.spec_failure(old(ledger)@)->Some_0),
            self.spec_failure(old(ledger)@) is None ==> final(ledger)@ == self.spec_applied(
                old(ledger)@,
                *hash,
            ) && result is Ok,
            result is Ok ==> final(ledger)@.total_value() == old(ledger)@.total_value(),
    {
        let available = match ledger.wallet(&self.pub_key) {
            Some(owner) => owner.balance,
            None => {
                return Err(Error::SenderNotFound);
            },
        };
        if available < self.amount {
            return Err(Error::InsufficientCurrencyAmount);
        }
        proof {
            ledger@.lemma_debited(self.pub_key, self.amount, *hash, self.amount);
        }
        ledger.decrease_wallet_balance(&self.pub_key, self.amount, hash, self.amount)?;
        proof {
            ledger@.lemma_recorded(*hash, Operation::MailPreparation(*self));
        }
        ledger.record_operation(*hash, Operation::MailPreparation(self.clone()));
        Ok(())
    }
}

impl MailAcceptance {
    /// A release fails when the wallet it names has gone.
    pub open spec fn spec_failure(self, ledger: LedgerView) -> Option<Error> {
        if !ledger.has_wallet(self.sender) {
            Some(Error::SenderNotFound)
        } else {
            None
        }
    }

    /// The ledger after the release: a debit and a credit of nothing, which
    /// leave the funds as they are and note the release as the operation that
    /// touched the wallet last.
    pub open spec fn spec_applied(self, ledger: LedgerView, hash: ContentHash) -> LedgerView {
        ledger.debited(self.sender, 0, hash, 0).credited(self.sender, 0, hash).recorded(
            hash,
            Operation::MailAcceptance(self),
        )
    }

    /// Notes the release against the wallet. No funds move, whatever the
    /// `accept` flag and the amount say.
    pub fn execute(&self, ledger: &mut Ledger, hash: &ContentHash) -> (result: Result<(), Error>)
        requires
            old(ledger)@.wf(),
        ensures
            final(ledger)@.wf(),
            self.spec_failure(old(ledger)@) is Some ==> final(ledger)@ == old(ledger)@ && result
                == Err::<(), Error>(self.spec_failure(old(ledger)@)->Some_0),
            self.spec_failure(old(ledger)@) is None ==> final(ledger)@ == self.spec_applied(
                old(ledger)@,
                *hash,
            ) && result is Ok,
            result is Ok ==> final(ledger)@.total_value() == old(ledger)@.total_value(),
    {
        if ledger.wallet(&self.sender).is_none() {
            return Err(Error::SenderNotFound);
        }
        proof {
            ledger@.lemma_debited(self.sender, 0, *hash, 0);
        }
        ledger.decrease_wallet_balance(&self.sender, 0, hash, 0)?;
        proof {
            ledger@.lemma_credited(self.sender, 0, *hash);
        }
        ledger.increase_wallet_balance(&self.sender, 0, hash, 0);
        proof {
            ledger@.lemma_recorded(*hash, Operation::MailAcceptance(*self));
        }
        ledger.record_operation(*hash, Operation::MailAcceptance(self.clone()));
        Ok(())
    }
}

impl Operation {
    /// Whether the operation can be executed on the ledger: the wallets
    /// must have room for what it adds to them, and a reversal's claim about
    /// the kind of the operation it refers to must be true. A creation and a
    /// release can always be executed.
    pub open spec fn spec_executable_on(self, ledger: LedgerView) -> bool {
        match self {
            Operation::Transfer(op) => op.spec_fits(ledger),
            Operation::Issue(op) => op.spec_fits(ledger),
            Operation::MailPreparation(op) => op.spec_fits(ledger),
            Operation::Cancellation(op) => op.spec_well_tagged(ledger) && op.spec_fits(ledger),
            _ => true,
        }
    }

    /// The failure rule of the operation's kind.
    pub open spec fn spec_failure(self, ledger: LedgerView) -> Option<Error> {
        match self {
            Operation::Transfer(op) => op.spec_failure(ledger),
            Operation::Issue(op) => op.spec_failure(ledger),
            Operation::CreateWallet(op) => op.spec_failure(ledger),
            Operation::MailPreparation(op) => op.spec_failure(ledger),
            Operation::MailAcceptance(op) => op.spec_failure(ledger),
            Operation::Cancellation(op) => op.spec_failure(ledger),
        }
    }

    /// The effect of the operation's kind.
    pub open spec fn spec_applied(self, ledger: LedgerView, hash: ContentHash) -> LedgerView {
        match self {
            Operation::Transfer(op) => op.spec_applied(ledger, hash),
            Operation::Issue(op) => op.spec_applied(ledger, hash),
            Operation::CreateWallet(op) => op.spec_applied(ledger, hash),
            Operation::MailPreparation(op) => op.spec_applied(ledger, hash),
            Operation::MailAcceptance(op) => op.spec_applied(ledger, hash),
            Operation::Cancellation(op) => op.spec_applied(ledger, hash),
        }
    }

    /// The ledger after the operation was executed on it: unchanged where the
    /// operation fails, with the operation's effect where it does not.
    pub open spec fn spec_execute(self, ledger: LedgerView, hash: ContentHash) -> LedgerView {
        if self.spec_failure(ledger) is Some {
            ledger
        } else {
            self.spec_applied(ledger, hash)
        }
    }

    /// Whether the operation can be executed on the ledger.
    pub fn executable_on(&self, ledger: &Ledger) -> (executable: bool)
        requires
            ledger@.wf(),
        ensures
            executable == self.spec_executable_on(ledger@),
    {
        match self {
            Operation::Transfer(op) => op.fits(ledger),
            Operation::Issue(op) => op.fits(ledger),
            Operation::MailPreparation(op) => op.fits(ledger),
            Operation::Cancellation(op) => op.well_tagged(ledger) && op.fits(ledger),
            _ => true,
        }
    }

    /// Executes the operation, whose content hash is `hash`, on the ledger.
    /// On failure the ledger is left as it was.
    pub fn execute(&self, ledger: &mut Ledger, hash: &ContentHash) -> (result: Result<(), Error>)
        requires
            old(ledger)@.wf(),
            self.spec_executable_on(old(ledger)@),
        ensures
            final(ledger)@.wf(),
            final(ledger)@ == self.spec_execute(old(ledger)@, *hash),
            self.spec_failure(old(ledger)@) is Some ==> result == Err::<(), Error>(
                self.spec_failure(old(ledger)@)->Some_0,
            ),
            self.spec_failure(old(ledger)@) is None ==> result is Ok,
    {
        match self {
            Operation::Transfer(op) => op.execute(ledger, hash),
            Operation::Issue(op) => op.execute(ledger, hash),
            Operation::CreateWallet(op) => op.execute(ledger, hash),
            Operation::MailPreparation(op) => op.execute(ledger, hash),
            Operation::MailAcceptance(op) => op.execute(ledger, hash),
            Operation::Cancellation(op) => op.execute(ledger, hash),
        }
    }
}

} // verus!
