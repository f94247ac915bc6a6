//! The account record that the ledger keeps for each public key.

use vstd::prelude::*;
use crate::keys::ContentHash;
use crate::keys::PublicKey;

verus! {

/// One account of the ledger.
///
/// `balance` is spendable, `freezed_balance` is held in escrow: it cannot be
/// spent but has not left the account. `history_hash` names the operation
/// that touched the account last, and `freeze_tag` is the marker left by the
/// operation that last froze funds.
#[derive(Debug)]
pub struct Wallet {
    pub pub_key: PublicKey,
    pub name: String,
    pub balance: u64,
    pub freezed_balance: u64,
    pub history_hash: ContentHash,
    pub freeze_tag: u64,
}

impl Clone for Wallet {
    fn clone(&self) -> (copy: Wallet)
        ensures
            copy == *self,
    {
        Wallet {
            pub_key: self.pub_key,
            name: self.name.clone(),
            balance: self.balance,
            freezed_balance: self.freezed_balance,
            history_hash: self.history_hash,
            freeze_tag: self.freeze_tag,
        }
    }
}

impl Wallet {
    /// What the account holds in all: spendable and frozen funds together.
    pub open spec fn holdings(self) -> nat {
        self.balance as nat + self.freezed_balance as nat
    }

    /// The account after `amount` was added to its spendable funds by the
    /// operation `hash`.
    pub open spec fn credited(self, amount: u64, hash: ContentHash) -> Wallet
        recommends
            self.balance + amount <= u64::MAX,
    {
        Wallet { balance: (self.balance + amount) as u64, history_hash: hash, ..self }
    }

    /// The account after `amount` was taken from its spendable funds by the
    /// operation `hash`. With a non-zero `freeze_tag` the amount moves to the
    /// frozen funds and the tag is kept as the account's marker; with a zero
    /// tag the amount leaves the account.
    pub open spec fn debited(self, amount: u64, hash: ContentHash, freeze_tag: u64) -> Wallet
        recommends
            amount <= self.balance,
            freeze_tag != 0 ==> self.freezed_balance + amount <= u64::MAX,
    {
        if freeze_tag != 0 {
            Wallet {
                balance: (self.balance - amount) as u64,
                freezed_balance: (self.freezed_balance + amount) as u64,
                history_hash: hash,
                freeze_tag,
                ..self
            }
        } else {
            Wallet { balance: (self.balance - amount) as u64, history_hash: hash, ..self }
        }
    }

    /// A fresh account: no funds, no marker, created by the operation `hash`.
    pub open spec fn opened(pub_key: PublicKey, name: String, hash: ContentHash) -> Wallet {
        Wallet { pub_key, name, balance: 0, freezed_balance: 0, history_hash: hash, freeze_tag: 0 }
    }

    /// Key of the account.
    pub fn pub_key(&self) -> (key: PublicKey)
        ensures
            key == self.pub_key,
    {
        self.pub_key
    }

    /// Display name of the account.
    pub fn name(&self) -> (name: &str)
        ensures
            name@ == self.name@,
    {
        self.name.as_str()
    }

    /// Spendable funds.
    pub fn balance(&self) -> (amount: u64)
        ensures
            amount == self.balance,
    {
        self.balance
    }

    /// Funds held in escrow.
    pub fn freezed_balance(&self) -> (amount: u64)
        ensures
            amount == self.freezed_balance,
    {
        self.freezed_balance
    }

    /// ContentHash of the operation that touched the account last.
    pub fn history_hash(&self) -> (hash: ContentHash)
        ensures
            hash == self.history_hash,
    {
        self.history_hash
    }

    /// Marker left by the operation that last froze funds; zero if none did.
    pub fn freeze_tag(&self) -> (tag: u64)
        ensures
            tag == self.freeze_tag,
    {
        self.freeze_tag
    }
}

} // verus!
