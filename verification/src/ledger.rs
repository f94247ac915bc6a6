//! The ledger store: every wallet, and the log of recorded operations.
//!
//! The store is modelled as two sequences. Wallets stand in the order in
//! which they were created and no key occurs twice; log entries stand in the
//! order in which they were recorded and no hash occurs twice. A balance is a
//! `u64`: an operation that would take one beyond `u64::MAX` cannot be
//! executed, and each operation says so in what it demands of its caller.

use vstd::prelude::*;
use crate::error::Error;
use crate::keys::ContentHash;
use crate::keys::PublicKey;
use crate::operations::Operation;
use crate::wallet::Wallet;

verus! {

/// An entry of the operation log: an operation under its content hash.
#[derive(Debug)]
pub struct Recorded {
    pub hash: ContentHash,
    pub operation: Operation,
}

/// What the given wallets hold together, spendable and frozen.
pub open spec fn sum_holdings(wallets: Seq<Wallet>) -> nat
    decreases wallets.len(),
{
    if wallets.len() == 0 {
        0
    } else {
        sum_holdings(wallets.drop_last()) + wallets.last().holdings()
    }
}

/// Adding a wallet adds what it holds.
pub proof fn lemma_sum_push(wallets: Seq<Wallet>, wallet: Wallet)
    ensures
        sum_holdings(wallets.push(wallet)) == sum_holdings(wallets) + wallet.holdings(),
{
    assert(wallets.push(wallet).drop_last() =~= wallets);
}

/// Replacing a wallet changes the sum by the difference of what the two hold.
pub proof fn lemma_sum_update(wallets: Seq<Wallet>, i: int, wallet: Wallet)
    requires
        0 <= i < wallets.len(),
    ensures
        sum_holdings(wallets.update(i, wallet)) + wallets[i].holdings() == sum_holdings(wallets)
            + wallet.holdings(),
    decreases wallets.len(),
{
    if i == wallets.len() - 1 {
        assert(wallets.update(i, wallet).drop_last() =~= wallets.drop_last());
    } else {
        lemma_sum_update(wallets.drop_last(), i, wallet);
        assert(wallets.update(i, wallet).drop_last() =~= wallets.drop_last().update(i, wallet));
    }
}

/// A prefix of the wallets holds no more than all of them.
pub proof fn lemma_sum_prefix(wallets: Seq<Wallet>, n: int)
    requires
        0 <= n <= wallets.len(),
    ensures
        sum_holdings(wallets.take(n)) <= sum_holdings(wallets),
    decreases wallets.len() - n,
{
    if n == wallets.len() {
        assert(wallets.take(n) =~= wallets);
    } else {
        lemma_sum_prefix(wallets, n + 1);
        assert(wallets.take(n + 1).drop_last() =~= wallets.take(n));
    }
}

/// No wallet holds more than all of them together.
pub proof fn lemma_sum_bounds(wallets: Seq<Wallet>, i: int)
    requires
        0 <= i < wallets.len(),
    ensures
        wallets[i].holdings() <= sum_holdings(wallets),
{
    lemma_sum_prefix(wallets, i + 1);
    assert(wallets.take(i + 1).last() == wallets[i]);
}

/// The mathematical model of a ledger.
pub struct LedgerView {
    pub wallets: Seq<Wallet>,
    pub operations: Seq<Recorded>,
}

impl LedgerView {
    /// Whether a wallet exists for `key`.
    pub open spec fn has_wallet(self, key: PublicKey) -> bool {
        exists|i: int| 0 <= i < self.wallets.len() && (#[trigger] self.wallets[i]).pub_key == key
    }

    /// Where the wallet of `key` stands, if it exists.
    pub open spec fn wallet_index(self, key: PublicKey) -> int {
        choose|i: int| 0 <= i < self.wallets.len() && (#[trigger] self.wallets[i]).pub_key == key
    }

    /// The wallet of `key`, if it exists.
    pub open spec fn wallet(self, key: PublicKey) -> Wallet
        recommends
            self.has_wallet(key),
    {
        self.wallets[self.wallet_index(key)]
    }

    /// Whether an operation is recorded under `hash`.
    pub open spec fn has_operation(self, hash: ContentHash) -> bool {
        exists|i: int|
            0 <= i < self.operations.len() && (#[trigger] self.operations[i]).hash == hash
    }

    /// Where the operation `hash` stands in the log, if it is recorded.
    pub open spec fn operation_index(self, hash: ContentHash) -> int {
        choose|i: int|
            0 <= i < self.operations.len() && (#[trigger] self.operations[i]).hash == hash
    }

    /// The operation recorded under `hash`, if there is one.
    pub open spec fn operation(self, hash: ContentHash) -> Operation
        recommends
            self.has_operation(hash),
    {
        self.operations[self.operation_index(hash)].operation
    }

    /// What all wallets hold together, spendable and frozen.
    pub open spec fn total_value(self) -> nat {
        sum_holdings(self.wallets)
    }

    /// The invariant of a ledger: no key and no hash occurs twice.
    pub open spec fn wf(self) -> bool {
        &&& forall|i: int, j: int|
            0 <= i < j < self.wallets.len() ==> (#[trigger] self.wallets[i]).pub_key != (
            #[trigger] self.wallets[j]).pub_key
        &&& forall|i: int, j: int|
            0 <= i < j < self.operations.len() ==> (#[trigger] self.operations[i]).hash != (
            #[trigger] self.operations[j]).hash
    }

    /// The ledger without wallets or operations.
    pub open spec fn empty() -> LedgerView {
        LedgerView { wallets: Seq::empty(), operations: Seq::empty() }
    }

    /// The ledger with `wallet` in the place of the wallet that has its key.
    pub open spec fn with_wallet(self, wallet: Wallet) -> LedgerView
        recommends
            self.has_wallet(wallet.pub_key),
    {
        LedgerView {
            wallets: self.wallets.update(self.wallet_index(wallet.pub_key), wallet),
            ..self
        }
    }

    /// The ledger with `wallet` added after the wallets it has.
    pub open spec fn inserted(self, wallet: Wallet) -> LedgerView
        recommends
            !self.has_wallet(wallet.pub_key),
    {
        LedgerView { wallets: self.wallets.push(wallet), ..self }
    }

    /// The ledger after a fresh wallet was opened for `key`.
    pub open spec fn opened(self, key: PublicKey, name: String, hash: ContentHash) -> LedgerView
        recommends
            !self.has_wallet(key),
    {
        self.inserted(Wallet::opened(key, name, hash))
    }

    /// The ledger after the wallet of `key` was credited.
    pub open spec fn credited(self, key: PublicKey, amount: u64, hash: ContentHash) -> LedgerView
        recommends
            self.has_wallet(key),
    {
        self.with_wallet(self.wallet(key).credited(amount, hash))
    }

    /// The ledger after the wallet of `key` was debited.
    pub open spec fn debited(
        self,
        key: PublicKey,
        amount: u64,
        hash: ContentHash,
        freeze_tag: u64,
    ) -> LedgerView
        recommends
            self.has_wallet(key),
    {
        self.with_wallet(self.wallet(key).debited(amount, hash, freeze_tag))
    }

    /// The ledger after `operation` was recorded under `hash`. An entry that
    /// is already there stays as it is, and nothing is added.
    pub open spec fn recorded(self, hash: ContentHash, operation: Operation) -> LedgerView {
        if self.has_operation(hash) {
            self
        } else {
            LedgerView { operations: self.operations.push(Recorded { hash, operation }), ..self }
        }
    }

    /// In a well-formed ledger a wallet is found where its key stands.
    pub proof fn lemma_wallet_at(self, i: int)
        requires
            self.wf(),
            0 <= i < self.wallets.len(),
        ensures
            self.has_wallet(self.wallets[i].pub_key),
            self.wallet_index(self.wallets[i].pub_key) == i,
            self.wallet(self.wallets[i].pub_key) == self.wallets[i],
    {
        let key = self.wallets[i].pub_key;
        let j = self.wallet_index(key);
        assert(self.wallets[j].pub_key == key);
        if j < i {
            assert(self.wallets[j].pub_key != self.wallets[i].pub_key);
        } else if i < j {
            assert(self.wallets[i].pub_key != self.wallets[j].pub_key);
        }
    }

    /// In a well-formed ledger an operation is found where its hash stands.
    pub proof fn lemma_operation_at(self, i: int)
        requires
            self.wf(),
            0 <= i < self.operations.len(),
        ensures
            self.has_operation(self.operations[i].hash),
            self.operation_index(self.operations[i].hash) == i,
            self.operation(self.operations[i].hash) == self.operations[i].operation,
    {
        let hash = self.operations[i].hash;
        let j = self.operation_index(hash);
        assert(self.operations[j].hash == hash);
        if j < i {
            assert(self.operations[j].hash != self.operations[i].hash);
        } else if i < j {
            assert(self.operations[i].hash != self.operations[j].hash);
        }
    }

    /// Replacing a wallet by one with the same key keeps the ledger
    /// well-formed, keeps every key in its place, and changes only that
    /// wallet.
    pub proof fn lemma_with_wallet(self, wallet: Wallet)
        requires
            self.wf(),
            self.has_wallet(wallet.pub_key),
        ensures
            self.with_wallet(wallet).wf(),
            self.with_wallet(wallet).total_value() + self.wallet(wallet.pub_key).holdings()
                == self.total_value() + wallet.holdings(),
            self.with_wallet(wallet).operations == self.operations,
            self.with_wallet(wallet).wallet(wallet.pub_key) == wallet,
            forall|key: PublicKey|
                self.with_wallet(wallet).has_wallet(key) == self.has_wallet(key),
            forall|key: PublicKey|
                self.has_wallet(key) ==> self.with_wallet(wallet).wallet_index(key)
                    == self.wallet_index(key),
            forall|key: PublicKey|
                self.has_wallet(key) && key != wallet.pub_key ==> self.with_wallet(wallet).wallet(
                    key,
                ) == self.wallet(key),
    {
        let i = self.wallet_index(wallet.pub_key);
        let next = self.with_wallet(wallet);
        lemma_sum_update(self.wallets, i, wallet);
        assert(next.wallets.len() == self.wallets.len());
        assert forall|k: int| 0 <= k < self.wallets.len() implies (#[trigger] next.wallets[k]).pub_key
            == self.wallets[k].pub_key by {}
        assert(next.wf());
        assert forall|key: PublicKey| next.has_wallet(key) == self.has_wallet(key) by {
            if self.has_wallet(key) {
                let k = self.wallet_index(key);
                assert(next.wallets[k].pub_key == key);
            }
            if next.has_wallet(key) {
                let k = next.wallet_index(key);
                assert(self.wallets[k].pub_key == key);
            }
        }
        assert forall|key: PublicKey| self.has_wallet(key) implies next.wallet_index(key)
            == self.wallet_index(key) by {
            let k = self.wallet_index(key);
            assert(next.wallets[k].pub_key == key);
            next.lemma_wallet_at(k);
        }
    }

    /// No wallet of a ledger holds more than the ledger's total value.
    pub proof fn lemma_wallet_bounds(self, key: PublicKey)
        requires
            self.has_wallet(key),
        ensures
            self.wallet(key).holdings() <= self.total_value(),
    {
        lemma_sum_bounds(self.wallets, self.wallet_index(key));
    }

    /// What a debit that the wallet can afford does to the ledger: only the
    /// wallet of `key` changes, and the total value falls by `amount` unless
    /// the amount is frozen.
    pub proof fn lemma_debited(self, key: PublicKey, amount: u64, hash: ContentHash, freeze_tag: u64)
        requires
            self.wf(),
            self.has_wallet(key),
            amount <= self.wallet(key).balance,
            freeze_tag != 0 ==> self.wallet(key).freezed_balance + amount <= u64::MAX,
        ensures
            self.debited(key, amount, hash, freeze_tag).wf(),
            self.debited(key, amount, hash, freeze_tag).operations == self.operations,
            self.debited(key, amount, hash, freeze_tag).wallet(key) == self.wallet(key).debited(
                amount,
                hash,
                freeze_tag,
            ),
            self.debited(key, amount, hash, freeze_tag).wallet(key).balance == self.wallet(
                key,
            ).balance - amount,
            freeze_tag != 0 ==> self.debited(key, amount, hash, freeze_tag).total_value()
                == self.total_value(),
            freeze_tag == 0 ==> self.debited(key, amount, hash, freeze_tag).total_value() + amount
                == self.total_value(),
            forall|other: PublicKey|
                self.debited(key, amount, hash, freeze_tag).has_wallet(other) == self.has_wallet(
                    other,
                ),
            forall|other: PublicKey|
                self.has_wallet(other) && other != key ==> self.debited(
                    key,
                    amount,
                    hash,
                    freeze_tag,
                ).wallet(other) == self.wallet(other),
    {
        self.lemma_with_wallet(self.wallet(key).debited(amount, hash, freeze_tag));
    }

    /// What a credit that the wallet has room for does to the ledger: only
    /// the wallet of `key` changes, and the total value rises by `amount`.
    pub proof fn lemma_credited(self, key: PublicKey, amount: u64, hash: ContentHash)
        requires
            self.wf(),
            self.has_wallet(key),
            self.wallet(key).balance + amount <= u64::MAX,
        ensures
            self.credited(key, amount, hash).wf(),
            self.credited(key, amount, hash).operations == self.operations,
            self.credited(key, amount, hash).wallet(key) == self.wallet(key).credited(amount, hash),
            self.credited(key, amount, hash).wallet(key).balance == self.wallet(key).balance
                + amount,
            self.credited(key, amount, hash).total_value() == self.total_value() + amount,
            forall|other: PublicKey|
                self.credited(key, amount, hash).has_wallet(other) == self.has_wallet(other),
            forall|other: PublicKey|
                self.has_wallet(other) && other != key ==> self.credited(key, amount, hash).wallet(
                    other,
                ) == self.wallet(other),
    {
        self.lemma_with_wallet(self.wallet(key).credited(amount, hash));
    }

    /// What recording does to the ledger: the wallets stay as they are, the
    /// hash is in the log afterwards, an entry that was there is kept, and every
    /// other entry is found as before.
    pub proof fn lemma_recorded(self, hash: ContentHash, operation: Operation)
        requires
            self.wf(),
        ensures
            self.recorded(hash, operation).wf(),
            self.recorded(hash, operation).wallets == self.wallets,
            self.recorded(hash, operation).has_operation(hash),
            self.recorded(hash, operation).operation(hash) == if self.has_operation(hash) {
                self.operation(hash)
            } else {
                operation
            },
            forall|other: ContentHash|
                other != hash ==> self.recorded(hash, operation).has_operation(other)
                    == self.has_operation(other),
            forall|other: ContentHash|
                self.has_operation(other) ==> self.recorded(hash, operation).operation(other)
                    == self.operation(other),
    {
        let next = self.recorded(hash, operation);
        if !self.has_operation(hash) {
            let n = self.operations.len() as int;
            assert(next.operations[n].hash == hash);
            assert forall|i: int, j: int| 0 <= i < j < next.operations.len() implies (
            #[trigger] next.operations[i]).hash != (#[trigger] next.operations[j]).hash by {
                if j == n {
                    assert(self.operations[i].hash != hash);
                }
            }
            next.lemma_operation_at(n);
            assert forall|other: ContentHash| other != hash implies next.has_operation(other)
                == self.has_operation(other) by {
                if self.has_operation(other) {
                    let k = self.operation_index(other);
                    assert(next.operations[k].hash == other);
                }
                if next.has_operation(other) {
                    let k = next.operation_index(other);
                    assert(self.operations[k].hash == other);
                }
            }
            assert forall|other: ContentHash| self.has_operation(other) implies next.operation(
                other,
            ) == self.operation(other) by {
                let k = self.operation_index(other);
                assert(next.operations[k].hash == other);
                next.lemma_operation_at(k);
            }
        }
    }

    /// What adding a wallet under an unused key does to the ledger: the new
    /// wallet is found under its key, every other wallet is found as before,
    /// and the total value rises by what the new wallet holds.
    pub proof fn lemma_inserted(self, wallet: Wallet)
        requires
            self.wf(),
            !self.has_wallet(wallet.pub_key),
        ensures
            self.inserted(wallet).wf(),
            self.inserted(wallet).operations == self.operations,
            self.inserted(wallet).has_wallet(wallet.pub_key),
            self.inserted(wallet).wallet(wallet.pub_key) == wallet,
            self.inserted(wallet).total_value() == self.total_value() + wallet.holdings(),
            forall|other: PublicKey|
                other != wallet.pub_key ==> self.inserted(wallet).has_wallet(other)
                    == self.has_wallet(other),
            forall|other: PublicKey|
                self.has_wallet(other) ==> self.inserted(wallet).wallet(other) == self.wallet(
                    other,
                ),
    {
        let key = wallet.pub_key;
        let next = self.inserted(wallet);
        let n = self.wallets.len() as int;
        lemma_sum_push(self.wallets, wallet);
        assert(next.wallets[n].pub_key == key);
        assert forall|i: int, j: int| 0 <= i < j < next.wallets.len() implies (
        #[trigger] next.wallets[i]).pub_key != (#[trigger] next.wallets[j]).pub_key by {
            if j == n {
                assert(self.wallets[i].pub_key != key);
            }
        }
        next.lemma_wallet_at(n);
        assert forall|other: PublicKey| other != key implies next.has_wallet(other)
            == self.has_wallet(other) by {
            if self.has_wallet(other) {
                let k = self.wallet_index(other);
                assert(next.wallets[k].pub_key == other);
            }
            if next.has_wallet(other) {
                let k = next.wallet_index(other);
                assert(self.wallets[k].pub_key == other);
            }
        }
        assert forall|other: PublicKey| self.has_wallet(other) implies next.wallet(other)
            == self.wallet(other) by {
            let k = self.wallet_index(other);
            assert(next.wallets[k].pub_key == other);
            next.lemma_wallet_at(k);
        }
    }
}

/// The ledger store: the wallets and the operation log.
#[derive(Debug)]
pub struct Ledger {
    wallets: Vec<Wallet>,
    operations: Vec<Recorded>,
}

impl View for Ledger {
    type V = LedgerView;

    closed spec fn view(&self) -> LedgerView {
        LedgerView { wallets: self.wallets@, operations: self.operations@ }
    }
}

impl Ledger {
    /// A ledger without wallets or operations.
    pub fn new() -> (ledger: Ledger)
        ensures
            ledger@ == LedgerView::empty(),
            ledger@.wf(),
    {
        let ledger = Ledger { wallets: Vec::new(), operations: Vec::new() };
        assert(ledger@.wallets =~= Seq::empty());
        assert(ledger@.operations =~= Seq::empty());
        ledger
    }

    /// Where the wallet of `key` stands among the wallets.
    fn find_wallet(&self, key: &PublicKey) -> (place: Option<usize>)
        requires
            self@.wf(),
        ensures
            match place {
                Some(i) => self@.has_wallet(*key) && i == self@.wallet_index(*key),
                None => !self@.has_wallet(*key),
            },
    {
        let mut i: usize = 0;
        while i < self.wallets.len()
            invariant
                self@.wf(),
                i <= self.wallets.len(),
                forall|j: int| 0 <= j < i ==> (#[trigger] self.wallets@[j]).pub_key != *key,
            decreases self.wallets.len() - i,
        {
            if self.wallets[i].pub_key == *key {
                proof {
                    self@.lemma_wallet_at(i as int);
                }
                return Some(i);
            }
            i += 1;
        }
        None
    }

    /// Where the operation `hash` stands in the log.
    fn find_operation(&self, hash: &ContentHash) -> (place: Option<usize>)
        requires
            self@.wf(),
        ensures
            match place {
                Some(i) => self@.has_operation(*hash) && i == self@.operation_index(*hash),
                None => !self@.has_operation(*hash),
            },
    {
        let mut i: usize = 0;
        while i < self.operations.len()
            invariant
                self@.wf(),
                i <= self.operations.len(),
                forall|j: int| 0 <= j < i ==> (#[trigger] self.operations@[j]).hash != *hash,
            decreases self.operations.len() - i,
        {
            if self.operations[i].hash == *hash {
                proof {
                    self@.lemma_operation_at(i as int);
                }
                return Some(i);
            }
            i += 1;
        }
        None
    }

    /// Looks up the wallet of `key`. Reads only.
    pub fn wallet(&self, key: &PublicKey) -> (found: Option<&Wallet>)
        requires
            self@.wf(),
        ensures
            found is Some == self@.has_wallet(*key),
            found is Some ==> *found->Some_0 == self@.wallet(*key),
    {
        match self.find_wallet(key) {
            Some(i) => Some(&self.wallets[i]),
            None => None,
        }
    }

    /// Opens a wallet for `key` with no funds and returns a copy of it. The
    /// caller checks first that none exists for that key.
    pub fn create_wallet(&mut self, key: &PublicKey, name: String, hash: &ContentHash) -> (created:
        Wallet)
        requires
            old(self)@.wf(),
            !old(self)@.has_wallet(*key),
        ensures
            created == Wallet::opened(*key, name, *hash),
            final(self)@ == old(self)@.opened(*key, name, *hash),
            final(self)@.wf(),
            final(self)@.has_wallet(*key),
            final(self)@.wallet(*key) == Wallet::opened(*key, name, *hash),
            final(self)@.total_value() == old(self)@.total_value(),
    {
        let wallet = Wallet {
            pub_key: *key,
            name,
            balance: 0,
            freezed_balance: 0,
            history_hash: *hash,
            freeze_tag: 0,
        };
        proof {
            self@.lemma_inserted(wallet);
        }
        let created = wallet.clone();
        self.wallets.push(wallet);
        created
    }

    /// Puts a wallet with funds into the ledger, as when a ledger is loaded
    /// from where it was kept. The wallet is refused, and nothing changes,
    /// when its key is taken.
    pub fn insert_wallet(&mut self, wallet: Wallet) -> (inserted: bool)
        requires
            old(self)@.wf(),
        ensures
            final(self)@.wf(),
            inserted == !old(self)@.has_wallet(wallet.pub_key),
            inserted ==> final(self)@ == old(self)@.inserted(wallet),
            !inserted ==> final(self)@ == old(self)@,
    {
        if self.find_wallet(&wallet.pub_key).is_some() {
            return false;
        }
        proof {
            self@.lemma_inserted(wallet);
        }
        self.wallets.push(wallet);
        true
    }

    /// Adds `amount` to the spendable funds of the wallet of `key`, which
    /// must have room for it, and notes `hash` as the operation that touched
    /// it last. A credit moves nothing into escrow, whatever `freeze_tag`
    /// says.
    pub fn increase_wallet_balance(
        &mut self,
        key: &PublicKey,
        amount: u64,
        hash: &ContentHash,
        freeze_tag: u64,
    )
        requires
            old(self)@.wf(),
            old(self)@.has_wallet(*key),
            old(self)@.wallet(*key).balance + amount <= u64::MAX,
        ensures
            final(self)@ == old(self)@.credited(*key, amount, *hash),
            final(self)@.wf(),
            final(self)@.total_value() == old(self)@.total_value() + amount,
    {
        let found = self.find_wallet(key);
        let i = found.unwrap();
        let current = &self.wallets[i];
        let updated = Wallet {
            pub_key: current.pub_key,
            name: current.name.clone(),
            balance: current.balance + amount,
            freezed_balance: current.freezed_balance,
            history_hash: *hash,
            freeze_tag: current.freeze_tag,
        };
        proof {
            assert(updated == self@.wallet(*key).credited(amount, *hash));
            self@.lemma_with_wallet(updated);
        }
        self.wallets.set(i, updated);
    }

    /// Takes `amount` from the spendable funds of the wallet of `key` and
    /// notes `hash` as the operation that touched it last. With a non-zero
    /// `freeze_tag` the amount moves into the wallet's frozen funds, which
    /// must have room for it; with a zero tag it leaves the wallet. Fails, and
    /// changes nothing, when the wallet has less than `amount` to spend.
    pub fn decrease_wallet_balance(
        &mut self,
        key: &PublicKey,
        amount: u64,
        hash: &ContentHash,
        freeze_tag: u64,
    ) -> (result: Result<(), Error>)
        requires
            old(self)@.wf(),
            old(self)@.has_wallet(*key),
            freeze_tag != 0 && old(self)@.wallet(*key).balance >= amount ==> old(self)@.wallet(
                *key,
            ).freezed_balance + amount <= u64::MAX,
        ensures
            final(self)@.wf(),
            old(self)@.wallet(*key).balance < amount ==> result == Err::<(), Error>(
                Error::InsufficientCurrencyAmount,
            ) && final(self)@ == old(self)@,
            old(self)@.wallet(*key).balance >= amount ==> result is Ok && final(self)@ == old(
                self,
            )@.debited(*key, amount, *hash, freeze_tag),
            result is Ok && freeze_tag != 0 ==> final(self)@.total_value() == old(
                self,
            )@.total_value(),
            result is Ok && freeze_tag == 0 ==> final(self)@.total_value() + amount == old(
                self,
            )@.total_value(),
    {
        let found = self.find_wallet(key);
        let i = found.unwrap();
        let current = &self.wallets[i];
        if current.balance < amount {
            return Err(Error::InsufficientCurrencyAmount);
        }
        let updated = if freeze_tag != 0 {
            Wallet {
                pub_key: current.pub_key,
                name: current.name.clone(),
                balance: current.balance - amount,
                freezed_balance: current.freezed_balance + amount,
                history_hash: *hash,
                freeze_tag,
            }
        } else {
            Wallet {
                pub_key: current.pub_key,
                name: current.name.clone(),
                balance: current.balance - amount,
                freezed_balance: current.freezed_balance,
                history_hash: *hash,
                freeze_tag: current.freeze_tag,
            }
        };
        proof {
            assert(updated == self@.wallet(*key).debited(amount, *hash, freeze_tag));
            self@.lemma_with_wallet(updated);
        }
        self.wallets.set(i, updated);
        Ok(())
    }

    /// Records `operation` under `hash` and returns the hash. Recording a
    /// hash that is already in the log changes nothing.
    pub fn record_operation(&mut self, hash: ContentHash, operation: Operation) -> (key:
        ContentHash)
        requires
            old(self)@.wf(),
        ensures
            key == hash,
            final(self)@ == old(self)@.recorded(hash, operation),
            final(self)@.wf(),
            final(self)@.has_operation(hash),
            !old(self)@.has_operation(hash) ==> final(self)@.operation(hash) == operation,
            old(self)@.has_operation(hash) ==> final(self)@.operation(hash) == old(
                self,
            )@.operation(hash),
    {
        proof {
            self@.lemma_recorded(hash, operation);
        }
        if self.find_operation(&hash).is_none() {
            self.operations.push(Recorded { hash, operation });
        }
        hash
    }

    /// Looks up the operation recorded under `hash`. Reads only.
    pub fn fetch_operation(&self, hash: &ContentHash) -> (found: Option<&Operation>)
        requires
            self@.wf(),
        ensures
            found is Some == self@.has_operation(*hash),
            found is Some ==> *found->Some_0 == self@.operation(*hash),
    {
        match self.find_operation(hash) {
            Some(i) => Some(&self.operations[i].operation),
            None => None,
        }
    }

    /// What all wallets hold together, spendable and frozen; `None` when
    /// the sum does not fit in a `u64`.
    pub fn total_value(&self) -> (total: Option<u64>)
        ensures
            total is Some == (self@.total_value() <= u64::MAX),
            total is Some ==> total->Some_0 == self@.total_value(),
    {
        let mut total: u64 = 0;
        let mut i: usize = 0;
        while i < self.wallets.len()
            invariant
                i <= self.wallets.len(),
                total == sum_holdings(self.wallets@.take(i as int)),
            decreases self.wallets.len() - i,
        {
            proof {
                lemma_sum_prefix(self.wallets@, i + 1);
                assert(self.wallets@.take(i + 1).drop_last() =~= self.wallets@.take(i as int));
            }
            let wallet = &self.wallets[i];
            if wallet.balance > u64::MAX - total {
                return None;
            }
            total = total + wallet.balance;
            if wallet.freezed_balance > u64::MAX - total {
                return None;
            }
            total = total + wallet.freezed_balance;
            i += 1;
        }
        proof {
            assert(self.wallets@.take(i as int) =~= self.wallets@);
        }
        Some(total)
    }
}

} // verus!
