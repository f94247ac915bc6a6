//! The catalog of operations and the validation rule of each.
//!
//! Validation is a gate that runs before execution and never touches the
//! ledger. Each rule is a predicate over the operation's own fields and one
//! fact that the caller supplies: whether the signature that came with the
//! operation is valid under the key returned by `signer`.

use vstd::prelude::*;
use crate::keys::ContentHash;
use crate::keys::PublicKey;

verus! {

/// Value of `Cancellation::type_transaction` that names a `Transfer`.
pub const TRANSFER_TAG: u64 = 1;

/// Moves `amount` from the wallet `from` to the wallet `to`.
#[derive(Debug)]
pub struct Transfer {
    pub from: PublicKey,
    pub to: PublicKey,
    pub amount: u64,
    pub seed: u64,
}

/// Mints `amount` into the wallet `pub_key` on the authority of `issuer_key`.
#[derive(Debug)]
pub struct Issue {
    pub pub_key: PublicKey,
    pub issuer_key: PublicKey,
    pub amount: u64,
    pub seed: u64,
}

/// Opens a wallet for `pub_key` under the display name `name`.
#[derive(Debug)]
pub struct CreateWallet {
    pub pub_key: PublicKey,
    pub name: String,
}

/// Freezes `amount` of the funds of the wallet `pub_key`.
#[derive(Debug)]
pub struct MailPreparation {
    pub meta: String,
    pub pub_key: PublicKey,
    pub amount: u64,
    pub seed: u64,
}

/// Notes the release of frozen funds against the wallet `sender`; signed by
/// `pub_key`.
#[derive(Debug)]
pub struct MailAcceptance {
    pub sender: PublicKey,
    pub pub_key: PublicKey,
    pub amount: u64,
    pub accept: bool,
    pub seed: u64,
}

/// Asks to undo the recorded operation `tx_hash`, which the requester
/// `pub_key` claims to be of the kind `type_transaction`.
#[derive(Debug)]
pub struct Cancellation {
    pub pub_key: PublicKey,
    pub sender: PublicKey,
    pub tx_hash: ContentHash,
    pub type_transaction: u64,
}

/// Any operation of the catalog.
#[derive(Debug)]
pub enum Operation {
    Transfer(Transfer),
    Issue(Issue),
    CreateWallet(CreateWallet),
    MailPreparation(MailPreparation),
    MailAcceptance(MailAcceptance),
    Cancellation(Cancellation),
}

impl Transfer {
    /// The key whose signature authorises the transfer: the sender's.
    pub open spec fn spec_signer(self) -> PublicKey {
        self.from
    }

    /// A transfer is valid when it is signed by the sender and does not pay
    /// the sender itself.
    pub open spec fn spec_verify(self, signature_valid: bool) -> bool {
        self.from != self.to && signature_valid
    }

    /// The key under which the signature must be checked.
    pub fn signer(&self) -> (key: PublicKey)
        ensures
            key == self.spec_signer(),
    {
        self.from
    }

    /// Validates the transfer, given whether its signature is valid under
    /// `self.signer()`. A transfer from a wallet to itself is never valid.
    pub fn verify(&self, signature_valid: bool) -> (valid: bool)
        ensures
            valid == self.spec_verify(signature_valid),
            self.from == self.to ==> !valid,
    {
        self.from != self.to && signature_valid
    }
}

impl Clone for Transfer {
    fn clone(&self) -> (copy: Transfer)
        ensures
            copy == *self,
    {
        Transfer { from: self.from, to: self.to, amount: self.amount, seed: self.seed }
    }
}

impl Issue {
    /// The key whose signature authorises the issue: the issuer's, not the
    /// receiving wallet's.
    pub open spec fn spec_signer(self) -> PublicKey {
        self.issuer_key
    }

    /// An issue is valid when it is signed by the issuer.
    pub open spec fn spec_verify(self, signature_valid: bool) -> bool {
        signature_valid
    }

    /// The key under which the signature must be checked.
    pub fn signer(&self) -> (key: PublicKey)
        ensures
            key == self.spec_signer(),
    {
        self.issuer_key
    }

    /// Validates the issue, given whether its signature is valid under
    /// `self.signer()`.
    pub fn verify(&self, signature_valid: bool) -> (valid: bool)
        ensures
            valid == self.spec_verify(signature_valid),
    {
        signature_valid
    }
}

impl Clone for Issue {
    fn clone(&self) -> (copy: Issue)
        ensures
            copy == *self,
    {
        Issue {
            pub_key: self.pub_key,
            issuer_key: self.issuer_key,
            amount: self.amount,
            seed: self.seed,
        }
    }
}

impl CreateWallet {
    /// The key whose signature authorises the creation: the new wallet's own.
    pub open spec fn spec_signer(self) -> PublicKey {
        self.pub_key
    }

    /// A creation is valid when it is signed by the new wallet's key.
    pub open spec fn spec_verify(self, signature_valid: bool) -> bool {
        signature_valid
    }

    /// The key under which the signature must be checked.
    pub fn signer(&self) -> (key: PublicKey)
        ensures
            key == self.spec_signer(),
    {
        self.pub_key
    }

    /// Validates the creation, given whether its signature is valid under
    /// `self.signer()`.
    pub fn verify(&self, signature_valid: bool) -> (valid: bool)
        ensures
            valid == self.spec_verify(signature_valid),
    {
        signature_valid
    }
}

impl Clone for CreateWallet {
    fn clone(&self) -> (copy: CreateWallet)
        ensures
            copy == *self,
    {
        CreateWallet { pub_key: self.pub_key, name: self.name.clone() }
    }
}

impl MailPreparation {
    /// The key whose signature authorises the freeze: the owner's.
    pub open spec fn spec_signer(self) -> PublicKey {
        self.pub_key
    }

    /// A freeze is valid when it is signed by the owner of the funds.
    pub open spec fn spec_verify(self, signature_valid: bool) -> bool {
        signature_valid
    }

    /// The key under which the signature must be checked.
    pub fn signer(&self) -> (key: PublicKey)
        ensures
            key == self.spec_signer(),
    {
        self.pub_key
    }

    /// Validates the freeze, given whether its signature is valid under
    /// `self.signer()`.
    pub fn verify(&self, signature_valid: bool) -> (valid: bool)
        ensures
            valid == self.spec_verify(signature_valid),
    {
        signature_valid
    }
}

impl Clone for MailPreparation {
    fn clone(&self) -> (copy: MailPreparation)
        ensures
            copy == *self,
    {
        MailPreparation {
            meta: self.meta.clone(),
            pub_key: self.pub_key,
            amount: self.amount,
            seed: self.seed,
        }
    }
}

impl MailAcceptance {
    /// The key whose signature authorises the release: that of the account
    /// releasing the escrow.
    pub open spec fn spec_signer(self) -> PublicKey {
        self.pub_key
    }

    /// A release is valid when it is signed by the releasing account,
    /// whatever its `accept` flag says.
    pub open spec fn spec_verify(self, signature_valid: bool) -> bool {
        signature_valid
    }

    /// The key under which the signature must be checked.
    pub fn signer(&self) -> (key: PublicKey)
        ensures
            key == self.spec_signer(),
    {
        self.pub_key
    }

    /// Validates the release, given whether its signature is valid under
    /// `self.signer()`.
    pub fn verify(&self, signature_valid: bool) -> (valid: bool)
        ensures
            valid == self.spec_verify(signature_valid),
    {
        signature_valid
    }
}

impl Clone for MailAcceptance {
    fn clone(&self) -> (copy: MailAcceptance)
        ensures
            copy == *self,
    {
        MailAcceptance {
            sender: self.sender,
            pub_key: self.pub_key,
            amount: self.amount,
            accept: self.accept,
            seed: self.seed,
        }
    }
}

impl Cancellation {
    /// The key whose signature authorises the reversal: the requester's.
    pub open spec fn spec_signer(self) -> PublicKey {
        self.pub_key
    }

    /// A reversal is valid when it is signed by the requester. Whether the
    /// referenced operation exists is a matter for execution.
    pub open spec fn spec_verify(self, signature_valid: bool) -> bool {
        signature_valid
    }

    /// The key under which the signature must be checked.
    pub fn signer(&self) -> (key: PublicKey)
        ensures
            key == self.spec_signer(),
    {
        self.pub_key
    }

    /// Validates the reversal, given whether its signature is valid under
    /// `self.signer()`.
    pub fn verify(&self, signature_valid: bool) -> (valid: bool)
        ensures
            valid == self.spec_verify(signature_valid),
    {
        signature_valid
    }
}

impl Clone for Cancellation {
    fn clone(&self) -> (copy: Cancellation)
        ensures
            copy == *self,
    {
        Cancellation {
            pub_key: self.pub_key,
            sender: self.sender,
            tx_hash: self.tx_hash,
            type_transaction: self.type_transaction,
        }
    }
}

impl Operation {
    /// The key whose signature authorises the operation.
    pub open spec fn spec_signer(self) -> PublicKey {
        match self {
            Operation::Transfer(op) => op.spec_signer(),
            Operation::Issue(op) => op.spec_signer(),
            Operation::CreateWallet(op) => op.spec_signer(),
            Operation::MailPreparation(op) => op.spec_signer(),
            Operation::MailAcceptance(op) => op.spec_signer(),
            Operation::Cancellation(op) => op.spec_signer(),
        }
    }

    /// The validation rule of the operation's kind.
    pub open spec fn spec_verify(self, signature_valid: bool) -> bool {
        match self {
            Operation::Transfer(op) => op.spec_verify(signature_valid),
            Operation::Issue(op) => op.spec_verify(signature_valid),
            Operation::CreateWallet(op) => op.spec_verify(signature_valid),
            Operation::MailPreparation(op) => op.spec_verify(signature_valid),
            Operation::MailAcceptance(op) => op.spec_verify(signature_valid),
            Operation::Cancellation(op) => op.spec_verify(signature_valid),
        }
    }

    /// The key under which the signature must be checked.
    pub fn signer(&self) -> (key: PublicKey)
        ensures
            key == self.spec_signer(),
    {
        match self {
            Operation::Transfer(op) => op.signer(),
            Operation::Issue(op) => op.signer(),
            Operation::CreateWallet(op) => op.signer(),
            Operation::MailPreparation(op) => op.signer(),
            Operation::MailAcceptance(op) => op.signer(),
            Operation::Cancellation(op) => op.signer(),
        }
    }

    /// Validates the operation, given whether its signature is valid under
    /// `self.signer()`. Nothing is valid without a valid signature.
    pub fn verify(&self, signature_valid: bool) -> (valid: bool)
        ensures
            valid == self.spec_verify(signature_valid),
            valid ==> signature_valid,
    {
        match self {
            Operation::Transfer(op) => op.verify(signature_valid),
            Operation::Issue(op) => op.verify(signature_valid),
            Operation::CreateWallet(op) => op.verify(signature_valid),
            Operation::MailPreparation(op) => op.verify(signature_valid),
            Operation::MailAcceptance(op) => op.verify(signature_valid),
            Operation::Cancellation(op) => op.verify(signature_valid),
        }
    }
}

impl Clone for Operation {
    fn clone(&self) -> (copy: Operation)
        ensures
            copy == *self,
    {
        match self {
            Operation::Transfer(op) => Operation::Transfer(op.clone()),
            Operation::Issue(op) => Operation::Issue(op.clone()),
            Operation::CreateWallet(op) => Operation::CreateWallet(op.clone()),
            Operation::MailPreparation(op) => Operation::MailPreparation(op.clone()),
            Operation::MailAcceptance(op) => Operation::MailAcceptance(op.clone()),
            Operation::Cancellation(op) => Operation::Cancellation(op.clone()),
        }
    }
}

} // verus!
