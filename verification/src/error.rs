//! Failure kinds that executing an operation can report.

use vstd::prelude::*;

verus! {

/// Failure kinds reported by operation execution. Each kind has a stable
/// numeric code and a fixed description; clients match on the code.
#[derive(Clone, Copy, Debug, PartialEq, Eq, Structural)]
pub enum Error {
    /// Wallet already exists.
    ///
    /// Can be emitted by `CreateWallet`.
    WalletAlreadyExists,
    /// Sender doesn't exist.
    ///
    /// Can be emitted by `Transfer`, `MailPreparation`, `MailAcceptance`
    /// and `Cancellation`.
    SenderNotFound,
    /// Receiver doesn't exist.
    ///
    /// Can be emitted by `Transfer`, `Issue` and `Cancellation`.
    ReceiverNotFound,
    /// Insufficient currency amount.
    ///
    /// Can be emitted by `Transfer`, `MailPreparation` and `Cancellation`.
    InsufficientCurrencyAmount,
    /// The referenced operation is not in the log.
    ///
    /// Can be emitted by `Cancellation`.
    OperationNotFound,
}

impl Error {
    /// The stable code of each kind.
    pub open spec fn spec_code(self) -> u8 {
        match self {
            Error::WalletAlreadyExists => 0,
            Error::SenderNotFound => 1,
            Error::ReceiverNotFound => 2,
            Error::InsufficientCurrencyAmount => 3,
            Error::OperationNotFound => 4,
        }
    }

    /// The fixed description of each kind.
    pub open spec fn spec_description(self) -> Seq<char> {
        match self {
            Error::WalletAlreadyExists => "Wallet already exists"@,
            Error::SenderNotFound => "Sender doesn't exist"@,
            Error::ReceiverNotFound => "Receiver doesn't exist"@,
            Error::InsufficientCurrencyAmount => "Insufficient currency amount"@,
            Error::OperationNotFound => "Operation doesn't exist"@,
        }
    }

    /// Numeric code of this kind.
    pub fn code(&self) -> (code: u8)
        ensures
            code == self.spec_code(),
    {
        match self {
            Error::WalletAlreadyExists => 0,
            Error::SenderNotFound => 1,
            Error::ReceiverNotFound => 2,
            Error::InsufficientCurrencyAmount => 3,
            Error::OperationNotFound => 4,
        }
    }

    /// Human-readable description of this kind.
    pub fn description(&self) -> (text: String)
        ensures
            text@ == self.spec_description(),
    {
        match self {
            Error::WalletAlreadyExists => "Wallet already exists".to_owned(),
            Error::SenderNotFound => "Sender doesn't exist".to_owned(),
            Error::ReceiverNotFound => "Receiver doesn't exist".to_owned(),
            Error::InsufficientCurrencyAmount => "Insufficient currency amount".to_owned(),
            Error::OperationNotFound => "Operation doesn't exist".to_owned(),
        }
    }

    /// Codes identify kinds: two kinds with the same code are the same kind.
    pub proof fn lemma_code_identifies_kind(a: Error, b: Error)
        ensures
            a.spec_code() == b.spec_code() ==> a == b,
    {
    }
}

} // verus!
