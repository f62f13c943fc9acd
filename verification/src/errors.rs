//! The conditions under which an operation is refused, and the families they fall into.

use vstd::prelude::*;

verus! {

/// The conditions under which an operation is refused.
#[derive(Clone, Copy, Debug, PartialEq, Eq, Structural)]
pub enum ErrorCode {
    ProgramPaused,
    Unauthorized,
    InvalidTier,
    InvalidTraderTier,
    InvalidSeverity,
    InsufficientBalance,
    SubscriptionExpired,
    TraderAlreadyExists,
    TraderNotFound,
    InvalidPythFeed,
    SignalTooOld,
    /// A record that had to be created is already there.
    AccountAlreadyExists,
    /// A record that had to be there is missing.
    AccountNotFound,
    /// The payment ledger refused the transfer.
    TransferFailed,
    /// No storage slot could be derived for the record's key.
    AddressNotDerivable,
}

/// The four families that the conditions fall into.
#[derive(Clone, Copy, Debug, PartialEq, Eq, Structural)]
pub enum ErrorKind {
    /// The caller is not the identity that the operation asks for.
    Authorization,
    /// An argument is outside its allowed range.
    Validation,
    /// The ledger is not in the state that the operation asks for.
    State,
    /// A collaborator outside the ledger refused.
    Dependency,
}

impl ErrorCode {
    pub open spec fn spec_kind(self) -> ErrorKind {
        match self {
            ErrorCode::Unauthorized => ErrorKind::Authorization,
            ErrorCode::InvalidTier
            | ErrorCode::InvalidTraderTier
            | ErrorCode::InvalidSeverity
            | ErrorCode::InvalidPythFeed
            | ErrorCode::SignalTooOld => ErrorKind::Validation,
            ErrorCode::ProgramPaused
            | ErrorCode::SubscriptionExpired
            | ErrorCode::TraderAlreadyExists
            | ErrorCode::TraderNotFound
            | ErrorCode::AccountAlreadyExists
            | ErrorCode::AccountNotFound => ErrorKind::State,
            ErrorCode::InsufficientBalance
            | ErrorCode::TransferFailed
            | ErrorCode::AddressNotDerivable => ErrorKind::Dependency,
        }
    }

    /// The family of this condition.
    pub fn kind(&self) -> (r: ErrorKind)
        ensures
            r == self.spec_kind(),
    {
        match self {
            ErrorCode::Unauthorized => ErrorKind::Authorization,
            ErrorCode::InvalidTier => ErrorKind::Validation,
            ErrorCode::InvalidTraderTier => ErrorKind::Validation,
            ErrorCode::InvalidSeverity => ErrorKind::Validation,
            ErrorCode::InvalidPythFeed => ErrorKind::Validation,
            ErrorCode::SignalTooOld => ErrorKind::Validation,
            ErrorCode::ProgramPaused => ErrorKind::State,
            ErrorCode::SubscriptionExpired => ErrorKind::State,
            ErrorCode::TraderAlreadyExists => ErrorKind::State,
            ErrorCode::TraderNotFound => ErrorKind::State,
            ErrorCode::AccountAlreadyExists => ErrorKind::State,
            ErrorCode::AccountNotFound => ErrorKind::State,
            ErrorCode::InsufficientBalance => ErrorKind::Dependency,
            ErrorCode::TransferFailed => ErrorKind::Dependency,
            ErrorCode::AddressNotDerivable => ErrorKind::Dependency,
        }
    }

    pub open spec fn spec_message(self) -> Seq<char> {
        match self {
            ErrorCode::ProgramPaused => "Program is paused"@,
            ErrorCode::Unauthorized => "Unauthorized access"@,
            ErrorCode::InvalidTier => "Invalid subscription tier"@,
            ErrorCode::InvalidTraderTier => "Invalid trader tier"@,
            ErrorCode::InvalidSeverity => "Invalid signal severity"@,
            ErrorCode::InsufficientBalance => "Insufficient USDC balance"@,
            ErrorCode::SubscriptionExpired => "Subscription expired"@,
            ErrorCode::TraderAlreadyExists => "Trader already exists"@,
            ErrorCode::TraderNotFound => "Trader not found"@,
            ErrorCode::InvalidPythFeed => "Invalid Pyth feed"@,
            ErrorCode::SignalTooOld => "Signal timestamp too old"@,
            ErrorCode::AccountAlreadyExists => "Account already exists"@,
            ErrorCode::AccountNotFound => "Account not found"@,
            ErrorCode::TransferFailed => "Token transfer failed"@,
            ErrorCode::AddressNotDerivable => "No address can be derived"@,
        }
    }

    /// The message shown for this condition.
    pub fn message(&self) -> (r: String)
        ensures
            r@ == self.spec_message(),
    {
        match self {
            ErrorCode::ProgramPaused => "Program is paused".to_owned(),
            ErrorCode::Unauthorized => "Unauthorized access".to_owned(),
            ErrorCode::InvalidTier => "Invalid subscription tier".to_owned(),
            ErrorCode::InvalidTraderTier => "Invalid trader tier".to_owned(),
            ErrorCode::InvalidSeverity => "Invalid signal severity".to_owned(),
            ErrorCode::InsufficientBalance => "Insufficient USDC balance".to_owned(),
            ErrorCode::SubscriptionExpired => "Subscription expired".to_owned(),
            ErrorCode::TraderAlreadyExists => "Trader already exists".to_owned(),
            ErrorCode::TraderNotFound => "Trader not found".to_owned(),
            ErrorCode::InvalidPythFeed => "Invalid Pyth feed".to_owned(),
            ErrorCode::SignalTooOld => "Signal timestamp too old".to_owned(),
            ErrorCode::AccountAlreadyExists => "Account already exists".to_owned(),
            ErrorCode::AccountNotFound => "Account not found".to_owned(),
            ErrorCode::TransferFailed => "Token transfer failed".to_owned(),
            ErrorCode::AddressNotDerivable => "No address can be derived".to_owned(),
        }
    }
}

} // verus!
