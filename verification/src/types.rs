//! Identities, currencies, limits and the error vocabulary shared by all
//! operations.

use vstd::prelude::*;

verus! {

/// Smallest total that may be placed in escrow, in base units.
pub const MIN_AMOUNT: u64 = 1_000_000;

/// Largest total that may be placed in escrow, in base units.
pub const MAX_AMOUNT: u64 = 1_000_000_000_000;

/// Longest time, in seconds, that a flat escrow may wait before anyone can
/// trigger its release.
pub const MAX_EXPIRY_SECONDS: u64 = 31_536_000;

/// Longest dispute description, in bytes.
pub const MAX_DESCRIPTION_LEN: usize = 1024;

/// Length, in seconds, of the window in which a buyer may contest a partial
/// return of the deposit (48 hours).
pub const DISPUTE_WINDOW_SECONDS: i64 = 172_800;

/// Number of basis points that make up the whole.
pub const BPS_DENOMINATOR: u16 = 10_000;

/// Fee charged on a native-currency payout whose proportional fee rounds
/// down to nothing.
pub const MIN_NATIVE_FEE: u64 = 5_000;

/// A 256-bit identity, already authenticated by the host when it reaches
/// this crate. The all-zero value stands for "nobody".
#[derive(Clone, Copy, Debug, PartialEq, Eq, Structural)]
pub struct Identity {
    pub hi: u128,
    pub lo: u128,
}

impl Identity {
    /// Whether this is the all-zero identity.
    pub open spec fn is_nobody(self) -> bool {
        self.hi == 0 && self.lo == 0
    }

    /// The all-zero identity.
    pub fn nobody() -> (id: Identity)
        ensures
            id.is_nobody(),
            id == (Identity { hi: 0, lo: 0 }),
    {
        Identity { hi: 0, lo: 0 }
    }

    /// Tests for the all-zero identity.
    pub fn is_empty(&self) -> (b: bool)
        ensures
            b == self.is_nobody(),
    {
        self.hi == 0 && self.lo == 0
    }
}

/// The asset an escrow is denominated in.
#[derive(Clone, Copy, Debug, PartialEq, Eq, Structural)]
pub enum Currency {
    /// The host ledger's native currency.
    Native,
    /// A fungible asset, named by its identifier.
    Fungible(Identity),
}

impl Currency {
    /// Whether this is the host ledger's native currency.
    pub open spec fn is_native_spec(self) -> bool {
        self is Native
    }

    /// Whether payouts in this currency are subject to the minimum fee.
    #[verifier::when_used_as_spec(is_native_spec)]
    pub fn is_native(self) -> (b: bool)
        ensures
            b == (self is Native),
    {
        match self {
            Currency::Native => true,
            Currency::Fungible(_) => false,
        }
    }
}

/// The coarse class an error belongs to.
#[derive(Clone, Copy, Debug, PartialEq, Eq, Structural)]
pub enum ErrorKind {
    /// The caller may not do this.
    Unauthorized,
    /// The record's flags or status do not admit the operation.
    InvalidState,
    /// The input is malformed.
    InvalidArgument,
    /// The ledger would refuse the transfer for want of funds.
    InsufficientFunds,
    /// The ledger would refuse the transfer for its asset.
    CurrencyMismatch,
    /// Amount arithmetic left the safe range.
    ArithmeticOverflow,
    /// The configuration exists already.
    AlreadyInitialized,
}

/// Why an operation was rejected. A rejected operation changes nothing.
#[derive(Clone, Copy, Debug, PartialEq, Eq, Structural)]
pub enum EscrowError {
    /// The caller does not hold the role the operation asks for.
    Unauthorized,
    /// The caller holds the role but not the stake required of an arbiter.
    InsufficientPrivilege,
    /// The record is disputed, completed, of the wrong variant, or otherwise
    /// not in a state that admits the operation.
    InvalidState,
    /// The deposit has not been partially returned.
    NoPartialRelease,
    /// The window for contesting a partial return has closed.
    WindowClosed,
    /// The time that gates the operation has not come yet.
    NotYetDue,
    /// An argument is malformed or out of range.
    InvalidArgument,
    /// The named winner is neither the buyer nor the seller.
    InvalidWinner,
    /// Amounts that must add up to a recorded total do not.
    AmountMismatch,
    /// The payer cannot cover the amount to be escrowed.
    InsufficientFunds,
    /// The funds offered are not in the escrow's currency.
    CurrencyMismatch,
    /// An amount computation left the range of safe values.
    ArithmeticOverflow,
    /// The configuration has been initialized before.
    AlreadyInitialized,
}

impl EscrowError {
    /// The class an error belongs to.
    pub open spec fn kind_spec(self) -> ErrorKind {
        match self {
            EscrowError::Unauthorized => ErrorKind::Unauthorized,
            EscrowError::InsufficientPrivilege => ErrorKind::Unauthorized,
            EscrowError::InvalidState => ErrorKind::InvalidState,
            EscrowError::NoPartialRelease => ErrorKind::InvalidState,
            EscrowError::WindowClosed => ErrorKind::InvalidState,
            EscrowError::NotYetDue => ErrorKind::InvalidState,
            EscrowError::InvalidArgument => ErrorKind::InvalidArgument,
            EscrowError::InvalidWinner => ErrorKind::InvalidArgument,
            EscrowError::AmountMismatch => ErrorKind::InvalidArgument,
            EscrowError::InsufficientFunds => ErrorKind::InsufficientFunds,
            EscrowError::CurrencyMismatch => ErrorKind::CurrencyMismatch,
            EscrowError::ArithmeticOverflow => ErrorKind::ArithmeticOverflow,
            EscrowError::AlreadyInitialized => ErrorKind::AlreadyInitialized,
        }
    }

    /// The class of this error.
    #[verifier::when_used_as_spec(kind_spec)]
    pub fn kind(self) -> (k: ErrorKind)
        ensures
            k == self.kind_spec(),
    {
        match self {
            EscrowError::Unauthorized => ErrorKind::Unauthorized,
            EscrowError::InsufficientPrivilege => ErrorKind::Unauthorized,
            EscrowError::InvalidState => ErrorKind::InvalidState,
            EscrowError::NoPartialRelease => ErrorKind::InvalidState,
            EscrowError::WindowClosed => ErrorKind::InvalidState,
            EscrowError::NotYetDue => ErrorKind::InvalidState,
            EscrowError::InvalidArgument => ErrorKind::InvalidArgument,
            EscrowError::InvalidWinner => ErrorKind::InvalidArgument,
            EscrowError::AmountMismatch => ErrorKind::InvalidArgument,
            EscrowError::InsufficientFunds => ErrorKind::InsufficientFunds,
            EscrowError::CurrencyMismatch => ErrorKind::CurrencyMismatch,
            EscrowError::ArithmeticOverflow => ErrorKind::ArithmeticOverflow,
            EscrowError::AlreadyInitialized => ErrorKind::AlreadyInitialized,
        }
    }
}

} // verus!
