use vstd::prelude::*;

verus! {

/// Every way an auction operation can be rejected.
///
/// Arithmetic failures abort the operation that hit them; timing, authorization
/// and amount violations are ordinary rejections. In both cases the operation
/// leaves the auction and the commitment record exactly as it found them.
#[derive(Clone, Copy, Debug, PartialEq, Eq, Structural)]
pub enum ResetError {
    // Authorization and emergency control
    OperationPaused,
    OnlyLaunchpadAdmin,
    // Arithmetic and common failures
    MathOverflow,
    MathUnderflow,
    DivisionByZero,
    InvalidCalculation,
    Unauthorized,
    // Auction initialization
    InvalidAuctionTimeRange,
    InvalidAuctionBinsLength,
    InvalidAuctionBinsPriceOrCap,
    // Commit and claim
    OutOfCommitmentPeriod,
    InvalidCommitmentAmount,
    InvalidBinId,
    CommitmentBinCapExceeded,
    OutOfClaimPeriod,
    InvalidClaimAmount,
    CommitCapExceeded,
    // Withdrawal
    InCommitmentPeriod,
    DoubleFundsWithdrawal,
    NoClaimFeesConfigured,
    // Signature verification
    MissingSysvarInstructions,
    WrongProgram,
    MalformedEd25519Ix,
    WrongWhitelistAuthority,
    PayloadMismatch,
    SignatureExpired,
    NonceOverflow,
    SerializationError,
    MissingExpiry,
    InvalidCustodyAuthority,
}

impl ResetError {
    /// The number each error is declared with. Errors of one family share a
    /// block of one hundred numbers.
    pub open spec fn spec_code(self) -> u32 {
        match self {
            ResetError::OperationPaused => 6000,
            ResetError::OnlyLaunchpadAdmin => 6001,
            ResetError::MathOverflow => 6100,
            ResetError::MathUnderflow => 6101,
            ResetError::DivisionByZero => 6102,
            ResetError::InvalidCalculation => 6103,
            ResetError::Unauthorized => 6104,
            ResetError::InvalidAuctionTimeRange => 6200,
            ResetError::InvalidAuctionBinsLength => 6201,
            ResetError::InvalidAuctionBinsPriceOrCap => 6202,
            ResetError::OutOfCommitmentPeriod => 6300,
            ResetError::InvalidCommitmentAmount => 6301,
            ResetError::InvalidBinId => 6302,
            ResetError::CommitmentBinCapExceeded => 6303,
            ResetError::OutOfClaimPeriod => 6304,
            ResetError::InvalidClaimAmount => 6305,
            ResetError::CommitCapExceeded => 6306,
            ResetError::InCommitmentPeriod => 6400,
            ResetError::DoubleFundsWithdrawal => 6401,
            ResetError::NoClaimFeesConfigured => 6402,
            ResetError::MissingSysvarInstructions => 6501,
            ResetError::WrongProgram => 6502,
            ResetError::MalformedEd25519Ix => 6503,
            ResetError::WrongWhitelistAuthority => 6504,
            ResetError::PayloadMismatch => 6505,
            ResetError::SignatureExpired => 6506,
            ResetError::NonceOverflow => 6507,
            ResetError::SerializationError => 6508,
            ResetError::MissingExpiry => 6509,
            ResetError::InvalidCustodyAuthority => 6510,
        }
    }

    /// The number this error is declared with.
    pub fn code(&self) -> (c: u32)
        ensures
            c == self.spec_code(),
    {
        match self {
            ResetError::OperationPaused => 6000,
            ResetError::OnlyLaunchpadAdmin => 6001,
            ResetError::MathOverflow => 6100,
            ResetError::MathUnderflow => 6101,
            ResetError::DivisionByZero => 6102,
            ResetError::InvalidCalculation => 6103,
            ResetError::Unauthorized => 6104,
            ResetError::InvalidAuctionTimeRange => 6200,
            ResetError::InvalidAuctionBinsLength => 6201,
            ResetError::InvalidAuctionBinsPriceOrCap => 6202,
            ResetError::OutOfCommitmentPeriod => 6300,
            ResetError::InvalidCommitmentAmount => 6301,
            ResetError::InvalidBinId => 6302,
            ResetError::CommitmentBinCapExceeded => 6303,
            ResetError::OutOfClaimPeriod => 6304,
            ResetError::InvalidClaimAmount => 6305,
            ResetError::CommitCapExceeded => 6306,
            ResetError::InCommitmentPeriod => 6400,
            ResetError::DoubleFundsWithdrawal => 6401,
            ResetError::NoClaimFeesConfigured => 6402,
            ResetError::MissingSysvarInstructions => 6501,
            ResetError::WrongProgram => 6502,
            ResetError::MalformedEd25519Ix => 6503,
            ResetError::WrongWhitelistAuthority => 6504,
            ResetError::PayloadMismatch => 6505,
            ResetError::SignatureExpired => 6506,
            ResetError::NonceOverflow => 6507,
            ResetError::SerializationError => 6508,
            ResetError::MissingExpiry => 6509,
            ResetError::InvalidCustodyAuthority => 6510,
        }
    }

    /// The human-readable text of each error.
    pub open spec fn spec_message(self) -> Seq<char> {
        match self {
            ResetError::OperationPaused => "Operation is paused by emergency control"@,
            ResetError::OnlyLaunchpadAdmin => "Only LaunchpadAdmin can access this function"@,
            ResetError::MathOverflow => "Math overflow"@,
            ResetError::MathUnderflow => "Math underflow"@,
            ResetError::DivisionByZero => "Division by zero"@,
            ResetError::InvalidCalculation => "Invalid calculation"@,
            ResetError::Unauthorized => "Unauthorized"@,
            ResetError::InvalidAuctionTimeRange => "Invalid auction time range"@,
            ResetError::InvalidAuctionBinsLength => "Must have 1-100 auction bins"@,
            ResetError::InvalidAuctionBinsPriceOrCap => "Auction bin price and cap must be greater than zero"@,
            ResetError::OutOfCommitmentPeriod => "Out of commitment period"@,
            ResetError::InvalidCommitmentAmount => "Invalid commitment amount"@,
            ResetError::InvalidBinId => "Invalid bin ID"@,
            ResetError::CommitmentBinCapExceeded => "Commitment bin cap exceeded"@,
            ResetError::OutOfClaimPeriod => "Out of claim period"@,
            ResetError::InvalidClaimAmount => "Invalid claim amount"@,
            ResetError::CommitCapExceeded => "Commit cap exceeded"@,
            ResetError::InCommitmentPeriod => "In commitment period"@,
            ResetError::DoubleFundsWithdrawal => "Double funds withdrawal"@,
            ResetError::NoClaimFeesConfigured => "No claim fees configured for this auction"@,
            ResetError::MissingSysvarInstructions => "Missing sysvar instructions account"@,
            ResetError::WrongProgram => "Wrong program ID for Ed25519 instruction"@,
            ResetError::MalformedEd25519Ix => "Malformed Ed25519 instruction"@,
            ResetError::WrongWhitelistAuthority => "Wrong whitelist authority"@,
            ResetError::PayloadMismatch => "Payload mismatch in signature verification"@,
            ResetError::SignatureExpired => "Signature expired"@,
            ResetError::NonceOverflow => "Nonce overflow"@,
            ResetError::SerializationError => "Serialization error"@,
            ResetError::MissingExpiry => "Missing expiry timestamp for whitelist verification"@,
            ResetError::InvalidCustodyAuthority => "Invalid custody authority"@,
        }
    }

    /// The human-readable text of the error.
    pub fn message(&self) -> (s: &'static str)
        ensures
            s@ == self.spec_message(),
    {
        match self {
            ResetError::OperationPaused => "Operation is paused by emergency control",
            ResetError::OnlyLaunchpadAdmin => "Only LaunchpadAdmin can access this function",
            ResetError::MathOverflow => "Math overflow",
            ResetError::MathUnderflow => "Math underflow",
            ResetError::DivisionByZero => "Division by zero",
            ResetError::InvalidCalculation => "Invalid calculation",
            ResetError::Unauthorized => "Unauthorized",
            ResetError::InvalidAuctionTimeRange => "Invalid auction time range",
            ResetError::InvalidAuctionBinsLength => "Must have 1-100 auction bins",
            ResetError::InvalidAuctionBinsPriceOrCap => "Auction bin price and cap must be greater than zero",
            ResetError::OutOfCommitmentPeriod => "Out of commitment period",
            ResetError::InvalidCommitmentAmount => "Invalid commitment amount",
            ResetError::InvalidBinId => "Invalid bin ID",
            ResetError::CommitmentBinCapExceeded => "Commitment bin cap exceeded",
            ResetError::OutOfClaimPeriod => "Out of claim period",
            ResetError::InvalidClaimAmount => "Invalid claim amount",
            ResetError::CommitCapExceeded => "Commit cap exceeded",
            ResetError::InCommitmentPeriod => "In commitment period",
            ResetError::DoubleFundsWithdrawal => "Double funds withdrawal",
            ResetError::NoClaimFeesConfigured => "No claim fees configured for this auction",
            ResetError::MissingSysvarInstructions => "Missing sysvar instructions account",
            ResetError::WrongProgram => "Wrong program ID for Ed25519 instruction",
            ResetError::MalformedEd25519Ix => "Malformed Ed25519 instruction",
            ResetError::WrongWhitelistAuthority => "Wrong whitelist authority",
            ResetError::PayloadMismatch => "Payload mismatch in signature verification",
            ResetError::SignatureExpired => "Signature expired",
            ResetError::NonceOverflow => "Nonce overflow",
            ResetError::SerializationError => "Serialization error",
            ResetError::MissingExpiry => "Missing expiry timestamp for whitelist verification",
            ResetError::InvalidCustodyAuthority => "Invalid custody authority",
        }
    }
}

} // verus!
