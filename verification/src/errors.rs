use vstd::prelude::*;

verus! {

/// The sale-specific failure conditions. The order of the variants fixes the
/// numeric code that the ledger platform reports to callers (see
/// [`error_code`]), so it must not be rearranged.
#[derive(Clone, Copy, Debug, PartialEq, Eq, Structural)]
pub enum PresaleError {
    /// Account does not have the expected owner.
    IncorrectOwner,
    /// A derived account address does not match the presented account.
    DerivedKeyInvalid,
    /// The signer is not the configured authority, or the proposed new
    /// authority account is empty or unfunded.
    InvalidAuthority,
    /// The sale is already open (or whitelisting was attempted after launch).
    AlreadyStarted,
    /// A record buffer does not have the exact expected length.
    DataTypeMismatch,
    /// The sale is already closed.
    AlreadyStopped,
    /// The client record does not belong to the presented member.
    InvalidClientOwner,
    /// The client record does not belong to the presented participant.
    InvalidPresaleAccount,
    /// The presented token program is not the expected one.
    InvalidTokenProgram,
    /// The client record does not reference the presented presale record.
    NotMatchPresale,
    /// The sale is not open yet.
    NotActiveYet,
    /// The contribution lies outside the per-call allocation bounds.
    InvalidAmount,
    /// The presented mint is not the token being raised.
    NotMatchTokenAddress,
    /// The bidder's token balance does not cover the contribution.
    BalanceTooLow,
    /// Cumulative contributions already exceed the hardcap.
    HardcapReached,
    /// Accepting the contribution would exceed the hardcap.
    WillOverHardcap,
    /// Accepting the contribution would exceed the participant's allocation cap.
    MoreThanMaxAllocation,
    /// Whitelist gating is on and the participant is not whitelisted.
    NotWhitelisted,
    /// The delegated token movement failed.
    TokenTransferFailed,
    /// The cumulative distributed percentage would reach or exceed 100.
    AlreadyDistributedOverflow,
}

/// Everything an instruction can fail with: a sale-specific error, or one of
/// the generic rejections that the ledger platform defines for malformed
/// calls.
#[derive(Clone, Copy, Debug, PartialEq, Eq, Structural)]
pub enum ProgramFailure {
    /// A sale-specific rejection, carrying its numeric code.
    Presale(PresaleError),
    /// A required co-signature is missing.
    MissingRequiredSignature,
    /// The instruction referenced more accounts than were supplied.
    NotEnoughAccountKeys,
    /// An account's byte content could not be decoded.
    InvalidAccountData,
    /// The instruction payload could not be decoded.
    InvalidInstructionData,
    /// The decoded operation is provisioned by the platform-side setup step
    /// and is not processed by this core.
    UnsupportedInstruction,
}

/// The numeric code of each sale-specific error, as the platform surfaces it.
pub open spec fn spec_error_code(e: PresaleError) -> u32 {
    match e {
        PresaleError::IncorrectOwner => 0,
        PresaleError::DerivedKeyInvalid => 1,
        PresaleError::InvalidAuthority => 2,
        PresaleError::AlreadyStarted => 3,
        PresaleError::DataTypeMismatch => 4,
        PresaleError::AlreadyStopped => 5,
        PresaleError::InvalidClientOwner => 6,
        PresaleError::InvalidPresaleAccount => 7,
        PresaleError::InvalidTokenProgram => 8,
        PresaleError::NotMatchPresale => 9,
        PresaleError::NotActiveYet => 10,
        PresaleError::InvalidAmount => 11,
        PresaleError::NotMatchTokenAddress => 12,
        PresaleError::BalanceTooLow => 13,
        PresaleError::HardcapReached => 14,
        PresaleError::WillOverHardcap => 15,
        PresaleError::MoreThanMaxAllocation => 16,
        PresaleError::NotWhitelisted => 17,
        PresaleError::TokenTransferFailed => 18,
        PresaleError::AlreadyDistributedOverflow => 19,
    }
}

/// Maps a sale-specific error to the numeric code the platform reports.
pub fn error_code(e: &PresaleError) -> (r: u32)
    ensures
        r == spec_error_code(*e),
{
    match e {
        PresaleError::IncorrectOwner => 0,
        PresaleError::DerivedKeyInvalid => 1,
        PresaleError::InvalidAuthority => 2,
        PresaleError::AlreadyStarted => 3,
        PresaleError::DataTypeMismatch => 4,
        PresaleError::AlreadyStopped => 5,
        PresaleError::InvalidClientOwner => 6,
        PresaleError::InvalidPresaleAccount => 7,
        PresaleError::InvalidTokenProgram => 8,
        PresaleError::NotMatchPresale => 9,
        PresaleError::NotActiveYet => 10,
        PresaleError::InvalidAmount => 11,
        PresaleError::NotMatchTokenAddress => 12,
        PresaleError::BalanceTooLow => 13,
        PresaleError::HardcapReached => 14,
        PresaleError::WillOverHardcap => 15,
        PresaleError::MoreThanMaxAllocation => 16,
        PresaleError::NotWhitelisted => 17,
        PresaleError::TokenTransferFailed => 18,
        PresaleError::AlreadyDistributedOverflow => 19,
    }
}

} // verus!
