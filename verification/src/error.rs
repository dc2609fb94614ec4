//! Error codes raised by the zap calculations.
//!
//! Three families exist because three callers exist: the protocol side that
//! validates a zap-out sitting next to a fee claim, the SDK that offers the
//! same validation to other programs, and the zap program itself.

use vstd::prelude::*;

verus! {

/// Failures of the protocol-side zap-out validation.
#[derive(Debug, Clone, Copy, PartialEq, Eq, Structural)]
pub enum ProtocolZapError {
    /// Math operation overflow.
    MathOverflow,
    /// Invalid zapout parameters.
    InvalidZapOutParameters,
    /// Type cast error.
    TypeCastFailed,
    /// Missing zap out instruction.
    MissingZapOutInstruction,
    /// Invalid withdraw protocol fee zap accounts.
    InvalidWithdrawProtocolFeeZapAccounts,
    /// SOL,USDC protocol fee cannot be withdrawn via zap.
    MintRestrictedFromZap,
    /// CPI disabled.
    CpiDisabled,
    /// Invalid zap accounts.
    InvalidZapAccounts,
}

impl ProtocolZapError {
    /// The numeric code under which the error is reported on chain.
    pub open spec fn code_spec(self) -> u32 {
        match self {
            ProtocolZapError::MathOverflow => 0,
            ProtocolZapError::InvalidZapOutParameters => 1,
            ProtocolZapError::TypeCastFailed => 2,
            ProtocolZapError::MissingZapOutInstruction => 3,
            ProtocolZapError::InvalidWithdrawProtocolFeeZapAccounts => 4,
            ProtocolZapError::MintRestrictedFromZap => 5,
            ProtocolZapError::CpiDisabled => 6,
            ProtocolZapError::InvalidZapAccounts => 7,
        }
    }

    /// The identifier of the variant, as a sequence of characters.
    pub open spec fn name_spec(self) -> Seq<char> {
        match self {
            ProtocolZapError::MathOverflow => "MathOverflow"@,
            ProtocolZapError::InvalidZapOutParameters => "InvalidZapOutParameters"@,
            ProtocolZapError::TypeCastFailed => "TypeCastFailed"@,
            ProtocolZapError::MissingZapOutInstruction => "MissingZapOutInstruction"@,
            ProtocolZapError::InvalidWithdrawProtocolFeeZapAccounts => "InvalidWithdrawProtocolFeeZapAccounts"@,
            ProtocolZapError::MintRestrictedFromZap => "MintRestrictedFromZap"@,
            ProtocolZapError::CpiDisabled => "CpiDisabled"@,
            ProtocolZapError::InvalidZapAccounts => "InvalidZapAccounts"@,
        }
    }

    /// Returns the identifier of the variant.
    pub fn name(&self) -> (text: String)
        ensures
            text@ == self.name_spec(),
    {
        let literal: &str = match self {
            ProtocolZapError::MathOverflow => "MathOverflow",
            ProtocolZapError::InvalidZapOutParameters => "InvalidZapOutParameters",
            ProtocolZapError::TypeCastFailed => "TypeCastFailed",
            ProtocolZapError::MissingZapOutInstruction => "MissingZapOutInstruction",
            ProtocolZapError::InvalidWithdrawProtocolFeeZapAccounts => "InvalidWithdrawProtocolFeeZapAccounts",
            ProtocolZapError::MintRestrictedFromZap => "MintRestrictedFromZap",
            ProtocolZapError::CpiDisabled => "CpiDisabled",
            ProtocolZapError::InvalidZapAccounts => "InvalidZapAccounts",
        };
        literal.to_owned()
    }

    /// Returns the numeric code of the error.
    pub fn code(&self) -> (c: u32)
        ensures
            c == self.code_spec(),
    {
        match self {
            ProtocolZapError::MathOverflow => 0,
            ProtocolZapError::InvalidZapOutParameters => 1,
            ProtocolZapError::TypeCastFailed => 2,
            ProtocolZapError::MissingZapOutInstruction => 3,
            ProtocolZapError::InvalidWithdrawProtocolFeeZapAccounts => 4,
            ProtocolZapError::MintRestrictedFromZap => 5,
            ProtocolZapError::CpiDisabled => 6,
            ProtocolZapError::InvalidZapAccounts => 7,
        }
    }
}

/// The codes of two protocol errors agree only when the errors are the same.
pub proof fn lemma_protocol_codes_distinct(a: ProtocolZapError, b: ProtocolZapError)
    ensures
        a.code_spec() == b.code_spec() <==> a == b,
{
}

/// Failures reported by the SDK flavour of the zap-out validation.
#[derive(Debug, Clone, Copy, PartialEq, Eq, Structural)]
pub enum ZapSdkError {
    /// Math operation overflow.
    MathOverflow,
    /// Invalid zapout parameters.
    InvalidZapOutParameters,
    /// Type cast error.
    TypeCastFailed,
    /// Missing zap out instruction.
    MissingZapOutInstruction,
    /// Invalid withdraw protocol fee zap accounts.
    InvalidWithdrawProtocolFeeZapAccounts,
    /// SOL,USDC protocol fee cannot be withdrawn via zap.
    MintRestrictedFromZap,
    /// CPI disabled.
    CpiDisabled,
    /// Invalid zap accounts.
    InvalidZapAccounts,
}

impl ZapSdkError {
    /// The SDK error that stands for the same failure as a protocol error.
    pub open spec fn of_protocol(e: ProtocolZapError) -> ZapSdkError {
        match e {
            ProtocolZapError::MathOverflow => ZapSdkError::MathOverflow,
            ProtocolZapError::InvalidZapOutParameters => ZapSdkError::InvalidZapOutParameters,
            ProtocolZapError::TypeCastFailed => ZapSdkError::TypeCastFailed,
            ProtocolZapError::MissingZapOutInstruction => ZapSdkError::MissingZapOutInstruction,
            ProtocolZapError::InvalidWithdrawProtocolFeeZapAccounts => ZapSdkError::InvalidWithdrawProtocolFeeZapAccounts,
            ProtocolZapError::MintRestrictedFromZap => ZapSdkError::MintRestrictedFromZap,
            ProtocolZapError::CpiDisabled => ZapSdkError::CpiDisabled,
            ProtocolZapError::InvalidZapAccounts => ZapSdkError::InvalidZapAccounts,
        }
    }

    /// The numeric code under which the error is reported on chain.
    pub open spec fn code_spec(self) -> u32 {
        match self {
            ZapSdkError::MathOverflow => 0,
            ZapSdkError::InvalidZapOutParameters => 1,
            ZapSdkError::TypeCastFailed => 2,
            ZapSdkError::MissingZapOutInstruction => 3,
            ZapSdkError::InvalidWithdrawProtocolFeeZapAccounts => 4,
            ZapSdkError::MintRestrictedFromZap => 5,
            ZapSdkError::CpiDisabled => 6,
            ZapSdkError::InvalidZapAccounts => 7,
        }
    }

    /// Converts a protocol error into the SDK error with the same code.
    pub fn from_protocol(e: ProtocolZapError) -> (s: ZapSdkError)
        ensures
            s == Self::of_protocol(e),
            s.code_spec() == e.code_spec(),
    {
        match e {
            ProtocolZapError::MathOverflow => ZapSdkError::MathOverflow,
            ProtocolZapError::InvalidZapOutParameters => ZapSdkError::InvalidZapOutParameters,
            ProtocolZapError::TypeCastFailed => ZapSdkError::TypeCastFailed,
            ProtocolZapError::MissingZapOutInstruction => ZapSdkError::MissingZapOutInstruction,
            ProtocolZapError::InvalidWithdrawProtocolFeeZapAccounts => ZapSdkError::InvalidWithdrawProtocolFeeZapAccounts,
            ProtocolZapError::MintRestrictedFromZap => ZapSdkError::MintRestrictedFromZap,
            ProtocolZapError::CpiDisabled => ZapSdkError::CpiDisabled,
            ProtocolZapError::InvalidZapAccounts => ZapSdkError::InvalidZapAccounts,
        }
    }

    /// Returns the numeric code of the error.
    pub fn code(&self) -> (c: u32)
        ensures
            c == self.code_spec(),
    {
        match self {
            ZapSdkError::MathOverflow => 0,
            ZapSdkError::InvalidZapOutParameters => 1,
            ZapSdkError::TypeCastFailed => 2,
            ZapSdkError::MissingZapOutInstruction => 3,
            ZapSdkError::InvalidWithdrawProtocolFeeZapAccounts => 4,
            ZapSdkError::MintRestrictedFromZap => 5,
            ZapSdkError::CpiDisabled => 6,
            ZapSdkError::InvalidZapAccounts => 7,
        }
    }

    /// Recovers the error from its numeric code, if the code names one.
    pub fn try_from_code(code: u32) -> (r: Option<ZapSdkError>)
        ensures
            r.is_some() <==> code <= 7,
            r.is_some() ==> r.unwrap().code_spec() == code,
    {
        match code {
            0 => Some(ZapSdkError::MathOverflow),
            1 => Some(ZapSdkError::InvalidZapOutParameters),
            2 => Some(ZapSdkError::TypeCastFailed),
            3 => Some(ZapSdkError::MissingZapOutInstruction),
            4 => Some(ZapSdkError::InvalidWithdrawProtocolFeeZapAccounts),
            5 => Some(ZapSdkError::MintRestrictedFromZap),
            6 => Some(ZapSdkError::CpiDisabled),
            7 => Some(ZapSdkError::InvalidZapAccounts),
            _ => None,
        }
    }
}

/// Failures of the zap program's own instructions.
#[derive(Debug, Clone, Copy, PartialEq, Eq, Structural)]
pub enum ZapError {
    /// Math operation overflow.
    MathOverflow,
    /// Invalid offset.
    InvalidOffset,
    /// Invalid zapout parameters.
    InvalidZapOutParameters,
    /// Type cast error.
    TypeCastFailed,
    /// Amm program is not supported.
    AmmIsNotSupported,
    /// Position is not empty.
    InvalidPosition,
    /// Exceeded slippage tolerance.
    ExceededSlippage,
    /// Invalid dlmm zap in parameters.
    InvalidDlmmZapInParameters,
    /// A payload does not have the length its layout asks for.
    InvalidDataLength,
    /// An amount that must be positive is zero.
    AmountIsZero,
    /// More is left undeposited than the caller tolerates.
    RemainingAmountIsOverThreshold,
    /// A simulated swap would move the price out of the pool's range.
    PriceRangeViolation,
    /// A slice of remaining accounts names a kind that is not accepted here.
    InvalidRemainingAccountSlice,
    /// Fewer remaining accounts were passed than the slices announce.
    InsufficientRemainingAccounts,
    /// Two slices of remaining accounts name the same kind.
    DuplicatedRemainingAccountTypes,
    /// An account that the instruction needs is missing or malformed.
    InvalidAccount,
    /// A mint with a transfer hook was given no accounts for the hook.
    MissingRemainingAccountForTransferHook,
    /// Accounts for a transfer hook were given for a mint without one.
    NoTransferHookProgram,
}

impl ZapError {
    /// The program error that stands for the same failure as a protocol
    /// error: an overflow, a failed cast and invalid parameters keep their
    /// names, and every failure of the validation of accounts is an invalid
    /// account.
    pub open spec fn of_protocol(e: ProtocolZapError) -> ZapError {
        match e {
            ProtocolZapError::MathOverflow => ZapError::MathOverflow,
            ProtocolZapError::TypeCastFailed => ZapError::TypeCastFailed,
            ProtocolZapError::InvalidZapOutParameters => ZapError::InvalidZapOutParameters,
            _ => ZapError::InvalidAccount,
        }
    }

    /// Maps a protocol error to the program's error.
    pub fn from_protocol(e: ProtocolZapError) -> (z: ZapError)
        ensures
            z == Self::of_protocol(e),
    {
        match e {
            ProtocolZapError::MathOverflow => ZapError::MathOverflow,
            ProtocolZapError::TypeCastFailed => ZapError::TypeCastFailed,
            ProtocolZapError::InvalidZapOutParameters => ZapError::InvalidZapOutParameters,
            _ => ZapError::InvalidAccount,
        }
    }
}

} // verus!
