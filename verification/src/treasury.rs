//! Validation of a zap-out that must follow a protocol-fee claim.
//!
//! An operator who claims protocol fees has to swap all of what was claimed,
//! in the very next instruction, through a whitelisted pool program, out of
//! the account that received the claim and into an account of the treasury.
//! The caller reads the instructions of the transaction and hands over what
//! these rules look at.

use vstd::prelude::*;
use vstd::bytes::{spec_u64_from_le_bytes, u64_from_le_bytes};
use vstd::slice::slice_subrange;
use crate::constants::{same_bytes, same_key, Pubkey, ZAP, ZAP_OUT_DISC};
use crate::error::ProtocolZapError;
use crate::jup_v6_zap::JupiterRoute;
use crate::processors::{
    amm_program_of, get_zap_amm_processor, zap_amm_processor_of, RawZapOutAmmInfo, ZapAmmProgram,
    ZapInfoProcessor, ZapProcessor,
};
use crate::zap_out::{zap_out_bytes_well_formed, ZapOutParameters};

verus! {

/// The number of accounts that the zap-out instruction itself takes; the
/// accounts of the pool program follow them.
pub const ZAP_OUT_ACCOUNTS_LEN: usize = 2;

/// What the rules read of one instruction of the transaction.
#[derive(Debug, Clone, PartialEq, Eq)]
pub struct InstructionView {
    /// The program that the instruction invokes.
    pub program_id: Pubkey,
    /// The addresses of the accounts, in order.
    pub accounts: Vec<Pubkey>,
    /// The instruction data.
    pub data: Vec<u8>,
}

/// The accounts and the offset that a zap-out names.
#[derive(Debug, Clone, Copy, PartialEq, Eq)]
pub struct ZapOutAmmInfo {
    /// The account whose balance change decides the amount to swap.
    pub zap_user_token_in_address: Pubkey,
    /// The account that the pool program takes the tokens from.
    pub amm_source_token_address: Pubkey,
    /// The account that the pool program pays into.
    pub amm_destination_token_address: Pubkey,
    /// The offset of the amount-in field in the payload.
    pub amount_in_offset: u16,
}

impl ZapOutAmmInfo {
    /// The addresses as byte sequences, with the offset.
    pub open spec fn fields(self) -> (Seq<u8>, Seq<u8>, Seq<u8>, u16) {
        (
            self.zap_user_token_in_address@,
            self.amm_source_token_address@,
            self.amm_destination_token_address@,
            self.amount_in_offset,
        )
    }
}

/// The amount that a token account holds: bytes 64 to 72 of its data, read
/// as a little-endian number.
pub open spec fn token_amount_spec(data: Seq<u8>) -> Option<u64> {
    if data.len() < 72 {
        None
    } else {
        Some(spec_u64_from_le_bytes(data.subrange(64, 72)))
    }
}

/// Reads the amount out of the data of a token account.
pub fn get_token_amount(token_account_data: &[u8]) -> (r: Result<u64, ProtocolZapError>)
    ensures
        r == match token_amount_spec(token_account_data@) {
            Some(v) => Ok::<u64, ProtocolZapError>(v),
            None => Err::<u64, ProtocolZapError>(ProtocolZapError::InvalidZapAccounts),
        },
{
    if token_account_data.len() < 72 {
        return Err(ProtocolZapError::InvalidZapAccounts);
    }
    Ok(u64_from_le_bytes(slice_subrange(token_account_data, 64, 72)))
}

/// Reads the amount out of the data of a token account that is known to be
/// long enough.
pub fn amount(token_account_data: &[u8]) -> (r: u64)
    requires
        token_account_data@.len() >= 72,
    ensures
        Some(r) == token_amount_spec(token_account_data@),
{
    u64_from_le_bytes(slice_subrange(token_account_data, 64, 72))
}

/// The accounts and the offset that a zap-out with this payload and these
/// accounts names under `processor`, or the error that it is refused with.
pub open spec fn amm_info_under(
    processor: ZapProcessor,
    payload: Seq<u8>,
    accounts: Seq<Pubkey>,
    route: Option<JupiterRoute>,
) -> Result<(Seq<u8>, Seq<u8>, Seq<u8>, u16), ProtocolZapError> {
    match processor.payload_verdict(route) {
        Err(e) => Err(e),
        Ok(_) => match processor.layout(payload.len()) {
            Err(e) => Err(e),
            Ok(raw) => if accounts.len() < 2 || raw.source_index >= accounts.len() - 2
                || raw.destination_index >= accounts.len() - 2 {
                Err(ProtocolZapError::InvalidZapAccounts)
            } else {
                Ok(
                    (
                        accounts[0]@,
                        accounts[2 + raw.source_index]@,
                        accounts[2 + raw.destination_index]@,
                        raw.amount_in_offset,
                    ),
                )
            },
        },
    }
}

/// The accounts and the offset that a zap-out names, where the pool program
/// is found by the discriminator of the payload and the second account; or
/// the error that the zap-out is refused with.
pub open spec fn amm_info_spec(
    payload: Seq<u8>,
    accounts: Seq<Pubkey>,
    route: Option<JupiterRoute>,
) -> Result<(Seq<u8>, Seq<u8>, Seq<u8>, u16), ProtocolZapError> {
    if accounts.len() < 2 {
        Err(ProtocolZapError::InvalidZapAccounts)
    } else if payload.len() < 8 {
        Err(ProtocolZapError::InvalidZapOutParameters)
    } else {
        match zap_amm_processor_of(payload.subrange(0, 8), accounts[1]@) {
            None => Err(ProtocolZapError::InvalidZapOutParameters),
            Some(processor) => amm_info_under(processor, payload, accounts, route),
        }
    }
}

/// As `amm_info_spec`, for a caller that supports only some pool programs; a
/// program outside `supported` is refused, and both Jupiter instructions are
/// validated as a route.
pub open spec fn supported_amm_info_spec(
    payload: Seq<u8>,
    accounts: Seq<Pubkey>,
    route: Option<JupiterRoute>,
    supported: Seq<ZapAmmProgram>,
) -> Result<(Seq<u8>, Seq<u8>, Seq<u8>, u16), ProtocolZapError> {
    if accounts.len() < 2 {
        Err(ProtocolZapError::InvalidZapAccounts)
    } else if payload.len() < 8 {
        Err(ProtocolZapError::InvalidZapOutParameters)
    } else {
        match amm_program_of(payload.subrange(0, 8), accounts[1]@) {
            None => Err(ProtocolZapError::InvalidZapOutParameters),
            Some(program) => if !supported.contains(program) {
                Err(ProtocolZapError::InvalidZapOutParameters)
            } else {
                amm_info_under(program.processor_spec(), payload, accounts, route)
            },
        }
    }
}

/// Validates the payload under `processor` and picks the source and the
/// destination out of the accounts that follow the zap-out's own two.
fn extract_with_processor(
    processor: ZapProcessor,
    zap_params: &ZapOutParameters,
    zap_account: &[Pubkey],
    route: Option<&JupiterRoute>,
) -> (r: Result<ZapOutAmmInfo, ProtocolZapError>)
    requires
        zap_account@.len() >= 2,
        zap_params.payload_data@.len() >= 8,
    ensures
        match r {
            Ok(info) => amm_info_under(
                processor,
                zap_params.payload_data@,
                zap_account@,
                match route {
                    Some(decoded) => Some(*decoded),
                    None => None,
                },
            ) == Ok::<(Seq<u8>, Seq<u8>, Seq<u8>, u16), ProtocolZapError>(info.fields()),
            Err(e) => amm_info_under(
                processor,
                zap_params.payload_data@,
                zap_account@,
                match route {
                    Some(decoded) => Some(*decoded),
                    None => None,
                },
            ) == Err::<(Seq<u8>, Seq<u8>, Seq<u8>, u16), ProtocolZapError>(e),
        },
{
    let amm_payload = slice_subrange(
        zap_params.payload_data.as_slice(),
        8,
        zap_params.payload_data.len(),
    );
    match processor.validate_payload(amm_payload, route) {
        Ok(_) => {},
        Err(e) => {
            return Err(e);
        },
    }
    let raw: RawZapOutAmmInfo = match processor.extract_raw_zap_out_amm_info(zap_params) {
        Ok(v) => v,
        Err(e) => {
            return Err(e);
        },
    };
    let amm_accounts_len = zap_account.len() - ZAP_OUT_ACCOUNTS_LEN;
    if raw.source_index >= amm_accounts_len {
        return Err(ProtocolZapError::InvalidZapAccounts);
    }
    if raw.destination_index >= amm_accounts_len {
        return Err(ProtocolZapError::InvalidZapAccounts);
    }
    Ok(
        ZapOutAmmInfo {
            zap_user_token_in_address: zap_account[0],
            amm_source_token_address: zap_account[ZAP_OUT_ACCOUNTS_LEN + raw.source_index],
            amm_destination_token_address: zap_account[ZAP_OUT_ACCOUNTS_LEN
                + raw.destination_index],
            amount_in_offset: raw.amount_in_offset,
        },
    )
}

/// Finds out which accounts a zap-out swaps between and where its amount
/// sits. The first account of the instruction is the one whose balance
/// decides the amount, the second the pool program; the pool program's own
/// accounts follow.
pub fn extract_amm_accounts_and_info(
    zap_params: &ZapOutParameters,
    zap_account: &[Pubkey],
    route: Option<&JupiterRoute>,
) -> (r: Result<ZapOutAmmInfo, ProtocolZapError>)
    ensures
        match r {
            Ok(info) => amm_info_spec(
                zap_params.payload_data@,
                zap_account@,
                match route {
                    Some(decoded) => Some(*decoded),
                    None => None,
                },
            ) == Ok::<(Seq<u8>, Seq<u8>, Seq<u8>, u16), ProtocolZapError>(info.fields()),
            Err(e) => amm_info_spec(
                zap_params.payload_data@,
                zap_account@,
                match route {
                    Some(decoded) => Some(*decoded),
                    None => None,
                },
            ) == Err::<(Seq<u8>, Seq<u8>, Seq<u8>, u16), ProtocolZapError>(e),
        },
{
    if zap_account.len() < 2 {
        return Err(ProtocolZapError::InvalidZapAccounts);
    }
    let zap_amm_program_address = zap_account[1];
    if zap_params.payload_data.len() < 8 {
        return Err(ProtocolZapError::InvalidZapOutParameters);
    }
    let amm_disc = slice_subrange(zap_params.payload_data.as_slice(), 0, 8);
    let processor = match get_zap_amm_processor(amm_disc, zap_amm_program_address) {
        Ok(p) => p,
        Err(e) => {
            return Err(e);
        },
    };
    extract_with_processor(processor, zap_params, zap_account, route)
}

/// Tells whether `program` is among `supported`.
fn supports(supported: &[ZapAmmProgram], program: ZapAmmProgram) -> (r: bool)
    ensures
        r == supported@.contains(program),
{
    let mut i: usize = 0;
    while i < supported.len()
        invariant
            i <= supported.len(),
            forall|j: int| 0 <= j < i ==> supported@[j] != program,
        decreases supported.len() - i,
    {
        if supported[i] == program {
            return true;
        }
        i += 1;
    }
    false
}

/// As `extract_amm_accounts_and_info`, for a caller that supports only the
/// pool programs in `supported_zap_amm_programs`.
pub fn extract_supported_amm_accounts_and_info(
    zap_params: &ZapOutParameters,
    zap_account: &[Pubkey],
    route: Option<&JupiterRoute>,
    supported_zap_amm_programs: &[ZapAmmProgram],
) -> (r: Result<ZapOutAmmInfo, ProtocolZapError>)
    ensures
        match r {
            Ok(info) => supported_amm_info_spec(
                zap_params.payload_data@,
                zap_account@,
                match route {
                    Some(decoded) => Some(*decoded),
                    None => None,
                },
                supported_zap_amm_programs@,
            ) == Ok::<(Seq<u8>, Seq<u8>, Seq<u8>, u16), ProtocolZapError>(info.fields()),
            Err(e) => supported_amm_info_spec(
                zap_params.payload_data@,
                zap_account@,
                match route {
                    Some(decoded) => Some(*decoded),
                    None => None,
                },
                supported_zap_amm_programs@,
            ) == Err::<(Seq<u8>, Seq<u8>, Seq<u8>, u16), ProtocolZapError>(e),
        },
{
    if zap_account.len() < 2 {
        return Err(ProtocolZapError::InvalidZapAccounts);
    }
    let zap_amm_program_address = zap_account[1];
    if zap_params.payload_data.len() < 8 {
        return Err(ProtocolZapError::InvalidZapOutParameters);
    }
    let amm_disc = slice_subrange(zap_params.payload_data.as_slice(), 0, 8);
    let amm_program = match ZapAmmProgram::try_from_raw(amm_disc, zap_amm_program_address) {
        Some(p) => p,
        None => {
            return Err(ProtocolZapError::InvalidZapOutParameters);
        },
    };
    if !supports(supported_zap_amm_programs, amm_program) {
        return Err(ProtocolZapError::InvalidZapOutParameters);
    }
    extract_with_processor(amm_program.get_processor(), zap_params, zap_account, route)
}

/// The parameters of a zap-out that follows a claim are accepted when they
/// swap everything, at the offset that the pool program's layout gives, out
/// of a balance that was stated truthfully, with a cap that does not hold
/// back any of the claim.
pub open spec fn zap_parameters_accepted(
    percentage: u8,
    offset_amount_in: u16,
    pre_user_token_balance: u64,
    max_swap_amount: u64,
    max_claim_amount: u64,
    amount_in_offset: u16,
    claimer_token_account_data: Seq<u8>,
) -> bool {
    &&& percentage == 100
    &&& offset_amount_in == amount_in_offset
    &&& token_amount_spec(claimer_token_account_data) == Some(pre_user_token_balance)
    &&& max_swap_amount >= max_claim_amount
}

/// The error that parameters which are not accepted are refused with: data
/// too short for a token account is an invalid account, provided the
/// percentage and the offset are right; everything else an invalid parameter.
pub open spec fn zap_parameters_error(
    percentage: u8,
    offset_amount_in: u16,
    amount_in_offset: u16,
    claimer_token_account_data: Seq<u8>,
) -> ProtocolZapError {
    if percentage == 100 && offset_amount_in == amount_in_offset && token_amount_spec(
        claimer_token_account_data,
    ).is_none() {
        ProtocolZapError::InvalidZapAccounts
    } else {
        ProtocolZapError::InvalidZapOutParameters
    }
}

/// Validates the parameters of a zap-out that follows a claim of at most
/// `max_claim_amount`. A balance stated higher than the account holds would
/// let the operator keep the difference, so the stated balance must be the
/// one in the account's data.
pub fn validate_zap_parameters(
    zap_params: &ZapOutParameters,
    max_claim_amount: u64,
    amount_in_offset: u16,
    claimer_token_account_data: &[u8],
) -> (r: Result<(), ProtocolZapError>)
    ensures
        r.is_ok() <==> zap_parameters_accepted(
            zap_params.percentage,
            zap_params.offset_amount_in,
            zap_params.pre_user_token_balance,
            zap_params.max_swap_amount,
            max_claim_amount,
            amount_in_offset,
            claimer_token_account_data@,
        ),
        r.is_err() ==> r.unwrap_err() == zap_parameters_error(
            zap_params.percentage,
            zap_params.offset_amount_in,
            amount_in_offset,
            claimer_token_account_data@,
        ),
{
    if zap_params.percentage != 100 {
        return Err(ProtocolZapError::InvalidZapOutParameters);
    }
    if zap_params.offset_amount_in != amount_in_offset {
        return Err(ProtocolZapError::InvalidZapOutParameters);
    }
    let balance = match get_token_amount(claimer_token_account_data) {
        Ok(v) => v,
        Err(e) => {
            return Err(e);
        },
    };
    if zap_params.pre_user_token_balance != balance {
        return Err(ProtocolZapError::InvalidZapOutParameters);
    }
    if zap_params.max_swap_amount < max_claim_amount {
        return Err(ProtocolZapError::InvalidZapOutParameters);
    }
    Ok(())
}

/// The destinations that a zap-out after a claim may pay into.
#[derive(Debug, Clone, Copy, PartialEq, Eq)]
pub struct TreasuryDestinations {
    /// The treasury's account for the token that the pool pairs with.
    pub paired: Pubkey,
    /// The treasury's account for USDC.
    pub usdc: Pubkey,
    /// The treasury's account for wrapped SOL.
    pub sol: Pubkey,
}

impl TreasuryDestinations {
    /// Whether `address` is one of the three destinations.
    pub open spec fn holds(self, address: Seq<u8>) -> bool {
        address == self.paired@ || address == self.usdc@ || address == self.sol@
    }

    /// Tells whether `address` is one of the three destinations.
    pub fn contains(&self, address: &Pubkey) -> (r: bool)
        ensures
            r == self.holds(address@),
    {
        same_key(address, &self.paired) || same_key(address, &self.usdc) || same_key(
            address,
            &self.sol,
        )
    }
}

/// The verdict on the instruction that follows a claim.
pub open spec fn next_instruction_verdict(
    max_claim_amount: u64,
    program_id: Seq<u8>,
    accounts: Seq<Pubkey>,
    data: Seq<u8>,
    route: Option<JupiterRoute>,
    claimer_token_account_key: Seq<u8>,
    claimer_token_account_data: Seq<u8>,
    destinations: TreasuryDestinations,
) -> Result<(), ProtocolZapError> {
    if program_id != ZAP@ {
        Err(ProtocolZapError::MissingZapOutInstruction)
    } else if data.len() < 8 {
        Err(ProtocolZapError::InvalidZapOutParameters)
    } else if data.subrange(0, 8) != ZAP_OUT_DISC@ {
        Err(ProtocolZapError::MissingZapOutInstruction)
    } else {
        let body = data.subrange(8, data.len() as int);
        if !zap_out_bytes_well_formed(body) {
            Err(ProtocolZapError::InvalidZapOutParameters)
        } else {
            let percentage = body[0];
            let offset_amount_in = vstd::bytes::spec_u16_from_le_bytes(body.subrange(1, 3));
            let pre_user_token_balance = spec_u64_from_le_bytes(body.subrange(3, 11));
            let max_swap_amount = spec_u64_from_le_bytes(body.subrange(11, 19));
            let payload = body.subrange(23, body.len() as int);
            match amm_info_spec(payload, accounts, route) {
                Err(e) => Err(e),
                Ok(info) => if !zap_parameters_accepted(
                    percentage,
                    offset_amount_in,
                    pre_user_token_balance,
                    max_swap_amount,
                    max_claim_amount,
                    info.3,
                    claimer_token_account_data,
                ) {
                    Err(
                        zap_parameters_error(
                            percentage,
                            offset_amount_in,
                            info.3,
                            claimer_token_account_data,
                        ),
                    )
                } else if info.0 != claimer_token_account_key {
                    Err(ProtocolZapError::InvalidZapAccounts)
                } else if info.1 != claimer_token_account_key {
                    Err(ProtocolZapError::InvalidZapAccounts)
                } else if !destinations.holds(info.2) {
                    Err(ProtocolZapError::InvalidZapAccounts)
                } else {
                    Ok(())
                },
            }
        }
    }
}

/// Validates the instruction that follows a claim: it must be a zap-out that
/// swaps the whole claim out of the claimer's account into the treasury.
///
/// Nothing else ties the account whose balance is measured to the account
/// that the pool program takes from, so both are held to the claimer's
/// account: an operator could otherwise measure an empty account of their
/// own and skip the swap.
pub fn search_and_validate_zap_out_instruction(
    max_claim_amount: u64,
    next_instruction: &InstructionView,
    route: Option<&JupiterRoute>,
    claimer_token_account_key: &Pubkey,
    claimer_token_account_data: &[u8],
    destinations: &TreasuryDestinations,
) -> (r: Result<(), ProtocolZapError>)
    ensures
        r.is_ok() <==> next_instruction_verdict(
            max_claim_amount,
            next_instruction.program_id@,
            next_instruction.accounts@,
            next_instruction.data@,
            match route {
                Some(decoded) => Some(*decoded),
                None => None,
            },
            claimer_token_account_key@,
            claimer_token_account_data@,
            *destinations,
        ).is_ok(),
        r.is_err() ==> next_instruction_verdict(
            max_claim_amount,
            next_instruction.program_id@,
            next_instruction.accounts@,
            next_instruction.data@,
            match route {
                Some(decoded) => Some(*decoded),
                None => None,
            },
            claimer_token_account_key@,
            claimer_token_account_data@,
            *destinations,
        ) == Err::<(), ProtocolZapError>(r.unwrap_err()),
{
    if !same_key(&next_instruction.program_id, &ZAP) {
        return Err(ProtocolZapError::MissingZapOutInstruction);
    }
    if next_instruction.data.len() < 8 {
        return Err(ProtocolZapError::InvalidZapOutParameters);
    }
    let data = next_instruction.data.as_slice();
    let disc = slice_subrange(data, 0, 8);
    if !same_bytes(disc, ZAP_OUT_DISC.as_slice()) {
        return Err(ProtocolZapError::MissingZapOutInstruction);
    }
    let zap_params = match ZapOutParameters::try_from_slice(slice_subrange(data, 8, data.len())) {
        Ok(v) => v,
        Err(e) => {
            return Err(e);
        },
    };
    let info = match extract_amm_accounts_and_info(
        &zap_params,
        next_instruction.accounts.as_slice(),
        route,
    ) {
        Ok(v) => v,
        Err(e) => {
            return Err(e);
        },
    };
    match validate_zap_parameters(
        &zap_params,
        max_claim_amount,
        info.amount_in_offset,
        claimer_token_account_data,
    ) {
        Ok(_) => {},
        Err(e) => {
            return Err(e);
        },
    }
    if !same_key(&info.zap_user_token_in_address, claimer_token_account_key) {
        return Err(ProtocolZapError::InvalidZapAccounts);
    }
    if !same_key(&info.amm_source_token_address, claimer_token_account_key) {
        return Err(ProtocolZapError::InvalidZapAccounts);
    }
    if !destinations.contains(&info.amm_destination_token_address) {
        return Err(ProtocolZapError::InvalidZapAccounts);
    }
    Ok(())
}

/// The verdict on a claim: the claim must be a direct call of the claiming
/// program, and a zap-out of the whole claim must follow it.
pub open spec fn zap_out_to_treasury_verdict(
    claimed_amount: u64,
    calling_program_id: Seq<u8>,
    current_program_id: Seq<u8>,
    next_instruction: Option<InstructionView>,
    route: Option<JupiterRoute>,
    claimer_token_account_key: Seq<u8>,
    claimer_token_account_data: Seq<u8>,
    destinations: TreasuryDestinations,
) -> Result<(), ProtocolZapError> {
    if current_program_id != calling_program_id {
        Err(ProtocolZapError::CpiDisabled)
    } else {
        match next_instruction {
            None => Err(ProtocolZapError::MissingZapOutInstruction),
            Some(next) => next_instruction_verdict(
                claimed_amount,
                next.program_id@,
                next.accounts@,
                next.data@,
                route,
                claimer_token_account_key,
                claimer_token_account_data,
                destinations,
            ),
        }
    }
}

/// Validates a claim of `claimed_amount` protocol fees.
///
/// `current_program_id` is the program of the instruction that is running,
/// as the transaction lists it: where it differs from the claiming program,
/// the claim was reached through another program and is refused.
/// `next_instruction` is the instruction after the running one, if there is
/// one, and `route` the Jupiter route that its payload decodes to, if any.
pub fn validate_zap_out_to_treasury(
    claimed_amount: u64,
    calling_program_id: &Pubkey,
    current_program_id: &Pubkey,
    next_instruction: Option<&InstructionView>,
    route: Option<&JupiterRoute>,
    claimer_token_account_key: &Pubkey,
    claimer_token_account_data: &[u8],
    destinations: &TreasuryDestinations,
) -> (r: Result<(), ProtocolZapError>)
    ensures
        r.is_ok() <==> zap_out_to_treasury_verdict(
            claimed_amount,
            calling_program_id@,
            current_program_id@,
            match next_instruction {
                Some(next) => Some(*next),
                None => None,
            },
            match route {
                Some(decoded) => Some(*decoded),
                None => None,
            },
            claimer_token_account_key@,
            claimer_token_account_data@,
            *destinations,
        ).is_ok(),
        r.is_err() ==> zap_out_to_treasury_verdict(
            claimed_amount,
            calling_program_id@,
            current_program_id@,
            match next_instruction {
                Some(next) => Some(*next),
                None => None,
            },
            match route {
                Some(decoded) => Some(*decoded),
                None => None,
            },
            claimer_token_account_key@,
            claimer_token_account_data@,
            *destinations,
        ) == Err::<(), ProtocolZapError>(r.unwrap_err()),
{
    if !same_key(current_program_id, calling_program_id) {
        return Err(ProtocolZapError::CpiDisabled);
    }
    match next_instruction {
        None => Err(ProtocolZapError::MissingZapOutInstruction),
        Some(next) => search_and_validate_zap_out_instruction(
            claimed_amount,
            next,
            route,
            claimer_token_account_key,
            claimer_token_account_data,
            destinations,
        ),
    }
}

} // verus!
