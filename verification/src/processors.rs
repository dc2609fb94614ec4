//! The pool programs that a zap-out may target, and what each of them says
//! about its payload: which accounts are the source and the destination of
//! the swap, and where the amount-in field sits.
//!
//! DAMM v2 and DLMM payloads carry the amount at a fixed offset from the
//! start. A Jupiter payload ends in a list of variable length, so its amount
//! sits at a fixed distance from the end and the offset is computed from the
//! payload's length.

use vstd::prelude::*;
use crate::constants::{
    same_bytes, same_key, Pubkey, DAMM_V2, DAMM_V2_SWAP_AMOUNT_IN_OFFSET,
    DAMM_V2_SWAP_DESTINATION_ACCOUNT_INDEX, DAMM_V2_SWAP_DISC, DAMM_V2_SWAP_SOURCE_ACCOUNT_INDEX,
    DLMM, DLMM_SWAP2_AMOUNT_IN_OFFSET, DLMM_SWAP2_DESTINATION_ACCOUNT_INDEX, DLMM_SWAP2_DISC,
    DLMM_SWAP2_SOURCE_ACCOUNT_INDEX, JUP_V6, JUP_V6_ROUTE_AMOUNT_IN_REVERSE_OFFSET,
    JUP_V6_ROUTE_DESTINATION_ACCOUNT_INDEX, JUP_V6_ROUTE_DISC, JUP_V6_ROUTE_SOURCE_ACCOUNT_INDEX,
    JUP_V6_SHARED_ACCOUNT_ROUTE_AMOUNT_IN_REVERSE_OFFSET,
    JUP_V6_SHARED_ACCOUNT_ROUTE_DESTINATION_ACCOUNT_INDEX, JUP_V6_SHARED_ACCOUNT_ROUTE_DISC,
    JUP_V6_SHARED_ACCOUNT_ROUTE_SOURCE_ACCOUNT_INDEX,
};
use crate::error::ProtocolZapError;
use crate::jup_v6_zap::{route_accepted, route_error, validate_route, JupiterRoute};
use crate::zap_out::ZapOutParameters;

verus! {

/// Where a pool program's swap instruction keeps what a zap-out must check.
#[derive(Debug, Clone, Copy, PartialEq, Eq, Structural)]
pub struct RawZapOutAmmInfo {
    /// Index of the source token account among the pool program's accounts.
    pub source_index: usize,
    /// Index of the destination token account among the pool program's accounts.
    pub destination_index: usize,
    /// Offset of the amount-in field in the payload.
    pub amount_in_offset: u16,
}

/// The offset of a field that sits `reverse_offset` bytes before the end of a
/// payload of `payload_len` bytes, with the error where there is none: the
/// payload may be too short, or the offset too large for sixteen bits.
pub open spec fn reverse_offset_spec(payload_len: nat, reverse_offset: nat) -> Result<
    u16,
    ProtocolZapError,
> {
    if payload_len < reverse_offset {
        Err(ProtocolZapError::MathOverflow)
    } else if payload_len - reverse_offset > u16::MAX {
        Err(ProtocolZapError::TypeCastFailed)
    } else {
        Ok((payload_len - reverse_offset) as u16)
    }
}

/// Computes the offset of a field from the end of the payload.
fn offset_from_end(payload_len: usize, distance: usize) -> (r: Result<u16, ProtocolZapError>)
    ensures
        r == reverse_offset_spec(payload_len as nat, distance as nat),
{
    if payload_len < distance {
        return Err(ProtocolZapError::MathOverflow);
    }
    let offset: usize = payload_len - distance;
    if offset > 0xffff {
        return Err(ProtocolZapError::TypeCastFailed);
    }
    Ok(offset as u16)
}

/// What a pool program contributes to the validation of a zap-out.
pub trait ZapInfoProcessor {
    /// Whether the payload is accepted, given the Jupiter route that it
    /// decodes to, if it decodes to one; the error otherwise.
    spec fn payload_verdict(&self, route: Option<JupiterRoute>) -> Result<(), ProtocolZapError>;

    /// The layout for a payload of `payload_len` bytes, discriminator included.
    spec fn layout(&self, payload_len: nat) -> Result<RawZapOutAmmInfo, ProtocolZapError>;

    /// Validates the payload that follows the discriminator. `route` holds
    /// the route that the payload decodes to, where the caller could decode it.
    fn validate_payload(&self, payload: &[u8], route: Option<&JupiterRoute>) -> (r: Result<
        (),
        ProtocolZapError,
    >)
        ensures
            r == self.payload_verdict(
                match route {
                    Some(decoded) => Some(*decoded),
                    None => None,
                },
            ),
    ;

    /// Says where the source account, the destination account and the
    /// amount-in field of the zap-out's payload are.
    fn extract_raw_zap_out_amm_info(&self, zap_params: &ZapOutParameters) -> (r: Result<
        RawZapOutAmmInfo,
        ProtocolZapError,
    >)
        ensures
            r == self.layout(zap_params.payload_data@.len()),
    ;
}

/// The verdict on a payload that must decode to an accepted Jupiter route.
pub open spec fn jupiter_verdict(route: Option<JupiterRoute>) -> Result<(), ProtocolZapError> {
    match route {
        None => Err(ProtocolZapError::InvalidZapOutParameters),
        Some(decoded) => if route_accepted(decoded) {
            Ok(())
        } else {
            Err(route_error(decoded))
        },
    }
}

/// Validates a payload that must decode to an accepted Jupiter route.
fn validate_jupiter_payload(route: Option<&JupiterRoute>) -> (r: Result<(), ProtocolZapError>)
    ensures
        r == jupiter_verdict(
            match route {
                Some(decoded) => Some(*decoded),
                None => None,
            },
        ),
{
    match route {
        None => Err(ProtocolZapError::InvalidZapOutParameters),
        Some(decoded) => match validate_route(decoded) {
            Ok(_) => Ok(()),
            Err(e) => Err(e),
        },
    }
}

/// The DAMM v2 swap: any payload, fixed layout.
#[derive(Debug, Clone, Copy, PartialEq, Eq, Structural)]
pub struct ZapDammV2InfoProcessor;

impl ZapInfoProcessor for ZapDammV2InfoProcessor {
    open spec fn payload_verdict(&self, route: Option<JupiterRoute>) -> Result<
        (),
        ProtocolZapError,
    > {
        Ok(())
    }

    open spec fn layout(&self, payload_len: nat) -> Result<RawZapOutAmmInfo, ProtocolZapError> {
        Ok(
            RawZapOutAmmInfo {
                source_index: DAMM_V2_SWAP_SOURCE_ACCOUNT_INDEX,
                destination_index: DAMM_V2_SWAP_DESTINATION_ACCOUNT_INDEX,
                amount_in_offset: DAMM_V2_SWAP_AMOUNT_IN_OFFSET,
            },
        )
    }

    fn validate_payload(&self, _payload: &[u8], _route: Option<&JupiterRoute>) -> (r: Result<
        (),
        ProtocolZapError,
    >) {
        Ok(())
    }

    fn extract_raw_zap_out_amm_info(&self, _zap_params: &ZapOutParameters) -> (r: Result<
        RawZapOutAmmInfo,
        ProtocolZapError,
    >) {
        Ok(
            RawZapOutAmmInfo {
                source_index: DAMM_V2_SWAP_SOURCE_ACCOUNT_INDEX,
                destination_index: DAMM_V2_SWAP_DESTINATION_ACCOUNT_INDEX,
                amount_in_offset: DAMM_V2_SWAP_AMOUNT_IN_OFFSET,
            },
        )
    }
}

/// The DLMM swap: any payload, fixed layout.
#[derive(Debug, Clone, Copy, PartialEq, Eq, Structural)]
pub struct ZapDlmmInfoProcessor;

impl ZapInfoProcessor for ZapDlmmInfoProcessor {
    open spec fn payload_verdict(&self, route: Option<JupiterRoute>) -> Result<
        (),
        ProtocolZapError,
    > {
        Ok(())
    }

    open spec fn layout(&self, payload_len: nat) -> Result<RawZapOutAmmInfo, ProtocolZapError> {
        Ok(
            RawZapOutAmmInfo {
                source_index: DLMM_SWAP2_SOURCE_ACCOUNT_INDEX,
                destination_index: DLMM_SWAP2_DESTINATION_ACCOUNT_INDEX,
                amount_in_offset: DLMM_SWAP2_AMOUNT_IN_OFFSET,
            },
        )
    }

    fn validate_payload(&self, _payload: &[u8], _route: Option<&JupiterRoute>) -> (r: Result<
        (),
        ProtocolZapError,
    >) {
        Ok(())
    }

    fn extract_raw_zap_out_amm_info(&self, _zap_params: &ZapOutParameters) -> (r: Result<
        RawZapOutAmmInfo,
        ProtocolZapError,
    >) {
        Ok(
            RawZapOutAmmInfo {
                source_index: DLMM_SWAP2_SOURCE_ACCOUNT_INDEX,
                destination_index: DLMM_SWAP2_DESTINATION_ACCOUNT_INDEX,
                amount_in_offset: DLMM_SWAP2_AMOUNT_IN_OFFSET,
            },
        )
    }
}

/// The Jupiter route: the payload must decode to an accepted route, and the
/// amount sits at a fixed distance from the end.
#[derive(Debug, Clone, Copy, PartialEq, Eq, Structural)]
pub struct ZapJupV6RouteInfoProcessor;

impl ZapInfoProcessor for ZapJupV6RouteInfoProcessor {
    open spec fn payload_verdict(&self, route: Option<JupiterRoute>) -> Result<
        (),
        ProtocolZapError,
    > {
        jupiter_verdict(route)
    }

    open spec fn layout(&self, payload_len: nat) -> Result<RawZapOutAmmInfo, ProtocolZapError> {
        match reverse_offset_spec(payload_len, JUP_V6_ROUTE_AMOUNT_IN_REVERSE_OFFSET as nat) {
            Ok(amount_in_offset) => Ok(
                RawZapOutAmmInfo {
                    source_index: JUP_V6_ROUTE_SOURCE_ACCOUNT_INDEX,
                    destination_index: JUP_V6_ROUTE_DESTINATION_ACCOUNT_INDEX,
                    amount_in_offset,
                },
            ),
            Err(e) => Err(e),
        }
    }

    fn validate_payload(&self, _payload: &[u8], route: Option<&JupiterRoute>) -> (r: Result<
        (),
        ProtocolZapError,
    >) {
        validate_jupiter_payload(route)
    }

    fn extract_raw_zap_out_amm_info(&self, zap_params: &ZapOutParameters) -> (r: Result<
        RawZapOutAmmInfo,
        ProtocolZapError,
    >) {
        let amount_in_offset = match offset_from_end(
            zap_params.payload_data.len(),
            JUP_V6_ROUTE_AMOUNT_IN_REVERSE_OFFSET,
        ) {
            Ok(v) => v,
            Err(e) => {
                return Err(e);
            },
        };
        Ok(
            RawZapOutAmmInfo {
                source_index: JUP_V6_ROUTE_SOURCE_ACCOUNT_INDEX,
                destination_index: JUP_V6_ROUTE_DESTINATION_ACCOUNT_INDEX,
                amount_in_offset,
            },
        )
    }
}

/// The Jupiter shared-accounts route: as the route, with its own account indices.
#[derive(Debug, Clone, Copy, PartialEq, Eq, Structural)]
pub struct ZapJupV6SharedRouteInfoProcessor;

impl ZapInfoProcessor for ZapJupV6SharedRouteInfoProcessor {
    open spec fn payload_verdict(&self, route: Option<JupiterRoute>) -> Result<
        (),
        ProtocolZapError,
    > {
        jupiter_verdict(route)
    }

    open spec fn layout(&self, payload_len: nat) -> Result<RawZapOutAmmInfo, ProtocolZapError> {
        match reverse_offset_spec(
            payload_len,
            JUP_V6_SHARED_ACCOUNT_ROUTE_AMOUNT_IN_REVERSE_OFFSET as nat,
        ) {
            Ok(amount_in_offset) => Ok(
                RawZapOutAmmInfo {
                    source_index: JUP_V6_SHARED_ACCOUNT_ROUTE_SOURCE_ACCOUNT_INDEX,
                    destination_index: JUP_V6_SHARED_ACCOUNT_ROUTE_DESTINATION_ACCOUNT_INDEX,
                    amount_in_offset,
                },
            ),
            Err(e) => Err(e),
        }
    }

    fn validate_payload(&self, _payload: &[u8], route: Option<&JupiterRoute>) -> (r: Result<
        (),
        ProtocolZapError,
    >) {
        validate_jupiter_payload(route)
    }

    fn extract_raw_zap_out_amm_info(&self, zap_params: &ZapOutParameters) -> (r: Result<
        RawZapOutAmmInfo,
        ProtocolZapError,
    >) {
        let amount_in_offset = match offset_from_end(
            zap_params.payload_data.len(),
            JUP_V6_SHARED_ACCOUNT_ROUTE_AMOUNT_IN_REVERSE_OFFSET,
        ) {
            Ok(v) => v,
            Err(e) => {
                return Err(e);
            },
        };
        Ok(
            RawZapOutAmmInfo {
                source_index: JUP_V6_SHARED_ACCOUNT_ROUTE_SOURCE_ACCOUNT_INDEX,
                destination_index: JUP_V6_SHARED_ACCOUNT_ROUTE_DESTINATION_ACCOUNT_INDEX,
                amount_in_offset,
            },
        )
    }
}

/// One of the four processors, chosen at run time.
#[derive(Debug, Clone, Copy, PartialEq, Eq, Structural)]
pub enum ZapProcessor {
    Dlmm,
    DammV2,
    JupV6Route,
    JupV6SharedRoute,
}

impl ZapInfoProcessor for ZapProcessor {
    open spec fn payload_verdict(&self, route: Option<JupiterRoute>) -> Result<
        (),
        ProtocolZapError,
    > {
        match self {
            ZapProcessor::Dlmm => ZapDlmmInfoProcessor.payload_verdict(route),
            ZapProcessor::DammV2 => ZapDammV2InfoProcessor.payload_verdict(route),
            ZapProcessor::JupV6Route => ZapJupV6RouteInfoProcessor.payload_verdict(route),
            ZapProcessor::JupV6SharedRoute => ZapJupV6SharedRouteInfoProcessor.payload_verdict(
                route,
            ),
        }
    }

    open spec fn layout(&self, payload_len: nat) -> Result<RawZapOutAmmInfo, ProtocolZapError> {
        match self {
            ZapProcessor::Dlmm => ZapDlmmInfoProcessor.layout(payload_len),
            ZapProcessor::DammV2 => ZapDammV2InfoProcessor.layout(payload_len),
            ZapProcessor::JupV6Route => ZapJupV6RouteInfoProcessor.layout(payload_len),
            ZapProcessor::JupV6SharedRoute => ZapJupV6SharedRouteInfoProcessor.layout(payload_len),
        }
    }

    fn validate_payload(&self, payload: &[u8], route: Option<&JupiterRoute>) -> (r: Result<
        (),
        ProtocolZapError,
    >) {
        match self {
            ZapProcessor::Dlmm => ZapDlmmInfoProcessor.validate_payload(payload, route),
            ZapProcessor::DammV2 => ZapDammV2InfoProcessor.validate_payload(payload, route),
            ZapProcessor::JupV6Route => ZapJupV6RouteInfoProcessor.validate_payload(payload, route),
            ZapProcessor::JupV6SharedRoute => ZapJupV6SharedRouteInfoProcessor.validate_payload(
                payload,
                route,
            ),
        }
    }

    fn extract_raw_zap_out_amm_info(&self, zap_params: &ZapOutParameters) -> (r: Result<
        RawZapOutAmmInfo,
        ProtocolZapError,
    >) {
        match self {
            ZapProcessor::Dlmm => ZapDlmmInfoProcessor.extract_raw_zap_out_amm_info(zap_params),
            ZapProcessor::DammV2 => ZapDammV2InfoProcessor.extract_raw_zap_out_amm_info(zap_params),
            ZapProcessor::JupV6Route => ZapJupV6RouteInfoProcessor.extract_raw_zap_out_amm_info(
                zap_params,
            ),
            ZapProcessor::JupV6SharedRoute => {
                ZapJupV6SharedRouteInfoProcessor.extract_raw_zap_out_amm_info(zap_params)
            },
        }
    }
}

/// A pool program together with the instruction of it that a zap-out invokes.
#[derive(Debug, Clone, Copy, PartialEq, Eq, Structural)]
pub enum ZapAmmProgram {
    Dlmm,
    DammV2,
    JupV6Route,
    JupV6SharedAccountRoute,
}

/// The entry of the whitelist that a discriminator and a program address
/// name, if they name one.
pub open spec fn amm_program_of(disc: Seq<u8>, program: Seq<u8>) -> Option<ZapAmmProgram> {
    if disc == DLMM_SWAP2_DISC@ && program == DLMM@ {
        Some(ZapAmmProgram::Dlmm)
    } else if disc == DAMM_V2_SWAP_DISC@ && program == DAMM_V2@ {
        Some(ZapAmmProgram::DammV2)
    } else if disc == JUP_V6_ROUTE_DISC@ && program == JUP_V6@ {
        Some(ZapAmmProgram::JupV6Route)
    } else if disc == JUP_V6_SHARED_ACCOUNT_ROUTE_DISC@ && program == JUP_V6@ {
        Some(ZapAmmProgram::JupV6SharedAccountRoute)
    } else {
        None
    }
}

impl ZapAmmProgram {
    /// The processor that validates a zap-out to this program. Both Jupiter
    /// instructions are validated as a route.
    pub open spec fn processor_spec(self) -> ZapProcessor {
        match self {
            ZapAmmProgram::Dlmm => ZapProcessor::Dlmm,
            ZapAmmProgram::DammV2 => ZapProcessor::DammV2,
            ZapAmmProgram::JupV6Route => ZapProcessor::JupV6Route,
            ZapAmmProgram::JupV6SharedAccountRoute => ZapProcessor::JupV6Route,
        }
    }

    /// Looks a discriminator and a program address up in the whitelist, by
    /// exact match of both.
    pub fn try_from_raw(disc: &[u8], program: Pubkey) -> (r: Option<ZapAmmProgram>)
        ensures
            r == amm_program_of(disc@, program@),
    {
        if same_bytes(disc, DLMM_SWAP2_DISC.as_slice()) && same_key(&program, &DLMM) {
            Some(ZapAmmProgram::Dlmm)
        } else if same_bytes(disc, DAMM_V2_SWAP_DISC.as_slice()) && same_key(&program, &DAMM_V2) {
            Some(ZapAmmProgram::DammV2)
        } else if same_bytes(disc, JUP_V6_ROUTE_DISC.as_slice()) && same_key(&program, &JUP_V6) {
            Some(ZapAmmProgram::JupV6Route)
        } else if same_bytes(disc, JUP_V6_SHARED_ACCOUNT_ROUTE_DISC.as_slice()) && same_key(
            &program,
            &JUP_V6,
        ) {
            Some(ZapAmmProgram::JupV6SharedAccountRoute)
        } else {
            None
        }
    }

    /// Returns the processor that validates a zap-out to this program.
    pub fn get_processor(&self) -> (r: ZapProcessor)
        ensures
            r == self.processor_spec(),
    {
        match self {
            ZapAmmProgram::Dlmm => ZapProcessor::Dlmm,
            ZapAmmProgram::DammV2 => ZapProcessor::DammV2,
            ZapAmmProgram::JupV6Route | ZapAmmProgram::JupV6SharedAccountRoute => {
                ZapProcessor::JupV6Route
            },
        }
    }
}

/// The processor of the whitelist entry that a discriminator and a program
/// address name; each Jupiter instruction has its own.
pub open spec fn zap_amm_processor_of(disc: Seq<u8>, program: Seq<u8>) -> Option<ZapProcessor> {
    match amm_program_of(disc, program) {
        Some(ZapAmmProgram::Dlmm) => Some(ZapProcessor::Dlmm),
        Some(ZapAmmProgram::DammV2) => Some(ZapProcessor::DammV2),
        Some(ZapAmmProgram::JupV6Route) => Some(ZapProcessor::JupV6Route),
        Some(ZapAmmProgram::JupV6SharedAccountRoute) => Some(ZapProcessor::JupV6SharedRoute),
        None => None,
    }
}

/// Finds the processor for a discriminator and a program address, or fails
/// with `InvalidZapOutParameters` where the whitelist does not hold them.
pub fn get_zap_amm_processor(amm_disc: &[u8], amm_program_address: Pubkey) -> (r: Result<
    ZapProcessor,
    ProtocolZapError,
>)
    ensures
        r == match zap_amm_processor_of(amm_disc@, amm_program_address@) {
            Some(p) => Ok::<ZapProcessor, ProtocolZapError>(p),
            None => Err::<ZapProcessor, ProtocolZapError>(
                ProtocolZapError::InvalidZapOutParameters,
            ),
        },
{
    match ZapAmmProgram::try_from_raw(amm_disc, amm_program_address) {
        Some(ZapAmmProgram::Dlmm) => Ok(ZapProcessor::Dlmm),
        Some(ZapAmmProgram::DammV2) => Ok(ZapProcessor::DammV2),
        Some(ZapAmmProgram::JupV6Route) => Ok(ZapProcessor::JupV6Route),
        Some(ZapAmmProgram::JupV6SharedAccountRoute) => Ok(ZapProcessor::JupV6SharedRoute),
        None => Err(ProtocolZapError::InvalidZapOutParameters),
    }
}

/// The whitelist of the zap program and the whitelist of the validation name
/// the same pairs.
pub proof fn lemma_whitelists_agree(disc: Seq<u8>, program: Seq<u8>)
    ensures
        crate::zap_out::whitelisted(program, disc) <==> amm_program_of(disc, program).is_some(),
{
}

} // verus!
