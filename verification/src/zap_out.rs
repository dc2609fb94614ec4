//! Zap-out: swap a share of what arrived in a token account through a
//! whitelisted pool program, by writing the amount into a prepared payload.
//!
//! The payload is opaque but for eight bytes: the little-endian amount-in
//! field at a declared offset. Everything else passes through unchanged.

use vstd::prelude::*;
use vstd::bytes::{
    spec_u16_from_le_bytes, spec_u32_from_le_bytes, spec_u64_from_le_bytes, spec_u64_to_le_bytes,
    u16_from_le_bytes, u32_from_le_bytes, u64_from_le_bytes, u64_to_le_bytes,
};
use vstd::slice::slice_subrange;
use crate::constants::{
    same_bytes, same_key, Pubkey, DAMM_V2, DAMM_V2_SWAP_DISC, DLMM, DLMM_SWAP2_DISC, JUP_V6,
    JUP_V6_ROUTE_DISC, JUP_V6_SHARED_ACCOUNT_ROUTE_DISC,
};
use crate::error::{ProtocolZapError, ZapError};
use crate::safe_math::SafeMath;

verus! {

/// A percentage is accepted when it lies between one and one hundred.
pub open spec fn percentage_is_valid(percentage: u8) -> bool {
    0 < percentage <= 100
}

/// The share of a balance change that a percentage selects, before the cap.
pub open spec fn share_of(balance_change_amount: u64, percentage: u8) -> nat {
    if percentage == 100 {
        balance_change_amount as nat
    } else {
        (balance_change_amount as nat * percentage as nat) / 100
    }
}

/// The amount to swap: the selected share, capped at `max_swap_amount`.
pub open spec fn swap_amount_spec(
    balance_change_amount: u64,
    percentage: u8,
    max_swap_amount: u64,
) -> nat {
    let share = share_of(balance_change_amount, percentage);
    if share < max_swap_amount {
        share
    } else {
        max_swap_amount as nat
    }
}

/// Computes the share of `balance_change_amount` that `percentage` selects, in
/// a 128-bit intermediate, and caps it at `max_swap_amount`.
fn compute_swap_amount(balance_change_amount: u64, percentage: u8, max_swap_amount: u64) -> (r:
    Result<u64, ProtocolZapError>)
    ensures
        r.is_ok() <==> share_of(balance_change_amount, percentage) <= u64::MAX,
        r.is_ok() ==> r.unwrap() == swap_amount_spec(
            balance_change_amount,
            percentage,
            max_swap_amount,
        ),
        r.is_err() ==> r.unwrap_err() == ProtocolZapError::TypeCastFailed,
{
    let swap_amount: u64 = if percentage == 100 {
        balance_change_amount
    } else {
        assert(balance_change_amount as int * percentage as int <= u128::MAX) by (nonlinear_arith)
            requires
                balance_change_amount <= u64::MAX,
                percentage <= u8::MAX,
        ;
        let product: u128 = match (balance_change_amount as u128).safe_mul(percentage as u128) {
            Ok(v) => v,
            Err(e) => {
                return Err(e);
            },
        };
        let amount: u128 = match product.safe_div(100u128) {
            Ok(v) => v,
            Err(e) => {
                return Err(e);
            },
        };
        if amount > u64::MAX as u128 {
            return Err(ProtocolZapError::TypeCastFailed);
        }
        amount as u64
    };
    if swap_amount < max_swap_amount {
        Ok(swap_amount)
    } else {
        Ok(max_swap_amount)
    }
}

/// A full balance change is selected exactly by one hundred percent, and a
/// valid percentage never selects more than the balance change.
pub proof fn lemma_share_bounds(balance_change_amount: u64, percentage: u8)
    requires
        percentage_is_valid(percentage),
    ensures
        share_of(balance_change_amount, percentage) <= balance_change_amount,
        percentage == 100 ==> share_of(balance_change_amount, percentage) == balance_change_amount,
{
    let b = balance_change_amount as nat;
    let p = percentage as nat;
    assert((b * p) / 100 <= b) by (nonlinear_arith)
        requires
            p <= 100,
    ;
}

/// The amount to swap never exceeds the cap, whatever the percentage.
pub proof fn lemma_swap_amount_capped(
    balance_change_amount: u64,
    percentage: u8,
    max_swap_amount: u64,
)
    ensures
        swap_amount_spec(balance_change_amount, percentage, max_swap_amount) <= max_swap_amount,
{
}

/// The length of the fixed part of serialized zap-out parameters: percentage,
/// offset, two balances and the length prefix of the payload.
pub open spec fn zap_out_header_len() -> nat {
    23
}

/// The bytes of a payload's length prefix, when `data` holds serialized
/// zap-out parameters.
pub open spec fn declared_payload_len(data: Seq<u8>) -> nat {
    spec_u32_from_le_bytes(data.subrange(19, 23)) as nat
}

/// Serialized zap-out parameters are well formed when the fixed part is
/// complete and the payload fills exactly the rest.
pub open spec fn zap_out_bytes_well_formed(data: Seq<u8>) -> bool {
    data.len() >= zap_out_header_len() && data.len() == zap_out_header_len()
        + declared_payload_len(data)
}

/// What a zap-out asks for.
#[derive(Debug, Clone, PartialEq, Eq)]
pub struct ZapOutParameters {
    /// The share of the balance change to swap, in percent.
    pub percentage: u8,
    /// Where in `payload_data` the amount-in field sits.
    pub offset_amount_in: u16,
    /// The balance of the token account before the preceding instruction.
    pub pre_user_token_balance: u64,
    /// A cap on the swap, against tokens sent to the account by someone else.
    pub max_swap_amount: u64,
    /// The prepared instruction for the pool program.
    pub payload_data: Vec<u8>,
}

impl ZapOutParameters {
    /// The plain values of the parameters, the payload as a sequence of bytes.
    pub open spec fn fields(self) -> (u8, u16, u64, u64, Seq<u8>) {
        (
            self.percentage,
            self.offset_amount_in,
            self.pre_user_token_balance,
            self.max_swap_amount,
            self.payload_data@,
        )
    }

    /// Reads parameters from their serialized form: one byte of percentage,
    /// the offset in two bytes, the two balances in eight bytes each, and the
    /// payload behind a four-byte length, all little-endian, with no byte left
    /// over.
    pub fn try_from_slice(data: &[u8]) -> (r: Result<ZapOutParameters, ProtocolZapError>)
        ensures
            r.is_ok() <==> zap_out_bytes_well_formed(data@),
            r.is_ok() ==> r.unwrap().fields() == (
                data@[0],
                spec_u16_from_le_bytes(data@.subrange(1, 3)),
                spec_u64_from_le_bytes(data@.subrange(3, 11)),
                spec_u64_from_le_bytes(data@.subrange(11, 19)),
                data@.subrange(23, data@.len() as int),
            ),
            r.is_err() ==> r.unwrap_err() == ProtocolZapError::InvalidZapOutParameters,
    {
        if data.len() < 23 {
            return Err(ProtocolZapError::InvalidZapOutParameters);
        }
        let percentage = data[0];
        let offset_amount_in = u16_from_le_bytes(slice_subrange(data, 1, 3));
        let pre_user_token_balance = u64_from_le_bytes(slice_subrange(data, 3, 11));
        let max_swap_amount = u64_from_le_bytes(slice_subrange(data, 11, 19));
        let payload_len = u32_from_le_bytes(slice_subrange(data, 19, 23));
        if (data.len() - 23) as u64 != payload_len as u64 {
            return Err(ProtocolZapError::InvalidZapOutParameters);
        }
        let mut payload_data: Vec<u8> = Vec::new();
        let mut i: usize = 23;
        while i < data.len()
            invariant
                23 <= i <= data.len(),
                payload_data@ == data@.subrange(23, i as int),
            decreases data.len() - i,
        {
            payload_data.push(data[i]);
            i += 1;
            assert(payload_data@ =~= data@.subrange(23, i as int));
        }
        Ok(
            ZapOutParameters {
                percentage,
                offset_amount_in,
                pre_user_token_balance,
                max_swap_amount,
                payload_data,
            },
        )
    }

    /// Accepts a percentage from one to one hundred.
    pub fn validate(&self) -> (r: Result<(), ProtocolZapError>)
        ensures
            r.is_ok() <==> percentage_is_valid(self.percentage),
            r.is_err() ==> r.unwrap_err() == ProtocolZapError::InvalidZapOutParameters,
    {
        if self.percentage <= 100 && self.percentage > 0 {
            Ok(())
        } else {
            Err(ProtocolZapError::InvalidZapOutParameters)
        }
    }

    /// The amount to swap out of a balance change: the share that the
    /// percentage selects, capped at `max_swap_amount`. It fails with
    /// `TypeCastFailed` where the share does not fit 64 bits, which a valid
    /// percentage rules out.
    pub fn get_swap_amount(&self, balance_change_amount: u64) -> (r: Result<
        u64,
        ProtocolZapError,
    >)
        ensures
            r.is_ok() <==> share_of(balance_change_amount, self.percentage) <= u64::MAX,
            r.is_ok() ==> r.unwrap() == swap_amount_spec(
                balance_change_amount,
                self.percentage,
                self.max_swap_amount,
            ),
            r.is_ok() ==> r.unwrap() <= self.max_swap_amount,
            percentage_is_valid(self.percentage) ==> r.is_ok(),
            r.is_err() ==> r.unwrap_err() == ProtocolZapError::TypeCastFailed,
    {
        proof {
            if percentage_is_valid(self.percentage) {
                lemma_share_bounds(balance_change_amount, self.percentage);
            }
        }
        compute_swap_amount(balance_change_amount, self.percentage, self.max_swap_amount)
    }
}

/// The parameters of the second zap-out entry point; the same fields, with
/// the program's own errors.
#[derive(Debug, Clone, PartialEq, Eq)]
pub struct ZapOut2Parameters {
    /// The share of the balance change to swap, in percent.
    pub percentage: u8,
    /// Where in `payload_data` the amount-in field sits.
    pub offset_amount_in: u16,
    /// The balance of the token account before the preceding instruction.
    pub pre_user_token_balance: u64,
    /// A cap on the swap, against tokens sent to the account by someone else.
    pub max_swap_amount: u64,
    /// The prepared instruction for the pool program.
    pub payload_data: Vec<u8>,
}

impl ZapOut2Parameters {
    /// Takes over the fields of decoded parameters.
    pub fn from_parameters(params: ZapOutParameters) -> (r: ZapOut2Parameters)
        ensures
            r.percentage == params.percentage,
            r.offset_amount_in == params.offset_amount_in,
            r.pre_user_token_balance == params.pre_user_token_balance,
            r.max_swap_amount == params.max_swap_amount,
            r.payload_data@ == params.payload_data@,
    {
        ZapOut2Parameters {
            percentage: params.percentage,
            offset_amount_in: params.offset_amount_in,
            pre_user_token_balance: params.pre_user_token_balance,
            max_swap_amount: params.max_swap_amount,
            payload_data: params.payload_data,
        }
    }

    /// Accepts a percentage from one to one hundred.
    pub fn validate(&self) -> (r: Result<(), ZapError>)
        ensures
            r.is_ok() <==> percentage_is_valid(self.percentage),
            r.is_err() ==> r.unwrap_err() == ZapError::InvalidZapOutParameters,
    {
        if self.percentage > 100 || self.percentage == 0 {
            Err(ZapError::InvalidZapOutParameters)
        } else {
            Ok(())
        }
    }

    /// The amount to swap out of a balance change: the share that the
    /// percentage selects, capped at `max_swap_amount`.
    pub fn get_swap_amount(&self, balance_change_amount: u64) -> (r: Result<u64, ZapError>)
        ensures
            r.is_ok() <==> share_of(balance_change_amount, self.percentage) <= u64::MAX,
            r.is_ok() ==> r.unwrap() == swap_amount_spec(
                balance_change_amount,
                self.percentage,
                self.max_swap_amount,
            ),
            r.is_ok() ==> r.unwrap() <= self.max_swap_amount,
            percentage_is_valid(self.percentage) ==> r.is_ok(),
            r.is_err() ==> r.unwrap_err() == ZapError::TypeCastFailed,
    {
        proof {
            if percentage_is_valid(self.percentage) {
                lemma_share_bounds(balance_change_amount, self.percentage);
            }
        }
        match compute_swap_amount(balance_change_amount, self.percentage, self.max_swap_amount) {
            Ok(amount) => Ok(amount),
            Err(_) => Err(ZapError::TypeCastFailed),
        }
    }
}

/// The whitelist: a pool program together with the discriminator of the one
/// instruction of it that a zap-out may invoke.
pub open spec fn whitelisted(amm_program: Seq<u8>, discriminator: Seq<u8>) -> bool {
    ||| (amm_program == DAMM_V2@ && discriminator == DAMM_V2_SWAP_DISC@)
    ||| (amm_program == DLMM@ && discriminator == DLMM_SWAP2_DISC@)
    ||| (amm_program == JUP_V6@ && discriminator == JUP_V6_ROUTE_DISC@)
    ||| (amm_program == JUP_V6@ && discriminator == JUP_V6_SHARED_ACCOUNT_ROUTE_DISC@)
}

/// Tells whether the whitelist holds the program with this discriminator.
pub fn is_support_amm_program(amm_program: &Pubkey, discriminator: &[u8]) -> (r: bool)
    ensures
        r == whitelisted(amm_program@, discriminator@),
{
    (same_key(&DAMM_V2, amm_program) && same_bytes(DAMM_V2_SWAP_DISC.as_slice(), discriminator))
        || (same_key(&DLMM, amm_program) && same_bytes(DLMM_SWAP2_DISC.as_slice(), discriminator))
        || (same_key(&JUP_V6, amm_program) && same_bytes(
        JUP_V6_ROUTE_DISC.as_slice(),
        discriminator,
    )) || (same_key(&JUP_V6, amm_program) && same_bytes(
        JUP_V6_SHARED_ACCOUNT_ROUTE_DISC.as_slice(),
        discriminator,
    ))
}

/// A payload with the amount written at `offset`: the bytes before and after
/// the eight-byte field are those of `payload`.
pub open spec fn with_amount_at(payload: Seq<u8>, amount_in: u64, offset: int) -> Seq<u8> {
    payload.subrange(0, offset) + spec_u64_to_le_bytes(amount_in) + payload.subrange(
        offset + 8,
        payload.len() as int,
    )
}

/// Writing an amount into a payload keeps the length of the payload and
/// every byte outside the field, and the field then holds the amount.
pub proof fn lemma_with_amount_at(payload: Seq<u8>, amount_in: u64, offset: int)
    requires
        0 <= offset,
        offset + 8 <= payload.len(),
    ensures
        with_amount_at(payload, amount_in, offset).len() == payload.len(),
        forall|i: int|
            0 <= i < offset || offset + 8 <= i < payload.len() ==> with_amount_at(
                payload,
                amount_in,
                offset,
            )[i] == payload[i],
        with_amount_at(payload, amount_in, offset).subrange(offset, offset + 8)
            == spec_u64_to_le_bytes(amount_in),
        spec_u64_from_le_bytes(
            with_amount_at(payload, amount_in, offset).subrange(offset, offset + 8),
        ) == amount_in,
{
    vstd::bytes::lemma_auto_spec_u64_to_from_le_bytes();
    let written = with_amount_at(payload, amount_in, offset);
    assert(written.subrange(offset, offset + 8) =~= spec_u64_to_le_bytes(amount_in));
}

/// Writes `amount_in`, little-endian, over the eight bytes of `payload_data`
/// that start at `offset_amount_in`. The payload keeps its length and all its
/// other bytes. Where the field would reach past the end, nothing is written
/// and the call fails with `InvalidOffset`; where the end of the field cannot
/// be computed, with `MathOverflow`.
pub fn modify_instruction_data(
    payload_data: &mut Vec<u8>,
    amount_in: u64,
    offset_amount_in: usize,
) -> (r: Result<(), ZapError>)
    ensures
        final(payload_data)@.len() == old(payload_data)@.len(),
        r.is_ok() <==> offset_amount_in + 8 <= old(payload_data)@.len(),
        r.is_ok() ==> final(payload_data)@ == with_amount_at(
            old(payload_data)@,
            amount_in,
            offset_amount_in as int,
        ),
        r.is_err() ==> final(payload_data)@ == old(payload_data)@,
        r.is_err() ==> r.unwrap_err() == (if offset_amount_in + 8 > usize::MAX {
            ZapError::MathOverflow
        } else {
            ZapError::InvalidOffset
        }),
{
    let amount_in_bytes = u64_to_le_bytes(amount_in);
    let payload_len = payload_data.len();
    let end_offset_index = match offset_amount_in.safe_add(amount_in_bytes.len()) {
        Ok(v) => v,
        Err(_) => {
            return Err(ZapError::MathOverflow);
        },
    };
    if end_offset_index > payload_len {
        return Err(ZapError::InvalidOffset);
    }
    let ghost before = payload_data@;
    let mut i: usize = 0;
    while i < 8
        invariant
            i <= 8,
            amount_in_bytes@.len() == 8,
            offset_amount_in + 8 <= payload_data@.len() <= usize::MAX,
            payload_data@.len() == before.len(),
            forall|j: int| 0 <= j < offset_amount_in ==> payload_data@[j] == before[j],
            forall|j: int| 0 <= j < i ==> payload_data@[offset_amount_in + j] == amount_in_bytes@[j],
            forall|j: int|
                offset_amount_in + i <= j < before.len() ==> payload_data@[j] == before[j],
        decreases 8 - i,
    {
        payload_data.set(offset_amount_in + i, amount_in_bytes[i]);
        i += 1;
    }
    assert(payload_data@ =~= with_amount_at(before, amount_in, offset_amount_in as int));
    Ok(())
}

/// What the zap-out instruction does once the accounts are read.
#[derive(Debug, Clone, PartialEq, Eq)]
pub enum ZapOutAction {
    /// Nothing is to be swapped; the instruction succeeds without a call.
    Skip,
    /// The pool program is to be invoked with this payload.
    Invoke {
        /// The amount that was written into the payload.
        swap_amount: u64,
        /// The payload with the amount in place.
        payload_data: Vec<u8>,
    },
}

/// The outcome of the zap-out decision on plain values; `Ok(None)` stands for
/// a skip, `Ok(Some((amount, payload)))` for an invocation.
pub open spec fn zap_out_outcome(
    percentage: u8,
    offset_amount_in: u16,
    pre_user_token_balance: u64,
    max_swap_amount: u64,
    payload: Seq<u8>,
    amm_program: Seq<u8>,
    post_user_token_balance: u64,
) -> Result<Option<(u64, Seq<u8>)>, ZapError> {
    if payload.len() < 8 || !whitelisted(amm_program, payload.subrange(0, 8)) {
        Err(ZapError::AmmIsNotSupported)
    } else if !percentage_is_valid(percentage) {
        Err(ZapError::InvalidZapOutParameters)
    } else if pre_user_token_balance >= post_user_token_balance {
        Ok(None)
    } else {
        let swap_amount = swap_amount_spec(
            (post_user_token_balance - pre_user_token_balance) as u64,
            percentage,
            max_swap_amount,
        );
        if swap_amount == 0 {
            Ok(None)
        } else if offset_amount_in + 8 > payload.len() {
            Err(ZapError::InvalidOffset)
        } else {
            Ok(Some((swap_amount as u64, with_amount_at(payload, swap_amount as u64, offset_amount_in as int))))
        }
    }
}

/// The plain values of an action.
pub open spec fn action_outcome(action: ZapOutAction) -> Option<(u64, Seq<u8>)> {
    match action {
        ZapOutAction::Skip => None,
        ZapOutAction::Invoke { swap_amount, payload_data } => Some((swap_amount, payload_data@)),
    }
}

/// Decides what a zap-out does, given the balance that the token account
/// holds now. The pool program and the leading eight bytes of the payload
/// are looked up in the whitelist, then the percentage is validated, and a
/// balance that did not grow makes the instruction a no-op, as does an
/// amount of zero. Otherwise the amount is written into a copy of the
/// payload.
pub fn prepare_zap_out(
    params: &ZapOut2Parameters,
    amm_program: &Pubkey,
    post_user_token_balance: u64,
) -> (r: Result<ZapOutAction, ZapError>)
    ensures
        match r {
            Ok(action) => zap_out_outcome(
                params.percentage,
                params.offset_amount_in,
                params.pre_user_token_balance,
                params.max_swap_amount,
                params.payload_data@,
                amm_program@,
                post_user_token_balance,
            ) == Ok::<Option<(u64, Seq<u8>)>, ZapError>(action_outcome(action)),
            Err(e) => zap_out_outcome(
                params.percentage,
                params.offset_amount_in,
                params.pre_user_token_balance,
                params.max_swap_amount,
                params.payload_data@,
                amm_program@,
                post_user_token_balance,
            ) == Err::<Option<(u64, Seq<u8>)>, ZapError>(e),
        },
        r matches Ok(ZapOutAction::Invoke { swap_amount, payload_data }) ==> payload_data@.len()
            == params.payload_data@.len() && 0 < swap_amount <= params.max_swap_amount,
{
    if params.payload_data.len() < 8 {
        return Err(ZapError::AmmIsNotSupported);
    }
    let discriminator = slice_subrange(params.payload_data.as_slice(), 0, 8);
    if !is_support_amm_program(amm_program, discriminator) {
        return Err(ZapError::AmmIsNotSupported);
    }
    match params.validate() {
        Ok(()) => {},
        Err(e) => {
            return Err(e);
        },
    }
    if params.pre_user_token_balance >= post_user_token_balance {
        return Ok(ZapOutAction::Skip);
    }
    let balance_change_amount = post_user_token_balance - params.pre_user_token_balance;
    let swap_amount = match params.get_swap_amount(balance_change_amount) {
        Ok(v) => v,
        Err(e) => {
            return Err(e);
        },
    };
    if swap_amount == 0 {
        return Ok(ZapOutAction::Skip);
    }
    let mut payload_data = params.payload_data.clone();
    match modify_instruction_data(&mut payload_data, swap_amount, params.offset_amount_in as usize) {
        Ok(()) => {},
        Err(e) => {
            return Err(e);
        },
    }
    Ok(ZapOutAction::Invoke { swap_amount, payload_data })
}

} // verus!
