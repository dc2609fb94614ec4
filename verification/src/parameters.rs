//! The payloads that a zap-out carries for the swap of a DAMM v2 pool and
//! for the swap of a DLMM pool, as bytes.
//!
//! A DAMM v2 payload is the least amount to receive, eight bytes
//! little-endian. A DLMM payload is the same amount, followed, unless the
//! list is empty, by a list of slices: a count in four bytes and two bytes
//! for each slice, its kind and its length.

use vstd::prelude::*;
use vstd::bytes::{
    lemma_auto_spec_u32_to_from_le_bytes, lemma_auto_spec_u64_to_from_le_bytes,
    spec_u32_from_le_bytes, spec_u32_to_le_bytes, spec_u64_from_le_bytes, spec_u64_to_le_bytes,
    u32_from_le_bytes, u32_to_le_bytes, u64_from_le_bytes, u64_to_le_bytes,
};
use vstd::slice::slice_subrange;
use crate::error::ZapError;

verus! {

/// The length of a DAMM v2 swap payload.
pub const DAMM_V2_SWAP_DATA_PAYLOAD_LEN: usize = 8;

/// Where the list of slices begins in a DLMM swap payload.
pub const DLMM_PAYLOAD_DATA_OFFSET: usize = 8;

/// The length of the count that precedes the slices.
pub const VEC_LENGTH_PREFIX_SIZE: usize = 4;

/// The length of one slice: a byte for the kind, a byte for the length.
pub const SLICE_SIZE: usize = 2;

/// The greatest number of slices.
pub const MAX_SLICE_ACCOUNTS: usize = 2;

/// A payload that can be read from the bytes of a zap-out.
pub trait ZapOutParametersDecoder: Sized {
    /// Whether the bytes are a payload of this kind.
    spec fn decodable(payload_data: Seq<u8>) -> bool;

    /// Whether `value` is what the bytes of a payload of this kind hold.
    spec fn decoded(payload_data: Seq<u8>, value: Self) -> bool;

    /// The error with which bytes that are no payload of this kind are
    /// refused.
    spec fn refusal(payload_data: Seq<u8>) -> ZapError;

    /// Reads the payload: the value is what the bytes hold. It fails, with
    /// the error that `refusal` names, exactly where the bytes are no
    /// payload of this kind.
    fn decode(payload_data: Vec<u8>) -> (r: Result<Self, ZapError>)
        ensures
            r.is_ok() <==> Self::decodable(payload_data@),
            r matches Ok(value) ==> Self::decoded(payload_data@, value),
            r matches Err(e) ==> e == Self::refusal(payload_data@),
    ;
}

/// The payload of a DAMM v2 swap.
#[derive(Debug, Clone, Copy, PartialEq, Eq, Structural)]
pub struct SwapDammV2Params {
    /// The least amount to receive.
    pub minimum_amount_out: u64,
}

impl SwapDammV2Params {
    /// Reads the payload; it must be exactly eight bytes long.
    pub fn unpack(payload_data: &[u8]) -> (r: Result<SwapDammV2Params, ZapError>)
        ensures
            r.is_ok() <==> payload_data@.len() == 8,
            r.is_ok() ==> r.unwrap().minimum_amount_out == spec_u64_from_le_bytes(payload_data@),
            r.is_err() ==> r.unwrap_err() == ZapError::InvalidDataLength,
    {
        if payload_data.len() != DAMM_V2_SWAP_DATA_PAYLOAD_LEN {
            return Err(ZapError::InvalidDataLength);
        }
        let minimum_amount_out = u64_from_le_bytes(payload_data);
        Ok(SwapDammV2Params { minimum_amount_out })
    }

    /// Writes the payload.
    pub fn pack(&self) -> (buf: Vec<u8>)
        ensures
            buf@ == spec_u64_to_le_bytes(self.minimum_amount_out),
            buf@.len() == 8,
            spec_u64_from_le_bytes(buf@) == self.minimum_amount_out,
    {
        proof {
            lemma_auto_spec_u64_to_from_le_bytes();
        }
        u64_to_le_bytes(self.minimum_amount_out)
    }
}

impl ZapOutParametersDecoder for SwapDammV2Params {
    open spec fn decodable(payload_data: Seq<u8>) -> bool {
        payload_data.len() == 8
    }

    open spec fn decoded(payload_data: Seq<u8>, value: Self) -> bool {
        value.minimum_amount_out == spec_u64_from_le_bytes(payload_data)
    }

    open spec fn refusal(payload_data: Seq<u8>) -> ZapError {
        ZapError::InvalidDataLength
    }

    fn decode(payload_data: Vec<u8>) -> (r: Result<Self, ZapError>) {
        SwapDammV2Params::unpack(payload_data.as_slice())
    }
}

/// The kind of the accounts in a slice.
#[derive(Debug, Clone, Copy, PartialEq, Eq, Structural)]
pub enum AccountsType {
    TransferHookX,
    TransferHookY,
    TransferHookReward,
}

/// A run of accounts of one kind.
#[derive(Debug, Clone, Copy, PartialEq, Eq, Structural)]
pub struct RemainingAccountsSlice {
    /// The kind.
    pub accounts_type: AccountsType,
    /// How many accounts the run holds.
    pub length: u8,
}

/// The runs of accounts that follow the named accounts of an instruction.
#[derive(Debug, Clone, PartialEq, Eq)]
pub struct RemainingAccountsInfo {
    /// The runs, in order.
    pub slices: Vec<RemainingAccountsSlice>,
}

/// The kind that a byte encodes, if it encodes one.
pub open spec fn decoded_account_type(value: u8) -> Option<AccountsType> {
    if value == 0 {
        Some(AccountsType::TransferHookX)
    } else if value == 1 {
        Some(AccountsType::TransferHookY)
    } else if value == 2 {
        Some(AccountsType::TransferHookReward)
    } else {
        None
    }
}

/// The byte that encodes a kind.
pub open spec fn encoded_account_type(account_type: AccountsType) -> u8 {
    match account_type {
        AccountsType::TransferHookX => 0,
        AccountsType::TransferHookY => 1,
        AccountsType::TransferHookReward => 2,
    }
}

/// Reads a kind from its byte; fails with `TypeCastFailed` on a byte that
/// encodes none.
pub fn decode_account_type(value: u8) -> (r: Result<AccountsType, ZapError>)
    ensures
        r == match decoded_account_type(value) {
            Some(t) => Ok::<AccountsType, ZapError>(t),
            None => Err::<AccountsType, ZapError>(ZapError::TypeCastFailed),
        },
{
    match value {
        0 => Ok(AccountsType::TransferHookX),
        1 => Ok(AccountsType::TransferHookY),
        2 => Ok(AccountsType::TransferHookReward),
        _ => Err(ZapError::TypeCastFailed),
    }
}

/// Writes a kind as its byte.
pub fn encode_account_type(account_type: &AccountsType) -> (r: u8)
    ensures
        r == encoded_account_type(*account_type),
        decoded_account_type(r) == Some(*account_type),
{
    match account_type {
        AccountsType::TransferHookX => 0,
        AccountsType::TransferHookY => 1,
        AccountsType::TransferHookReward => 2,
    }
}

/// The bytes of a list of slices, two for each.
pub open spec fn slices_bytes(slices: Seq<RemainingAccountsSlice>) -> Seq<u8>
    decreases slices.len(),
{
    if slices.len() == 0 {
        Seq::empty()
    } else {
        slices_bytes(slices.drop_last()).push(
            encoded_account_type(slices.last().accounts_type),
        ).push(slices.last().length)
    }
}

/// The bytes of a DLMM swap payload.
pub open spec fn packed_spec(minimum_amount_out: u64, slices: Seq<RemainingAccountsSlice>) -> Seq<
    u8,
> {
    if slices.len() == 0 {
        spec_u64_to_le_bytes(minimum_amount_out)
    } else {
        spec_u64_to_le_bytes(minimum_amount_out) + spec_u32_to_le_bytes(slices.len() as u32)
            + slices_bytes(slices)
    }
}

/// The number of slices that a payload with a list announces.
pub open spec fn announced_slices(data: Seq<u8>) -> nat {
    spec_u32_from_le_bytes(data.subrange(8, 12)) as nat
}

/// Whether the bytes are laid out as a DLMM swap payload: the amount alone,
/// or the amount and a list of one or two slices that fills the rest.
pub open spec fn layout_ok(data: Seq<u8>) -> bool {
    data.len() == 8 || (data.len() > 12 && announced_slices(data) <= 2 && data.len() == 12 + 2
        * announced_slices(data))
}

/// Slice `i` of a payload with a list, if its kind is known.
pub open spec fn slice_at(data: Seq<u8>, i: int) -> Option<RemainingAccountsSlice> {
    match decoded_account_type(data[12 + 2 * i]) {
        Some(accounts_type) => Some(
            RemainingAccountsSlice { accounts_type, length: data[12 + 2 * i + 1] },
        ),
        None => None,
    }
}

/// Whether every slice of a well laid out payload has a known kind.
pub open spec fn kinds_ok(data: Seq<u8>) -> bool {
    forall|i: int| 0 <= i < (data.len() - 12) / 2 ==> (#[trigger] slice_at(data, i)).is_some()
}

/// The payload of a DLMM swap.
#[derive(Debug, Clone, PartialEq, Eq)]
pub struct SwapDlmmParams {
    /// The least amount to receive.
    pub minimum_amount_out: u64,
    /// The accounts that the swap takes besides the named ones.
    pub remaining_accounts_info: RemainingAccountsInfo,
}

/// Whether `params` is what the bytes of a DLMM swap payload hold: the
/// amount is that of the first eight bytes, and the slices are those of the
/// list, in order, none where the payload ends after the amount.
pub open spec fn unpacked(data: Seq<u8>, params: SwapDlmmParams) -> bool {
    &&& params.minimum_amount_out == spec_u64_from_le_bytes(data.subrange(0, 8))
    &&& params.slices().len() == (data.len() - 8) / 2 - (if data.len() > 8 {
        2int
    } else {
        0int
    })
    &&& forall|i: int|
        0 <= i < params.slices().len() ==> Some(#[trigger] params.slices()[i]) == slice_at(data, i)
}

impl SwapDlmmParams {
    /// The slices as a sequence.
    pub open spec fn slices(self) -> Seq<RemainingAccountsSlice> {
        self.remaining_accounts_info.slices@
    }

    /// Reads the payload. It fails with `InvalidDataLength` where the bytes
    /// are not laid out as a payload, and with `TypeCastFailed` where a
    /// slice has a kind that is not known.
    pub fn unpack(payload_data: &[u8]) -> (r: Result<SwapDlmmParams, ZapError>)
        ensures
            r.is_ok() <==> layout_ok(payload_data@) && (payload_data@.len() > 8 ==> kinds_ok(
                payload_data@,
            )),
            r.is_ok() ==> unpacked(payload_data@, r.unwrap()),
            r.is_ok() ==> {
                let params = r.unwrap();
                &&& params.minimum_amount_out == spec_u64_from_le_bytes(
                    payload_data@.subrange(0, 8),
                )
                &&& params.slices().len() == (payload_data@.len() - 8) / 2 - (if payload_data@.len()
                    > 8 {
                    2int
                } else {
                    0int
                })
                &&& forall|i: int|
                    0 <= i < params.slices().len() ==> Some(#[trigger] params.slices()[i])
                        == slice_at(payload_data@, i)
            },
            r.is_err() ==> r.unwrap_err() == (if layout_ok(payload_data@) {
                ZapError::TypeCastFailed
            } else {
                ZapError::InvalidDataLength
            }),
    {
        if payload_data.len() < DLMM_PAYLOAD_DATA_OFFSET {
            return Err(ZapError::InvalidDataLength);
        }
        let minimum_amount_out = u64_from_le_bytes(
            slice_subrange(payload_data, 0, DLMM_PAYLOAD_DATA_OFFSET),
        );
        let rest_len = payload_data.len() - DLMM_PAYLOAD_DATA_OFFSET;
        if rest_len == 0 {
            return Ok(
                SwapDlmmParams {
                    minimum_amount_out,
                    remaining_accounts_info: RemainingAccountsInfo { slices: Vec::new() },
                },
            );
        }
        if rest_len <= VEC_LENGTH_PREFIX_SIZE {
            return Err(ZapError::InvalidDataLength);
        }
        let slice_count = u32_from_le_bytes(slice_subrange(payload_data, 8, 12));
        if slice_count > 2 {
            return Err(ZapError::InvalidDataLength);
        }
        let slice_count_usize: usize = slice_count as usize;
        if rest_len - VEC_LENGTH_PREFIX_SIZE != slice_count_usize * SLICE_SIZE {
            return Err(ZapError::InvalidDataLength);
        }
        let mut slices: Vec<RemainingAccountsSlice> = Vec::new();
        let mut index: usize = 0;
        while index < slice_count_usize
            invariant
                index <= slice_count_usize <= 2,
                payload_data@.len() == 12 + 2 * slice_count_usize,
                layout_ok(payload_data@),
                slices@.len() == index,
                forall|i: int|
                    0 <= i < index ==> Some(#[trigger] slices@[i]) == slice_at(payload_data@, i),
            decreases slice_count_usize - index,
        {
            let accounts_type = match decode_account_type(payload_data[12 + 2 * index]) {
                Ok(v) => v,
                Err(e) => {
                    assert(slice_at(payload_data@, index as int).is_none());
                    return Err(e);
                },
            };
            let length = payload_data[12 + 2 * index + 1];
            slices.push(RemainingAccountsSlice { accounts_type, length });
            index += 1;
        }
        assert(kinds_ok(payload_data@)) by {
            assert forall|i: int| 0 <= i < (payload_data@.len() - 12) / 2 implies (
            #[trigger] slice_at(payload_data@, i)).is_some() by {
                assert(Some(slices@[i]) == slice_at(payload_data@, i));
            }
        }
        Ok(SwapDlmmParams { minimum_amount_out, remaining_accounts_info: RemainingAccountsInfo { slices } })
    }

    /// Writes the payload. The list of slices is left out when it is empty.
    pub fn pack(&self) -> (buf: Vec<u8>)
        requires
            self.slices().len() <= u32::MAX,
        ensures
            buf@ == packed_spec(self.minimum_amount_out, self.slices()),
    {
        let mut buf = u64_to_le_bytes(self.minimum_amount_out);
        let count = self.remaining_accounts_info.slices.len();
        if count == 0 {
            return buf;
        }
        let mut prefix = u32_to_le_bytes(count as u32);
        buf.append(&mut prefix);
        let ghost head = buf@;
        let mut i: usize = 0;
        while i < count
            invariant
                i <= count,
                count == self.remaining_accounts_info.slices@.len(),
                buf@ == head + slices_bytes(self.remaining_accounts_info.slices@.take(i as int)),
            decreases count - i,
        {
            let slice = &self.remaining_accounts_info.slices[i];
            let encoded_account_type = encode_account_type(&slice.accounts_type);
            proof {
                let next = self.remaining_accounts_info.slices@.take(i + 1);
                assert(next.drop_last() =~= self.remaining_accounts_info.slices@.take(i as int));
                assert(next.last() == self.remaining_accounts_info.slices@[i as int]);
            }
            buf.push(encoded_account_type);
            buf.push(slice.length);
            i += 1;
            assert(buf@ =~= head + slices_bytes(self.remaining_accounts_info.slices@.take(i as int)));
        }
        assert(self.remaining_accounts_info.slices@.take(count as int)
            =~= self.remaining_accounts_info.slices@);
        buf
    }
}

impl ZapOutParametersDecoder for SwapDlmmParams {
    open spec fn decodable(payload_data: Seq<u8>) -> bool {
        layout_ok(payload_data) && (payload_data.len() > 8 ==> kinds_ok(payload_data))
    }

    open spec fn decoded(payload_data: Seq<u8>, value: Self) -> bool {
        unpacked(payload_data, value)
    }

    open spec fn refusal(payload_data: Seq<u8>) -> ZapError {
        if layout_ok(payload_data) {
            ZapError::TypeCastFailed
        } else {
            ZapError::InvalidDataLength
        }
    }

    fn decode(payload_data: Vec<u8>) -> (r: Result<Self, ZapError>) {
        SwapDlmmParams::unpack(payload_data.as_slice())
    }
}

/// The bytes of `n` slices take two bytes each, and slice `i` sits at `2 * i`.
pub proof fn lemma_slices_bytes(slices: Seq<RemainingAccountsSlice>)
    ensures
        slices_bytes(slices).len() == 2 * slices.len(),
        forall|i: int|
            0 <= i < slices.len() ==> slices_bytes(slices)[2 * i] == encoded_account_type(
                (#[trigger] slices[i]).accounts_type,
            ) && slices_bytes(slices)[2 * i + 1] == slices[i].length,
    decreases slices.len(),
{
    if slices.len() > 0 {
        lemma_slices_bytes(slices.drop_last());
        assert forall|i: int| 0 <= i < slices.len() implies slices_bytes(slices)[2 * i]
            == encoded_account_type((#[trigger] slices[i]).accounts_type) && slices_bytes(
            slices,
        )[2 * i + 1] == slices[i].length by {
            if i < slices.len() - 1 {
                assert(slices.drop_last()[i] == slices[i]);
            }
        }
    }
}

/// What is written can be read back: the bytes of a payload with at most two
/// slices are laid out as a payload, every kind in them is known, and they
/// hold the amount and the slices that were written.
pub proof fn lemma_unpack_of_pack(minimum_amount_out: u64, slices: Seq<RemainingAccountsSlice>)
    requires
        slices.len() <= 2,
    ensures
        ({
            let data = packed_spec(minimum_amount_out, slices);
            &&& layout_ok(data)
            &&& data.len() > 8 ==> kinds_ok(data)
            &&& spec_u64_from_le_bytes(data.subrange(0, 8)) == minimum_amount_out
            &&& data.len() == 8 <==> slices.len() == 0
            &&& slices.len() > 0 ==> data.len() == 12 + 2 * slices.len()
            &&& forall|i: int|
                0 <= i < slices.len() ==> slice_at(data, i) == Some(#[trigger] slices[i])
        }),
{
    lemma_auto_spec_u64_to_from_le_bytes();
    lemma_auto_spec_u32_to_from_le_bytes();
    lemma_slices_bytes(slices);
    let data = packed_spec(minimum_amount_out, slices);
    let amount = spec_u64_to_le_bytes(minimum_amount_out);
    if slices.len() == 0 {
        assert(data.subrange(0, 8) =~= amount);
    } else {
        let count = spec_u32_to_le_bytes(slices.len() as u32);
        let body = slices_bytes(slices);
        assert(data.subrange(0, 8) =~= amount);
        assert(data.subrange(8, 12) =~= count);
        assert forall|i: int| 0 <= i < slices.len() implies slice_at(data, i) == Some(
            #[trigger] slices[i],
        ) by {
            assert(data[12 + 2 * i] == body[2 * i]);
            assert(data[12 + 2 * i + 1] == body[2 * i + 1]);
        }
        assert(kinds_ok(data)) by {
            assert forall|i: int| 0 <= i < (data.len() - 12) / 2 implies (#[trigger] slice_at(
                data,
                i,
            )).is_some() by {
                assert(slice_at(data, i) == Some(slices[i]));
            }
        }
    }
}

} // verus!
