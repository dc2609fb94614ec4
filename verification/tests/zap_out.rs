use zap::constants::{
    DAMM_V2, DAMM_V2_SWAP_DISC, DLMM, DLMM_SWAP2_DISC, JUP_V6, JUP_V6_ROUTE_DISC,
    JUP_V6_SHARED_ACCOUNT_ROUTE_DISC, ZAP,
};
use zap::error::{ProtocolZapError, ZapError};
use zap::zap_out::{
    is_support_amm_program, modify_instruction_data, prepare_zap_out, ZapOut2Parameters,
    ZapOutAction, ZapOutParameters,
};

fn params(percentage: u8, pre: u64, max: u64, payload: Vec<u8>) -> ZapOut2Parameters {
    ZapOut2Parameters {
        percentage,
        offset_amount_in: 8,
        pre_user_token_balance: pre,
        max_swap_amount: max,
        payload_data: payload,
    }
}

fn damm_payload(amount: u64) -> Vec<u8> {
    let mut payload = vec![];
    payload.extend_from_slice(&DAMM_V2_SWAP_DISC);
    payload.extend_from_slice(&amount.to_le_bytes());
    payload
}

#[test]
fn test_modify_instruction_data() {
    let disc = [229, 23, 203, 151, 122, 227, 173, 42];
    let amount = 10000000u64;

    let mut payload = vec![];
    payload.extend_from_slice(&disc);
    payload.extend_from_slice(&amount.to_le_bytes());
    let new_amount = 999999999999u64; // This will be [255, 15, 165, 212, 232, 0, 0, 0] in le bytes
    let offset = 8;
    println!("payload {:?}", payload);
    let result = modify_instruction_data(&mut payload, new_amount, offset);

    assert!(result.is_ok());
    assert_eq!(payload.len(), 16); // Length should remain the same

    // Check that bytes 8-15 are replaced with amount bytes
    let mut expected: Vec<u8> = vec![];

    expected.extend_from_slice(&disc);
    expected.extend_from_slice(&new_amount.to_le_bytes());

    println!("payload {:?}", payload);

    println!("expected {:?}", expected);
    assert_eq!(payload, expected);
}

#[test]
fn modify_instruction_data_keeps_length_and_other_bytes() {
    let before: Vec<u8> = (0u8..40).collect();
    for offset in 0..=32usize {
        let mut payload = before.clone();
        assert_eq!(modify_instruction_data(&mut payload, 0x0102030405060708, offset), Ok(()));
        assert_eq!(payload.len(), before.len());
        assert_eq!(&payload[..offset], &before[..offset]);
        assert_eq!(&payload[offset..offset + 8], &[8, 7, 6, 5, 4, 3, 2, 1]);
        assert_eq!(&payload[offset + 8..], &before[offset + 8..]);
    }
}

#[test]
fn modify_instruction_data_rejects_bad_offsets() {
    let before: Vec<u8> = (0u8..16).collect();
    let mut payload = before.clone();
    assert_eq!(modify_instruction_data(&mut payload, 7, 9), Err(ZapError::InvalidOffset));
    assert_eq!(payload, before);
    assert_eq!(modify_instruction_data(&mut payload, 7, 16), Err(ZapError::InvalidOffset));
    assert_eq!(
        modify_instruction_data(&mut payload, 7, usize::MAX - 3),
        Err(ZapError::MathOverflow)
    );
    assert_eq!(payload, before);
    let mut empty: Vec<u8> = vec![];
    assert_eq!(modify_instruction_data(&mut empty, 7, 0), Err(ZapError::InvalidOffset));
}

#[test]
fn percentage_boundaries() {
    for p in 0..=255u8 {
        let program = params(p, 0, u64::MAX, damm_payload(0));
        let protocol = ZapOutParameters {
            percentage: p,
            offset_amount_in: 8,
            pre_user_token_balance: 0,
            max_swap_amount: u64::MAX,
            payload_data: vec![],
        };
        if p == 0 || p > 100 {
            assert_eq!(program.validate(), Err(ZapError::InvalidZapOutParameters));
            assert_eq!(protocol.validate(), Err(ProtocolZapError::InvalidZapOutParameters));
        } else {
            assert_eq!(program.validate(), Ok(()));
            assert_eq!(protocol.validate(), Ok(()));
        }
    }
}

#[test]
fn swap_amount_formula() {
    let p = |percentage: u8, max: u64| ZapOutParameters {
        percentage,
        offset_amount_in: 0,
        pre_user_token_balance: 0,
        max_swap_amount: max,
        payload_data: vec![],
    };
    assert_eq!(p(100, u64::MAX).get_swap_amount(u64::MAX), Ok(u64::MAX));
    assert_eq!(p(100, 10).get_swap_amount(12345), Ok(10));
    assert_eq!(p(50, u64::MAX).get_swap_amount(1000), Ok(500));
    assert_eq!(p(33, u64::MAX).get_swap_amount(100), Ok(33));
    assert_eq!(p(1, u64::MAX).get_swap_amount(99), Ok(0));
    assert_eq!(p(99, u64::MAX).get_swap_amount(u64::MAX), Ok(18262276632972456098));
    assert_eq!(p(99, 7).get_swap_amount(u64::MAX), Ok(7));
    // a percentage above one hundred is not validated here and may not fit
    assert_eq!(p(200, u64::MAX).get_swap_amount(10), Ok(20));
    assert_eq!(p(200, u64::MAX).get_swap_amount(u64::MAX), Err(ProtocolZapError::TypeCastFailed));
    let q = params(200, 0, u64::MAX, vec![]);
    assert_eq!(q.get_swap_amount(u64::MAX), Err(ZapError::TypeCastFailed));
    assert_eq!(params(25, 0, 100, vec![]).get_swap_amount(1000), Ok(100));
}

#[test]
fn whitelist_matches_program_and_discriminator_exactly() {
    assert!(is_support_amm_program(&DAMM_V2, &DAMM_V2_SWAP_DISC));
    assert!(is_support_amm_program(&DLMM, &DLMM_SWAP2_DISC));
    assert!(is_support_amm_program(&JUP_V6, &JUP_V6_ROUTE_DISC));
    assert!(is_support_amm_program(&JUP_V6, &JUP_V6_SHARED_ACCOUNT_ROUTE_DISC));
    assert!(!is_support_amm_program(&DAMM_V2, &DLMM_SWAP2_DISC));
    assert!(!is_support_amm_program(&DLMM, &JUP_V6_ROUTE_DISC));
    assert!(!is_support_amm_program(&ZAP, &DAMM_V2_SWAP_DISC));
    assert!(!is_support_amm_program(&DAMM_V2, &DAMM_V2_SWAP_DISC[..7]));
    assert!(!is_support_amm_program(&DAMM_V2, &[]));
    let mut longer = DAMM_V2_SWAP_DISC.to_vec();
    longer.push(0);
    assert!(!is_support_amm_program(&DAMM_V2, &longer));
}

#[test]
fn zap_out_with_unchanged_balance_is_a_no_op() {
    let p = params(100, 1000, u64::MAX, damm_payload(0));
    assert_eq!(prepare_zap_out(&p, &DAMM_V2, 1000), Ok(ZapOutAction::Skip));
    // a balance below the stated one is a no-op as well
    assert_eq!(prepare_zap_out(&p, &DAMM_V2, 999), Ok(ZapOutAction::Skip));
}

#[test]
fn half_of_the_balance_change_is_written_into_the_payload() {
    let p = params(50, 1000, u64::MAX, damm_payload(0));
    let action = prepare_zap_out(&p, &DAMM_V2, 2000).unwrap();
    match action {
        ZapOutAction::Invoke { swap_amount, payload_data } => {
            assert_eq!(swap_amount, 500);
            assert_eq!(payload_data.len(), 16);
            assert_eq!(&payload_data[8..16], &500u64.to_le_bytes());
            assert_eq!(&payload_data[..8], &DAMM_V2_SWAP_DISC);
        }
        ZapOutAction::Skip => panic!("a swap was expected"),
    }
}

#[test]
fn zap_out_decisions() {
    // full balance change at one hundred percent
    let p = params(100, 10, u64::MAX, damm_payload(0));
    assert_eq!(
        prepare_zap_out(&p, &DAMM_V2, 110),
        Ok(ZapOutAction::Invoke { swap_amount: 100, payload_data: damm_payload(100) })
    );
    // capped
    let p = params(100, 10, 30, damm_payload(0));
    assert_eq!(
        prepare_zap_out(&p, &DAMM_V2, 110),
        Ok(ZapOutAction::Invoke { swap_amount: 30, payload_data: damm_payload(30) })
    );
    // an amount of zero is a no-op
    let p = params(1, 0, u64::MAX, damm_payload(0));
    assert_eq!(prepare_zap_out(&p, &DAMM_V2, 99), Ok(ZapOutAction::Skip));
    let p = params(100, 0, 0, damm_payload(0));
    assert_eq!(prepare_zap_out(&p, &DAMM_V2, 99), Ok(ZapOutAction::Skip));
    // the whitelist is consulted before the percentage
    let p = params(0, 0, u64::MAX, vec![]);
    assert_eq!(prepare_zap_out(&p, &DAMM_V2, 99), Err(ZapError::AmmIsNotSupported));
    let p = params(0, 0, u64::MAX, damm_payload(0));
    assert_eq!(prepare_zap_out(&p, &DAMM_V2, 99), Err(ZapError::InvalidZapOutParameters));
    let p = params(101, 0, u64::MAX, damm_payload(0));
    assert_eq!(prepare_zap_out(&p, &DAMM_V2, 99), Err(ZapError::InvalidZapOutParameters));
    // unsupported program or discriminator
    let p = params(100, 0, u64::MAX, damm_payload(0));
    assert_eq!(prepare_zap_out(&p, &DLMM, 99), Err(ZapError::AmmIsNotSupported));
    let p = params(100, 0, u64::MAX, vec![1, 2, 3]);
    assert_eq!(prepare_zap_out(&p, &DAMM_V2, 99), Err(ZapError::AmmIsNotSupported));
    // the offset must leave room for the amount
    let mut p = params(100, 0, u64::MAX, damm_payload(0));
    p.offset_amount_in = 9;
    assert_eq!(prepare_zap_out(&p, &DAMM_V2, 99), Err(ZapError::InvalidOffset));
    p.offset_amount_in = 0;
    let action = prepare_zap_out(&p, &DAMM_V2, 99).unwrap();
    let mut expected = 99u64.to_le_bytes().to_vec();
    expected.extend_from_slice(&0u64.to_le_bytes());
    assert_eq!(action, ZapOutAction::Invoke { swap_amount: 99, payload_data: expected });
}

#[test]
fn parameters_are_read_from_their_serialized_form() {
    let payload = damm_payload(77);
    let value = (50u8, 8u16, 1000u64, 2000u64, payload.clone());
    let bytes = borsh::to_vec(&value).unwrap();
    let parsed = ZapOutParameters::try_from_slice(&bytes).unwrap();
    assert_eq!(
        parsed,
        ZapOutParameters {
            percentage: 50,
            offset_amount_in: 8,
            pre_user_token_balance: 1000,
            max_swap_amount: 2000,
            payload_data: payload,
        }
    );
    let empty = borsh::to_vec(&(1u8, 0x1234u16, u64::MAX, 0u64, Vec::<u8>::new())).unwrap();
    let parsed = ZapOutParameters::try_from_slice(&empty).unwrap();
    assert_eq!(parsed.offset_amount_in, 0x1234);
    assert_eq!(parsed.pre_user_token_balance, u64::MAX);
    assert_eq!(parsed.payload_data, Vec::<u8>::new());
    // a byte too many, a byte too few, and a truncated header
    let mut long = bytes.clone();
    long.push(0);
    assert_eq!(
        ZapOutParameters::try_from_slice(&long),
        Err(ProtocolZapError::InvalidZapOutParameters)
    );
    assert_eq!(
        ZapOutParameters::try_from_slice(&bytes[..bytes.len() - 1]),
        Err(ProtocolZapError::InvalidZapOutParameters)
    );
    assert_eq!(
        ZapOutParameters::try_from_slice(&bytes[..22]),
        Err(ProtocolZapError::InvalidZapOutParameters)
    );
    assert_eq!(ZapOutParameters::try_from_slice(&[]), Err(ProtocolZapError::InvalidZapOutParameters));
    // the library agrees with borsh on what it accepts
    for cut in 0..bytes.len() + 1 {
        let ours = ZapOutParameters::try_from_slice(&bytes[..cut]).is_ok();
        let theirs = borsh::from_slice::<(u8, u16, u64, u64, Vec<u8>)>(&bytes[..cut]).is_ok();
        assert_eq!(ours, theirs);
    }
    let from = ZapOut2Parameters::from_parameters(parsed.clone());
    assert_eq!(from.percentage, parsed.percentage);
    assert_eq!(from.payload_data, parsed.payload_data);
}
