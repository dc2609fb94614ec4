use zap::error::ZapError;
use zap::parameters::{
    decode_account_type, encode_account_type, AccountsType, RemainingAccountsInfo,
    RemainingAccountsSlice, SwapDammV2Params, SwapDlmmParams, ZapOutParametersDecoder,
};
use zap::remaining_accounts::{
    check_transfer_hook_accounts, parse_remaining_accounts, AccountRange, ParsedRemainingAccounts,
};

#[test]
fn damm_v2_parameters_pack_unpack() {
    let swap_damm_v2_parameters = SwapDammV2Params {
        minimum_amount_out: 1000u64,
    };

    let data = swap_damm_v2_parameters.pack();
    let unpack_data = SwapDammV2Params::unpack(&data).unwrap();
    assert_eq!(
        unpack_data.minimum_amount_out,
        swap_damm_v2_parameters.minimum_amount_out
    )
}

#[test]
fn dlmm_parameters_pack_unpack_empty_slices() {
    let swap_dlmm_parameters = SwapDlmmParams {
        minimum_amount_out: 1000u64,
        remaining_accounts_info: RemainingAccountsInfo { slices: vec![] },
    };

    let data = swap_dlmm_parameters.pack();
    let unpack_data = SwapDlmmParams::unpack(&data).unwrap();
    assert_eq!(
        unpack_data.minimum_amount_out,
        swap_dlmm_parameters.minimum_amount_out
    );

    assert_eq!(
        unpack_data.remaining_accounts_info.slices.len(),
        swap_dlmm_parameters.remaining_accounts_info.slices.len()
    )
}

#[test]
fn dlmm_parameters_pack_unpack_one_slice() {
    let slices = vec![RemainingAccountsSlice {
        accounts_type: AccountsType::TransferHookX,
        length: 3,
    }];

    let swap_dlmm_parameters = SwapDlmmParams {
        minimum_amount_out: 1000u64,
        remaining_accounts_info: RemainingAccountsInfo { slices },
    };

    let data = swap_dlmm_parameters.pack();
    let unpack_data = SwapDlmmParams::unpack(&data).unwrap();
    assert_eq!(
        unpack_data.minimum_amount_out,
        swap_dlmm_parameters.minimum_amount_out
    );

    assert_eq!(
        unpack_data.remaining_accounts_info.slices.len(),
        swap_dlmm_parameters.remaining_accounts_info.slices.len()
    );

    let unpack_data_account_type =
        encode_account_type(&unpack_data.remaining_accounts_info.slices[0].accounts_type);

    let param_account_type =
        encode_account_type(&swap_dlmm_parameters.remaining_accounts_info.slices[0].accounts_type);
    assert_eq!(unpack_data_account_type, param_account_type);
    assert_eq!(
        unpack_data.remaining_accounts_info.slices[0].length,
        swap_dlmm_parameters.remaining_accounts_info.slices[0].length
    )
}

#[test]
fn dlmm_parameters_pack_unpack_two_slices() {
    let slices = vec![
        RemainingAccountsSlice {
            accounts_type: AccountsType::TransferHookX,
            length: 3,
        },
        RemainingAccountsSlice {
            accounts_type: AccountsType::TransferHookY,
            length: 3,
        },
    ];

    let swap_dlmm_parameters = SwapDlmmParams {
        minimum_amount_out: 1000u64,
        remaining_accounts_info: RemainingAccountsInfo { slices },
    };

    let data = swap_dlmm_parameters.pack();
    let unpack_data = SwapDlmmParams::unpack(&data).unwrap();

    assert_eq!(
        unpack_data.minimum_amount_out,
        swap_dlmm_parameters.minimum_amount_out
    );

    assert_eq!(
        unpack_data.remaining_accounts_info.slices.len(),
        swap_dlmm_parameters.remaining_accounts_info.slices.len()
    );

    let unpack_data_account_type_0 =
        encode_account_type(&unpack_data.remaining_accounts_info.slices[0].accounts_type);

    let param_account_type_0 =
        encode_account_type(&swap_dlmm_parameters.remaining_accounts_info.slices[0].accounts_type);
    assert_eq!(unpack_data_account_type_0, param_account_type_0);
    assert_eq!(
        unpack_data.remaining_accounts_info.slices[0].length,
        swap_dlmm_parameters.remaining_accounts_info.slices[0].length
    );

    let unpack_data_account_type_1 =
        encode_account_type(&unpack_data.remaining_accounts_info.slices[1].accounts_type);

    let param_account_type_1 =
        encode_account_type(&swap_dlmm_parameters.remaining_accounts_info.slices[1].accounts_type);
    assert_eq!(unpack_data_account_type_1, param_account_type_1);
    assert_eq!(
        unpack_data.remaining_accounts_info.slices[1].length,
        swap_dlmm_parameters.remaining_accounts_info.slices[1].length
    )
}

#[test]
fn payload_bytes() {
    assert_eq!(SwapDammV2Params { minimum_amount_out: 0x0102 }.pack(), vec![2, 1, 0, 0, 0, 0, 0, 0]);
    assert_eq!(SwapDammV2Params::unpack(&[0; 7]), Err(ZapError::InvalidDataLength));
    assert_eq!(SwapDammV2Params::unpack(&[0; 9]), Err(ZapError::InvalidDataLength));
    assert_eq!(
        SwapDammV2Params::unpack(&u64::MAX.to_le_bytes()),
        Ok(SwapDammV2Params { minimum_amount_out: u64::MAX })
    );
    let two = SwapDlmmParams {
        minimum_amount_out: 7,
        remaining_accounts_info: RemainingAccountsInfo {
            slices: vec![
                RemainingAccountsSlice { accounts_type: AccountsType::TransferHookReward, length: 9 },
                RemainingAccountsSlice { accounts_type: AccountsType::TransferHookY, length: 0 },
            ],
        },
    };
    let bytes = two.pack();
    assert_eq!(bytes, vec![7, 0, 0, 0, 0, 0, 0, 0, 2, 0, 0, 0, 2, 9, 1, 0]);
    assert_eq!(SwapDlmmParams::unpack(&bytes), Ok(two));
    // too short, a count alone, too many slices, a count that does not match, an unknown kind
    assert_eq!(SwapDlmmParams::unpack(&bytes[..7]), Err(ZapError::InvalidDataLength));
    assert_eq!(SwapDlmmParams::unpack(&bytes[..12]), Err(ZapError::InvalidDataLength));
    assert_eq!(SwapDlmmParams::unpack(&bytes[..9]), Err(ZapError::InvalidDataLength));
    assert_eq!(SwapDlmmParams::unpack(&bytes[..14]), Err(ZapError::InvalidDataLength));
    let mut three = bytes.clone();
    three[8] = 3;
    three.extend_from_slice(&[0, 0]);
    assert_eq!(SwapDlmmParams::unpack(&three), Err(ZapError::InvalidDataLength));
    let mut unknown = bytes.clone();
    unknown[14] = 3;
    assert_eq!(SwapDlmmParams::unpack(&unknown), Err(ZapError::TypeCastFailed));
    let mut zero = bytes[..13].to_vec();
    zero[8] = 0;
    assert_eq!(SwapDlmmParams::unpack(&zero), Err(ZapError::InvalidDataLength));
    assert_eq!(decode_account_type(0), Ok(AccountsType::TransferHookX));
    assert_eq!(decode_account_type(1), Ok(AccountsType::TransferHookY));
    assert_eq!(decode_account_type(2), Ok(AccountsType::TransferHookReward));
    assert_eq!(decode_account_type(3), Err(ZapError::TypeCastFailed));
    assert_eq!(encode_account_type(&AccountsType::TransferHookReward), 2);
}

#[test]
fn remaining_accounts_are_handed_out_in_order() {
    let hook = |length: u8| zap::remaining_accounts::RemainingAccountsSlice {
        accounts_type: zap::remaining_accounts::AccountsType::TransferHook,
        length,
    };
    let valid = [zap::remaining_accounts::AccountsType::TransferHook];
    assert_eq!(
        parse_remaining_accounts(5, &[], &valid),
        Ok(ParsedRemainingAccounts { transfer_hook: None, consumed: 0 })
    );
    assert_eq!(
        parse_remaining_accounts(5, &[hook(3)], &valid),
        Ok(ParsedRemainingAccounts { transfer_hook: Some(AccountRange { start: 0, end: 3 }), consumed: 3 })
    );
    assert_eq!(
        parse_remaining_accounts(5, &[hook(0), hook(5), hook(0)], &valid),
        Ok(ParsedRemainingAccounts { transfer_hook: Some(AccountRange { start: 0, end: 5 }), consumed: 5 })
    );
    assert_eq!(
        parse_remaining_accounts(5, &[hook(6)], &valid),
        Err(ZapError::InsufficientRemainingAccounts)
    );
    assert_eq!(
        parse_remaining_accounts(5, &[hook(2), hook(2)], &valid),
        Err(ZapError::DuplicatedRemainingAccountTypes)
    );
    assert_eq!(
        parse_remaining_accounts(5, &[hook(2), hook(4)], &valid),
        Err(ZapError::InsufficientRemainingAccounts)
    );
    assert_eq!(
        parse_remaining_accounts(5, &[hook(0)], &[]),
        Err(ZapError::InvalidRemainingAccountSlice)
    );
    let info = zap::remaining_accounts::RemainingAccountsInfo { slices: vec![hook(3), hook(4), hook(0)] };
    assert_eq!(info.total_length(), 7);
    assert_eq!(info.checked_total_length(), Some(7));
    let heavy = zap::remaining_accounts::RemainingAccountsInfo { slices: vec![hook(200), hook(56)] };
    assert_eq!(heavy.checked_total_length(), None);
    let full = zap::remaining_accounts::RemainingAccountsInfo { slices: vec![hook(200), hook(55)] };
    assert_eq!(full.checked_total_length(), Some(255));
    assert_eq!(check_transfer_hook_accounts(true, true), Ok(()));
    assert_eq!(check_transfer_hook_accounts(false, false), Ok(()));
    assert_eq!(
        check_transfer_hook_accounts(true, false),
        Err(ZapError::MissingRemainingAccountForTransferHook)
    );
    assert_eq!(check_transfer_hook_accounts(false, true), Err(ZapError::NoTransferHookProgram));
}

#[test]
fn the_decoder_reads_what_the_bytes_hold() {
    // a DAMM v2 payload: the amount, and nothing else
    assert_eq!(
        <SwapDammV2Params as ZapOutParametersDecoder>::decode(777u64.to_le_bytes().to_vec()),
        Ok(SwapDammV2Params { minimum_amount_out: 777 })
    );
    assert_eq!(
        <SwapDammV2Params as ZapOutParametersDecoder>::decode(vec![1, 2, 3]),
        Err(ZapError::InvalidDataLength)
    );
    assert_eq!(
        <SwapDammV2Params as ZapOutParametersDecoder>::decode(vec![0; 9]),
        Err(ZapError::InvalidDataLength)
    );
    // a DLMM payload with one slice of three accounts of the first kind
    let mut bytes = 5u64.to_le_bytes().to_vec();
    bytes.extend_from_slice(&1u32.to_le_bytes());
    bytes.extend_from_slice(&[0, 3]);
    assert_eq!(
        <SwapDlmmParams as ZapOutParametersDecoder>::decode(bytes.clone()),
        Ok(SwapDlmmParams {
            minimum_amount_out: 5,
            remaining_accounts_info: RemainingAccountsInfo {
                slices: vec![RemainingAccountsSlice {
                    accounts_type: AccountsType::TransferHookX,
                    length: 3,
                }],
            },
        })
    );
    assert_eq!(<SwapDlmmParams as ZapOutParametersDecoder>::decode(bytes.clone()), SwapDlmmParams::unpack(&bytes));
    // the amount alone
    assert_eq!(
        <SwapDlmmParams as ZapOutParametersDecoder>::decode(9u64.to_le_bytes().to_vec()),
        Ok(SwapDlmmParams {
            minimum_amount_out: 9,
            remaining_accounts_info: RemainingAccountsInfo { slices: vec![] },
        })
    );
    // a kind that is not known, and a list that does not fill the rest
    bytes[12] = 7;
    assert_eq!(
        <SwapDlmmParams as ZapOutParametersDecoder>::decode(bytes.clone()),
        Err(ZapError::TypeCastFailed)
    );
    bytes.push(0);
    assert_eq!(
        <SwapDlmmParams as ZapOutParametersDecoder>::decode(bytes),
        Err(ZapError::InvalidDataLength)
    );
}
