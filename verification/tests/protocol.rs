use zap::constants::{
    DAMM_V2, DAMM_V2_SWAP_DISC, DLMM, DLMM_SWAP2_DISC, JUP_V6, JUP_V6_ROUTE_DISC,
    JUP_V6_SHARED_ACCOUNT_ROUTE_DISC, Pubkey, TREASURY_SOL_ADDRESS, TREASURY_USDC_ADDRESS, ZAP,
    ZAP_OUT_DISC,
};
use zap::error::ProtocolZapError;
use zap::jup_v6_zap::{JupiterRoute, RoutePlanStep, Swap};
use zap::processors::{
    get_zap_amm_processor, RawZapOutAmmInfo, ZapAmmProgram, ZapDammV2InfoProcessor,
    ZapDlmmInfoProcessor, ZapInfoProcessor, ZapJupV6RouteInfoProcessor,
    ZapJupV6SharedRouteInfoProcessor, ZapProcessor,
};
use zap::treasury::{
    extract_amm_accounts_and_info, extract_supported_amm_accounts_and_info, get_token_amount,
    search_and_validate_zap_out_instruction, validate_zap_out_to_treasury,
    validate_zap_parameters, InstructionView, TreasuryDestinations, ZapOutAmmInfo,
};
use zap::zap_out::ZapOutParameters;

fn key(n: u8) -> Pubkey {
    [n; 32]
}

fn params(payload: Vec<u8>) -> ZapOutParameters {
    ZapOutParameters {
        percentage: 100,
        offset_amount_in: 8,
        pre_user_token_balance: 700,
        max_swap_amount: 5000,
        payload_data: payload,
    }
}

fn damm_payload() -> Vec<u8> {
    let mut payload = DAMM_V2_SWAP_DISC.to_vec();
    payload.extend_from_slice(&[0u8; 16]);
    payload
}

fn token_account(amount: u64) -> Vec<u8> {
    let mut data = vec![0u8; 165];
    data[64..72].copy_from_slice(&amount.to_le_bytes());
    data
}

fn route() -> JupiterRoute {
    JupiterRoute {
        route_plan: vec![RoutePlanStep { swap: Swap::Meteora, percent: 100, input_index: 0, output_index: 1 }],
        platform_fee_bps: 0,
    }
}

fn serialized(p: &ZapOutParameters) -> Vec<u8> {
    let mut data = ZAP_OUT_DISC.to_vec();
    data.extend_from_slice(
        &borsh::to_vec(&(
            p.percentage,
            p.offset_amount_in,
            p.pre_user_token_balance,
            p.max_swap_amount,
            p.payload_data.clone(),
        ))
        .unwrap(),
    );
    data
}

fn destinations() -> TreasuryDestinations {
    TreasuryDestinations { paired: key(9), usdc: TREASURY_USDC_ADDRESS, sol: TREASURY_SOL_ADDRESS }
}

// the accounts of a zap-out to DAMM v2: source at 2 + 2, destination at 2 + 3
fn damm_accounts(claimer: Pubkey, destination: Pubkey) -> Vec<Pubkey> {
    vec![claimer, DAMM_V2, key(20), key(21), claimer, destination, key(24)]
}

#[test]
fn whitelist_lookup() {
    assert_eq!(ZapAmmProgram::try_from_raw(&DLMM_SWAP2_DISC, DLMM), Some(ZapAmmProgram::Dlmm));
    assert_eq!(ZapAmmProgram::try_from_raw(&DAMM_V2_SWAP_DISC, DAMM_V2), Some(ZapAmmProgram::DammV2));
    assert_eq!(ZapAmmProgram::try_from_raw(&JUP_V6_ROUTE_DISC, JUP_V6), Some(ZapAmmProgram::JupV6Route));
    assert_eq!(
        ZapAmmProgram::try_from_raw(&JUP_V6_SHARED_ACCOUNT_ROUTE_DISC, JUP_V6),
        Some(ZapAmmProgram::JupV6SharedAccountRoute)
    );
    assert_eq!(ZapAmmProgram::try_from_raw(&DLMM_SWAP2_DISC, DAMM_V2), None);
    assert_eq!(ZapAmmProgram::try_from_raw(&DLMM_SWAP2_DISC[..7], DLMM), None);
    assert_eq!(ZapAmmProgram::try_from_raw(&[], JUP_V6), None);
    assert_eq!(ZapAmmProgram::Dlmm.get_processor(), ZapProcessor::Dlmm);
    assert_eq!(ZapAmmProgram::DammV2.get_processor(), ZapProcessor::DammV2);
    assert_eq!(ZapAmmProgram::JupV6Route.get_processor(), ZapProcessor::JupV6Route);
    assert_eq!(ZapAmmProgram::JupV6SharedAccountRoute.get_processor(), ZapProcessor::JupV6Route);
    assert_eq!(get_zap_amm_processor(&DLMM_SWAP2_DISC, DLMM), Ok(ZapProcessor::Dlmm));
    assert_eq!(
        get_zap_amm_processor(&JUP_V6_SHARED_ACCOUNT_ROUTE_DISC, JUP_V6),
        Ok(ZapProcessor::JupV6SharedRoute)
    );
    assert_eq!(
        get_zap_amm_processor(&JUP_V6_ROUTE_DISC, DLMM),
        Err(ProtocolZapError::InvalidZapOutParameters)
    );
}

#[test]
fn layouts_of_the_payloads() {
    let p = params(vec![0u8; 100]);
    assert_eq!(
        ZapDammV2InfoProcessor.extract_raw_zap_out_amm_info(&p),
        Ok(RawZapOutAmmInfo { source_index: 2, destination_index: 3, amount_in_offset: 8 })
    );
    assert_eq!(
        ZapDlmmInfoProcessor.extract_raw_zap_out_amm_info(&p),
        Ok(RawZapOutAmmInfo { source_index: 4, destination_index: 5, amount_in_offset: 8 })
    );
    // the amount sits nineteen bytes before the end
    assert_eq!(
        ZapJupV6RouteInfoProcessor.extract_raw_zap_out_amm_info(&p),
        Ok(RawZapOutAmmInfo { source_index: 2, destination_index: 4, amount_in_offset: 81 })
    );
    assert_eq!(
        ZapJupV6SharedRouteInfoProcessor.extract_raw_zap_out_amm_info(&p),
        Ok(RawZapOutAmmInfo { source_index: 3, destination_index: 6, amount_in_offset: 81 })
    );
    assert_eq!(
        ZapProcessor::JupV6SharedRoute.extract_raw_zap_out_amm_info(&p),
        ZapJupV6SharedRouteInfoProcessor.extract_raw_zap_out_amm_info(&p)
    );
    assert_eq!(
        ZapJupV6RouteInfoProcessor.extract_raw_zap_out_amm_info(&params(vec![0u8; 19])).unwrap().amount_in_offset,
        0
    );
    assert_eq!(
        ZapJupV6RouteInfoProcessor.extract_raw_zap_out_amm_info(&params(vec![0u8; 18])),
        Err(ProtocolZapError::MathOverflow)
    );
    assert_eq!(
        ZapJupV6RouteInfoProcessor.extract_raw_zap_out_amm_info(&params(vec![0u8; 65_535 + 19])).unwrap().amount_in_offset,
        65_535
    );
    assert_eq!(
        ZapJupV6RouteInfoProcessor.extract_raw_zap_out_amm_info(&params(vec![0u8; 65_536 + 19])),
        Err(ProtocolZapError::TypeCastFailed)
    );
}

#[test]
fn payloads_are_validated_per_program() {
    assert_eq!(ZapDammV2InfoProcessor.validate_payload(&[1, 2, 3], None), Ok(()));
    assert_eq!(ZapDlmmInfoProcessor.validate_payload(&[], None), Ok(()));
    assert_eq!(ZapJupV6RouteInfoProcessor.validate_payload(&[], Some(&route())), Ok(()));
    assert_eq!(
        ZapJupV6RouteInfoProcessor.validate_payload(&[], None),
        Err(ProtocolZapError::InvalidZapOutParameters)
    );
    let mut paid = route();
    paid.platform_fee_bps = 5;
    assert_eq!(
        ZapJupV6SharedRouteInfoProcessor.validate_payload(&[], Some(&paid)),
        Err(ProtocolZapError::InvalidZapOutParameters)
    );
    let mut heavy = route();
    heavy.route_plan = vec![
        RoutePlanStep { swap: Swap::Meteora, percent: 200, input_index: 0, output_index: 1 },
        RoutePlanStep { swap: Swap::Meteora, percent: 200, input_index: 0, output_index: 1 },
    ];
    assert_eq!(
        ZapProcessor::JupV6Route.validate_payload(&[], Some(&heavy)),
        Err(ProtocolZapError::MathOverflow)
    );
    assert_eq!(ZapProcessor::Dlmm.validate_payload(&[], Some(&heavy)), Ok(()));
}

#[test]
fn accounts_of_a_zap_out() {
    let claimer = key(1);
    let accounts = damm_accounts(claimer, key(9));
    let info = extract_amm_accounts_and_info(&params(damm_payload()), &accounts, None).unwrap();
    assert_eq!(
        info,
        ZapOutAmmInfo {
            zap_user_token_in_address: claimer,
            amm_source_token_address: claimer,
            amm_destination_token_address: key(9),
            amount_in_offset: 8,
        }
    );
    assert_eq!(
        extract_amm_accounts_and_info(&params(damm_payload()), &accounts[..1], None),
        Err(ProtocolZapError::InvalidZapAccounts)
    );
    assert_eq!(
        extract_amm_accounts_and_info(&params(damm_payload()), &accounts[..5], None),
        Err(ProtocolZapError::InvalidZapAccounts)
    );
    assert_eq!(
        extract_amm_accounts_and_info(&params(damm_payload()), &accounts[..4], None),
        Err(ProtocolZapError::InvalidZapAccounts)
    );
    assert_eq!(
        extract_amm_accounts_and_info(&params(vec![1, 2, 3]), &accounts, None),
        Err(ProtocolZapError::InvalidZapOutParameters)
    );
    let mut unknown = damm_payload();
    unknown[0] ^= 1;
    assert_eq!(
        extract_amm_accounts_and_info(&params(unknown), &accounts, None),
        Err(ProtocolZapError::InvalidZapOutParameters)
    );
    // a Jupiter route needs a route that is accepted
    let mut jup = JUP_V6_ROUTE_DISC.to_vec();
    jup.extend_from_slice(&[0u8; 40]);
    let jup_accounts = vec![claimer, JUP_V6, key(30), key(31), claimer, key(33), key(9)];
    assert_eq!(
        extract_amm_accounts_and_info(&params(jup.clone()), &jup_accounts, None),
        Err(ProtocolZapError::InvalidZapOutParameters)
    );
    let info = extract_amm_accounts_and_info(&params(jup.clone()), &jup_accounts, Some(&route())).unwrap();
    assert_eq!(info.amm_source_token_address, claimer);
    assert_eq!(info.amm_destination_token_address, key(9));
    assert_eq!(info.amount_in_offset, 48 - 19);
    // only some programs are supported
    assert_eq!(
        extract_supported_amm_accounts_and_info(&params(damm_payload()), &accounts, None, &[ZapAmmProgram::Dlmm]),
        Err(ProtocolZapError::InvalidZapOutParameters)
    );
    assert_eq!(
        extract_supported_amm_accounts_and_info(
            &params(damm_payload()),
            &accounts,
            None,
            &[ZapAmmProgram::Dlmm, ZapAmmProgram::DammV2]
        ),
        extract_amm_accounts_and_info(&params(damm_payload()), &accounts, None)
    );
    assert_eq!(
        extract_supported_amm_accounts_and_info(&params(damm_payload()), &accounts, None, &[]),
        Err(ProtocolZapError::InvalidZapOutParameters)
    );
}

#[test]
fn amount_of_a_token_account() {
    assert_eq!(get_token_amount(&token_account(123_456_789)), Ok(123_456_789));
    assert_eq!(get_token_amount(&token_account(u64::MAX)[..72]), Ok(u64::MAX));
    assert_eq!(get_token_amount(&token_account(1)[..71]), Err(ProtocolZapError::InvalidZapAccounts));
    assert_eq!(get_token_amount(&[]), Err(ProtocolZapError::InvalidZapAccounts));
}

#[test]
fn parameters_after_a_claim() {
    let p = params(damm_payload());
    let data = token_account(700);
    assert_eq!(validate_zap_parameters(&p, 5000, 8, &data), Ok(()));
    assert_eq!(validate_zap_parameters(&p, 5001, 8, &data), Err(ProtocolZapError::InvalidZapOutParameters));
    assert_eq!(validate_zap_parameters(&p, 5000, 9, &data), Err(ProtocolZapError::InvalidZapOutParameters));
    assert_eq!(
        validate_zap_parameters(&p, 5000, 8, &token_account(699)),
        Err(ProtocolZapError::InvalidZapOutParameters)
    );
    assert_eq!(
        validate_zap_parameters(&p, 5000, 8, &data[..60]),
        Err(ProtocolZapError::InvalidZapAccounts)
    );
    let mut half = params(damm_payload());
    half.percentage = 99;
    assert_eq!(validate_zap_parameters(&half, 5000, 8, &data), Err(ProtocolZapError::InvalidZapOutParameters));
    assert_eq!(validate_zap_parameters(&half, 5000, 8, &data[..60]), Err(ProtocolZapError::InvalidZapOutParameters));
}

#[test]
fn the_instruction_after_a_claim() {
    let claimer = key(1);
    let data = token_account(700);
    let good = InstructionView {
        program_id: ZAP,
        accounts: damm_accounts(claimer, key(9)),
        data: serialized(&params(damm_payload())),
    };
    let check = |ix: &InstructionView| {
        search_and_validate_zap_out_instruction(5000, ix, None, &claimer, &data, &destinations())
    };
    assert_eq!(check(&good), Ok(()));
    // into the treasury's own accounts
    for destination in [TREASURY_USDC_ADDRESS, TREASURY_SOL_ADDRESS] {
        let ix = InstructionView { accounts: damm_accounts(claimer, destination), ..good.clone() };
        assert_eq!(check(&ix), Ok(()));
    }
    let ix = InstructionView { accounts: damm_accounts(claimer, key(77)), ..good.clone() };
    assert_eq!(check(&ix), Err(ProtocolZapError::InvalidZapAccounts));
    // another program, another instruction, no instruction
    let ix = InstructionView { program_id: DAMM_V2, ..good.clone() };
    assert_eq!(check(&ix), Err(ProtocolZapError::MissingZapOutInstruction));
    let mut other = good.clone();
    other.data[0] ^= 1;
    assert_eq!(check(&other), Err(ProtocolZapError::MissingZapOutInstruction));
    let ix = InstructionView { data: vec![1, 2, 3], ..good.clone() };
    assert_eq!(check(&ix), Err(ProtocolZapError::InvalidZapOutParameters));
    let mut cut = good.clone();
    cut.data.pop();
    assert_eq!(check(&cut), Err(ProtocolZapError::InvalidZapOutParameters));
    // the balance is measured on another account
    let mut accounts = damm_accounts(claimer, key(9));
    accounts[0] = key(50);
    let ix = InstructionView { accounts, ..good.clone() };
    assert_eq!(check(&ix), Err(ProtocolZapError::InvalidZapAccounts));
    // the pool takes from another account
    let mut accounts = damm_accounts(claimer, key(9));
    accounts[4] = key(50);
    let ix = InstructionView { accounts, ..good.clone() };
    assert_eq!(check(&ix), Err(ProtocolZapError::InvalidZapAccounts));
    // not everything is swapped
    let mut half = params(damm_payload());
    half.percentage = 50;
    let ix = InstructionView { data: serialized(&half), ..good.clone() };
    assert_eq!(check(&ix), Err(ProtocolZapError::InvalidZapOutParameters));
    // the claim exceeds the cap
    assert_eq!(
        search_and_validate_zap_out_instruction(5001, &good, None, &claimer, &data, &destinations()),
        Err(ProtocolZapError::InvalidZapOutParameters)
    );

    let program = key(60);
    assert_eq!(
        validate_zap_out_to_treasury(5000, &program, &program, Some(&good), None, &claimer, &data, &destinations()),
        Ok(())
    );
    assert_eq!(
        validate_zap_out_to_treasury(5000, &program, &key(61), Some(&good), None, &claimer, &data, &destinations()),
        Err(ProtocolZapError::CpiDisabled)
    );
    assert_eq!(
        validate_zap_out_to_treasury(5000, &program, &program, None, None, &claimer, &data, &destinations()),
        Err(ProtocolZapError::MissingZapOutInstruction)
    );
    assert!(destinations().contains(&key(9)));
    assert!(!destinations().contains(&key(8)));
}
