use zap::constants::{
    same_bytes, same_key, DAMM_V2, DLMM, JUP_V6, SOL_ADDRESS, SPL_ASSOCIATED_TOKEN_ACCOUNT_PROGRAM_ID,
    SPL_TOKEN_PROGRAM_ID, TOKEN_LEDGER_PREFIX, TREASURY, TREASURY_SOL_ADDRESS,
    TREASURY_USDC_ADDRESS, USDC_ADDRESS, ZAP, ZAP_AUTHORITY_PREFIX,
};
use zap::error::{ProtocolZapError, ZapSdkError};

#[test]
fn addresses_decode_from_their_base58_form() {
    let decode = const_crypto::bs58::decode_pubkey;
    assert_eq!(JUP_V6, decode("JUP6LkbZbjS1jKKwapdHNy74zcZ3tLUZoi5QNyVTaV4"));
    assert_eq!(DLMM, decode("LBUZKhRxPF3XUpBCjp4YzTKgLccjZhTSDM9YuVaPwxo"));
    assert_eq!(DAMM_V2, decode("cpamdpZCGKUy5JxQXB4dcpGPiikHawvSWAd6mEn1sGG"));
    assert_eq!(ZAP, decode("zapvX9M3uf5pvy4wRPAbQgdQsM1xmuiFnkfHKPvwMiz"));
    assert_eq!(USDC_ADDRESS, decode("EPjFWdd5AufqSSqeM2qN1xzybapC8G4wEGGkZwyTDt1v"));
    assert_eq!(SOL_ADDRESS, decode("So11111111111111111111111111111111111111112"));
    assert_eq!(TREASURY, decode("6aYhxiNGmG8AyU25rh2R7iFu4pBrqnQHpNUGhmsEXRcm"));
    assert_eq!(SPL_TOKEN_PROGRAM_ID, decode("TokenkegQfeZyiNwAJbNbGKPFXCWuBvf9Ss623VQ5DA"));
    assert_eq!(
        SPL_ASSOCIATED_TOKEN_ACCOUNT_PROGRAM_ID,
        decode("ATokenGPvbdGVxr1b2hvZbsiqW5xWH25efTNsLJA8knL")
    );
}

#[test]
fn treasury_accounts_are_the_derived_addresses() {
    let usdc = const_crypto::ed25519::derive_program_address(
        &[&TREASURY, &SPL_TOKEN_PROGRAM_ID, &USDC_ADDRESS],
        &SPL_ASSOCIATED_TOKEN_ACCOUNT_PROGRAM_ID,
    )
    .0;
    let sol = const_crypto::ed25519::derive_program_address(
        &[&TREASURY, &SPL_TOKEN_PROGRAM_ID, &SOL_ADDRESS],
        &SPL_ASSOCIATED_TOKEN_ACCOUNT_PROGRAM_ID,
    )
    .0;
    assert_eq!(TREASURY_USDC_ADDRESS, usdc);
    assert_eq!(TREASURY_SOL_ADDRESS, sol);
}

#[test]
fn seed_prefixes_spell_their_names() {
    assert_eq!(&ZAP_AUTHORITY_PREFIX, b"zap_authority");
    assert_eq!(&TOKEN_LEDGER_PREFIX, b"token_ledger");
}

#[test]
fn byte_comparison() {
    assert!(same_key(&JUP_V6, &JUP_V6));
    assert!(!same_key(&JUP_V6, &DLMM));
    assert!(same_bytes(&[], &[]));
    assert!(same_bytes(&[1, 2], &[1, 2]));
    assert!(!same_bytes(&[1, 2], &[1, 3]));
    assert!(!same_bytes(&[1, 2], &[1]));
}

#[test]
fn error_names_and_codes() {
    let all = [
        (ProtocolZapError::MathOverflow, "MathOverflow"),
        (ProtocolZapError::InvalidZapOutParameters, "InvalidZapOutParameters"),
        (ProtocolZapError::TypeCastFailed, "TypeCastFailed"),
        (ProtocolZapError::MissingZapOutInstruction, "MissingZapOutInstruction"),
        (
            ProtocolZapError::InvalidWithdrawProtocolFeeZapAccounts,
            "InvalidWithdrawProtocolFeeZapAccounts",
        ),
        (ProtocolZapError::MintRestrictedFromZap, "MintRestrictedFromZap"),
        (ProtocolZapError::CpiDisabled, "CpiDisabled"),
        (ProtocolZapError::InvalidZapAccounts, "InvalidZapAccounts"),
    ];
    for (index, (error, name)) in all.iter().enumerate() {
        assert_eq!(error.name(), name.to_string());
        assert_eq!(error.code(), index as u32);
        let sdk = ZapSdkError::from_protocol(*error);
        assert_eq!(sdk.code(), index as u32);
        assert_eq!(ZapSdkError::try_from_code(index as u32), Some(sdk));
    }
    assert_eq!(ZapSdkError::try_from_code(8), None);
}
