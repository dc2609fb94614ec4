use zap::error::ZapError;
use zap::token::{
    new_transfer_fee_calculator, TransferFee, TransferFeeCalculator, TransferFeeExcludedAmount,
    TransferFeeIncludedAmount,
};

fn with_fee(basis_points: u16, maximum_fee: u64) -> TransferFeeCalculator {
    new_transfer_fee_calculator(
        false,
        Some(TransferFee { epoch: 0, maximum_fee, transfer_fee_basis_points: basis_points }),
    )
}

#[test]
fn a_mint_without_fee_passes_amounts_through() {
    let plain = TransferFeeCalculator::without_fee();
    assert_eq!(
        plain.calculate_transfer_fee_excluded_amount(12345),
        Ok(TransferFeeExcludedAmount { amount: 12345, transfer_fee: 0 })
    );
    assert_eq!(
        plain.calculate_transfer_fee_included_amount(u64::MAX),
        Ok(TransferFeeIncludedAmount { amount: u64::MAX, transfer_fee: 0 })
    );
    let fee = TransferFee { epoch: 3, maximum_fee: 9, transfer_fee_basis_points: 100 };
    assert_eq!(new_transfer_fee_calculator(true, Some(fee)), plain);
    assert_eq!(new_transfer_fee_calculator(false, None), plain);
    let taken = new_transfer_fee_calculator(false, Some(fee));
    assert_eq!(taken.no_transfer_fee_extension, false);
    assert_eq!(taken.epoch_transfer_fee, fee);
}

#[test]
fn the_fee_is_rounded_up_and_capped() {
    let one_percent = with_fee(100, 1000);
    assert_eq!(
        one_percent.calculate_transfer_fee_excluded_amount(10_000),
        Ok(TransferFeeExcludedAmount { amount: 9_900, transfer_fee: 100 })
    );
    // one hundredth of 1 rounds up to 1
    assert_eq!(
        one_percent.calculate_transfer_fee_excluded_amount(1),
        Ok(TransferFeeExcludedAmount { amount: 0, transfer_fee: 1 })
    );
    assert_eq!(
        one_percent.calculate_transfer_fee_excluded_amount(101),
        Ok(TransferFeeExcludedAmount { amount: 99, transfer_fee: 2 })
    );
    // the cap
    assert_eq!(
        one_percent.calculate_transfer_fee_excluded_amount(1_000_000),
        Ok(TransferFeeExcludedAmount { amount: 999_000, transfer_fee: 1000 })
    );
    assert_eq!(
        one_percent.calculate_transfer_fee_excluded_amount(0),
        Ok(TransferFeeExcludedAmount { amount: 0, transfer_fee: 0 })
    );
    // a rate of zero
    assert_eq!(
        with_fee(0, 5).calculate_transfer_fee_excluded_amount(77),
        Ok(TransferFeeExcludedAmount { amount: 77, transfer_fee: 0 })
    );
    // a rate above one hundred percent asks for more than the amount
    assert_eq!(
        with_fee(20_000, u64::MAX).calculate_transfer_fee_excluded_amount(10),
        Err(ZapError::MathOverflow)
    );
    // a fee that does not fit 64 bits
    assert_eq!(
        with_fee(u16::MAX, u64::MAX).calculate_transfer_fee_excluded_amount(u64::MAX),
        Err(ZapError::MathOverflow)
    );
}

#[test]
fn the_amount_to_send_for_an_amount_to_arrive() {
    let one_percent = with_fee(100, 1000);
    assert_eq!(
        one_percent.calculate_transfer_fee_included_amount(9_900),
        Ok(TransferFeeIncludedAmount { amount: 10_000, transfer_fee: 100 })
    );
    assert_eq!(
        one_percent.calculate_transfer_fee_included_amount(0),
        Ok(TransferFeeIncludedAmount { amount: 0, transfer_fee: 0 })
    );
    // beyond the cap the fee is the cap
    assert_eq!(
        one_percent.calculate_transfer_fee_included_amount(999_000),
        Ok(TransferFeeIncludedAmount { amount: 1_000_000, transfer_fee: 1000 })
    );
    // one hundred percent: the fee is the cap
    assert_eq!(
        with_fee(10_000, 50).calculate_transfer_fee_included_amount(100),
        Ok(TransferFeeIncludedAmount { amount: 150, transfer_fee: 50 })
    );
    // no room for the fee
    assert_eq!(
        one_percent.calculate_transfer_fee_included_amount(u64::MAX),
        Err(ZapError::MathOverflow)
    );
    assert_eq!(
        with_fee(10_001, 50).calculate_transfer_fee_included_amount(100),
        Err(ZapError::MathOverflow)
    );
}

#[test]
fn net_to_gross_and_back_never_favours_the_caller() {
    let calculators = [
        TransferFeeCalculator::without_fee(),
        with_fee(1, u64::MAX),
        with_fee(100, 1000),
        with_fee(333, 77),
        with_fee(9_999, u64::MAX),
        with_fee(10_000, 12),
        with_fee(10_000, 0),
        with_fee(5_000, 1),
    ];
    let mut x: u64 = 1;
    let mut amounts = vec![0u64, 1, 2, 3, 99, 100, 101, 9_999, 10_000, 10_001, u64::MAX / 3];
    for _ in 0..200 {
        x = x.wrapping_mul(6364136223846793005).wrapping_add(1442695040888963407);
        amounts.push(x >> (x % 60));
    }
    for calculator in calculators.iter() {
        for &amount in amounts.iter() {
            if let Ok(gross) = calculator.calculate_transfer_fee_included_amount(amount) {
                let back = calculator.calculate_transfer_fee_excluded_amount(gross.amount).unwrap();
                assert!(back.amount >= amount);
                assert_eq!(back.amount, amount);
                assert_eq!(back.transfer_fee, gross.transfer_fee);
            }
            if let Ok(net) = calculator.calculate_transfer_fee_excluded_amount(amount) {
                if let Ok(gross) = calculator.calculate_transfer_fee_included_amount(net.amount) {
                    assert!(gross.amount <= amount);
                }
            }
        }
    }
}
