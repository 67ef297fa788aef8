//! Exact decoding of every opcode, and rejection of malformed input.

use dassi::error::DassiError;
use dassi::instruction::DassiInstruction;

#[test]
fn decodes_lend_to_borrower() {
    let mut input = vec![0u8];
    input.extend_from_slice(&800_000_000_000u64.to_le_bytes());
    input.extend_from_slice(&42u32.to_le_bytes());
    assert_eq!(
        DassiInstruction::unpack(&input),
        Ok(DassiInstruction::LendToBorrower {
            amount_to_lend_input: 800_000_000_000,
            lender_id_input: 42,
        })
    );
}

#[test]
fn decodes_withdraw_lender_funds() {
    let mut input = vec![1u8];
    input.extend_from_slice(&49_999u32.to_le_bytes());
    assert_eq!(
        DassiInstruction::unpack(&input),
        Ok(DassiInstruction::WithdrawLenderFreeWalletFunds { lender_id_input: 49_999 })
    );
}

#[test]
fn decodes_field_free_opcodes() {
    assert_eq!(
        DassiInstruction::unpack(&[2]),
        Ok(DassiInstruction::WithdrawCollectedLoanFunds {})
    );
    assert_eq!(
        DassiInstruction::unpack(&[3]),
        Ok(DassiInstruction::TransferDassiVaultAccountOwnership {})
    );
    assert_eq!(
        DassiInstruction::unpack(&[4]),
        Ok(DassiInstruction::InitializeLendersStorageAccount {})
    );
    assert_eq!(
        DassiInstruction::unpack(&[5]),
        Ok(DassiInstruction::InitializeBorrowerAccount {})
    );
    assert_eq!(
        DassiInstruction::unpack(&[6]),
        Ok(DassiInstruction::InitializeGuarantorAccount {})
    );
    assert_eq!(
        DassiInstruction::unpack(&[9]),
        Ok(DassiInstruction::AirdropUsersWithDassiTestCoins {})
    );
    assert_eq!(
        DassiInstruction::unpack(&[10]),
        Ok(DassiInstruction::TransferAirdropVaultAccountOwnership {})
    );
    assert_eq!(
        DassiInstruction::unpack(&[12]),
        Ok(DassiInstruction::CloseLoanInfoAccount {})
    );
}

#[test]
fn decodes_pay_emi() {
    let mut input = vec![7u8];
    input.extend_from_slice(&100_000_000_000u64.to_le_bytes());
    assert_eq!(
        DassiInstruction::unpack(&input),
        Ok(DassiInstruction::PayEMIforLoan { emi_amount_to_pay_input: 100_000_000_000 })
    );
}

#[test]
fn decodes_initialize_loan() {
    let mut input = vec![8u8];
    input.extend_from_slice(&30u16.to_le_bytes());
    input.extend_from_slice(&20u16.to_le_bytes());
    input.extend_from_slice(&10u16.to_le_bytes());
    input.extend_from_slice(&2_000_000_000_000u64.to_le_bytes());
    assert_eq!(
        DassiInstruction::unpack(&input),
        Ok(DassiInstruction::InitializeLoanInfoAccount {
            num_days_left_for_first_repayment_input: 30,
            num_emis_needed_to_repay_the_loan_input: 20,
            num_days_for_fundraising_input: 10,
            total_loan_amount_input: 2_000_000_000_000,
        })
    );
}

#[test]
fn decodes_return_funds() {
    let mut input = vec![11u8];
    input.extend_from_slice(&7u16.to_le_bytes());
    assert_eq!(
        DassiInstruction::unpack(&input),
        Ok(DassiInstruction::ReturnFundsToLenders { num_accounts_input: 7 })
    );
}

#[test]
fn rejects_malformed_instructions() {
    assert_eq!(
        DassiInstruction::unpack(&[]),
        Err(DassiError::InvalidInstruction)
    );
    assert_eq!(
        DassiInstruction::unpack(&[13]),
        Err(DassiError::InvalidInstruction)
    );
    assert_eq!(
        DassiInstruction::unpack(&[0, 1, 2, 3]),
        Err(DassiError::InvalidInstruction)
    );
    assert_eq!(
        DassiInstruction::unpack(&[1, 1, 2]),
        Err(DassiError::InvalidInstruction)
    );
    assert_eq!(
        DassiInstruction::unpack(&[7, 1]),
        Err(DassiError::InvalidInstruction)
    );
    assert_eq!(
        DassiInstruction::unpack(&[8, 1, 2, 3]),
        Err(DassiError::InvalidInstruction)
    );
    assert_eq!(
        DassiInstruction::unpack(&[11]),
        Err(DassiError::InvalidInstruction)
    );
}

#[test]
fn reads_fixed_width_fields() {
    assert_eq!(DassiInstruction::unpack_to_u16(&[0x34, 0x12]), 0x1234);
    assert_eq!(
        DassiInstruction::unpack_to_u32(&[0x78, 0x56, 0x34, 0x12]),
        0x12345678
    );
    assert_eq!(
        DassiInstruction::unpack_to_u64(&[1, 0, 0, 0, 0, 0, 0, 0]),
        Ok(1)
    );
    assert_eq!(
        DassiInstruction::unpack_to_u64(&[1, 2, 3]),
        Err(DassiError::InvalidInstruction)
    );
}
