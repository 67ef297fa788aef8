//! Round trips and decode errors of the packed-record codec.

use dassi::error::DassiError;
use dassi::keys::Pubkey;
use dassi::state::{
    pack_to_lender_account_data, pack_to_loan_info_acc_lender_data,
    pack_to_loan_info_acc_repayment_data, pack_to_loan_info_header, unpack_to_lender_account_data,
    unpack_to_loan_info_acc_lender_data, unpack_to_loan_info_acc_repayment_data,
    unpack_to_loan_info_header, unpack_unchecked_to_loan_info_header, BorrowerAccount,
    GuarantorAccount,
};

fn key(byte: u8) -> Pubkey {
    Pubkey::new_from_array([byte; 32])
}

#[test]
fn borrower_record_round_trip() {
    let mut bytes = vec![0u8; 75];
    bytes[0] = 1;
    bytes[1] = 2;
    bytes[2] = 1;
    for i in 3..35 {
        bytes[i] = 7;
    }
    bytes[35..43].copy_from_slice(&123_456_789u64.to_le_bytes());
    for i in 43..75 {
        bytes[i] = 9;
    }
    let d = BorrowerAccount::unpack_from_slice(&bytes).unwrap();
    assert!(d.is_initialized);
    assert_eq!(d.acc_type, 2);
    assert_eq!(d.is_active_loan, 1);
    assert_eq!(d.borrower_main_acc_pubkey.bytes, vec![7u8; 32]);
    assert_eq!(d.credit_score, 123_456_789);
    assert_eq!(d.active_loan_address.bytes, vec![9u8; 32]);
    let mut out = vec![0u8; 75];
    d.pack_into_slice(&mut out).unwrap();
    assert_eq!(out, bytes);
}

#[test]
fn borrower_record_rejects_bad_shape() {
    assert_eq!(
        BorrowerAccount::unpack_from_slice(&[0u8; 74]),
        Err(DassiError::InvalidAccountData)
    );
    let mut bytes = vec![0u8; 75];
    bytes[0] = 3;
    assert_eq!(
        BorrowerAccount::unpack_from_slice(&bytes),
        Err(DassiError::InvalidAccountData)
    );
    assert_eq!(
        BorrowerAccount::unpack(&vec![0u8; 75]),
        Err(DassiError::UninitializedAccount)
    );
}

#[test]
fn guarantor_record_round_trip() {
    let mut bytes = vec![0u8; 42];
    bytes[0] = 1;
    bytes[1] = 4;
    for i in 2..34 {
        bytes[i] = 5;
    }
    bytes[34..42].copy_from_slice(&42u64.to_le_bytes());
    let d = GuarantorAccount::unpack_from_slice(&bytes).unwrap();
    assert!(d.is_initialized);
    assert_eq!(d.acc_type, 4);
    assert_eq!(d.guarantor_main_acc_pubkey.bytes, vec![5u8; 32]);
    assert_eq!(d.approval_score, 42);
    let mut out = vec![0u8; 42];
    d.pack_into_slice(&mut out).unwrap();
    assert_eq!(out, bytes);
}

#[test]
fn loan_header_round_trip() {
    let mut bytes = vec![0u8; 116];
    bytes[0] = 5;
    for i in 1..33 {
        bytes[i] = 11;
    }
    for i in 33..65 {
        bytes[i] = 12;
    }
    bytes[65..73].copy_from_slice(&1_600_000_000u64.to_le_bytes());
    bytes[73..81].copy_from_slice(&1_600_864_000u64.to_le_bytes());
    bytes[81..89].copy_from_slice(&2_592_000u64.to_le_bytes());
    bytes[89..97].copy_from_slice(&2_000_000_000_000u64.to_le_bytes());
    bytes[97..105].copy_from_slice(&800_000_000_000u64.to_le_bytes());
    bytes[105..113].copy_from_slice(&0u64.to_le_bytes());
    bytes[113] = 1;
    bytes[114] = 0;
    bytes[115] = 20;
    let h = unpack_to_loan_info_header(&bytes).unwrap();
    assert_eq!(h.acc_type, 5);
    assert_eq!(h.borrower_main_acc_pubkey.bytes, vec![11u8; 32]);
    assert_eq!(h.guarantor_main_acc_pubkey.bytes, vec![12u8; 32]);
    assert_eq!(h.loan_approval_timestamp, 1_600_000_000);
    assert_eq!(h.fundraising_period_ending_timestamp, 1_600_864_000);
    assert_eq!(h.first_repayment_last_date_timestamp, 2_592_000);
    assert_eq!(h.total_loan_amount, 2_000_000_000_000);
    assert_eq!(h.total_amount_lended, 800_000_000_000);
    assert_eq!(h.repaid_amount_by_borrower, 0);
    assert_eq!(h.next_index_to_store_lender_data, 1);
    assert_eq!(h.number_of_emis_needed_to_repay_the_loan, 20);
    let mut out = vec![0u8; 116];
    pack_to_loan_info_header(h, &mut out).unwrap();
    assert_eq!(out, bytes);
}

#[test]
fn loan_header_rejects_bad_shape() {
    let mut bytes = vec![0u8; 116];
    bytes[0] = 3;
    assert_eq!(
        unpack_to_loan_info_header(&bytes).unwrap_err(),
        DassiError::ExpectedAccountTypeMismatched
    );
    // the unchecked variant takes any tag
    let h = unpack_unchecked_to_loan_info_header(&bytes).unwrap();
    assert_eq!(h.acc_type, 3);
    assert_eq!(
        unpack_to_loan_info_header(&vec![0u8; 115]).unwrap_err(),
        DassiError::InvalidAccountData
    );
}

#[test]
fn lender_slot_round_trip() {
    let mut bytes = vec![0u8; 65];
    bytes[0] = 1;
    for i in 1..33 {
        bytes[i] = 8;
    }
    bytes[33..49].copy_from_slice(&340_282_366_920_938u128.to_le_bytes());
    bytes[49..57].copy_from_slice(&77u64.to_le_bytes());
    bytes[57..65].copy_from_slice(&55u64.to_le_bytes());
    let d = unpack_to_lender_account_data(&bytes).unwrap();
    assert_eq!(d.is_account_active, 1);
    assert_eq!(d.lender_main_acc_pubkey.bytes, vec![8u8; 32]);
    assert_eq!(d.total_lending_amount, 340_282_366_920_938);
    assert_eq!(d.total_unique_lending_amount, 77);
    assert_eq!(d.amount_to_withdraw_or_lend, 55);
    let mut out = vec![0u8; 65];
    pack_to_lender_account_data(d, &mut out).unwrap();
    assert_eq!(out, bytes);
    assert_eq!(
        unpack_to_lender_account_data(&[0u8; 64]),
        Err(DassiError::InvalidAccountData)
    );
}

#[test]
fn contribution_entry_round_trip() {
    let mut bytes = vec![0u8; 45];
    for i in 0..32 {
        bytes[i] = 6;
    }
    bytes[32] = 1;
    bytes[33..37].copy_from_slice(&49_999u32.to_le_bytes());
    bytes[37..45].copy_from_slice(&10_000_000_000u64.to_le_bytes());
    let d = unpack_to_loan_info_acc_lender_data(&bytes).unwrap();
    assert_eq!(d.lender_main_acc_pubkey.bytes, vec![6u8; 32]);
    assert_eq!(d.lenders_data_storage_acc_number, 1);
    assert_eq!(d.lender_id, 49_999);
    assert_eq!(d.lent_amount, 10_000_000_000);
    let mut out = vec![0u8; 45];
    pack_to_loan_info_acc_lender_data(d, &mut out).unwrap();
    assert_eq!(out, bytes);
    assert_eq!(
        unpack_to_loan_info_acc_lender_data(&[0u8; 44]),
        Err(DassiError::InvalidAccountData)
    );
}

#[test]
fn repayment_entry_round_trip() {
    let mut bytes = vec![0u8; 16];
    bytes[0..8].copy_from_slice(&1_700_000_000u64.to_le_bytes());
    bytes[8..16].copy_from_slice(&100_000_000_000u64.to_le_bytes());
    let d = unpack_to_loan_info_acc_repayment_data(&bytes).unwrap();
    assert_eq!(d.emi_repayment_timestamp, 1_700_000_000);
    assert_eq!(d.emi_repayment_amount, 100_000_000_000);
    let mut out = vec![0u8; 16];
    pack_to_loan_info_acc_repayment_data(d, &mut out).unwrap();
    assert_eq!(out, bytes);
    assert_eq!(
        unpack_to_loan_info_acc_repayment_data(&[0u8; 15]),
        Err(DassiError::InvalidAccountData)
    );
}

#[test]
fn pack_rejects_wrong_destination_length() {
    let d = BorrowerAccount::unpack_from_slice(&vec![0u8; 75]).unwrap();
    let mut short = vec![0u8; 74];
    assert_eq!(
        d.pack_into_slice(&mut short),
        Err(DassiError::InvalidAccountData)
    );
    let g = GuarantorAccount::unpack_from_slice(&vec![0u8; 42]).unwrap();
    let mut short = vec![0u8; 41];
    assert_eq!(
        g.pack_into_slice(&mut short),
        Err(DassiError::InvalidAccountData)
    );
    let _ = key(0);
}
