//! End-to-end scenarios for the accounting engine: funding a loan, paying
//! installments, and withdrawing.

use dassi::error::DassiError;
use dassi::keys::Pubkey;
use dassi::ledger::read_slot;
use dassi::processor::Processor;
use dassi::state::{
    unpack_to_loan_info_acc_lender_data, unpack_to_loan_info_acc_repayment_data,
    unpack_to_loan_info_header, BorrowerAccount, LENDERS_STORAGE_ACC_DATA_SIZE,
    LOAN_INFO_ACC_DATA_SIZE,
};

const COIN: u64 = dassi::DASSI_COIN_DECIMALS;
const NOW: u64 = 1_700_000_000;

fn key(byte: u8) -> Pubkey {
    Pubkey::new_from_array([byte; 32])
}

fn fresh_lenders_ledger() -> Vec<u8> {
    let mut lenders = vec![0u8; LENDERS_STORAGE_ACC_DATA_SIZE];
    Processor::process_initialize_lenders_storage_account(&mut lenders).unwrap();
    lenders
}

/// A loan of 2000 coins raised by a guarantor for borrower `key(1)`,
/// twenty installments, ten days of fundraising.
fn fresh_loan() -> (Vec<u8>, Vec<u8>) {
    let mut loan = vec![0u8; LOAN_INFO_ACC_DATA_SIZE];
    let mut borrower = vec![0u8; 75];
    Processor::process_initialize_borrower_storage_account(&mut borrower, &key(1)).unwrap();
    Processor::initialize_loan_info_account(
        &mut loan,
        &mut borrower,
        &key(2),
        &key(1),
        &key(3),
        30,
        20,
        10,
        2000 * COIN,
        NOW,
    )
    .unwrap();
    (loan, borrower)
}

/// The three-lender scenario: 800, 700 and 500 coins, in that order.
fn funded_loan() -> (Vec<u8>, Vec<u8>) {
    let (mut loan, mut lenders) = (fresh_loan().0, fresh_lenders_ledger());
    Processor::process_lend_to_borrower(&mut loan, &mut lenders, &key(10), 800 * COIN, 0, NOW)
        .unwrap();
    Processor::process_lend_to_borrower(&mut loan, &mut lenders, &key(11), 700 * COIN, 1, NOW)
        .unwrap();
    Processor::process_lend_to_borrower(&mut loan, &mut lenders, &key(12), 500 * COIN, 2, NOW)
        .unwrap();
    (loan, lenders)
}

#[test]
fn initialize_lenders_ledger_sets_header() {
    let lenders = fresh_lenders_ledger();
    assert_eq!(lenders[0], 3);
    assert_eq!(lenders[1], 1);
}

#[test]
fn initialize_lenders_ledger_rejects_reuse_and_size() {
    let mut lenders = fresh_lenders_ledger();
    assert_eq!(
        Processor::process_initialize_lenders_storage_account(&mut lenders),
        Err(DassiError::LendersStorageDataAlreadyInitialized)
    );
    let mut short = vec![0u8; 100];
    assert_eq!(
        Processor::process_initialize_lenders_storage_account(&mut short),
        Err(DassiError::DataSizeNotMatched)
    );
}

#[test]
fn initialize_borrower_account_once() {
    let mut borrower = vec![0u8; 75];
    Processor::process_initialize_borrower_storage_account(&mut borrower, &key(1)).unwrap();
    let d = BorrowerAccount::unpack(&borrower).unwrap();
    assert!(d.is_initialized);
    assert_eq!(d.acc_type, 2);
    assert_eq!(d.borrower_main_acc_pubkey.bytes, key(1).bytes);
    assert_eq!(d.credit_score, 500 * COIN);
    assert_eq!(
        Processor::process_initialize_borrower_storage_account(&mut borrower, &key(1)),
        Err(DassiError::BorrowerAccountAlreadyInitialized)
    );
}

#[test]
fn initialize_guarantor_account_once() {
    let mut guarantor = vec![0u8; 42];
    Processor::process_initialize_guarantor_storage_account(&mut guarantor, &key(2)).unwrap();
    assert_eq!(guarantor[0], 1);
    assert_eq!(guarantor[1], 4);
    assert_eq!(
        Processor::process_initialize_guarantor_storage_account(&mut guarantor, &key(2)),
        Err(DassiError::GuarantorAccountAlreadyInitialized)
    );
}

#[test]
fn initialize_loan_writes_header_and_marks_borrower() {
    let (loan, borrower) = fresh_loan();
    let h = unpack_to_loan_info_header(&loan[0..116]).unwrap();
    assert_eq!(h.acc_type, 5);
    assert_eq!(h.borrower_main_acc_pubkey.bytes, key(1).bytes);
    assert_eq!(h.guarantor_main_acc_pubkey.bytes, key(2).bytes);
    assert_eq!(h.loan_approval_timestamp, NOW);
    assert_eq!(h.fundraising_period_ending_timestamp, NOW + 10 * 86_400);
    assert_eq!(h.first_repayment_last_date_timestamp, 35 * 86_400);
    assert_eq!(h.total_loan_amount, 2000 * COIN);
    assert_eq!(h.total_amount_lended, 0);
    assert_eq!(h.number_of_emis_needed_to_repay_the_loan, 20);
    let b = BorrowerAccount::unpack(&borrower).unwrap();
    assert_eq!(b.is_active_loan, 1);
    assert_eq!(b.active_loan_address.bytes, key(3).bytes);
}

#[test]
fn initialize_loan_rejects_reuse_and_active_loan() {
    let (mut loan, mut borrower) = fresh_loan();
    let mut other_loan = vec![0u8; LOAN_INFO_ACC_DATA_SIZE];
    assert_eq!(
        Processor::initialize_loan_info_account(
            &mut loan,
            &mut borrower,
            &key(2),
            &key(1),
            &key(3),
            30,
            20,
            10,
            2000 * COIN,
            NOW,
        ),
        Err(DassiError::LoanInfoDataAlreadyInitialized)
    );
    assert_eq!(
        Processor::initialize_loan_info_account(
            &mut other_loan,
            &mut borrower,
            &key(2),
            &key(1),
            &key(4),
            30,
            20,
            10,
            2000 * COIN,
            NOW,
        ),
        Err(DassiError::BorrowerAlreadyHaveActiveLoan)
    );
}

#[test]
fn three_lenders_fund_the_loan_exactly() {
    let (loan, lenders) = funded_loan();
    let h = unpack_to_loan_info_header(&loan[0..116]).unwrap();
    assert_eq!(h.total_amount_lended, 2000 * COIN);
    assert_eq!(h.next_index_to_store_lender_data, 3);
    let amounts = [800 * COIN, 700 * COIN, 500 * COIN];
    let logged: u64 = (0..3)
        .map(|i| {
            unpack_to_loan_info_acc_lender_data(&loan[116 + 45 * i..116 + 45 * i + 45])
                .unwrap()
                .lent_amount
        })
        .sum();
    assert_eq!(h.total_amount_lended, logged);
    let keys = [key(10), key(11), key(12)];
    for i in 0..3 {
        let e =
            unpack_to_loan_info_acc_lender_data(&loan[116 + 45 * i..116 + 45 * i + 45]).unwrap();
        assert_eq!(e.lender_main_acc_pubkey.bytes, keys[i].bytes);
        assert_eq!(e.lenders_data_storage_acc_number, 1);
        assert_eq!(e.lender_id, i as u32);
        assert_eq!(e.lent_amount, amounts[i]);
        let s = read_slot(&lenders, i as u32);
        assert_eq!(s.is_account_active, 1);
        assert_eq!(s.total_lending_amount, amounts[i] as u128);
        assert_eq!(s.total_unique_lending_amount, amounts[i]);
        assert_eq!(s.amount_to_withdraw_or_lend, 0);
    }
}

#[test]
fn lending_past_full_funding_is_rejected() {
    let (mut loan, mut lenders) = funded_loan();
    assert_eq!(
        Processor::process_lend_to_borrower(&mut loan, &mut lenders, &key(13), 10 * COIN, 3, NOW),
        Err(DassiError::BorrowerAlreadyFunded)
    );
    // a contribution that would overshoot the cap is rejected too
    let (mut loan2, mut lenders2) = (fresh_loan().0, fresh_lenders_ledger());
    Processor::process_lend_to_borrower(&mut loan2, &mut lenders2, &key(10), 1990 * COIN, 0, NOW)
        .unwrap();
    let before = loan2.clone();
    assert_eq!(
        Processor::process_lend_to_borrower(&mut loan2, &mut lenders2, &key(11), 20 * COIN, 1, NOW),
        Err(DassiError::BorrowerAlreadyFunded)
    );
    assert_eq!(loan2, before);
}

#[test]
fn lender_id_boundary() {
    let (mut loan, mut lenders) = (fresh_loan().0, fresh_lenders_ledger());
    Processor::process_lend_to_borrower(&mut loan, &mut lenders, &key(10), 10 * COIN, 49_999, NOW)
        .unwrap();
    let s = read_slot(&lenders, 49_999);
    assert_eq!(s.is_account_active, 1);
    assert_eq!(s.total_unique_lending_amount, 10 * COIN);
    assert_eq!(
        Processor::process_lend_to_borrower(&mut loan, &mut lenders, &key(10), 10 * COIN, 50_000, NOW),
        Err(DassiError::InvalidLenderIdInput)
    );
}

#[test]
fn lend_rejects_small_amounts_and_foreign_slots() {
    let (mut loan, mut lenders) = (fresh_loan().0, fresh_lenders_ledger());
    assert_eq!(
        Processor::process_lend_to_borrower(&mut loan, &mut lenders, &key(10), 9 * COIN, 0, NOW),
        Err(DassiError::ExpectedAmountMismatch)
    );
    Processor::process_lend_to_borrower(&mut loan, &mut lenders, &key(10), 10 * COIN, 0, NOW)
        .unwrap();
    // slot 0 is now bound to key(10); key(11) may not lend under it
    assert_eq!(
        Processor::process_lend_to_borrower(&mut loan, &mut lenders, &key(11), 10 * COIN, 0, NOW),
        Err(DassiError::InvalidLenderIdInput)
    );
}

#[test]
fn lend_rejects_after_fundraising_deadline() {
    let (mut loan, mut lenders) = (fresh_loan().0, fresh_lenders_ledger());
    let too_late = NOW + 10 * 86_400 + 1;
    assert_eq!(
        Processor::process_lend_to_borrower(&mut loan, &mut lenders, &key(10), 10 * COIN, 0, too_late),
        Err(DassiError::FundraisingPeriodExpired)
    );
}

#[test]
fn emi_distributes_floor_shares() {
    let (mut loan, mut lenders) = funded_loan();
    let payment = 100 * COIN;
    Processor::process_pay_emi(&mut loan, &mut lenders, payment, NOW + 86_400).unwrap();
    let h = unpack_to_loan_info_header(&loan[0..116]).unwrap();
    assert_eq!(h.repaid_amount_by_borrower, payment);
    assert_eq!(h.next_index_to_store_repayment_info, 1);
    let entry = unpack_to_loan_info_acc_repayment_data(&loan[9116..9132]).unwrap();
    assert_eq!(entry.emi_repayment_timestamp, NOW + 86_400);
    assert_eq!(entry.emi_repayment_amount, payment);
    // floor(100 coins / 3 contributors), in base units
    let share = payment / 3;
    assert_eq!(share, 33_333_333_333);
    let mut distributed = 0u64;
    for id in 0..3u32 {
        let s = read_slot(&lenders, id);
        assert_eq!(s.amount_to_withdraw_or_lend, share);
        distributed += s.amount_to_withdraw_or_lend;
    }
    // one base unit stays undistributed
    assert_eq!(payment - distributed, 1);
}

#[test]
fn emi_credits_one_share_per_entry_for_repeat_contributors() {
    let (mut loan, mut lenders) = (fresh_loan().0, fresh_lenders_ledger());
    Processor::process_lend_to_borrower(&mut loan, &mut lenders, &key(10), 600 * COIN, 0, NOW)
        .unwrap();
    Processor::process_lend_to_borrower(&mut loan, &mut lenders, &key(10), 400 * COIN, 0, NOW)
        .unwrap();
    Processor::process_lend_to_borrower(&mut loan, &mut lenders, &key(11), 1000 * COIN, 1, NOW)
        .unwrap();
    let payment = 100 * COIN;
    Processor::process_pay_emi(&mut loan, &mut lenders, payment, NOW).unwrap();
    // three log entries, two of them lender 0's: one floor share per entry
    let share = payment / 3;
    assert_eq!(read_slot(&lenders, 0).amount_to_withdraw_or_lend, 2 * share);
    assert_eq!(read_slot(&lenders, 1).amount_to_withdraw_or_lend, share);
}

#[test]
fn emi_rejects_underpayment_and_settled_loans() {
    let (mut loan, mut lenders) = funded_loan();
    // twenty installments of a 2000-coin loan: less than 100 coins is short
    assert_eq!(
        Processor::process_pay_emi(&mut loan, &mut lenders, 99 * COIN, NOW),
        Err(DassiError::ExpectedAmountMismatch)
    );
    for _ in 0..20 {
        Processor::process_pay_emi(&mut loan, &mut lenders, 100 * COIN, NOW).unwrap();
    }
    assert_eq!(
        Processor::process_pay_emi(&mut loan, &mut lenders, 100 * COIN, NOW),
        Err(DassiError::LoanAlreadyPaid)
    );
}

#[test]
fn emi_rejects_degenerate_loans() {
    // an initialized loan with zero installments cannot take a payment
    let mut loan = vec![0u8; LOAN_INFO_ACC_DATA_SIZE];
    let mut borrower = vec![0u8; 75];
    Processor::process_initialize_borrower_storage_account(&mut borrower, &key(1)).unwrap();
    Processor::initialize_loan_info_account(
        &mut loan,
        &mut borrower,
        &key(2),
        &key(1),
        &key(3),
        30,
        0,
        10,
        2000 * COIN,
        NOW,
    )
    .unwrap();
    let mut lenders = fresh_lenders_ledger();
    assert_eq!(
        Processor::process_pay_emi(&mut loan, &mut lenders, 100 * COIN, NOW),
        Err(DassiError::AmountOverflow)
    );
}

#[test]
fn withdrawal_is_idempotent() {
    let (mut loan, mut lenders) = funded_loan();
    Processor::process_pay_emi(&mut loan, &mut lenders, 100 * COIN, NOW).unwrap();
    let share = 100 * COIN / 3;
    let before = read_slot(&lenders, 0);
    let w1 =
        Processor::process_withdraw_lender_free_wallet_funds(&mut lenders, &key(10), 0).unwrap();
    assert_eq!(w1, share);
    let mid = read_slot(&lenders, 0);
    assert_eq!(mid.amount_to_withdraw_or_lend, 0);
    assert_eq!(
        mid.total_unique_lending_amount,
        before.total_unique_lending_amount - share
    );
    let w2 =
        Processor::process_withdraw_lender_free_wallet_funds(&mut lenders, &key(10), 0).unwrap();
    assert_eq!(w2, 0);
    let after = read_slot(&lenders, 0);
    assert_eq!(after.amount_to_withdraw_or_lend, 0);
    assert_eq!(
        after.total_unique_lending_amount,
        mid.total_unique_lending_amount
    );
}

#[test]
fn withdrawal_rejects_foreign_callers_and_bad_ids() {
    let (mut loan, mut lenders) = funded_loan();
    Processor::process_pay_emi(&mut loan, &mut lenders, 100 * COIN, NOW).unwrap();
    assert_eq!(
        Processor::process_withdraw_lender_free_wallet_funds(&mut lenders, &key(99), 0),
        Err(DassiError::InvalidLenderIdInput)
    );
    assert_eq!(
        Processor::process_withdraw_lender_free_wallet_funds(&mut lenders, &key(10), 50_000),
        Err(DassiError::InvalidLenderIdInput)
    );
    // an untouched slot is inactive
    assert_eq!(
        Processor::process_withdraw_lender_free_wallet_funds(&mut lenders, &key(10), 7),
        Err(DassiError::InvalidLenderIdInput)
    );
}

#[test]
fn collected_funds_withdraw_once() {
    let (mut loan, _lenders) = funded_loan();
    assert_eq!(
        Processor::process_withdraw_collected_loan_funds(&mut loan, &key(9)),
        Err(DassiError::BorrowerAccountMismatched)
    );
    let w = Processor::process_withdraw_collected_loan_funds(&mut loan, &key(1)).unwrap();
    assert_eq!(w, 2000 * COIN);
    let h = unpack_to_loan_info_header(&loan[0..116]).unwrap();
    assert_eq!(h.total_amount_lended, 0);
    assert_eq!(
        Processor::process_withdraw_collected_loan_funds(&mut loan, &key(1)),
        Err(DassiError::CollectedLoanFundsAlreadyWithdrawn)
    );
}

#[test]
fn lend_rejects_wrong_ledger_tags() {
    let (mut loan, _) = fresh_loan();
    let mut uninitialized = vec![0u8; LENDERS_STORAGE_ACC_DATA_SIZE];
    assert_eq!(
        Processor::process_lend_to_borrower(&mut loan, &mut uninitialized, &key(10), 10 * COIN, 0, NOW),
        Err(DassiError::ExpectedAccountTypeMismatched)
    );
    let mut wrong_shard = fresh_lenders_ledger();
    wrong_shard[1] = 2;
    assert_eq!(
        Processor::process_lend_to_borrower(&mut loan, &mut wrong_shard, &key(10), 10 * COIN, 0, NOW),
        Err(DassiError::ExpectedLendersAccNumNotMatched)
    );
}

#[test]
fn contribution_log_capacity_is_enforced() {
    // a 3000-coin loan can absorb 200 minimum contributions without
    // filling up; the 201st finds the log full
    let mut loan = vec![0u8; LOAN_INFO_ACC_DATA_SIZE];
    let mut borrower = vec![0u8; 75];
    Processor::process_initialize_borrower_storage_account(&mut borrower, &key(1)).unwrap();
    Processor::initialize_loan_info_account(
        &mut loan,
        &mut borrower,
        &key(2),
        &key(1),
        &key(3),
        30,
        20,
        10,
        3000 * COIN,
        NOW,
    )
    .unwrap();
    let mut lenders = fresh_lenders_ledger();
    for id in 0..200u32 {
        Processor::process_lend_to_borrower(&mut loan, &mut lenders, &key(10), 10 * COIN, id, NOW)
            .unwrap();
    }
    let before = loan.clone();
    assert_eq!(
        Processor::process_lend_to_borrower(&mut loan, &mut lenders, &key(10), 10 * COIN, 200, NOW),
        Err(DassiError::CapacityExceeded)
    );
    assert_eq!(loan, before);
}

#[test]
fn repayment_log_capacity_is_enforced() {
    // one hundred small installments keep the loan unsettled while the
    // fifty-slot repayment log fills up
    let mut loan = vec![0u8; LOAN_INFO_ACC_DATA_SIZE];
    let mut borrower = vec![0u8; 75];
    Processor::process_initialize_borrower_storage_account(&mut borrower, &key(1)).unwrap();
    Processor::initialize_loan_info_account(
        &mut loan,
        &mut borrower,
        &key(2),
        &key(1),
        &key(3),
        30,
        100,
        10,
        2000 * COIN,
        NOW,
    )
    .unwrap();
    let mut lenders = fresh_lenders_ledger();
    Processor::process_lend_to_borrower(&mut loan, &mut lenders, &key(10), 2000 * COIN, 0, NOW)
        .unwrap();
    for _ in 0..50 {
        Processor::process_pay_emi(&mut loan, &mut lenders, 20 * COIN, NOW).unwrap();
    }
    assert_eq!(
        Processor::process_pay_emi(&mut loan, &mut lenders, 20 * COIN, NOW),
        Err(DassiError::CapacityExceeded)
    );
}

#[test]
fn collected_funds_need_full_funding() {
    let (mut loan, mut lenders) = (fresh_loan().0, fresh_lenders_ledger());
    Processor::process_lend_to_borrower(&mut loan, &mut lenders, &key(10), 800 * COIN, 0, NOW)
        .unwrap();
    assert_eq!(
        Processor::process_withdraw_collected_loan_funds(&mut loan, &key(1)),
        Err(DassiError::CollectedLoanFundsAlreadyWithdrawn)
    );
}
