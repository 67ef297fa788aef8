//! The packed-record codec: every record the engine stores has a fixed
//! little-endian byte layout, and this module gives each one an exec
//! struct, a mathematical view, pure pack/unpack specifications, and
//! verified pack/unpack functions that are proved against them.

use crate::buffer::{copy_range, write_range};
use crate::error::DassiError;
use crate::keys::Pubkey;
use vstd::bytes::*;
use vstd::prelude::*;
use vstd::seq_lib::*;
use vstd::slice::{slice_index_get, slice_subrange};

verus! {

/// Total size of one loan buffer: header plus both logs.
pub const LOAN_INFO_ACC_DATA_SIZE: usize = 9916;

/// Total size of the lender ledger buffer: a two-byte header plus 50,000
/// lender slots.
pub const LENDERS_STORAGE_ACC_DATA_SIZE: usize = 3_250_002;

pub const LOAN_INFO_HEADER_DATA_BYTES: usize = 116;

pub const LOAN_INFO_ACC_LENDER_DATA_BYTES: usize = 45;

pub const LOAN_INFO_ACC_REPAYMENT_DATA_BYTES: usize = 16;

pub const LENDER_ACC_DATA_SIZE: usize = 65;

pub const BORROWER_ACC_DATA_BYTES: usize = 75;

pub const GUARANTOR_ACC_DATA_BYTES: usize = 42;

/// Number of contribution-log slots in a loan buffer.
pub const LOAN_CONTRIBUTION_LOG_CAPACITY: usize = 200;

/// Number of repayment-log slots in a loan buffer.
pub const LOAN_REPAYMENT_LOG_CAPACITY: usize = 50;

/// Number of lender slots in the lender ledger.
pub const LENDERS_LEDGER_CAPACITY: u32 = 50_000;

/// Byte offset of the first contribution-log slot in a loan buffer.
pub const LOAN_INFO_ACC_LENDERS_DATA_START_INDEX: usize = 116;

/// Byte offset of the first repayment-log slot in a loan buffer.
pub const LOAN_INFO_ACC_REPAYMENT_DATA_SI: usize = 9116;

/// Byte offset of the first lender slot in the lender ledger.
pub const LENDERS_ACC_DATA_STARTING_INDEX: usize = 2;

/// The one-byte type tag that tells the record kinds apart.
pub enum AccTypes {
    BorrowerAcc,
    LendersAcc,
    GuarantorAcc,
    LoanInfoAcc,
}

impl AccTypes {
    pub open spec fn spec_tag(self) -> u8 {
        match self {
            AccTypes::BorrowerAcc => 2,
            AccTypes::LendersAcc => 3,
            AccTypes::GuarantorAcc => 4,
            AccTypes::LoanInfoAcc => 5,
        }
    }

    pub fn tag(self) -> (t: u8)
        ensures
            t == self.spec_tag(),
    {
        match self {
            AccTypes::BorrowerAcc => 2,
            AccTypes::LendersAcc => 3,
            AccTypes::GuarantorAcc => 4,
            AccTypes::LoanInfoAcc => 5,
        }
    }
}

// ---------------------------------------------------------------------------
// Lender slot: 1 + 32 + 16 + 8 + 8 = 65 bytes
// ---------------------------------------------------------------------------
/// One lender's cumulative position, as stored in the lender ledger.
#[derive(Debug, PartialEq, Eq)]
pub struct LenderAccountData {
    pub is_account_active: u8,
    pub lender_main_acc_pubkey: Pubkey,
    pub total_lending_amount: u128,
    pub total_unique_lending_amount: u64,
    pub amount_to_withdraw_or_lend: u64,
}

pub ghost struct LenderAccountDataView {
    pub is_account_active: u8,
    pub lender_main_acc_pubkey: Seq<u8>,
    pub total_lending_amount: u128,
    pub total_unique_lending_amount: u64,
    pub amount_to_withdraw_or_lend: u64,
}

impl View for LenderAccountData {
    type V = LenderAccountDataView;

    open spec fn view(&self) -> LenderAccountDataView {
        LenderAccountDataView {
            is_account_active: self.is_account_active,
            lender_main_acc_pubkey: self.lender_main_acc_pubkey@,
            total_lending_amount: self.total_lending_amount,
            total_unique_lending_amount: self.total_unique_lending_amount,
            amount_to_withdraw_or_lend: self.amount_to_withdraw_or_lend,
        }
    }
}

impl LenderAccountDataView {
    pub open spec fn wf(self) -> bool {
        self.lender_main_acc_pubkey.len() == 32
    }
}

impl LenderAccountData {
    pub open spec fn wf(self) -> bool {
        self@.wf()
    }
}

pub open spec fn spec_unpack_lender_account_data(s: Seq<u8>) -> LenderAccountDataView
    recommends
        s.len() == 65,
{
    LenderAccountDataView {
        is_account_active: s[0],
        lender_main_acc_pubkey: s.subrange(1, 33),
        total_lending_amount: spec_u128_from_le_bytes(s.subrange(33, 49)),
        total_unique_lending_amount: spec_u64_from_le_bytes(s.subrange(49, 57)),
        amount_to_withdraw_or_lend: spec_u64_from_le_bytes(s.subrange(57, 65)),
    }
}

pub open spec fn spec_pack_lender_account_data(v: LenderAccountDataView) -> Seq<u8> {
    seq![v.is_account_active] + v.lender_main_acc_pubkey + spec_u128_to_le_bytes(
        v.total_lending_amount,
    ) + spec_u64_to_le_bytes(v.total_unique_lending_amount) + spec_u64_to_le_bytes(
        v.amount_to_withdraw_or_lend,
    )
}

pub proof fn lemma_pack_lender_account_data_len(v: LenderAccountDataView)
    requires
        v.wf(),
    ensures
        spec_pack_lender_account_data(v).len() == 65,
{
    lemma_auto_spec_u64_to_from_le_bytes();
    lemma_auto_spec_u128_to_from_le_bytes();
}

/// Any 65-byte span survives a decode/encode round trip unchanged.
pub proof fn lemma_lender_account_data_round_trip(s: Seq<u8>)
    requires
        s.len() == 65,
    ensures
        spec_pack_lender_account_data(spec_unpack_lender_account_data(s)) == s,
{
    lemma_auto_spec_u64_to_from_le_bytes();
    lemma_auto_spec_u128_to_from_le_bytes();
    assert_seqs_equal!(spec_pack_lender_account_data(spec_unpack_lender_account_data(s)) == s);
}

/// A well-formed lender-slot view survives an encode/decode round trip.
pub proof fn lemma_lender_account_data_view_round_trip(v: LenderAccountDataView)
    requires
        v.wf(),
    ensures
        spec_unpack_lender_account_data(spec_pack_lender_account_data(v)) == v,
{
    lemma_auto_spec_u64_to_from_le_bytes();
    lemma_auto_spec_u128_to_from_le_bytes();
    let s = spec_pack_lender_account_data(v);
    assert_seqs_equal!(s.subrange(1, 33) == v.lender_main_acc_pubkey);
    assert_seqs_equal!(s.subrange(33, 49) == spec_u128_to_le_bytes(v.total_lending_amount));
    assert_seqs_equal!(s.subrange(49, 57) == spec_u64_to_le_bytes(
        v.total_unique_lending_amount,
    ));
    assert_seqs_equal!(s.subrange(57, 65) == spec_u64_to_le_bytes(
        v.amount_to_withdraw_or_lend,
    ));
}

/// Decodes one lender slot from a 65-byte span.
pub fn unpack_to_lender_account_data(input: &[u8]) -> (r: Result<LenderAccountData, DassiError>)
    ensures
        match r {
            Ok(d) => input@.len() == 65 && d@ == spec_unpack_lender_account_data(input@)
                && d.wf(),
            Err(e) => e == DassiError::InvalidAccountData && input@.len() != 65,
        },
{
    if input.len() != 65 {
        return Err(DassiError::InvalidAccountData);
    }
    Ok(
        LenderAccountData {
            is_account_active: *slice_index_get(input, 0),
            lender_main_acc_pubkey: Pubkey { bytes: copy_range(input, 1, 32) },
            total_lending_amount: u128_from_le_bytes(slice_subrange(input, 33, 49)),
            total_unique_lending_amount: u64_from_le_bytes(slice_subrange(input, 49, 57)),
            amount_to_withdraw_or_lend: u64_from_le_bytes(slice_subrange(input, 57, 65)),
        },
    )
}

/// Encodes one lender slot into a 65-byte span.
pub fn pack_to_lender_account_data(src: LenderAccountData, dst: &mut Vec<u8>) -> (r: Result<
    (),
    DassiError,
>)
    requires
        src.wf(),
    ensures
        match r {
            Ok(()) => old(dst)@.len() == 65 && final(dst)@ == spec_pack_lender_account_data(
                src@,
            ),
            Err(e) => e == DassiError::InvalidAccountData && old(dst)@.len() != 65 && final(dst)@ == old(dst)@,
        },
{
    if dst.len() != 65 {
        return Err(DassiError::InvalidAccountData);
    }
    dst[0] = src.is_account_active;
    write_range(dst, 1, src.lender_main_acc_pubkey.bytes.as_slice());
    let b0 = u128_to_le_bytes(src.total_lending_amount);
    write_range(dst, 33, b0.as_slice());
    let b1 = u64_to_le_bytes(src.total_unique_lending_amount);
    write_range(dst, 49, b1.as_slice());
    let b2 = u64_to_le_bytes(src.amount_to_withdraw_or_lend);
    write_range(dst, 57, b2.as_slice());
    proof {
        lemma_pack_lender_account_data_len(src@);
        assert_seqs_equal!(dst@ == spec_pack_lender_account_data(src@));
    }
    Ok(())
}

// ---------------------------------------------------------------------------
// Borrower record: 1 + 1 + 1 + 32 + 8 + 32 = 75 bytes
// ---------------------------------------------------------------------------
/// One borrower's record.
#[derive(Debug, PartialEq, Eq)]
pub struct BorrowerAccount {
    pub is_initialized: bool,
    pub acc_type: u8,
    pub is_active_loan: u8,
    pub borrower_main_acc_pubkey: Pubkey,
    pub credit_score: u64,
    pub active_loan_address: Pubkey,
}

pub ghost struct BorrowerAccountView {
    pub is_initialized: bool,
    pub acc_type: u8,
    pub is_active_loan: u8,
    pub borrower_main_acc_pubkey: Seq<u8>,
    pub credit_score: u64,
    pub active_loan_address: Seq<u8>,
}

impl View for BorrowerAccount {
    type V = BorrowerAccountView;

    open spec fn view(&self) -> BorrowerAccountView {
        BorrowerAccountView {
            is_initialized: self.is_initialized,
            acc_type: self.acc_type,
            is_active_loan: self.is_active_loan,
            borrower_main_acc_pubkey: self.borrower_main_acc_pubkey@,
            credit_score: self.credit_score,
            active_loan_address: self.active_loan_address@,
        }
    }
}

impl BorrowerAccountView {
    pub open spec fn wf(self) -> bool {
        self.borrower_main_acc_pubkey.len() == 32 && self.active_loan_address.len() == 32
    }
}

impl BorrowerAccount {
    pub open spec fn wf(self) -> bool {
        self@.wf()
    }
}

pub open spec fn spec_unpack_borrower_account(s: Seq<u8>) -> BorrowerAccountView
    recommends
        s.len() == 75,
{
    BorrowerAccountView {
        is_initialized: s[0] == 1,
        acc_type: s[1],
        is_active_loan: s[2],
        borrower_main_acc_pubkey: s.subrange(3, 35),
        credit_score: spec_u64_from_le_bytes(s.subrange(35, 43)),
        active_loan_address: s.subrange(43, 75),
    }
}

pub open spec fn spec_pack_borrower_account(v: BorrowerAccountView) -> Seq<u8> {
    seq![
        if v.is_initialized {
            1u8
        } else {
            0u8
        },
        v.acc_type,
        v.is_active_loan,
    ] + v.borrower_main_acc_pubkey + spec_u64_to_le_bytes(v.credit_score)
        + v.active_loan_address
}

pub proof fn lemma_pack_borrower_account_len(v: BorrowerAccountView)
    requires
        v.wf(),
    ensures
        spec_pack_borrower_account(v).len() == 75,
{
    lemma_auto_spec_u64_to_from_le_bytes();
}

/// A validly shaped 75-byte span (its leading flag is 0 or 1) survives a
/// decode/encode round trip unchanged.
pub proof fn lemma_borrower_account_round_trip(s: Seq<u8>)
    requires
        s.len() == 75,
        s[0] == 0 || s[0] == 1,
    ensures
        spec_pack_borrower_account(spec_unpack_borrower_account(s)) == s,
{
    lemma_auto_spec_u64_to_from_le_bytes();
    assert_seqs_equal!(spec_pack_borrower_account(spec_unpack_borrower_account(s)) == s);
}

/// A well-formed borrower view survives an encode/decode round trip.
pub proof fn lemma_borrower_account_view_round_trip(v: BorrowerAccountView)
    requires
        v.wf(),
    ensures
        spec_unpack_borrower_account(spec_pack_borrower_account(v)) == v,
{
    lemma_auto_spec_u64_to_from_le_bytes();
    let s = spec_pack_borrower_account(v);
    assert_seqs_equal!(s.subrange(3, 35) == v.borrower_main_acc_pubkey);
    assert_seqs_equal!(s.subrange(35, 43) == spec_u64_to_le_bytes(v.credit_score));
    assert_seqs_equal!(s.subrange(43, 75) == v.active_loan_address);
}

impl BorrowerAccount {
    /// Decodes a borrower record from a 75-byte span, without demanding
    /// that it be initialized.
    pub fn unpack_from_slice(src: &[u8]) -> (r: Result<BorrowerAccount, DassiError>)
        ensures
            match r {
                Ok(d) => src@.len() == 75 && (src@[0] == 0 || src@[0] == 1) && d@
                    == spec_unpack_borrower_account(src@) && d.wf(),
                Err(e) => e == DassiError::InvalidAccountData && (src@.len() != 75 || (src@[0]
                    != 0 && src@[0] != 1)),
            },
    {
        if src.len() != 75 {
            return Err(DassiError::InvalidAccountData);
        }
        let flag = *slice_index_get(src, 0);
        if flag != 0 && flag != 1 {
            return Err(DassiError::InvalidAccountData);
        }
        Ok(
            BorrowerAccount {
                is_initialized: flag == 1,
                acc_type: *slice_index_get(src, 1),
                is_active_loan: *slice_index_get(src, 2),
                borrower_main_acc_pubkey: Pubkey { bytes: copy_range(src, 3, 32) },
                credit_score: u64_from_le_bytes(slice_subrange(src, 35, 43)),
                active_loan_address: Pubkey { bytes: copy_range(src, 43, 32) },
            },
        )
    }

    /// Decodes a borrower record and demands that it be initialized.
    pub fn unpack(src: &[u8]) -> (r: Result<BorrowerAccount, DassiError>)
        ensures
            match r {
                Ok(d) => src@.len() == 75 && src@[0] == 1 && d@
                    == spec_unpack_borrower_account(src@) && d.wf() && d@.is_initialized,
                Err(e) => {
                    if src@.len() != 75 || (src@[0] != 0 && src@[0] != 1) {
                        e == DassiError::InvalidAccountData
                    } else {
                        e == DassiError::UninitializedAccount && src@[0] == 0
                    }
                },
            },
    {
        let d = BorrowerAccount::unpack_from_slice(src)?;
        if !d.is_initialized {
            return Err(DassiError::UninitializedAccount);
        }
        Ok(d)
    }

    /// Encodes a borrower record into a 75-byte span.
    pub fn pack_into_slice(&self, dst: &mut Vec<u8>) -> (r: Result<(), DassiError>)
        requires
            self.wf(),
        ensures
            match r {
                Ok(()) => old(dst)@.len() == 75 && final(dst)@ == spec_pack_borrower_account(
                    self@,
                ),
                Err(e) => e == DassiError::InvalidAccountData && old(dst)@.len() != 75 && final(dst)@ == old(dst)@,
            },
    {
        if dst.len() != 75 {
            return Err(DassiError::InvalidAccountData);
        }
        dst[0] = if self.is_initialized {
            1
        } else {
            0
        };
        dst[1] = self.acc_type;
        dst[2] = self.is_active_loan;
        write_range(dst, 3, self.borrower_main_acc_pubkey.bytes.as_slice());
        let b0 = u64_to_le_bytes(self.credit_score);
        write_range(dst, 35, b0.as_slice());
        write_range(dst, 43, self.active_loan_address.bytes.as_slice());
        proof {
            lemma_pack_borrower_account_len(self@);
            assert_seqs_equal!(dst@ == spec_pack_borrower_account(self@));
        }
        Ok(())
    }
}

// ---------------------------------------------------------------------------
// Guarantor record: 1 + 1 + 32 + 8 = 42 bytes
// ---------------------------------------------------------------------------
/// One guarantor's record.
#[derive(Debug, PartialEq, Eq)]
pub struct GuarantorAccount {
    pub is_initialized: bool,
    pub acc_type: u8,
    pub guarantor_main_acc_pubkey: Pubkey,
    pub approval_score: u64,
}

pub ghost struct GuarantorAccountView {
    pub is_initialized: bool,
    pub acc_type: u8,
    pub guarantor_main_acc_pubkey: Seq<u8>,
    pub approval_score: u64,
}

impl View for GuarantorAccount {
    type V = GuarantorAccountView;

    open spec fn view(&self) -> GuarantorAccountView {
        GuarantorAccountView {
            is_initialized: self.is_initialized,
            acc_type: self.acc_type,
            guarantor_main_acc_pubkey: self.guarantor_main_acc_pubkey@,
            approval_score: self.approval_score,
        }
    }
}

impl GuarantorAccountView {
    pub open spec fn wf(self) -> bool {
        self.guarantor_main_acc_pubkey.len() == 32
    }
}

impl GuarantorAccount {
    pub open spec fn wf(self) -> bool {
        self@.wf()
    }
}

pub open spec fn spec_unpack_guarantor_account(s: Seq<u8>) -> GuarantorAccountView
    recommends
        s.len() == 42,
{
    GuarantorAccountView {
        is_initialized: s[0] == 1,
        acc_type: s[1],
        guarantor_main_acc_pubkey: s.subrange(2, 34),
        approval_score: spec_u64_from_le_bytes(s.subrange(34, 42)),
    }
}

pub open spec fn spec_pack_guarantor_account(v: GuarantorAccountView) -> Seq<u8> {
    seq![
        if v.is_initialized {
            1u8
        } else {
            0u8
        },
        v.acc_type,
    ] + v.guarantor_main_acc_pubkey + spec_u64_to_le_bytes(v.approval_score)
}

pub proof fn lemma_pack_guarantor_account_len(v: GuarantorAccountView)
    requires
        v.wf(),
    ensures
        spec_pack_guarantor_account(v).len() == 42,
{
    lemma_auto_spec_u64_to_from_le_bytes();
}

/// A validly shaped 42-byte span (its leading flag is 0 or 1) survives a
/// decode/encode round trip unchanged.
pub proof fn lemma_guarantor_account_round_trip(s: Seq<u8>)
    requires
        s.len() == 42,
        s[0] == 0 || s[0] == 1,
    ensures
        spec_pack_guarantor_account(spec_unpack_guarantor_account(s)) == s,
{
    lemma_auto_spec_u64_to_from_le_bytes();
    assert_seqs_equal!(spec_pack_guarantor_account(spec_unpack_guarantor_account(s)) == s);
}

/// A well-formed guarantor view survives an encode/decode round trip.
pub proof fn lemma_guarantor_account_view_round_trip(v: GuarantorAccountView)
    requires
        v.wf(),
    ensures
        spec_unpack_guarantor_account(spec_pack_guarantor_account(v)) == v,
{
    lemma_auto_spec_u64_to_from_le_bytes();
    let s = spec_pack_guarantor_account(v);
    assert_seqs_equal!(s.subrange(2, 34) == v.guarantor_main_acc_pubkey);
    assert_seqs_equal!(s.subrange(34, 42) == spec_u64_to_le_bytes(v.approval_score));
}

impl GuarantorAccount {
    /// Decodes a guarantor record from a 42-byte span, without demanding
    /// that it be initialized.
    pub fn unpack_from_slice(src: &[u8]) -> (r: Result<GuarantorAccount, DassiError>)
        ensures
            match r {
                Ok(d) => src@.len() == 42 && (src@[0] == 0 || src@[0] == 1) && d@
                    == spec_unpack_guarantor_account(src@) && d.wf(),
                Err(e) => e == DassiError::InvalidAccountData && (src@.len() != 42 || (src@[0]
                    != 0 && src@[0] != 1)),
            },
    {
        if src.len() != 42 {
            return Err(DassiError::InvalidAccountData);
        }
        let flag = *slice_index_get(src, 0);
        if flag != 0 && flag != 1 {
            return Err(DassiError::InvalidAccountData);
        }
        Ok(
            GuarantorAccount {
                is_initialized: flag == 1,
                acc_type: *slice_index_get(src, 1),
                guarantor_main_acc_pubkey: Pubkey { bytes: copy_range(src, 2, 32) },
                approval_score: u64_from_le_bytes(slice_subrange(src, 34, 42)),
            },
        )
    }

    /// Encodes a guarantor record into a 42-byte span.
    pub fn pack_into_slice(&self, dst: &mut Vec<u8>) -> (r: Result<(), DassiError>)
        requires
            self.wf(),
        ensures
            match r {
                Ok(()) => old(dst)@.len() == 42 && final(dst)@ == spec_pack_guarantor_account(
                    self@,
                ),
                Err(e) => e == DassiError::InvalidAccountData && old(dst)@.len() != 42 && final(dst)@ == old(dst)@,
            },
    {
        if dst.len() != 42 {
            return Err(DassiError::InvalidAccountData);
        }
        dst[0] = if self.is_initialized {
            1
        } else {
            0
        };
        dst[1] = self.acc_type;
        write_range(dst, 2, self.guarantor_main_acc_pubkey.bytes.as_slice());
        let b0 = u64_to_le_bytes(self.approval_score);
        write_range(dst, 34, b0.as_slice());
        proof {
            lemma_pack_guarantor_account_len(self@);
            assert_seqs_equal!(dst@ == spec_pack_guarantor_account(self@));
        }
        Ok(())
    }
}

// ---------------------------------------------------------------------------
// Loan header: 1 + 32 + 32 + 8 + 8 + 8 + 8 + 8 + 8 + 1 + 1 + 1 = 116 bytes
// ---------------------------------------------------------------------------
/// The loan buffer's header record.
#[derive(Debug, PartialEq, Eq)]
pub struct LoanInfoAccDataHeader {
    pub acc_type: u8,
    pub borrower_main_acc_pubkey: Pubkey,
    pub guarantor_main_acc_pubkey: Pubkey,
    pub loan_approval_timestamp: u64,
    pub fundraising_period_ending_timestamp: u64,
    pub first_repayment_last_date_timestamp: u64,
    pub total_loan_amount: u64,
    pub total_amount_lended: u64,
    pub repaid_amount_by_borrower: u64,
    pub next_index_to_store_lender_data: u8,
    pub next_index_to_store_repayment_info: u8,
    pub number_of_emis_needed_to_repay_the_loan: u8,
}

pub ghost struct LoanInfoAccDataHeaderView {
    pub acc_type: u8,
    pub borrower_main_acc_pubkey: Seq<u8>,
    pub guarantor_main_acc_pubkey: Seq<u8>,
    pub loan_approval_timestamp: u64,
    pub fundraising_period_ending_timestamp: u64,
    pub first_repayment_last_date_timestamp: u64,
    pub total_loan_amount: u64,
    pub total_amount_lended: u64,
    pub repaid_amount_by_borrower: u64,
    pub next_index_to_store_lender_data: u8,
    pub next_index_to_store_repayment_info: u8,
    pub number_of_emis_needed_to_repay_the_loan: u8,
}

impl View for LoanInfoAccDataHeader {
    type V = LoanInfoAccDataHeaderView;

    open spec fn view(&self) -> LoanInfoAccDataHeaderView {
        LoanInfoAccDataHeaderView {
            acc_type: self.acc_type,
            borrower_main_acc_pubkey: self.borrower_main_acc_pubkey@,
            guarantor_main_acc_pubkey: self.guarantor_main_acc_pubkey@,
            loan_approval_timestamp: self.loan_approval_timestamp,
            fundraising_period_ending_timestamp: self.fundraising_period_ending_timestamp,
            first_repayment_last_date_timestamp: self.first_repayment_last_date_timestamp,
            total_loan_amount: self.total_loan_amount,
            total_amount_lended: self.total_amount_lended,
            repaid_amount_by_borrower: self.repaid_amount_by_borrower,
            next_index_to_store_lender_data: self.next_index_to_store_lender_data,
            next_index_to_store_repayment_info: self.next_index_to_store_repayment_info,
            number_of_emis_needed_to_repay_the_loan: self.number_of_emis_needed_to_repay_the_loan,
        }
    }
}

impl LoanInfoAccDataHeaderView {
    pub open spec fn wf(self) -> bool {
        self.borrower_main_acc_pubkey.len() == 32 && self.guarantor_main_acc_pubkey.len() == 32
    }
}

impl LoanInfoAccDataHeader {
    pub open spec fn wf(self) -> bool {
        self@.wf()
    }
}

pub open spec fn spec_unpack_loan_info_header(s: Seq<u8>) -> LoanInfoAccDataHeaderView
    recommends
        s.len() == 116,
{
    LoanInfoAccDataHeaderView {
        acc_type: s[0],
        borrower_main_acc_pubkey: s.subrange(1, 33),
        guarantor_main_acc_pubkey: s.subrange(33, 65),
        loan_approval_timestamp: spec_u64_from_le_bytes(s.subrange(65, 73)),
        fundraising_period_ending_timestamp: spec_u64_from_le_bytes(s.subrange(73, 81)),
        first_repayment_last_date_timestamp: spec_u64_from_le_bytes(s.subrange(81, 89)),
        total_loan_amount: spec_u64_from_le_bytes(s.subrange(89, 97)),
        total_amount_lended: spec_u64_from_le_bytes(s.subrange(97, 105)),
        repaid_amount_by_borrower: spec_u64_from_le_bytes(s.subrange(105, 113)),
        next_index_to_store_lender_data: s[113],
        next_index_to_store_repayment_info: s[114],
        number_of_emis_needed_to_repay_the_loan: s[115],
    }
}

pub open spec fn spec_pack_loan_info_header(v: LoanInfoAccDataHeaderView) -> Seq<u8> {
    seq![v.acc_type] + v.borrower_main_acc_pubkey + v.guarantor_main_acc_pubkey
        + spec_u64_to_le_bytes(v.loan_approval_timestamp) + spec_u64_to_le_bytes(
        v.fundraising_period_ending_timestamp,
    ) + spec_u64_to_le_bytes(v.first_repayment_last_date_timestamp) + spec_u64_to_le_bytes(
        v.total_loan_amount,
    ) + spec_u64_to_le_bytes(v.total_amount_lended) + spec_u64_to_le_bytes(
        v.repaid_amount_by_borrower,
    ) + seq![
        v.next_index_to_store_lender_data,
        v.next_index_to_store_repayment_info,
        v.number_of_emis_needed_to_repay_the_loan,
    ]
}

pub proof fn lemma_pack_loan_info_header_len(v: LoanInfoAccDataHeaderView)
    requires
        v.wf(),
    ensures
        spec_pack_loan_info_header(v).len() == 116,
{
    lemma_auto_spec_u64_to_from_le_bytes();
}

/// Any 116-byte span survives a decode/encode round trip unchanged.
pub proof fn lemma_loan_info_header_round_trip(s: Seq<u8>)
    requires
        s.len() == 116,
    ensures
        spec_pack_loan_info_header(spec_unpack_loan_info_header(s)) == s,
{
    lemma_auto_spec_u64_to_from_le_bytes();
    assert_seqs_equal!(spec_pack_loan_info_header(spec_unpack_loan_info_header(s)) == s);
}

/// A well-formed loan-header view survives an encode/decode round trip.
pub proof fn lemma_loan_info_header_view_round_trip(v: LoanInfoAccDataHeaderView)
    requires
        v.wf(),
    ensures
        spec_unpack_loan_info_header(spec_pack_loan_info_header(v)) == v,
{
    lemma_auto_spec_u64_to_from_le_bytes();
    let s = spec_pack_loan_info_header(v);
    assert_seqs_equal!(s.subrange(1, 33) == v.borrower_main_acc_pubkey);
    assert_seqs_equal!(s.subrange(33, 65) == v.guarantor_main_acc_pubkey);
    assert_seqs_equal!(s.subrange(65, 73) == spec_u64_to_le_bytes(v.loan_approval_timestamp));
    assert_seqs_equal!(s.subrange(73, 81) == spec_u64_to_le_bytes(
        v.fundraising_period_ending_timestamp,
    ));
    assert_seqs_equal!(s.subrange(81, 89) == spec_u64_to_le_bytes(
        v.first_repayment_last_date_timestamp,
    ));
    assert_seqs_equal!(s.subrange(89, 97) == spec_u64_to_le_bytes(v.total_loan_amount));
    assert_seqs_equal!(s.subrange(97, 105) == spec_u64_to_le_bytes(v.total_amount_lended));
    assert_seqs_equal!(s.subrange(105, 113) == spec_u64_to_le_bytes(
        v.repaid_amount_by_borrower,
    ));
}

/// Decodes a loan header from a 116-byte span and checks its type tag.
pub fn unpack_to_loan_info_header(input: &[u8]) -> (r: Result<LoanInfoAccDataHeader, DassiError>)
    ensures
        match r {
            Ok(d) => input@.len() == 116 && input@[0] == 5 && d@ == spec_unpack_loan_info_header(
                input@,
            ) && d.wf(),
            Err(e) => {
                if input@.len() != 116 {
                    e == DassiError::InvalidAccountData
                } else {
                    e == DassiError::ExpectedAccountTypeMismatched && input@[0] != 5
                }
            },
        },
{
    let d = unpack_unchecked_to_loan_info_header(input)?;
    if d.acc_type != 5 {
        return Err(DassiError::ExpectedAccountTypeMismatched);
    }
    Ok(d)
}

/// Decodes a loan header from a 116-byte span without checking the tag.
pub fn unpack_unchecked_to_loan_info_header(input: &[u8]) -> (r: Result<
    LoanInfoAccDataHeader,
    DassiError,
>)
    ensures
        match r {
            Ok(d) => input@.len() == 116 && d@ == spec_unpack_loan_info_header(input@) && d.wf(),
            Err(e) => e == DassiError::InvalidAccountData && input@.len() != 116,
        },
{
    if input.len() != 116 {
        return Err(DassiError::InvalidAccountData);
    }
    Ok(
        LoanInfoAccDataHeader {
            acc_type: *slice_index_get(input, 0),
            borrower_main_acc_pubkey: Pubkey { bytes: copy_range(input, 1, 32) },
            guarantor_main_acc_pubkey: Pubkey { bytes: copy_range(input, 33, 32) },
            loan_approval_timestamp: u64_from_le_bytes(slice_subrange(input, 65, 73)),
            fundraising_period_ending_timestamp: u64_from_le_bytes(
                slice_subrange(input, 73, 81),
            ),
            first_repayment_last_date_timestamp: u64_from_le_bytes(
                slice_subrange(input, 81, 89),
            ),
            total_loan_amount: u64_from_le_bytes(slice_subrange(input, 89, 97)),
            total_amount_lended: u64_from_le_bytes(slice_subrange(input, 97, 105)),
            repaid_amount_by_borrower: u64_from_le_bytes(slice_subrange(input, 105, 113)),
            next_index_to_store_lender_data: *slice_index_get(input, 113),
            next_index_to_store_repayment_info: *slice_index_get(input, 114),
            number_of_emis_needed_to_repay_the_loan: *slice_index_get(input, 115),
        },
    )
}

/// Encodes a loan header into a 116-byte span.
pub fn pack_to_loan_info_header(src: LoanInfoAccDataHeader, dst: &mut Vec<u8>) -> (r: Result<
    (),
    DassiError,
>)
    requires
        src.wf(),
    ensures
        match r {
            Ok(()) => old(dst)@.len() == 116 && final(dst)@ == spec_pack_loan_info_header(src@),
            Err(e) => e == DassiError::InvalidAccountData && old(dst)@.len() != 116 && final(dst)@ == old(dst)@,
        },
{
    if dst.len() != 116 {
        return Err(DassiError::InvalidAccountData);
    }
    dst[0] = src.acc_type;
    write_range(dst, 1, src.borrower_main_acc_pubkey.bytes.as_slice());
    write_range(dst, 33, src.guarantor_main_acc_pubkey.bytes.as_slice());
    let b0 = u64_to_le_bytes(src.loan_approval_timestamp);
    write_range(dst, 65, b0.as_slice());
    let b1 = u64_to_le_bytes(src.fundraising_period_ending_timestamp);
    write_range(dst, 73, b1.as_slice());
    let b2 = u64_to_le_bytes(src.first_repayment_last_date_timestamp);
    write_range(dst, 81, b2.as_slice());
    let b3 = u64_to_le_bytes(src.total_loan_amount);
    write_range(dst, 89, b3.as_slice());
    let b4 = u64_to_le_bytes(src.total_amount_lended);
    write_range(dst, 97, b4.as_slice());
    let b5 = u64_to_le_bytes(src.repaid_amount_by_borrower);
    write_range(dst, 105, b5.as_slice());
    dst[113] = src.next_index_to_store_lender_data;
    dst[114] = src.next_index_to_store_repayment_info;
    dst[115] = src.number_of_emis_needed_to_repay_the_loan;
    proof {
        lemma_pack_loan_info_header_len(src@);
        assert_seqs_equal!(dst@ == spec_pack_loan_info_header(src@));
    }
    Ok(())
}

// ---------------------------------------------------------------------------
// Contribution-log entry: 32 + 1 + 4 + 8 = 45 bytes
// ---------------------------------------------------------------------------
/// One contribution to a loan, as appended to the contribution log.
#[derive(Debug, PartialEq, Eq)]
pub struct LoanInfoAccLendersData {
    pub lender_main_acc_pubkey: Pubkey,
    pub lenders_data_storage_acc_number: u8,
    pub lender_id: u32,
    pub lent_amount: u64,
}

pub ghost struct LoanInfoAccLendersDataView {
    pub lender_main_acc_pubkey: Seq<u8>,
    pub lenders_data_storage_acc_number: u8,
    pub lender_id: u32,
    pub lent_amount: u64,
}

impl View for LoanInfoAccLendersData {
    type V = LoanInfoAccLendersDataView;

    open spec fn view(&self) -> LoanInfoAccLendersDataView {
        LoanInfoAccLendersDataView {
            lender_main_acc_pubkey: self.lender_main_acc_pubkey@,
            lenders_data_storage_acc_number: self.lenders_data_storage_acc_number,
            lender_id: self.lender_id,
            lent_amount: self.lent_amount,
        }
    }
}

impl LoanInfoAccLendersDataView {
    pub open spec fn wf(self) -> bool {
        self.lender_main_acc_pubkey.len() == 32
    }
}

impl LoanInfoAccLendersData {
    pub open spec fn wf(self) -> bool {
        self@.wf()
    }
}

pub open spec fn spec_unpack_loan_info_acc_lender_data(s: Seq<u8>) -> LoanInfoAccLendersDataView
    recommends
        s.len() == 45,
{
    LoanInfoAccLendersDataView {
        lender_main_acc_pubkey: s.subrange(0, 32),
        lenders_data_storage_acc_number: s[32],
        lender_id: spec_u32_from_le_bytes(s.subrange(33, 37)),
        lent_amount: spec_u64_from_le_bytes(s.subrange(37, 45)),
    }
}

pub open spec fn spec_pack_loan_info_acc_lender_data(v: LoanInfoAccLendersDataView) -> Seq<u8> {
    v.lender_main_acc_pubkey + seq![v.lenders_data_storage_acc_number] + spec_u32_to_le_bytes(
        v.lender_id,
    ) + spec_u64_to_le_bytes(v.lent_amount)
}

pub proof fn lemma_pack_loan_info_acc_lender_data_len(v: LoanInfoAccLendersDataView)
    requires
        v.wf(),
    ensures
        spec_pack_loan_info_acc_lender_data(v).len() == 45,
{
    lemma_auto_spec_u32_to_from_le_bytes();
    lemma_auto_spec_u64_to_from_le_bytes();
}

/// Any 45-byte span survives a decode/encode round trip unchanged.
pub proof fn lemma_loan_info_acc_lender_data_round_trip(s: Seq<u8>)
    requires
        s.len() == 45,
    ensures
        spec_pack_loan_info_acc_lender_data(spec_unpack_loan_info_acc_lender_data(s)) == s,
{
    lemma_auto_spec_u32_to_from_le_bytes();
    lemma_auto_spec_u64_to_from_le_bytes();
    assert_seqs_equal!(spec_pack_loan_info_acc_lender_data(
        spec_unpack_loan_info_acc_lender_data(s),
    ) == s);
}

/// A well-formed contribution view survives an encode/decode round trip.
pub proof fn lemma_loan_info_acc_lender_data_view_round_trip(v: LoanInfoAccLendersDataView)
    requires
        v.wf(),
    ensures
        spec_unpack_loan_info_acc_lender_data(spec_pack_loan_info_acc_lender_data(v)) == v,
{
    lemma_auto_spec_u32_to_from_le_bytes();
    lemma_auto_spec_u64_to_from_le_bytes();
    let s = spec_pack_loan_info_acc_lender_data(v);
    assert_seqs_equal!(s.subrange(0, 32) == v.lender_main_acc_pubkey);
    assert_seqs_equal!(s.subrange(33, 37) == spec_u32_to_le_bytes(v.lender_id));
    assert_seqs_equal!(s.subrange(37, 45) == spec_u64_to_le_bytes(v.lent_amount));
}

/// Decodes one contribution-log entry from a 45-byte span.
pub fn unpack_to_loan_info_acc_lender_data(input: &[u8]) -> (r: Result<
    LoanInfoAccLendersData,
    DassiError,
>)
    ensures
        match r {
            Ok(d) => input@.len() == 45 && d@ == spec_unpack_loan_info_acc_lender_data(input@)
                && d.wf(),
            Err(e) => e == DassiError::InvalidAccountData && input@.len() != 45,
        },
{
    if input.len() != 45 {
        return Err(DassiError::InvalidAccountData);
    }
    Ok(
        LoanInfoAccLendersData {
            lender_main_acc_pubkey: Pubkey { bytes: copy_range(input, 0, 32) },
            lenders_data_storage_acc_number: *slice_index_get(input, 32),
            lender_id: u32_from_le_bytes(slice_subrange(input, 33, 37)),
            lent_amount: u64_from_le_bytes(slice_subrange(input, 37, 45)),
        },
    )
}

/// Encodes one contribution-log entry into a 45-byte span.
pub fn pack_to_loan_info_acc_lender_data(src: LoanInfoAccLendersData, dst: &mut Vec<u8>) -> (r:
    Result<(), DassiError>)
    requires
        src.wf(),
    ensures
        match r {
            Ok(()) => old(dst)@.len() == 45 && final(dst)@ == spec_pack_loan_info_acc_lender_data(
                src@,
            ),
            Err(e) => e == DassiError::InvalidAccountData && old(dst)@.len() != 45 && final(dst)@ == old(dst)@,
        },
{
    if dst.len() != 45 {
        return Err(DassiError::InvalidAccountData);
    }
    write_range(dst, 0, src.lender_main_acc_pubkey.bytes.as_slice());
    dst[32] = src.lenders_data_storage_acc_number;
    let b0 = u32_to_le_bytes(src.lender_id);
    write_range(dst, 33, b0.as_slice());
    let b1 = u64_to_le_bytes(src.lent_amount);
    write_range(dst, 37, b1.as_slice());
    proof {
        lemma_pack_loan_info_acc_lender_data_len(src@);
        assert_seqs_equal!(dst@ == spec_pack_loan_info_acc_lender_data(src@));
    }
    Ok(())
}

// ---------------------------------------------------------------------------
// Repayment-log entry: 8 + 8 = 16 bytes
// ---------------------------------------------------------------------------
/// One repayment installment, as appended to the repayment log.
#[derive(Debug, PartialEq, Eq)]
pub struct LoanInfoAccRepaymentData {
    pub emi_repayment_timestamp: u64,
    pub emi_repayment_amount: u64,
}

pub ghost struct LoanInfoAccRepaymentDataView {
    pub emi_repayment_timestamp: u64,
    pub emi_repayment_amount: u64,
}

impl View for LoanInfoAccRepaymentData {
    type V = LoanInfoAccRepaymentDataView;

    open spec fn view(&self) -> LoanInfoAccRepaymentDataView {
        LoanInfoAccRepaymentDataView {
            emi_repayment_timestamp: self.emi_repayment_timestamp,
            emi_repayment_amount: self.emi_repayment_amount,
        }
    }
}

pub open spec fn spec_unpack_loan_info_acc_repayment_data(s: Seq<u8>) -> LoanInfoAccRepaymentDataView
    recommends
        s.len() == 16,
{
    LoanInfoAccRepaymentDataView {
        emi_repayment_timestamp: spec_u64_from_le_bytes(s.subrange(0, 8)),
        emi_repayment_amount: spec_u64_from_le_bytes(s.subrange(8, 16)),
    }
}

pub open spec fn spec_pack_loan_info_acc_repayment_data(v: LoanInfoAccRepaymentDataView) -> Seq<
    u8,
> {
    spec_u64_to_le_bytes(v.emi_repayment_timestamp) + spec_u64_to_le_bytes(
        v.emi_repayment_amount,
    )
}

pub proof fn lemma_pack_loan_info_acc_repayment_data_len(v: LoanInfoAccRepaymentDataView)
    ensures
        spec_pack_loan_info_acc_repayment_data(v).len() == 16,
{
    lemma_auto_spec_u64_to_from_le_bytes();
}

/// Any 16-byte span survives a decode/encode round trip unchanged.
pub proof fn lemma_loan_info_acc_repayment_data_round_trip(s: Seq<u8>)
    requires
        s.len() == 16,
    ensures
        spec_pack_loan_info_acc_repayment_data(spec_unpack_loan_info_acc_repayment_data(s)) == s,
{
    lemma_auto_spec_u64_to_from_le_bytes();
    assert_seqs_equal!(spec_pack_loan_info_acc_repayment_data(
        spec_unpack_loan_info_acc_repayment_data(s),
    ) == s);
}

/// A repayment view survives an encode/decode round trip.
pub proof fn lemma_loan_info_acc_repayment_data_view_round_trip(v: LoanInfoAccRepaymentDataView)
    ensures
        spec_unpack_loan_info_acc_repayment_data(spec_pack_loan_info_acc_repayment_data(v)) == v,
{
    lemma_auto_spec_u64_to_from_le_bytes();
    let s = spec_pack_loan_info_acc_repayment_data(v);
    assert_seqs_equal!(s.subrange(0, 8) == spec_u64_to_le_bytes(v.emi_repayment_timestamp));
    assert_seqs_equal!(s.subrange(8, 16) == spec_u64_to_le_bytes(v.emi_repayment_amount));
}

/// Decodes one repayment-log entry from a 16-byte span.
pub fn unpack_to_loan_info_acc_repayment_data(input: &[u8]) -> (r: Result<
    LoanInfoAccRepaymentData,
    DassiError,
>)
    ensures
        match r {
            Ok(d) => input@.len() == 16 && d@ == spec_unpack_loan_info_acc_repayment_data(
                input@,
            ),
            Err(e) => e == DassiError::InvalidAccountData && input@.len() != 16,
        },
{
    if input.len() != 16 {
        return Err(DassiError::InvalidAccountData);
    }
    Ok(
        LoanInfoAccRepaymentData {
            emi_repayment_timestamp: u64_from_le_bytes(slice_subrange(input, 0, 8)),
            emi_repayment_amount: u64_from_le_bytes(slice_subrange(input, 8, 16)),
        },
    )
}

/// Encodes one repayment-log entry into a 16-byte span.
pub fn pack_to_loan_info_acc_repayment_data(src: LoanInfoAccRepaymentData, dst: &mut Vec<u8>) -> (r:
    Result<(), DassiError>)
    ensures
        match r {
            Ok(()) => old(dst)@.len() == 16 && final(dst)@
                == spec_pack_loan_info_acc_repayment_data(src@),
            Err(e) => e == DassiError::InvalidAccountData && old(dst)@.len() != 16 && final(dst)@ == old(dst)@,
        },
{
    if dst.len() != 16 {
        return Err(DassiError::InvalidAccountData);
    }
    let b0 = u64_to_le_bytes(src.emi_repayment_timestamp);
    write_range(dst, 0, b0.as_slice());
    let b1 = u64_to_le_bytes(src.emi_repayment_amount);
    write_range(dst, 8, b1.as_slice());
    proof {
        lemma_pack_loan_info_acc_repayment_data_len(src@);
        assert_seqs_equal!(dst@ == spec_pack_loan_info_acc_repayment_data(src@));
    }
    Ok(())
}

} // verus!
