//! The accounting engine: the operations that validate a call's
//! preconditions against the buffers' current contents and then mutate
//! them.  Every operation validates everything before writing anything, so
//! a rejected call leaves every buffer exactly as it found it.
//!
//! The host performs the call's outside work — signature checks, reading
//! the vault's balance before and after a transfer — and hands each
//! operation plain values: buffer contents, 32-byte identities, the
//! observed transfer amount, and the clock reading.

use crate::buffer::{copy_range, write_range, zero_vec};
use crate::error::DassiError;
use crate::keys::{
    address_with_seed_of, expected_airdrop_storage_key, pda_marker_suffixed, Pubkey,
};
use crate::ledger::{lemma_store_slot, read_slot, slot_at, store_slot, write_slot};
use crate::loan::{
    contribution_at, contributions_amount_sum, lemma_contribution_write_frames,
    lemma_contributions_sum_congruence, lemma_header_write_frames, lemma_repayment_write_frames,
    loan_conserved, loan_header_of, repayment_at,
};
use crate::state::{
    pack_to_loan_info_header, unpack_to_loan_info_header, BorrowerAccount, GuarantorAccount,
    LenderAccountDataView, LoanInfoAccDataHeaderView,
};
use vstd::bytes::{spec_u64_from_le_bytes, spec_u64_to_le_bytes, u64_from_le_bytes, u64_to_le_bytes};
use vstd::prelude::*;
use vstd::seq_lib::*;

verus! {

/// The smallest single contribution a lender may make: ten whole coins.
pub const MIN_LENDING_AMOUNT: u64 = 10_000_000_000;

/// What one airdrop call credits.
pub const AIRDROP_AMOUNT: u64 = 500_000_000_000;

/// The lifetime airdrop cap per user.
pub const MAX_AIRDROP_AMOUNT: u64 = 2_500_000_000_000;

/// The engine's operations.
pub struct Processor;

// ---------------------------------------------------------------------------
// AirdropUsersWithDassiTestCoins
// ---------------------------------------------------------------------------
/// Why an `AirdropUsersWithDassiTestCoins` call is rejected, if it is.
/// The storage buffer holds one little-endian `u64`, the cumulative
/// airdropped amount, and must live at the address derived from the user's
/// key; derivation is refused only for a marker-suffixed program identity.
pub open spec fn airdrop_rejection(
    storage: Seq<u8>,
    user_key: Seq<u8>,
    storage_key: Seq<u8>,
    program_id: Seq<u8>,
) -> Option<DassiError> {
    if pda_marker_suffixed(program_id) || storage_key != address_with_seed_of(
        user_key,
        "DassiFinanceAirdrop"@,
        program_id,
    ) {
        Some(DassiError::AccountMismatched)
    } else if storage.len() != 8 {
        Some(DassiError::DataSizeNotMatched)
    } else if spec_u64_from_le_bytes(storage) >= MAX_AIRDROP_AMOUNT {
        Some(DassiError::UserAlreadyAirdroped)
    } else {
        None
    }
}

// ---------------------------------------------------------------------------
// InitializeLendersLedger
// ---------------------------------------------------------------------------
/// Why an `InitializeLendersStorageAccount` call is rejected, if it is.
pub open spec fn init_lenders_rejection(lenders: Seq<u8>) -> Option<DassiError> {
    if lenders.len() != 3_250_002 {
        Some(DassiError::DataSizeNotMatched)
    } else if lenders[0] != 0 {
        Some(DassiError::LendersStorageDataAlreadyInitialized)
    } else {
        None
    }
}

// ---------------------------------------------------------------------------
// WithdrawCollectedLoanFunds
// ---------------------------------------------------------------------------
/// Why a `WithdrawCollectedLoanFunds` call is rejected, if it is.
pub open spec fn withdraw_collected_rejection(loan: Seq<u8>, borrower_key: Seq<u8>) -> Option<
    DassiError,
> {
    if loan.len() != 9916 {
        Some(DassiError::DataSizeNotMatched)
    } else {
        let h = loan_header_of(loan);
        if h.acc_type != 5 {
            Some(DassiError::ExpectedAccountTypeMismatched)
        } else if h.total_amount_lended < h.total_loan_amount {
            Some(DassiError::CollectedLoanFundsAlreadyWithdrawn)
        } else if h.borrower_main_acc_pubkey != borrower_key {
            Some(DassiError::BorrowerAccountMismatched)
        } else {
            None
        }
    }
}

// ---------------------------------------------------------------------------
// WithdrawLenderFreeWalletFunds
// ---------------------------------------------------------------------------
/// Why a `WithdrawLenderFreeWalletFunds` call is rejected, if it is.
pub open spec fn withdraw_lender_rejection(lenders: Seq<u8>, lender_key: Seq<u8>, id: u32) -> Option<
    DassiError,
> {
    if lenders.len() != 3_250_002 {
        Some(DassiError::DataSizeNotMatched)
    } else if lenders[0] != 3 {
        Some(DassiError::ExpectedAccountTypeMismatched)
    } else if lenders[1] != 1 {
        Some(DassiError::ExpectedLendersAccNumNotMatched)
    } else if id > 49_999 {
        Some(DassiError::InvalidLenderIdInput)
    } else {
        let s = slot_at(lenders, id as int);
        if !(s.is_account_active == 1 && s.lender_main_acc_pubkey == lender_key) {
            Some(DassiError::InvalidLenderIdInput)
        } else if s.amount_to_withdraw_or_lend > s.total_unique_lending_amount {
            Some(DassiError::AmountOverflow)
        } else {
            None
        }
    }
}

/// The state change of a successful `WithdrawLenderFreeWalletFunds` call:
/// lender `id`'s withdrawable balance, `w`, is paid out and reset, its
/// outstanding unique principal shrinks by `w`, and nothing else moves.
pub open spec fn withdraw_lender_transition(pre: Seq<u8>, post: Seq<u8>, id: u32, w: u64) -> bool {
    let s = slot_at(pre, id as int);
    &&& post.len() == pre.len()
    &&& post[0] == pre[0]
    &&& post[1] == pre[1]
    &&& w == s.amount_to_withdraw_or_lend
    &&& slot_at(post, id as int) == (LenderAccountDataView {
        total_unique_lending_amount: (s.total_unique_lending_amount - w) as u64,
        amount_to_withdraw_or_lend: 0u64,
        ..s
    })
    &&& forall|j: int| 0 <= j < 50_000 && j != id ==> slot_at(post, j) == slot_at(pre, j)
}

/// Withdrawing is idempotent: a second back-to-back withdrawal pays zero
/// and leaves every slot as the first left it.
pub proof fn lemma_withdraw_twice_credits_once(
    pre: Seq<u8>,
    mid: Seq<u8>,
    post: Seq<u8>,
    id: u32,
    w1: u64,
    w2: u64,
)
    requires
        id < 50_000,
        withdraw_lender_transition(pre, mid, id, w1),
        withdraw_lender_transition(mid, post, id, w2),
    ensures
        w2 == 0,
        forall|j: int| 0 <= j < 50_000 ==> slot_at(post, j) == slot_at(mid, j),
        post[0] == mid[0],
        post[1] == mid[1],
{
    assert(slot_at(mid, id as int).amount_to_withdraw_or_lend == 0);
    assert(slot_at(post, id as int) == slot_at(mid, id as int));
}

// ---------------------------------------------------------------------------
// LendToBorrower
// ---------------------------------------------------------------------------
/// Why a `LendToBorrower` call is rejected, if it is.  `amount` is the
/// transfer delta the host observed on the vault.
pub open spec fn lend_rejection(
    loan: Seq<u8>,
    lenders: Seq<u8>,
    lender_key: Seq<u8>,
    id: u32,
    amount: u64,
    now: u64,
) -> Option<DassiError> {
    if loan.len() != 9916 || lenders.len() != 3_250_002 {
        Some(DassiError::DataSizeNotMatched)
    } else if amount < MIN_LENDING_AMOUNT {
        Some(DassiError::ExpectedAmountMismatch)
    } else if lenders[0] != 3 {
        Some(DassiError::ExpectedAccountTypeMismatched)
    } else if lenders[1] != 1 {
        Some(DassiError::ExpectedLendersAccNumNotMatched)
    } else if id > 49_999 {
        Some(DassiError::InvalidLenderIdInput)
    } else {
        let s = slot_at(lenders, id as int);
        if s.is_account_active == 1 && s.lender_main_acc_pubkey != lender_key {
            Some(DassiError::InvalidLenderIdInput)
        } else if s.total_lending_amount + amount > u128::MAX {
            Some(DassiError::AmountOverflow)
        } else if s.total_unique_lending_amount + amount > u64::MAX {
            Some(DassiError::AmountOverflow)
        } else {
            let h = loan_header_of(loan);
            if h.acc_type != 5 {
                Some(DassiError::ExpectedAccountTypeMismatched)
            } else if h.fundraising_period_ending_timestamp < now && h.total_amount_lended
                < h.total_loan_amount {
                Some(DassiError::FundraisingPeriodExpired)
            } else if h.total_amount_lended + amount > h.total_loan_amount {
                Some(DassiError::BorrowerAlreadyFunded)
            } else if h.next_index_to_store_lender_data >= 200 {
                Some(DassiError::CapacityExceeded)
            } else {
                None
            }
        }
    }
}

/// The state change of a successful `LendToBorrower` call: the vault kept
/// `amount`; the contribution log gains one entry at the cursor; the
/// header's lent total and cursor grow; lender `id`'s slot is activated,
/// bound to the caller, and its lifetime accumulators grow by `amount`.
/// Nothing else moves.
pub open spec fn lend_transition(
    pre_loan: Seq<u8>,
    post_loan: Seq<u8>,
    pre_lenders: Seq<u8>,
    post_lenders: Seq<u8>,
    lender_key: Seq<u8>,
    id: u32,
    amount: u64,
) -> bool {
    let h = loan_header_of(pre_loan);
    let n = h.next_index_to_store_lender_data as int;
    let s = slot_at(pre_lenders, id as int);
    &&& post_loan.len() == pre_loan.len()
    &&& loan_header_of(post_loan) == (LoanInfoAccDataHeaderView {
        total_amount_lended: (h.total_amount_lended + amount) as u64,
        next_index_to_store_lender_data: (h.next_index_to_store_lender_data + 1) as u8,
        ..h
    })
    &&& contribution_at(post_loan, n) == (crate::state::LoanInfoAccLendersDataView {
        lender_main_acc_pubkey: lender_key,
        lenders_data_storage_acc_number: 1u8,
        lender_id: id,
        lent_amount: amount,
    })
    &&& forall|j: int|
        0 <= j < 200 && j != n ==> contribution_at(post_loan, j) == contribution_at(pre_loan, j)
    &&& forall|j: int| 0 <= j < 50 ==> repayment_at(post_loan, j) == repayment_at(pre_loan, j)
    &&& post_lenders.len() == pre_lenders.len()
    &&& post_lenders[0] == pre_lenders[0]
    &&& post_lenders[1] == pre_lenders[1]
    &&& slot_at(post_lenders, id as int) == (LenderAccountDataView {
        is_account_active: 1u8,
        lender_main_acc_pubkey: lender_key,
        total_lending_amount: (s.total_lending_amount + amount) as u128,
        total_unique_lending_amount: (s.total_unique_lending_amount + amount) as u64,
        ..s
    })
    &&& forall|j: int|
        0 <= j < 50_000 && j != id ==> slot_at(post_lenders, j) == slot_at(pre_lenders, j)
}

/// Conservation: a successful lend keeps the header's lent total equal to
/// the sum of the logged contributions, and grows that sum by exactly the
/// amount the vault kept.
pub proof fn lemma_lend_preserves_conservation(
    pre_loan: Seq<u8>,
    post_loan: Seq<u8>,
    pre_lenders: Seq<u8>,
    post_lenders: Seq<u8>,
    lender_key: Seq<u8>,
    id: u32,
    amount: u64,
)
    requires
        loan_header_of(pre_loan).next_index_to_store_lender_data < 200,
        loan_header_of(pre_loan).total_amount_lended + amount <= u64::MAX,
        lend_transition(pre_loan, post_loan, pre_lenders, post_lenders, lender_key, id, amount),
    ensures
        contributions_amount_sum(
            post_loan,
            loan_header_of(post_loan).next_index_to_store_lender_data as int,
        ) == contributions_amount_sum(
            pre_loan,
            loan_header_of(pre_loan).next_index_to_store_lender_data as int,
        ) + amount,
        loan_conserved(pre_loan) ==> loan_conserved(post_loan),
{
    let n = loan_header_of(pre_loan).next_index_to_store_lender_data as int;
    lemma_contributions_sum_congruence(pre_loan, post_loan, n);
    assert(contributions_amount_sum(post_loan, n + 1) == contributions_amount_sum(post_loan, n)
        + contribution_at(post_loan, n).lent_amount);
}

/// The base of the conservation argument: a loan whose log is empty and
/// whose lent total is zero is conserved, as a freshly initialized loan
/// is.
pub proof fn lemma_empty_loan_conserved(loan: Seq<u8>)
    requires
        loan_header_of(loan).next_index_to_store_lender_data == 0,
        loan_header_of(loan).total_amount_lended == 0,
    ensures
        loan_conserved(loan),
{
}

/// Cap enforcement: a lend that is not rejected leaves the lent total no
/// greater than the requested total.
pub proof fn lemma_lend_cap_enforced(
    pre_loan: Seq<u8>,
    post_loan: Seq<u8>,
    pre_lenders: Seq<u8>,
    post_lenders: Seq<u8>,
    lender_key: Seq<u8>,
    id: u32,
    amount: u64,
    now: u64,
)
    requires
        lend_rejection(pre_loan, pre_lenders, lender_key, id, amount, now) is None,
        lend_transition(pre_loan, post_loan, pre_lenders, post_lenders, lender_key, id, amount),
    ensures
        loan_header_of(post_loan).total_amount_lended <= loan_header_of(
            post_loan,
        ).total_loan_amount,
{
}

// ---------------------------------------------------------------------------
// PayEMIforLoan
// ---------------------------------------------------------------------------
/// A lender slot after one EMI share lands on it: the share joins the
/// withdrawable balance and both lifetime lending accumulators.
pub open spec fn emi_slot_update(s: LenderAccountDataView, share: u64) -> LenderAccountDataView {
    LenderAccountDataView {
        total_lending_amount: (s.total_lending_amount + share) as u128,
        total_unique_lending_amount: (s.total_unique_lending_amount + share) as u64,
        amount_to_withdraw_or_lend: (s.amount_to_withdraw_or_lend + share) as u64,
        ..s
    }
}

/// Crediting `share` to the slot of `entry`'s lender stays within the
/// accumulators' ranges.
pub open spec fn emi_step_fits(
    lenders: Seq<u8>,
    entry: crate::state::LoanInfoAccLendersDataView,
    share: u64,
) -> bool {
    let s = slot_at(lenders, entry.lender_id as int);
    &&& s.total_lending_amount + share <= u128::MAX
    &&& s.total_unique_lending_amount + share <= u64::MAX
    &&& s.amount_to_withdraw_or_lend + share <= u64::MAX
}

/// The ledger after the first `k` contribution entries of `loan` have each
/// received `share`.
pub open spec fn distribute_prefix(lenders: Seq<u8>, loan: Seq<u8>, k: int, share: u64) -> Seq<
    u8,
>
    decreases k,
{
    if k <= 0 {
        lenders
    } else {
        let cur = distribute_prefix(lenders, loan, k - 1, share);
        let entry = contribution_at(loan, k - 1);
        store_slot(
            cur,
            entry.lender_id as int,
            emi_slot_update(slot_at(cur, entry.lender_id as int), share),
        )
    }
}

/// The first failure, if any, while crediting `share` to the first `k`
/// entries in order: an out-of-range lender id, or an accumulator that
/// would overflow.
pub open spec fn distribute_error(lenders: Seq<u8>, loan: Seq<u8>, k: int, share: u64) -> Option<
    DassiError,
>
    decreases k,
{
    if k <= 0 {
        None
    } else {
        let prev = distribute_error(lenders, loan, k - 1, share);
        if prev is Some {
            prev
        } else {
            let cur = distribute_prefix(lenders, loan, k - 1, share);
            let entry = contribution_at(loan, k - 1);
            if entry.lender_id > 49_999 {
                Some(DassiError::InvalidLenderIdInput)
            } else if !emi_step_fits(cur, entry, share) {
                Some(DassiError::AmountOverflow)
            } else {
                None
            }
        }
    }
}

/// While no step has failed, the distribution keeps the ledger's length
/// and two header bytes.
pub proof fn lemma_distribute_prefix_props(lenders: Seq<u8>, loan: Seq<u8>, k: int, share: u64)
    requires
        lenders.len() == 3_250_002,
        distribute_error(lenders, loan, k, share) is None,
    ensures
        distribute_prefix(lenders, loan, k, share).len() == 3_250_002,
        distribute_prefix(lenders, loan, k, share)[0] == lenders[0],
        distribute_prefix(lenders, loan, k, share)[1] == lenders[1],
    decreases k,
{
    if k > 0 {
        lemma_distribute_prefix_props(lenders, loan, k - 1, share);
        let cur = distribute_prefix(lenders, loan, k - 1, share);
        let entry = contribution_at(loan, k - 1);
        lemma_store_slot(
            cur,
            entry.lender_id as int,
            emi_slot_update(slot_at(cur, entry.lender_id as int), share),
        );
    }
}

/// A failure at some step stays the verdict of every longer prefix.
pub proof fn lemma_distribute_error_persists(
    lenders: Seq<u8>,
    loan: Seq<u8>,
    k: int,
    n: int,
    share: u64,
)
    requires
        0 <= k <= n,
        distribute_error(lenders, loan, k, share) is Some,
    ensures
        distribute_error(lenders, loan, n, share) == distribute_error(lenders, loan, k, share),
    decreases n,
{
    if n > k {
        lemma_distribute_error_persists(lenders, loan, k, n - 1, share);
    }
}

/// A lender none of the first `k` entries names keeps its slot through the
/// distribution.
pub proof fn lemma_distribute_untouched(
    lenders: Seq<u8>,
    loan: Seq<u8>,
    k: int,
    share: u64,
    id: int,
)
    requires
        lenders.len() == 3_250_002,
        distribute_error(lenders, loan, k, share) is None,
        0 <= id < 50_000,
        forall|j: int| 0 <= j < k ==> contribution_at(loan, j).lender_id != id,
    ensures
        slot_at(distribute_prefix(lenders, loan, k, share), id) == slot_at(lenders, id),
    decreases k,
{
    if k > 0 {
        lemma_distribute_untouched(lenders, loan, k - 1, share, id);
        lemma_distribute_prefix_props(lenders, loan, k - 1, share);
        let cur = distribute_prefix(lenders, loan, k - 1, share);
        let entry = contribution_at(loan, k - 1);
        lemma_store_slot(
            cur,
            entry.lender_id as int,
            emi_slot_update(slot_at(cur, entry.lender_id as int), share),
        );
    }
}

/// The distribution floor: when the `n` logged contributions carry
/// pairwise distinct lender ids, each of those lenders' withdrawable
/// balances grows by exactly `share`, and so do both lifetime
/// accumulators.
pub proof fn lemma_emi_each_contributor_credited(
    lenders: Seq<u8>,
    loan: Seq<u8>,
    n: int,
    share: u64,
)
    requires
        lenders.len() == 3_250_002,
        0 <= n,
        distribute_error(lenders, loan, n, share) is None,
        forall|j1: int, j2: int|
            0 <= j1 < j2 < n ==> contribution_at(loan, j1).lender_id != contribution_at(
                loan,
                j2,
            ).lender_id,
    ensures
        forall|j: int|
            0 <= j < n ==> slot_at(
                distribute_prefix(lenders, loan, n, share),
                contribution_at(loan, j).lender_id as int,
            ) == emi_slot_update(slot_at(lenders, contribution_at(loan, j).lender_id as int), share),
    decreases n,
{
    if n > 0 {
        lemma_emi_each_contributor_credited(lenders, loan, n - 1, share);
        lemma_distribute_prefix_props(lenders, loan, n - 1, share);
        lemma_distribute_ids_in_range(lenders, loan, n, share);
        let cur = distribute_prefix(lenders, loan, n - 1, share);
        let post = distribute_prefix(lenders, loan, n, share);
        let entry = contribution_at(loan, n - 1);
        let id = entry.lender_id as int;
        lemma_store_slot(cur, id, emi_slot_update(slot_at(cur, id), share));
        lemma_distribute_untouched(lenders, loan, n - 1, share, id);
        assert(slot_at(cur, id) == slot_at(lenders, id));
        assert(slot_at(post, id) == emi_slot_update(slot_at(lenders, id), share));
        assert forall|j: int| 0 <= j < n implies slot_at(
            post,
            contribution_at(loan, j).lender_id as int,
        ) == emi_slot_update(
            slot_at(lenders, contribution_at(loan, j).lender_id as int),
            share,
        ) by {
            let idj = contribution_at(loan, j).lender_id as int;
            if j < n - 1 {
                assert(contribution_at(loan, j).lender_id != entry.lender_id);
                assert(0 <= idj < 50_000);
                assert(slot_at(post, idj) == slot_at(cur, idj));
            }
        }
    }
}

/// How many of the first `n` contribution entries name lender `id`.
pub open spec fn entry_count_for(loan: Seq<u8>, n: int, id: int) -> int
    decreases n,
{
    if n <= 0 {
        0
    } else {
        entry_count_for(loan, n - 1, id) + if contribution_at(loan, n - 1).lender_id == id {
            1int
        } else {
            0int
        }
    }
}

/// Per-slot accounting of the distribution, with repeated ids allowed: a
/// lender named by `entry_count_for` of the entries gains exactly that
/// many shares on its withdrawable balance and on both lifetime
/// accumulators, and keeps its identity; a lender named by none keeps its
/// slot.
pub proof fn lemma_emi_slot_credited_per_entry(
    lenders: Seq<u8>,
    loan: Seq<u8>,
    n: int,
    share: u64,
    id: int,
)
    requires
        lenders.len() == 3_250_002,
        0 <= n,
        distribute_error(lenders, loan, n, share) is None,
        0 <= id < 50_000,
    ensures
        ({
            let post = slot_at(distribute_prefix(lenders, loan, n, share), id);
            let pre = slot_at(lenders, id);
            let c = entry_count_for(loan, n, id);
            &&& post.amount_to_withdraw_or_lend == pre.amount_to_withdraw_or_lend + c * share
            &&& post.total_unique_lending_amount == pre.total_unique_lending_amount + c * share
            &&& post.total_lending_amount == pre.total_lending_amount + c * share
            &&& post.is_account_active == pre.is_account_active
            &&& post.lender_main_acc_pubkey == pre.lender_main_acc_pubkey
        }),
    decreases n,
{
    if n > 0 {
        lemma_emi_slot_credited_per_entry(lenders, loan, n - 1, share, id);
        lemma_distribute_prefix_props(lenders, loan, n - 1, share);
        let cur = distribute_prefix(lenders, loan, n - 1, share);
        let entry = contribution_at(loan, n - 1);
        let eid = entry.lender_id as int;
        lemma_store_slot(cur, eid, emi_slot_update(slot_at(cur, eid), share));
        let c = entry_count_for(loan, n - 1, id);
        if eid == id {
            assert((c + 1) * share == c * share + share) by (nonlinear_arith);
        }
    }
}

/// While no step has failed, every entry so far names a lender in range.
pub proof fn lemma_distribute_ids_in_range(lenders: Seq<u8>, loan: Seq<u8>, k: int, share: u64)
    requires
        distribute_error(lenders, loan, k, share) is None,
    ensures
        forall|j: int| 0 <= j < k ==> contribution_at(loan, j).lender_id <= 49_999,
    decreases k,
{
    if k > 0 {
        lemma_distribute_ids_in_range(lenders, loan, k - 1, share);
    }
}

/// The undistributed remainder: splitting `amount` into `n` floor shares
/// hands out `n * (amount / n)` in all, and what stays behind is less than
/// `n`.
pub proof fn lemma_emi_remainder(amount: u64, n: u64)
    requires
        n > 0,
    ensures
        n * ((amount as int) / (n as int)) <= amount,
        amount - n * ((amount as int) / (n as int)) < n,
{
    vstd::arithmetic::div_mod::lemma_fundamental_div_mod(amount as int, n as int);
    vstd::arithmetic::div_mod::lemma_mod_bound(amount as int, n as int);
}

/// Why a `PayEMIforLoan` call is rejected, if it is.  `amount` is the
/// transfer delta the host observed on the vault.
pub open spec fn pay_emi_rejection(loan: Seq<u8>, lenders: Seq<u8>, amount: u64, now: u64) -> Option<
    DassiError,
> {
    if loan.len() != 9916 || lenders.len() != 3_250_002 {
        Some(DassiError::DataSizeNotMatched)
    } else {
        let h = loan_header_of(loan);
        if h.acc_type != 5 {
            Some(DassiError::ExpectedAccountTypeMismatched)
        } else if h.number_of_emis_needed_to_repay_the_loan == 0 {
            Some(DassiError::AmountOverflow)
        } else if (h.total_loan_amount as int) / (h.number_of_emis_needed_to_repay_the_loan as int)
            > amount {
            Some(DassiError::ExpectedAmountMismatch)
        } else if h.repaid_amount_by_borrower >= h.total_loan_amount {
            Some(DassiError::LoanAlreadyPaid)
        } else if h.repaid_amount_by_borrower + amount > u64::MAX {
            Some(DassiError::AmountOverflow)
        } else if h.next_index_to_store_repayment_info >= 50 {
            Some(DassiError::CapacityExceeded)
        } else if lenders[0] != 3 {
            Some(DassiError::ExpectedAccountTypeMismatched)
        } else if lenders[1] != 1 {
            Some(DassiError::ExpectedLendersAccNumNotMatched)
        } else if h.next_index_to_store_lender_data == 0 {
            Some(DassiError::AmountOverflow)
        } else if h.next_index_to_store_lender_data > 200 {
            Some(DassiError::CapacityExceeded)
        } else {
            let share = ((amount as int) / (h.next_index_to_store_lender_data as int)) as u64;
            distribute_error(lenders, loan, h.next_index_to_store_lender_data as int, share)
        }
    }
}

/// The state change of a successful `PayEMIforLoan` call: the vault kept
/// `amount`; the repayment log gains one entry at the cursor; the header's
/// repaid total and cursor grow; every logged contribution's lender is
/// credited one floor share per entry, in log order.  Nothing else moves.
pub open spec fn pay_emi_transition(
    pre_loan: Seq<u8>,
    post_loan: Seq<u8>,
    pre_lenders: Seq<u8>,
    post_lenders: Seq<u8>,
    amount: u64,
    now: u64,
) -> bool {
    let h = loan_header_of(pre_loan);
    let n = h.next_index_to_store_lender_data as int;
    let share = ((amount as int) / n) as u64;
    let k = h.next_index_to_store_repayment_info as int;
    &&& post_loan.len() == pre_loan.len()
    &&& loan_header_of(post_loan) == (LoanInfoAccDataHeaderView {
        repaid_amount_by_borrower: (h.repaid_amount_by_borrower + amount) as u64,
        next_index_to_store_repayment_info: (h.next_index_to_store_repayment_info + 1) as u8,
        ..h
    })
    &&& repayment_at(post_loan, k) == (crate::state::LoanInfoAccRepaymentDataView {
        emi_repayment_timestamp: now,
        emi_repayment_amount: amount,
    })
    &&& forall|j: int|
        0 <= j < 50 && j != k ==> repayment_at(post_loan, j) == repayment_at(pre_loan, j)
    &&& forall|j: int| 0 <= j < 200 ==> contribution_at(post_loan, j) == contribution_at(
        pre_loan,
        j,
    )
    &&& post_lenders == distribute_prefix(pre_lenders, pre_loan, n, share)
}

// ---------------------------------------------------------------------------
// InitializeLoan
// ---------------------------------------------------------------------------
/// Why an `InitializeLoanInfoAccount` call is rejected, if it is.
pub open spec fn init_loan_rejection(
    loan: Seq<u8>,
    borrower: Seq<u8>,
    num_days_left_for_first_repayment: u16,
    num_days_for_fundraising: u16,
    now: u64,
) -> Option<DassiError> {
    if loan.len() != 9916 {
        Some(DassiError::DataSizeNotMatched)
    } else if loan[0] != 0 {
        Some(DassiError::LoanInfoDataAlreadyInitialized)
    } else if borrower.len() != 75 || (borrower[0] != 0 && borrower[0] != 1) {
        Some(DassiError::InvalidAccountData)
    } else if borrower[0] == 0 {
        Some(DassiError::UninitializedAccount)
    } else {
        let b = crate::state::spec_unpack_borrower_account(borrower)        ;
        if b.is_active_loan != 0 {
            Some(DassiError::BorrowerAlreadyHaveActiveLoan)
        } else if b.acc_type != 2 {
            Some(DassiError::ExpectedAccountTypeMismatched)
        } else if now + (num_days_for_fundraising as int) * 86400 > u64::MAX {
            Some(DassiError::AmountOverflow)
        } else if num_days_left_for_first_repayment + 5 > u16::MAX {
            Some(DassiError::AmountOverflow)
        } else {
            None
        }
    }
}

impl Processor {
    /// Writes a fresh loan header into an uninitialized loan buffer and
    /// marks the borrower's record as carrying an active loan at the loan
    /// buffer's address.
    pub fn initialize_loan_info_account(
        loan_data: &mut Vec<u8>,
        borrower_data: &mut Vec<u8>,
        guarantor_main_key: &Pubkey,
        borrower_main_key: &Pubkey,
        loan_info_acc_key: &Pubkey,
        num_days_left_for_first_repayment_input: u16,
        num_emis_needed_to_repay_the_loan_input: u16,
        num_days_for_fundraising_input: u16,
        total_loan_amount_input: u64,
        now: u64,
    ) -> (r: Result<(), DassiError>)
        requires
            guarantor_main_key.wf(),
            borrower_main_key.wf(),
            loan_info_acc_key.wf(),
        ensures
            match r {
                Ok(()) => {
                    let pre_loan = old(loan_data)@;
                    let pre_borrower = old(borrower_data)@;
                    &&& init_loan_rejection(
                        pre_loan,
                        pre_borrower,
                        num_days_left_for_first_repayment_input,
                        num_days_for_fundraising_input,
                        now,
                    ) is None
                    &&& final(borrower_data)@ == crate::state::spec_pack_borrower_account(
                        crate::state::BorrowerAccountView {
                            is_active_loan: 1u8,
                            active_loan_address: loan_info_acc_key@,
                            ..crate::state::spec_unpack_borrower_account(pre_borrower)
                        },
                    )
                    &&& final(loan_data)@.len() == 9916
                    &&& loan_header_of(final(loan_data)@) == (LoanInfoAccDataHeaderView {
                        acc_type: 5u8,
                        borrower_main_acc_pubkey: borrower_main_key@,
                        guarantor_main_acc_pubkey: guarantor_main_key@,
                        loan_approval_timestamp: now,
                        fundraising_period_ending_timestamp: (now + (
                        num_days_for_fundraising_input as int) * 86400) as u64,
                        first_repayment_last_date_timestamp: ((
                        num_days_left_for_first_repayment_input + 5) * 86400) as u64,
                        total_loan_amount: total_loan_amount_input,
                        number_of_emis_needed_to_repay_the_loan: (
                        num_emis_needed_to_repay_the_loan_input as u8),
                        ..loan_header_of(pre_loan)
                    })
                    &&& forall|j: int|
                        0 <= j < 200 ==> contribution_at(final(loan_data)@, j)
                            == contribution_at(pre_loan, j)
                    &&& forall|j: int|
                        0 <= j < 50 ==> repayment_at(final(loan_data)@, j) == repayment_at(
                            pre_loan,
                            j,
                        )
                },
                Err(e) => init_loan_rejection(
                    old(loan_data)@,
                    old(borrower_data)@,
                    num_days_left_for_first_repayment_input,
                    num_days_for_fundraising_input,
                    now,
                ) == Some(e) && final(loan_data)@ == old(loan_data)@ && final(borrower_data)@
                    == old(borrower_data)@,
            },
    {
        if loan_data.len() != 9916 {
            return Err(DassiError::DataSizeNotMatched);
        }
        let t0 = *vstd::slice::slice_index_get(loan_data.as_slice(), 0);
        if t0 != 0 {
            return Err(DassiError::LoanInfoDataAlreadyInitialized);
        }
        let mut b = BorrowerAccount::unpack(borrower_data.as_slice())?;
        if b.is_active_loan != 0 {
            return Err(DassiError::BorrowerAlreadyHaveActiveLoan);
        }
        if b.acc_type != 2 {
            return Err(DassiError::ExpectedAccountTypeMismatched);
        }
        let fundraising_seconds: u64 = (num_days_for_fundraising_input as u64) * 86400;
        if now > u64::MAX - fundraising_seconds {
            return Err(DassiError::AmountOverflow);
        }
        if num_days_left_for_first_repayment_input > u16::MAX - 5 {
            return Err(DassiError::AmountOverflow);
        }
        let first_repayment_ts: u64 = ((num_days_left_for_first_repayment_input + 5) as u64)
            * 86400;
        let hb = copy_range(loan_data.as_slice(), 0, 116);
        let mut h = match crate::state::unpack_unchecked_to_loan_info_header(hb.as_slice()) {
            Ok(h) => h,
            Err(_) => {
                proof {
                    assert(false);
                }
                return Err(DassiError::InvalidAccountData);
            },
        };
        h.acc_type = crate::state::AccTypes::LoanInfoAcc.tag();
        h.borrower_main_acc_pubkey = borrower_main_key.clone_key();
        h.guarantor_main_acc_pubkey = guarantor_main_key.clone_key();
        h.loan_approval_timestamp = now;
        h.fundraising_period_ending_timestamp = now + fundraising_seconds;
        h.first_repayment_last_date_timestamp = first_repayment_ts;
        h.total_loan_amount = total_loan_amount_input;
        h.number_of_emis_needed_to_repay_the_loan = (num_emis_needed_to_repay_the_loan_input
            as u8);
        b.is_active_loan = 1;
        b.active_loan_address = loan_info_acc_key.clone_key();
        match b.pack_into_slice(borrower_data) {
            Ok(()) => {},
            Err(_) => {
                proof {
                    assert(false);
                }
            },
        }
        let ghost hv = h@;
        let mut out = zero_vec(116);
        match pack_to_loan_info_header(h, &mut out) {
            Ok(()) => {},
            Err(_) => {
                proof {
                    assert(false);
                }
            },
        }
        proof {
            crate::state::lemma_pack_loan_info_header_len(hv);
        }
        write_range(loan_data, 0, out.as_slice());
        proof {
            assert(final(loan_data)@.subrange(0, 116) =~= crate::state::spec_pack_loan_info_header(
                hv,
            ));
            crate::state::lemma_loan_info_header_view_round_trip(hv);
            lemma_header_write_frames(old(loan_data)@, final(loan_data)@);
        }
        Ok(())
    }

    /// Records one repayment installment: the host has already moved
    /// `amount_received` from the borrower into the vault and confirmed
    /// the delta; this appends a repayment-log entry, grows the repaid
    /// total, and credits one floor share of the installment to every
    /// logged contribution's lender.
    #[verifier::loop_isolation(false)]
    pub fn process_pay_emi(
        loan_data: &mut Vec<u8>,
        lenders_data: &mut Vec<u8>,
        amount_received: u64,
        now: u64,
    ) -> (r: Result<(), DassiError>)
        ensures
            match r {
                Ok(()) => pay_emi_rejection(
                    old(loan_data)@,
                    old(lenders_data)@,
                    amount_received,
                    now,
                ) is None && pay_emi_transition(
                    old(loan_data)@,
                    final(loan_data)@,
                    old(lenders_data)@,
                    final(lenders_data)@,
                    amount_received,
                    now,
                ),
                Err(e) => pay_emi_rejection(
                    old(loan_data)@,
                    old(lenders_data)@,
                    amount_received,
                    now,
                ) == Some(e) && final(loan_data)@ == old(loan_data)@ && final(lenders_data)@
                    == old(lenders_data)@,
            },
    {
        if loan_data.len() != 9916 || lenders_data.len() != 3_250_002 {
            return Err(DassiError::DataSizeNotMatched);
        }
        let hb = copy_range(loan_data.as_slice(), 0, 116);
        let mut h = unpack_to_loan_info_header(hb.as_slice())?;
        if h.number_of_emis_needed_to_repay_the_loan == 0 {
            return Err(DassiError::AmountOverflow);
        }
        if h.total_loan_amount / (h.number_of_emis_needed_to_repay_the_loan as u64)
            > amount_received {
            return Err(DassiError::ExpectedAmountMismatch);
        }
        if h.repaid_amount_by_borrower >= h.total_loan_amount {
            return Err(DassiError::LoanAlreadyPaid);
        }
        if h.repaid_amount_by_borrower > u64::MAX - amount_received {
            return Err(DassiError::AmountOverflow);
        }
        if h.next_index_to_store_repayment_info >= 50 {
            return Err(DassiError::CapacityExceeded);
        }
        let b0 = *vstd::slice::slice_index_get(lenders_data.as_slice(), 0);
        if b0 != 3 {
            return Err(DassiError::ExpectedAccountTypeMismatched);
        }
        let b1 = *vstd::slice::slice_index_get(lenders_data.as_slice(), 1);
        if b1 != 1 {
            return Err(DassiError::ExpectedLendersAccNumNotMatched);
        }
        if h.next_index_to_store_lender_data == 0 {
            return Err(DassiError::AmountOverflow);
        }
        if h.next_index_to_store_lender_data > 200 {
            return Err(DassiError::CapacityExceeded);
        }
        let n: usize = h.next_index_to_store_lender_data as usize;
        let share: u64 = amount_received / (h.next_index_to_store_lender_data as u64);
        let ghost pre_loan = loan_data@;
        let ghost pre_lenders = lenders_data@;
        // Credit the shares on a scratch copy first: a failure part way
        // through must leave the real ledger untouched.
        let mut work = copy_range(lenders_data.as_slice(), 0, 3_250_002);
        proof {
            assert(work@ =~= pre_lenders);
        }
        let mut k: usize = 0;
        while k < n
            invariant
                0 <= k <= n,
                n <= 200,
                share == ((amount_received as int) / (n as int)) as u64,
                pre_loan.len() == 9916,
                pre_lenders.len() == 3_250_002,
                loan_data@ == pre_loan,
                lenders_data@ == pre_lenders,
                work@ == distribute_prefix(pre_lenders, pre_loan, k as int, share),
                work@.len() == 3_250_002,
                distribute_error(pre_lenders, pre_loan, k as int, share) is None,
            decreases n - k,
        {
            proof {
                assert((k as int) * 45 <= 199 * 45 && (k as int) * 45 >= 0) by (nonlinear_arith)
                    requires
                        0 <= k <= 199,
                ;
            }
            proof {
                lemma_distribute_prefix_props(pre_lenders, pre_loan, k as int, share);
            }
            let si: usize = 116 + k * 45;
            let eb = copy_range(loan_data.as_slice(), si, 45);
            let entry = match crate::state::unpack_to_loan_info_acc_lender_data(eb.as_slice()) {
                Ok(e) => e,
                Err(_) => vstd::pervasive::unreached(),
            };
            proof {
                assert(entry@ == contribution_at(pre_loan, k as int));
            }
            if entry.lender_id > 49_999 {
                proof {
                    lemma_distribute_error_persists(
                        pre_lenders,
                        pre_loan,
                        k as int + 1,
                        n as int,
                        share,
                    );
                }
                return Err(DassiError::InvalidLenderIdInput);
            }
            let mut s = read_slot(&work, entry.lender_id);
            if s.total_lending_amount > u128::MAX - (share as u128) {
                proof {
                    lemma_distribute_error_persists(
                        pre_lenders,
                        pre_loan,
                        k as int + 1,
                        n as int,
                        share,
                    );
                }
                return Err(DassiError::AmountOverflow);
            }
            if s.total_unique_lending_amount > u64::MAX - share {
                proof {
                    lemma_distribute_error_persists(
                        pre_lenders,
                        pre_loan,
                        k as int + 1,
                        n as int,
                        share,
                    );
                }
                return Err(DassiError::AmountOverflow);
            }
            if s.amount_to_withdraw_or_lend > u64::MAX - share {
                proof {
                    lemma_distribute_error_persists(
                        pre_lenders,
                        pre_loan,
                        k as int + 1,
                        n as int,
                        share,
                    );
                }
                return Err(DassiError::AmountOverflow);
            }
            s.total_lending_amount = s.total_lending_amount + (share as u128);
            s.total_unique_lending_amount = s.total_unique_lending_amount + share;
            s.amount_to_withdraw_or_lend = s.amount_to_withdraw_or_lend + share;
            write_slot(&mut work, entry.lender_id, s);
            k = k + 1;
        }
        // All checks passed: commit the repayment entry, the header, and
        // the credited ledger.
        let rk: usize = h.next_index_to_store_repayment_info as usize;
        proof {
            assert((rk as int) * 16 <= 49 * 16 && (rk as int) * 16 >= 0) by (nonlinear_arith)
                requires
                    0 <= rk <= 49,
            ;
        }
        let rentry = crate::state::LoanInfoAccRepaymentData {
            emi_repayment_timestamp: now,
            emi_repayment_amount: amount_received,
        };
        let ghost rv = rentry@;
        let mut rb = zero_vec(16);
        match crate::state::pack_to_loan_info_acc_repayment_data(rentry, &mut rb) {
            Ok(()) => {},
            Err(_) => {
                proof {
                    assert(false);
                }
            },
        }
        proof {
            crate::state::lemma_pack_loan_info_acc_repayment_data_len(rv);
        }
        let rsi: usize = 9116 + rk * 16;
        write_range(loan_data, rsi, rb.as_slice());
        let ghost loan_mid = loan_data@;
        proof {
            assert(loan_mid.subrange(9116 + 16 * (rk as int), 9116 + 16 * (rk as int) + 16)
                =~= crate::state::spec_pack_loan_info_acc_repayment_data(rv));
            crate::state::lemma_loan_info_acc_repayment_data_view_round_trip(rv);
            lemma_repayment_write_frames(pre_loan, loan_mid, rk as int);
        }
        h.repaid_amount_by_borrower = h.repaid_amount_by_borrower + amount_received;
        h.next_index_to_store_repayment_info = h.next_index_to_store_repayment_info + 1;
        let ghost hv = h@;
        let mut out = zero_vec(116);
        match pack_to_loan_info_header(h, &mut out) {
            Ok(()) => {},
            Err(_) => {
                proof {
                    assert(false);
                }
            },
        }
        proof {
            crate::state::lemma_pack_loan_info_header_len(hv);
        }
        write_range(loan_data, 0, out.as_slice());
        proof {
            assert(final(loan_data)@.subrange(0, 116) =~= crate::state::spec_pack_loan_info_header(
                hv,
            ));
            crate::state::lemma_loan_info_header_view_round_trip(hv);
            lemma_header_write_frames(loan_mid, final(loan_data)@);
            assert(repayment_at(final(loan_data)@, rk as int) == rv);
        }
        *lenders_data = work;
        Ok(())
    }

    /// Records one contribution: the host has already moved
    /// `amount_received` from the lender into the vault and confirmed the
    /// delta; this activates or checks the lender's slot, appends a
    /// contribution-log entry, and grows the header's lent total.
    pub fn process_lend_to_borrower(
        loan_data: &mut Vec<u8>,
        lenders_data: &mut Vec<u8>,
        lender_main_key: &Pubkey,
        amount_received: u64,
        lender_id_input: u32,
        now: u64,
    ) -> (r: Result<(), DassiError>)
        requires
            lender_main_key.wf(),
        ensures
            match r {
                Ok(()) => lend_rejection(
                    old(loan_data)@,
                    old(lenders_data)@,
                    lender_main_key@,
                    lender_id_input,
                    amount_received,
                    now,
                ) is None && lend_transition(
                    old(loan_data)@,
                    final(loan_data)@,
                    old(lenders_data)@,
                    final(lenders_data)@,
                    lender_main_key@,
                    lender_id_input,
                    amount_received,
                ),
                Err(e) => lend_rejection(
                    old(loan_data)@,
                    old(lenders_data)@,
                    lender_main_key@,
                    lender_id_input,
                    amount_received,
                    now,
                ) == Some(e) && final(loan_data)@ == old(loan_data)@ && final(lenders_data)@
                    == old(lenders_data)@,
            },
    {
        if loan_data.len() != 9916 || lenders_data.len() != 3_250_002 {
            return Err(DassiError::DataSizeNotMatched);
        }
        if amount_received < MIN_LENDING_AMOUNT {
            return Err(DassiError::ExpectedAmountMismatch);
        }
        let b0 = *vstd::slice::slice_index_get(lenders_data.as_slice(), 0);
        if b0 != 3 {
            return Err(DassiError::ExpectedAccountTypeMismatched);
        }
        let b1 = *vstd::slice::slice_index_get(lenders_data.as_slice(), 1);
        if b1 != 1 {
            return Err(DassiError::ExpectedLendersAccNumNotMatched);
        }
        if lender_id_input > 49_999 {
            return Err(DassiError::InvalidLenderIdInput);
        }
        let mut s = read_slot(lenders_data, lender_id_input);
        match s.activate_if_needed(lender_main_key) {
            Ok(()) => {},
            Err(e) => {
                return Err(e);
            },
        }
        if s.total_lending_amount > u128::MAX - (amount_received as u128) {
            return Err(DassiError::AmountOverflow);
        }
        if s.total_unique_lending_amount > u64::MAX - amount_received {
            return Err(DassiError::AmountOverflow);
        }
        s.total_lending_amount = s.total_lending_amount + (amount_received as u128);
        s.total_unique_lending_amount = s.total_unique_lending_amount + amount_received;
        let hb = copy_range(loan_data.as_slice(), 0, 116);
        let mut h = unpack_to_loan_info_header(hb.as_slice())?;
        if h.fundraising_period_ending_timestamp < now && h.total_amount_lended
            < h.total_loan_amount {
            return Err(DassiError::FundraisingPeriodExpired);
        }
        if amount_received > h.total_loan_amount || h.total_amount_lended > h.total_loan_amount
            - amount_received {
            return Err(DassiError::BorrowerAlreadyFunded);
        }
        if h.next_index_to_store_lender_data >= 200 {
            return Err(DassiError::CapacityExceeded);
        }
        let n: usize = h.next_index_to_store_lender_data as usize;
        proof {
            assert((n as int) * 45 <= 199 * 45) by (nonlinear_arith)
                requires
                    n <= 199,
            ;
            assert((n as int) * 45 >= 0) by (nonlinear_arith)
                requires
                    n >= 0,
            ;
        }
        let entry = crate::state::LoanInfoAccLendersData {
            lender_main_acc_pubkey: lender_main_key.clone_key(),
            lenders_data_storage_acc_number: 1,
            lender_id: lender_id_input,
            lent_amount: amount_received,
        };
        h.total_amount_lended = h.total_amount_lended + amount_received;
        h.next_index_to_store_lender_data = h.next_index_to_store_lender_data + 1;
        // All checks passed: commit, first to the lender ledger, then to
        // the loan buffer.
        write_slot(lenders_data, lender_id_input, s);
        let ghost ev = entry@;
        let mut eb = zero_vec(45);
        match crate::state::pack_to_loan_info_acc_lender_data(entry, &mut eb) {
            Ok(()) => {},
            Err(_) => {
                proof {
                    assert(false);
                }
            },
        }
        proof {
            crate::state::lemma_pack_loan_info_acc_lender_data_len(ev);
        }
        let si: usize = 116 + n * 45;
        write_range(loan_data, si, eb.as_slice());
        let ghost loan_mid = loan_data@;
        proof {
            assert(loan_mid.subrange(116 + 45 * (n as int), 116 + 45 * (n as int) + 45)
                =~= crate::state::spec_pack_loan_info_acc_lender_data(ev));
            crate::state::lemma_loan_info_acc_lender_data_view_round_trip(ev);
            lemma_contribution_write_frames(old(loan_data)@, loan_mid, n as int);
        }
        let ghost hv = h@;
        let mut out = zero_vec(116);
        match pack_to_loan_info_header(h, &mut out) {
            Ok(()) => {},
            Err(_) => {
                proof {
                    assert(false);
                }
            },
        }
        proof {
            crate::state::lemma_pack_loan_info_header_len(hv);
        }
        write_range(loan_data, 0, out.as_slice());
        proof {
            assert(final(loan_data)@.subrange(0, 116) =~= crate::state::spec_pack_loan_info_header(
                hv,
            ));
            crate::state::lemma_loan_info_header_view_round_trip(hv);
            lemma_header_write_frames(loan_mid, final(loan_data)@);
            assert(contribution_at(final(loan_data)@, n as int) == ev);
        }
        Ok(())
    }

    /// Stamps a zeroed lender ledger buffer with its type tag and shard
    /// number.
    pub fn process_initialize_lenders_storage_account(lenders_data: &mut Vec<u8>) -> (r: Result<
        (),
        DassiError,
    >)
        ensures
            match r {
                Ok(()) => init_lenders_rejection(old(lenders_data)@) is None && final(lenders_data)@ == old(lenders_data)@.update(0, 3u8).update(1, 1u8),
                Err(e) => init_lenders_rejection(old(lenders_data)@) == Some(e) && final(lenders_data)@ == old(lenders_data)@,
            },
    {
        if lenders_data.len() != 3_250_002 {
            return Err(DassiError::DataSizeNotMatched);
        }
        let b0 = *vstd::slice::slice_index_get(lenders_data.as_slice(), 0);
        if b0 != 0 {
            return Err(DassiError::LendersStorageDataAlreadyInitialized);
        }
        lenders_data[0] = crate::state::AccTypes::LendersAcc.tag();
        lenders_data[1] = 1;
        Ok(())
    }

    /// Creates a borrower record: binds it to the caller and gives it the
    /// starting credit score.
    pub fn process_initialize_borrower_storage_account(
        borrower_data: &mut Vec<u8>,
        borrower_main_key: &Pubkey,
    ) -> (r: Result<(), DassiError>)
        requires
            borrower_main_key.wf(),
        ensures
            match r {
                Ok(()) => {
                    let pre = old(borrower_data)@;
                    &&& pre.len() == 75
                    &&& pre[0] == 0
                    &&& final(borrower_data)@ == crate::state::spec_pack_borrower_account(
                        crate::state::BorrowerAccountView {
                            is_initialized: true,
                            acc_type: 2u8,
                            borrower_main_acc_pubkey: borrower_main_key@,
                            credit_score: 500_000_000_000u64,
                            ..crate::state::spec_unpack_borrower_account(pre)
                        },
                    )
                },
                Err(e) => {
                    let pre = old(borrower_data)@;
                    &&& final(borrower_data)@ == pre
                    &&& if pre.len() != 75 || (pre[0] != 0 && pre[0] != 1) {
                        e == DassiError::InvalidAccountData
                    } else if pre[0] == 1 {
                        e == DassiError::BorrowerAccountAlreadyInitialized
                    } else {
                        false
                    }
                },
            },
    {
        let mut d = BorrowerAccount::unpack_from_slice(borrower_data.as_slice())?;
        if d.is_initialized {
            return Err(DassiError::BorrowerAccountAlreadyInitialized);
        }
        d.is_initialized = true;
        d.acc_type = crate::state::AccTypes::BorrowerAcc.tag();
        d.borrower_main_acc_pubkey = borrower_main_key.clone_key();
        d.credit_score = 500_000_000_000;
        match d.pack_into_slice(borrower_data) {
            Ok(()) => Ok(()),
            Err(_) => {
                proof {
                    assert(false);
                }
                Err(DassiError::InvalidAccountData)
            },
        }
    }

    /// Creates a guarantor record: binds it to the caller and gives it the
    /// starting approval score.
    pub fn process_initialize_guarantor_storage_account(
        guarantor_data: &mut Vec<u8>,
        guarantor_main_key: &Pubkey,
    ) -> (r: Result<(), DassiError>)
        requires
            guarantor_main_key.wf(),
        ensures
            match r {
                Ok(()) => {
                    let pre = old(guarantor_data)@;
                    &&& pre.len() == 42
                    &&& pre[0] == 0
                    &&& final(guarantor_data)@ == crate::state::spec_pack_guarantor_account(
                        crate::state::GuarantorAccountView {
                            is_initialized: true,
                            acc_type: 4u8,
                            guarantor_main_acc_pubkey: guarantor_main_key@,
                            approval_score: 500_000_000_000u64,
                        },
                    )
                },
                Err(e) => {
                    let pre = old(guarantor_data)@;
                    &&& final(guarantor_data)@ == pre
                    &&& if pre.len() != 42 || (pre[0] != 0 && pre[0] != 1) {
                        e == DassiError::InvalidAccountData
                    } else if pre[0] == 1 {
                        e == DassiError::GuarantorAccountAlreadyInitialized
                    } else {
                        false
                    }
                },
            },
    {
        let mut d = GuarantorAccount::unpack_from_slice(guarantor_data.as_slice())?;
        if d.is_initialized {
            return Err(DassiError::GuarantorAccountAlreadyInitialized);
        }
        d.is_initialized = true;
        d.acc_type = crate::state::AccTypes::GuarantorAcc.tag();
        d.guarantor_main_acc_pubkey = guarantor_main_key.clone_key();
        d.approval_score = 500_000_000_000;
        match d.pack_into_slice(guarantor_data) {
            Ok(()) => Ok(()),
            Err(_) => {
                proof {
                    assert(false);
                }
                Err(DassiError::InvalidAccountData)
            },
        }
    }

    /// Pays the fully raised loan amount out to the borrower: returns the
    /// amount the host must transfer from the vault and zeroes the header's
    /// lent total so a second withdrawal pays nothing.
    pub fn process_withdraw_collected_loan_funds(
        loan_data: &mut Vec<u8>,
        borrower_main_key: &Pubkey,
    ) -> (r: Result<u64, DassiError>)
        ensures
            match r {
                Ok(w) => {
                    let pre = old(loan_data)@;
                    let h = loan_header_of(pre);
                    &&& withdraw_collected_rejection(pre, borrower_main_key@) is None
                    &&& w == h.total_amount_lended
                    &&& final(loan_data)@.len() == pre.len()
                    &&& loan_header_of(final(loan_data)@) == (LoanInfoAccDataHeaderView {
                        total_amount_lended: 0u64,
                        ..h
                    })
                    &&& forall|j: int|
                        0 <= j < 200 ==> contribution_at(final(loan_data)@, j)
                            == contribution_at(pre, j)
                    &&& forall|j: int|
                        0 <= j < 50 ==> repayment_at(final(loan_data)@, j) == repayment_at(
                            pre,
                            j,
                        )
                },
                Err(e) => withdraw_collected_rejection(old(loan_data)@, borrower_main_key@)
                    == Some(e) && final(loan_data)@ == old(loan_data)@,
            },
    {
        if loan_data.len() != 9916 {
            return Err(DassiError::DataSizeNotMatched);
        }
        let hb = copy_range(loan_data.as_slice(), 0, 116);
        let mut h = unpack_to_loan_info_header(hb.as_slice())?;
        if h.total_amount_lended < h.total_loan_amount {
            return Err(DassiError::CollectedLoanFundsAlreadyWithdrawn);
        }
        if !h.borrower_main_acc_pubkey.key_eq(borrower_main_key) {
            return Err(DassiError::BorrowerAccountMismatched);
        }
        let w = h.total_amount_lended;
        h.total_amount_lended = 0;
        let ghost hv = h@;
        let mut out = zero_vec(116);
        match pack_to_loan_info_header(h, &mut out) {
            Ok(()) => {},
            Err(_) => {
                proof {
                    assert(false);
                }
            },
        }
        proof {
            crate::state::lemma_pack_loan_info_header_len(hv);
        }
        write_range(loan_data, 0, out.as_slice());
        proof {
            assert(final(loan_data)@.subrange(0, 116) =~= crate::state::spec_pack_loan_info_header(
                hv,
            ));
            crate::state::lemma_loan_info_header_view_round_trip(hv);
            lemma_header_write_frames(old(loan_data)@, final(loan_data)@);
        }
        Ok(w)
    }

    /// Pays out lender `lender_id_input`'s withdrawable balance: returns
    /// the amount the host must transfer from the vault, resets that
    /// balance to zero and shrinks the outstanding unique principal.
    pub fn process_withdraw_lender_free_wallet_funds(
        lenders_data: &mut Vec<u8>,
        lender_main_key: &Pubkey,
        lender_id_input: u32,
    ) -> (r: Result<u64, DassiError>)
        ensures
            match r {
                Ok(w) => withdraw_lender_rejection(
                    old(lenders_data)@,
                    lender_main_key@,
                    lender_id_input,
                ) is None && withdraw_lender_transition(
                    old(lenders_data)@,
                    final(lenders_data)@,
                    lender_id_input,
                    w,
                ),
                Err(e) => withdraw_lender_rejection(
                    old(lenders_data)@,
                    lender_main_key@,
                    lender_id_input,
                ) == Some(e) && final(lenders_data)@ == old(lenders_data)@,
            },
    {
        if lenders_data.len() != 3_250_002 {
            return Err(DassiError::DataSizeNotMatched);
        }
        let b0 = *vstd::slice::slice_index_get(lenders_data.as_slice(), 0);
        if b0 != 3 {
            return Err(DassiError::ExpectedAccountTypeMismatched);
        }
        let b1 = *vstd::slice::slice_index_get(lenders_data.as_slice(), 1);
        if b1 != 1 {
            return Err(DassiError::ExpectedLendersAccNumNotMatched);
        }
        if lender_id_input > 49_999 {
            return Err(DassiError::InvalidLenderIdInput);
        }
        let mut s = read_slot(lenders_data, lender_id_input);
        if !(s.is_account_active == 1 && s.lender_main_acc_pubkey.key_eq(lender_main_key)) {
            return Err(DassiError::InvalidLenderIdInput);
        }
        if s.amount_to_withdraw_or_lend > s.total_unique_lending_amount {
            return Err(DassiError::AmountOverflow);
        }
        let w = s.amount_to_withdraw_or_lend;
        s.total_unique_lending_amount = s.total_unique_lending_amount - w;
        s.amount_to_withdraw_or_lend = 0;
        write_slot(lenders_data, lender_id_input, s);
        Ok(w)
    }

    /// Credits one airdrop to the caller: checks that the supplied record
    /// buffer lives at the derived per-user address and that the lifetime
    /// cap is not yet reached, then bumps the recorded cumulative amount
    /// and returns what the host must transfer from the airdrop vault.
    pub fn process_airdrop_users_with_dassi_test_coins(
        user_storage_data: &mut Vec<u8>,
        user_main_key: &Pubkey,
        storage_key: &Pubkey,
        program_id: &Pubkey,
    ) -> (r: Result<u64, DassiError>)
        requires
            user_main_key.wf(),
            program_id.wf(),
        ensures
            match r {
                Ok(amt) => {
                    let pre = old(user_storage_data)@;
                    &&& airdrop_rejection(pre, user_main_key@, storage_key@, program_id@) is None
                    &&& amt == AIRDROP_AMOUNT
                    &&& final(user_storage_data)@ == spec_u64_to_le_bytes(
                        (spec_u64_from_le_bytes(pre) + AIRDROP_AMOUNT) as u64,
                    )
                },
                Err(e) => airdrop_rejection(
                    old(user_storage_data)@,
                    user_main_key@,
                    storage_key@,
                    program_id@,
                ) == Some(e) && final(user_storage_data)@ == old(user_storage_data)@,
            },
    {
        match expected_airdrop_storage_key(user_main_key, program_id) {
            Some(expected) => {
                if !expected.key_eq(storage_key) {
                    return Err(DassiError::AccountMismatched);
                }
            },
            None => {
                return Err(DassiError::AccountMismatched);
            },
        }
        if user_storage_data.len() != 8 {
            return Err(DassiError::DataSizeNotMatched);
        }
        let stored = u64_from_le_bytes(user_storage_data.as_slice());
        if stored >= MAX_AIRDROP_AMOUNT {
            return Err(DassiError::UserAlreadyAirdroped);
        }
        let new_total = stored + AIRDROP_AMOUNT;
        let bytes = u64_to_le_bytes(new_total);
        write_range(user_storage_data, 0, bytes.as_slice());
        proof {
            assert(final(user_storage_data)@ =~= spec_u64_to_le_bytes(new_total));
        }
        Ok(AIRDROP_AMOUNT)
    }
}

} // verus!
