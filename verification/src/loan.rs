//! The layout of one loan buffer: a 116-byte header, 200 contribution-log
//! slots of 45 bytes, and 50 repayment-log slots of 16 bytes — 9,916 bytes
//! in all.  The spec functions here read the three regions of a buffer
//! snapshot, and the frame lemmas say which regions a write leaves alone.

use crate::state::{
    spec_unpack_loan_info_header, spec_unpack_loan_info_acc_lender_data,
    spec_unpack_loan_info_acc_repayment_data, LoanInfoAccDataHeaderView,
    LoanInfoAccLendersDataView, LoanInfoAccRepaymentDataView,
};
use vstd::prelude::*;
use vstd::seq_lib::*;

verus! {

/// The header record of a loan buffer snapshot.
pub open spec fn loan_header_of(loan: Seq<u8>) -> LoanInfoAccDataHeaderView
    recommends
        loan.len() == 9916,
{
    spec_unpack_loan_info_header(loan.subrange(0, 116))
}

/// The `i`-th contribution-log entry of a loan buffer snapshot.
pub open spec fn contribution_at(loan: Seq<u8>, i: int) -> LoanInfoAccLendersDataView
    recommends
        loan.len() == 9916,
        0 <= i < 200,
{
    spec_unpack_loan_info_acc_lender_data(loan.subrange(116 + 45 * i, 116 + 45 * i + 45))
}

/// The `i`-th repayment-log entry of a loan buffer snapshot.
pub open spec fn repayment_at(loan: Seq<u8>, i: int) -> LoanInfoAccRepaymentDataView
    recommends
        loan.len() == 9916,
        0 <= i < 50,
{
    spec_unpack_loan_info_acc_repayment_data(loan.subrange(9116 + 16 * i, 9116 + 16 * i + 16))
}

/// The sum of the amounts of the first `n` contribution-log entries.
pub open spec fn contributions_amount_sum(loan: Seq<u8>, n: int) -> int
    decreases n,
{
    if n <= 0 {
        0
    } else {
        contributions_amount_sum(loan, n - 1) + contribution_at(loan, n - 1).lent_amount
    }
}

/// Conservation: the header's lent total equals the sum of the logged
/// contributions.
pub open spec fn loan_conserved(loan: Seq<u8>) -> bool {
    loan_header_of(loan).total_amount_lended == contributions_amount_sum(
        loan,
        loan_header_of(loan).next_index_to_store_lender_data as int,
    )
}

/// Two snapshots whose first `n` contribution entries agree have the same
/// contribution sum.
pub proof fn lemma_contributions_sum_congruence(l1: Seq<u8>, l2: Seq<u8>, n: int)
    requires
        forall|j: int| 0 <= j < n ==> contribution_at(l2, j) == contribution_at(l1, j),
    ensures
        contributions_amount_sum(l2, n) == contributions_amount_sum(l1, n),
    decreases n,
{
    if n > 0 {
        lemma_contributions_sum_congruence(l1, l2, n - 1);
    }
}

/// A write that only touches the header region leaves both logs unchanged.
pub proof fn lemma_header_write_frames(pre: Seq<u8>, post: Seq<u8>)
    requires
        pre.len() == 9916,
        post.len() == 9916,
        forall|i: int| 116 <= i < 9916 ==> post[i] == pre[i],
    ensures
        forall|j: int| 0 <= j < 200 ==> contribution_at(post, j) == contribution_at(pre, j),
        forall|j: int| 0 <= j < 50 ==> repayment_at(post, j) == repayment_at(pre, j),
{
    assert forall|j: int| 0 <= j < 200 implies contribution_at(post, j) == contribution_at(
        pre,
        j,
    ) by {
        assert(45 * j <= 45 * 199) by (nonlinear_arith)
            requires
                j <= 199,
        ;
        assert(45 * j >= 0) by (nonlinear_arith)
            requires
                j >= 0,
        ;
        assert(post.subrange(116 + 45 * j, 116 + 45 * j + 45) =~= pre.subrange(
            116 + 45 * j,
            116 + 45 * j + 45,
        ));
    }
    assert forall|j: int| 0 <= j < 50 implies repayment_at(post, j) == repayment_at(pre, j) by {
        assert(16 * j <= 16 * 49 && 16 * j >= 0) by (nonlinear_arith)
            requires
                0 <= j <= 49,
        ;
        assert(post.subrange(9116 + 16 * j, 9116 + 16 * j + 16) =~= pre.subrange(
            9116 + 16 * j,
            9116 + 16 * j + 16,
        ));
    }
}

/// A write that only touches contribution slot `k` leaves the header, every
/// other contribution entry, and the whole repayment log unchanged.
pub proof fn lemma_contribution_write_frames(pre: Seq<u8>, post: Seq<u8>, k: int)
    requires
        pre.len() == 9916,
        post.len() == 9916,
        0 <= k < 200,
        forall|i: int|
            0 <= i < 9916 && !(116 + 45 * k <= i < 116 + 45 * k + 45) ==> post[i] == pre[i],
    ensures
        loan_header_of(post) == loan_header_of(pre),
        forall|j: int|
            0 <= j < 200 && j != k ==> contribution_at(post, j) == contribution_at(pre, j),
        forall|j: int| 0 <= j < 50 ==> repayment_at(post, j) == repayment_at(pre, j),
{
    assert(45 * k >= 0) by (nonlinear_arith)
        requires
            k >= 0,
    ;
    assert(post.subrange(0, 116) =~= pre.subrange(0, 116));
    assert forall|j: int| 0 <= j < 200 && j != k implies contribution_at(post, j)
        == contribution_at(pre, j) by {
        assert(45 * j <= 45 * 199 && 45 * j >= 0) by (nonlinear_arith)
            requires
                0 <= j <= 199,
        ;
        assert(j < k ==> 45 * j + 45 <= 45 * k) by (nonlinear_arith);
        assert(j > k ==> 45 * k + 45 <= 45 * j) by (nonlinear_arith);
        assert(post.subrange(116 + 45 * j, 116 + 45 * j + 45) =~= pre.subrange(
            116 + 45 * j,
            116 + 45 * j + 45,
        ));
    }
    assert(45 * k + 45 <= 9000) by (nonlinear_arith)
        requires
            k <= 199,
    ;
    assert forall|j: int| 0 <= j < 50 implies repayment_at(post, j) == repayment_at(pre, j) by {
        assert(16 * j <= 16 * 49 && 16 * j >= 0) by (nonlinear_arith)
            requires
                0 <= j <= 49,
        ;
        assert(post.subrange(9116 + 16 * j, 9116 + 16 * j + 16) =~= pre.subrange(
            9116 + 16 * j,
            9116 + 16 * j + 16,
        ));
    }
}

/// A write that only touches repayment slot `k` leaves the header, the whole
/// contribution log, and every other repayment entry unchanged.
pub proof fn lemma_repayment_write_frames(pre: Seq<u8>, post: Seq<u8>, k: int)
    requires
        pre.len() == 9916,
        post.len() == 9916,
        0 <= k < 50,
        forall|i: int|
            0 <= i < 9916 && !(9116 + 16 * k <= i < 9116 + 16 * k + 16) ==> post[i] == pre[i],
    ensures
        loan_header_of(post) == loan_header_of(pre),
        forall|j: int| 0 <= j < 200 ==> contribution_at(post, j) == contribution_at(pre, j),
        forall|j: int| 0 <= j < 50 && j != k ==> repayment_at(post, j) == repayment_at(pre, j),
{
    assert(16 * k >= 0) by (nonlinear_arith)
        requires
            k >= 0,
    ;
    assert(post.subrange(0, 116) =~= pre.subrange(0, 116));
    assert forall|j: int| 0 <= j < 200 implies contribution_at(post, j) == contribution_at(
        pre,
        j,
    ) by {
        assert(45 * j + 45 <= 9000 && 45 * j >= 0) by (nonlinear_arith)
            requires
                0 <= j <= 199,
        ;
        assert(post.subrange(116 + 45 * j, 116 + 45 * j + 45) =~= pre.subrange(
            116 + 45 * j,
            116 + 45 * j + 45,
        ));
    }
    assert forall|j: int| 0 <= j < 50 && j != k implies repayment_at(post, j) == repayment_at(
        pre,
        j,
    ) by {
        assert(16 * j <= 16 * 49 && 16 * j >= 0) by (nonlinear_arith)
            requires
                0 <= j <= 49,
        ;
        assert(j < k ==> 16 * j + 16 <= 16 * k) by (nonlinear_arith);
        assert(j > k ==> 16 * k + 16 <= 16 * j) by (nonlinear_arith);
        assert(post.subrange(9116 + 16 * j, 9116 + 16 * j + 16) =~= pre.subrange(
            9116 + 16 * j,
            9116 + 16 * j + 16,
        ));
    }
}

} // verus!
