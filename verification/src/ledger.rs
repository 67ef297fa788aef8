//! The lender ledger: one 3,250,002-byte buffer holding a two-byte header
//! (type tag and shard number) followed by 50,000 fixed-size lender slots,
//! addressed by lender id.

use crate::buffer::{copy_range, write_range, zero_vec};
use crate::error::DassiError;
use crate::keys::Pubkey;
use crate::state::{
    spec_unpack_lender_account_data, spec_pack_lender_account_data,
    lemma_pack_lender_account_data_len, lemma_lender_account_data_view_round_trip,
    unpack_to_lender_account_data, pack_to_lender_account_data, LenderAccountData,
    LenderAccountDataView,
};
use vstd::prelude::*;
use vstd::seq_lib::*;

verus! {

/// The slot of lender `id` in a ledger buffer snapshot.
pub open spec fn slot_at(lenders: Seq<u8>, id: int) -> LenderAccountDataView
    recommends
        lenders.len() == 3_250_002,
        0 <= id < 50_000,
{
    spec_unpack_lender_account_data(lenders.subrange(2 + 65 * id, 2 + 65 * id + 65))
}

/// The ledger buffer carries the lender-ledger type tag and shard number 1.
pub open spec fn lenders_header_ok(lenders: Seq<u8>) -> bool
    recommends
        lenders.len() == 3_250_002,
{
    lenders[0] == 3 && lenders[1] == 1
}

/// The ledger buffer with the slot of lender `id` replaced by the encoding
/// of `v`.
pub open spec fn store_slot(lenders: Seq<u8>, id: int, v: LenderAccountDataView) -> Seq<u8> {
    lenders.subrange(0, 2 + 65 * id) + spec_pack_lender_account_data(v) + lenders.subrange(
        2 + 65 * id + 65,
        lenders.len() as int,
    )
}

/// What `store_slot` does, slot by slot.
pub proof fn lemma_store_slot(lenders: Seq<u8>, id: int, v: LenderAccountDataView)
    requires
        lenders.len() == 3_250_002,
        0 <= id < 50_000,
        v.wf(),
    ensures
        store_slot(lenders, id, v).len() == 3_250_002,
        store_slot(lenders, id, v)[0] == lenders[0],
        store_slot(lenders, id, v)[1] == lenders[1],
        slot_at(store_slot(lenders, id, v), id) == v,
        forall|j: int|
            0 <= j < 50_000 && j != id ==> slot_at(store_slot(lenders, id, v), j) == slot_at(
                lenders,
                j,
            ),
{
    lemma_pack_lender_account_data_len(v);
    let post = store_slot(lenders, id, v);
    assert(65 * id >= 0 && 65 * id + 65 <= 65 * 50_000) by (nonlinear_arith)
        requires
            0 <= id < 50_000,
    ;
    assert(post.subrange(2 + 65 * id, 2 + 65 * id + 65) =~= spec_pack_lender_account_data(v));
    lemma_lender_account_data_view_round_trip(v);
    assert forall|i: int|
        0 <= i < 3_250_002 && !(2 + 65 * id <= i < 2 + 65 * id + 65) implies post[i]
        == lenders[i] by {}
    lemma_slot_write_frames(lenders, post, id);
}

/// A write that only touches the slot of lender `id` leaves the two header
/// bytes and every other slot unchanged.
pub proof fn lemma_slot_write_frames(pre: Seq<u8>, post: Seq<u8>, id: int)
    requires
        pre.len() == 3_250_002,
        post.len() == 3_250_002,
        0 <= id < 50_000,
        forall|i: int|
            0 <= i < 3_250_002 && !(2 + 65 * id <= i < 2 + 65 * id + 65) ==> post[i] == pre[i],
    ensures
        post[0] == pre[0],
        post[1] == pre[1],
        forall|j: int| 0 <= j < 50_000 && j != id ==> slot_at(post, j) == slot_at(pre, j),
{
    assert(65 * id >= 0) by (nonlinear_arith)
        requires
            id >= 0,
    ;
    assert forall|j: int| 0 <= j < 50_000 && j != id implies slot_at(post, j) == slot_at(
        pre,
        j,
    ) by {
        assert(65 * j <= 65 * 49_999 && 65 * j >= 0) by (nonlinear_arith)
            requires
                0 <= j <= 49_999,
        ;
        assert(j < id ==> 65 * j + 65 <= 65 * id) by (nonlinear_arith);
        assert(j > id ==> 65 * id + 65 <= 65 * j) by (nonlinear_arith);
        assert(post.subrange(2 + 65 * j, 2 + 65 * j + 65) =~= pre.subrange(
            2 + 65 * j,
            2 + 65 * j + 65,
        ));
    }
}

/// Reads the slot of lender `id` out of the ledger buffer.
pub fn read_slot(lenders: &Vec<u8>, id: u32) -> (r: LenderAccountData)
    requires
        lenders@.len() == 3_250_002,
        lenders_header_ok(lenders@),
        id < 50_000,
    ensures
        r@ == slot_at(lenders@, id as int),
        r.wf(),
{
    proof {
        assert(65 * (id as int) <= 65 * 49_999) by (nonlinear_arith)
            requires
                id <= 49_999,
        ;
        assert(65 * (id as int) >= 0) by (nonlinear_arith)
            requires
                id >= 0,
        ;
    }
    let si: usize = 2 + (id as usize) * 65;
    let bytes = copy_range(lenders.as_slice(), si, 65);
    match unpack_to_lender_account_data(bytes.as_slice()) {
        Ok(d) => d,
        Err(_) => vstd::pervasive::unreached(),
    }
}

/// Writes `d` into the slot of lender `id`, leaving the rest of the ledger
/// unchanged.
pub fn write_slot(lenders: &mut Vec<u8>, id: u32, d: LenderAccountData)
    requires
        old(lenders)@.len() == 3_250_002,
        lenders_header_ok(old(lenders)@),
        id < 50_000,
        d.wf(),
    ensures
        final(lenders)@ == store_slot(old(lenders)@, id as int, d@),
        final(lenders)@.len() == 3_250_002,
        final(lenders)@[0] == old(lenders)@[0],
        final(lenders)@[1] == old(lenders)@[1],
        slot_at(final(lenders)@, id as int) == d@,
        forall|j: int|
            0 <= j < 50_000 && j != id ==> slot_at(final(lenders)@, j) == slot_at(
                old(lenders)@,
                j,
            ),
{
    proof {
        assert(65 * (id as int) <= 65 * 49_999 && 65 * (id as int) >= 0) by (nonlinear_arith)
            requires
                0 <= id <= 49_999,
        ;
    }
    let si: usize = 2 + (id as usize) * 65;
    let mut bytes = zero_vec(65);
    let ghost dv = d@;
    match pack_to_lender_account_data(d, &mut bytes) {
        Ok(()) => {},
        Err(_) => {
            proof {
                assert(false);
            }
        },
    }
    proof {
        lemma_pack_lender_account_data_len(dv);
    }
    write_range(lenders, si, bytes.as_slice());
    proof {
        assert(final(lenders)@ =~= store_slot(old(lenders)@, id as int, dv));
        lemma_store_slot(old(lenders)@, id as int, dv);
    }
}

/// Binds an inactive slot to `caller`, or checks that an active slot is
/// already bound to `caller`.
impl LenderAccountData {
    pub fn activate_if_needed(&mut self, caller: &Pubkey) -> (r: Result<(), DassiError>)
        ensures
            match r {
                Ok(()) => {
                    if old(self)@.is_account_active != 1 {
                        final(self)@ == (LenderAccountDataView {
                            is_account_active: 1u8,
                            lender_main_acc_pubkey: caller@,
                            ..old(self)@
                        })
                    } else {
                        final(self)@ == old(self)@ && old(self)@.lender_main_acc_pubkey
                            == caller@
                    }
                },
                Err(e) => e == DassiError::InvalidLenderIdInput && final(self)@ == old(self)@
                    && old(self)@.is_account_active == 1 && old(self)@.lender_main_acc_pubkey
                    != caller@,
            },
    {
        if self.is_account_active != 1 {
            self.is_account_active = 1;
            self.lender_main_acc_pubkey = caller.clone_key();
            Ok(())
        } else {
            if self.lender_main_acc_pubkey.key_eq(caller) {
                Ok(())
            } else {
                Err(DassiError::InvalidLenderIdInput)
            }
        }
    }
}

} // verus!
