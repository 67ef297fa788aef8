//! Decoding of inbound calls: one leading opcode byte followed by
//! fixed-width little-endian fields, with no padding.  Truncated or unknown
//! instructions are rejected, never read past their end.

use crate::error::DassiError;
use vstd::bytes::{
    spec_u16_from_le_bytes, spec_u32_from_le_bytes, spec_u64_from_le_bytes, u16_from_le_bytes,
    u32_from_le_bytes, u64_from_le_bytes,
};
use vstd::prelude::*;
use vstd::slice::{slice_index_get, slice_subrange};

verus! {

/// One decoded call into the engine.
#[derive(Debug, PartialEq, Eq)]
pub enum DassiInstruction {
    /// Opcode 0: move `amount_to_lend_input` from the lender into the vault
    /// and record the contribution under `lender_id_input`.
    LendToBorrower { amount_to_lend_input: u64, lender_id_input: u32 },
    /// Opcode 1: pay out a lender's withdrawable balance.
    WithdrawLenderFreeWalletFunds { lender_id_input: u32 },
    /// Opcode 2: pay the pooled loan funds out to the borrower.
    WithdrawCollectedLoanFunds {},
    /// Opcode 3: hand the lending vault to the derived authority.
    TransferDassiVaultAccountOwnership {},
    /// Opcode 4: stamp the lender ledger buffer's header.
    InitializeLendersStorageAccount {},
    /// Opcode 5: create a borrower record.
    InitializeBorrowerAccount {},
    /// Opcode 6: create a guarantor record.
    InitializeGuarantorAccount {},
    /// Opcode 7: record one repayment installment and distribute it.
    PayEMIforLoan { emi_amount_to_pay_input: u64 },
    /// Opcode 8: write a fresh loan header.
    InitializeLoanInfoAccount {
        num_days_left_for_first_repayment_input: u16,
        num_emis_needed_to_repay_the_loan_input: u16,
        num_days_for_fundraising_input: u16,
        total_loan_amount_input: u64,
    },
    /// Opcode 9: credit test coins to a user, up to a cap.
    AirdropUsersWithDassiTestCoins {},
    /// Opcode 10: hand the airdrop vault to the derived authority.
    TransferAirdropVaultAccountOwnership {},
    /// Opcode 11: accepted but without effect.
    ReturnFundsToLenders { num_accounts_input: u16 },
    /// Opcode 12: accepted but without effect.
    CloseLoanInfoAccount {},
}

/// What a byte span decodes to: `None` when the opcode is unknown or the
/// span is too short for the opcode's fields.
pub open spec fn spec_unpack_instruction(s: Seq<u8>) -> Option<DassiInstruction> {
    if s.len() == 0 {
        None
    } else if s[0] == 0 {
        if s.len() >= 13 {
            Some(
                DassiInstruction::LendToBorrower {
                    amount_to_lend_input: spec_u64_from_le_bytes(s.subrange(1, 9)),
                    lender_id_input: spec_u32_from_le_bytes(s.subrange(9, 13)),
                },
            )
        } else {
            None
        }
    } else if s[0] == 1 {
        if s.len() >= 5 {
            Some(
                DassiInstruction::WithdrawLenderFreeWalletFunds {
                    lender_id_input: spec_u32_from_le_bytes(s.subrange(1, 5)),
                },
            )
        } else {
            None
        }
    } else if s[0] == 2 {
        Some(DassiInstruction::WithdrawCollectedLoanFunds {  })
    } else if s[0] == 3 {
        Some(DassiInstruction::TransferDassiVaultAccountOwnership {  })
    } else if s[0] == 4 {
        Some(DassiInstruction::InitializeLendersStorageAccount {  })
    } else if s[0] == 5 {
        Some(DassiInstruction::InitializeBorrowerAccount {  })
    } else if s[0] == 6 {
        Some(DassiInstruction::InitializeGuarantorAccount {  })
    } else if s[0] == 7 {
        if s.len() >= 9 {
            Some(
                DassiInstruction::PayEMIforLoan {
                    emi_amount_to_pay_input: spec_u64_from_le_bytes(s.subrange(1, 9)),
                },
            )
        } else {
            None
        }
    } else if s[0] == 8 {
        if s.len() >= 15 {
            Some(
                DassiInstruction::InitializeLoanInfoAccount {
                    num_days_left_for_first_repayment_input: spec_u16_from_le_bytes(
                        s.subrange(1, 3),
                    ),
                    num_emis_needed_to_repay_the_loan_input: spec_u16_from_le_bytes(
                        s.subrange(3, 5),
                    ),
                    num_days_for_fundraising_input: spec_u16_from_le_bytes(s.subrange(5, 7)),
                    total_loan_amount_input: spec_u64_from_le_bytes(s.subrange(7, 15)),
                },
            )
        } else {
            None
        }
    } else if s[0] == 9 {
        Some(DassiInstruction::AirdropUsersWithDassiTestCoins {  })
    } else if s[0] == 10 {
        Some(DassiInstruction::TransferAirdropVaultAccountOwnership {  })
    } else if s[0] == 11 {
        if s.len() >= 3 {
            Some(
                DassiInstruction::ReturnFundsToLenders {
                    num_accounts_input: spec_u16_from_le_bytes(s.subrange(1, 3)),
                },
            )
        } else {
            None
        }
    } else if s[0] == 12 {
        Some(DassiInstruction::CloseLoanInfoAccount {  })
    } else {
        None
    }
}

impl DassiInstruction {
    /// Decodes one instruction from raw bytes.
    pub fn unpack(input: &[u8]) -> (r: Result<DassiInstruction, DassiError>)
        ensures
            match r {
                Ok(i) => spec_unpack_instruction(input@) == Some(i),
                Err(e) => e == DassiError::InvalidInstruction && spec_unpack_instruction(input@)
                    is None,
            },
    {
        if input.len() == 0 {
            return Err(DassiError::InvalidInstruction);
        }
        let op = *slice_index_get(input, 0);
        match op {
            0 => {
                if input.len() < 13 {
                    return Err(DassiError::InvalidInstruction);
                }
                let amount_to_lend_input = Self::unpack_to_u64(slice_subrange(input, 1, 9))?;
                let lender_id_input = Self::unpack_to_u32(slice_subrange(input, 9, 13));
                proof {
                    assert(input@.subrange(1, 9).subrange(0, 8) =~= input@.subrange(1, 9));
                    assert(input@.subrange(9, 13).subrange(0, 4) =~= input@.subrange(9, 13));
                }
                Ok(DassiInstruction::LendToBorrower { amount_to_lend_input, lender_id_input })
            },
            1 => {
                if input.len() < 5 {
                    return Err(DassiError::InvalidInstruction);
                }
                let lender_id_input = Self::unpack_to_u32(slice_subrange(input, 1, 5));
                proof {
                    assert(input@.subrange(1, 5).subrange(0, 4) =~= input@.subrange(1, 5));
                }
                Ok(DassiInstruction::WithdrawLenderFreeWalletFunds { lender_id_input })
            },
            2 => Ok(DassiInstruction::WithdrawCollectedLoanFunds {  }),
            3 => Ok(DassiInstruction::TransferDassiVaultAccountOwnership {  }),
            4 => Ok(DassiInstruction::InitializeLendersStorageAccount {  }),
            5 => Ok(DassiInstruction::InitializeBorrowerAccount {  }),
            6 => Ok(DassiInstruction::InitializeGuarantorAccount {  }),
            7 => {
                if input.len() < 9 {
                    return Err(DassiError::InvalidInstruction);
                }
                let emi_amount_to_pay_input = Self::unpack_to_u64(slice_subrange(input, 1, 9))?;
                proof {
                    assert(input@.subrange(1, 9).subrange(0, 8) =~= input@.subrange(1, 9));
                }
                Ok(DassiInstruction::PayEMIforLoan { emi_amount_to_pay_input })
            },
            8 => {
                if input.len() < 15 {
                    return Err(DassiError::InvalidInstruction);
                }
                let num_days_left_for_first_repayment_input = Self::unpack_to_u16(
                    slice_subrange(input, 1, 3),
                );
                let num_emis_needed_to_repay_the_loan_input = Self::unpack_to_u16(
                    slice_subrange(input, 3, 5),
                );
                let num_days_for_fundraising_input = Self::unpack_to_u16(
                    slice_subrange(input, 5, 7),
                );
                let total_loan_amount_input = Self::unpack_to_u64(slice_subrange(input, 7, 15))?;
                proof {
                    assert(input@.subrange(1, 3).subrange(0, 2) =~= input@.subrange(1, 3));
                    assert(input@.subrange(3, 5).subrange(0, 2) =~= input@.subrange(3, 5));
                    assert(input@.subrange(5, 7).subrange(0, 2) =~= input@.subrange(5, 7));
                    assert(input@.subrange(7, 15).subrange(0, 8) =~= input@.subrange(7, 15));
                }
                Ok(
                    DassiInstruction::InitializeLoanInfoAccount {
                        num_days_left_for_first_repayment_input,
                        num_emis_needed_to_repay_the_loan_input,
                        num_days_for_fundraising_input,
                        total_loan_amount_input,
                    },
                )
            },
            9 => Ok(DassiInstruction::AirdropUsersWithDassiTestCoins {  }),
            10 => Ok(DassiInstruction::TransferAirdropVaultAccountOwnership {  }),
            11 => {
                if input.len() < 3 {
                    return Err(DassiError::InvalidInstruction);
                }
                let num_accounts_input = Self::unpack_to_u16(slice_subrange(input, 1, 3));
                proof {
                    assert(input@.subrange(1, 3).subrange(0, 2) =~= input@.subrange(1, 3));
                }
                Ok(DassiInstruction::ReturnFundsToLenders { num_accounts_input })
            },
            12 => Ok(DassiInstruction::CloseLoanInfoAccount {  }),
            _ => Err(DassiError::InvalidInstruction),
        }
    }

    /// Reads a little-endian `u64` from the first eight bytes.
    pub fn unpack_to_u64(input: &[u8]) -> (r: Result<u64, DassiError>)
        ensures
            match r {
                Ok(v) => input@.len() >= 8 && v == spec_u64_from_le_bytes(input@.subrange(0, 8)),
                Err(e) => e == DassiError::InvalidInstruction && input@.len() < 8,
            },
    {
        if input.len() < 8 {
            return Err(DassiError::InvalidInstruction);
        }
        Ok(u64_from_le_bytes(slice_subrange(input, 0, 8)))
    }

    /// Reads a little-endian `u16` from the first two bytes.
    pub fn unpack_to_u16(input: &[u8]) -> (r: u16)
        requires
            input@.len() >= 2,
        ensures
            r == spec_u16_from_le_bytes(input@.subrange(0, 2)),
    {
        u16_from_le_bytes(slice_subrange(input, 0, 2))
    }

    /// Reads a little-endian `u32` from the first four bytes.
    pub fn unpack_to_u32(input: &[u8]) -> (r: u32)
        requires
            input@.len() >= 4,
        ensures
            r == spec_u32_from_le_bytes(input@.subrange(0, 4)),
    {
        u32_from_le_bytes(slice_subrange(input, 0, 4))
    }
}

} // verus!
