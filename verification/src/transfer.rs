use vstd::prelude::*;

verus! {

/// Fixed native-asset subsidy paid from the fee well to a caller who
/// creates a user profile without a fee payment.
pub const USER_SUBSIDY: u64 = 1000000;

/// Fixed native-asset subsidy paid from the fee well to a caller who
/// submits a reply without a fee payment.
pub const REPLY_SUBSIDY: u64 = 2000000;

/// Full capacity of the storage-fee reserve.
pub const BANK_CAPACITY: u16 = 9900;

/// What a successful transition asks the external token rail to do.
/// The engine only decides; the host executes the plan and aborts the
/// whole transition if a transfer fails.
#[derive(Clone, Copy, Debug, PartialEq, Eq, Structural)]
pub enum TransferPlan {
    /// Nothing to transfer.
    NoTransfer,
    /// Pay `lamports` of the native asset from the fee well to the
    /// caller, as a creation subsidy.
    Subsidy {
        /// Amount of the native asset to pay out.
        lamports: u64,
    },
    /// Move `amount` of the fee token from the caller's token account
    /// to the receiver's, mirrored by an equal native-asset transfer
    /// from the fee well to the receiver.
    Mirrored {
        /// Amount moved on each of the two legs.
        amount: u64,
    },
}

/// The plan an optional fee payment produces where no subsidy branch
/// exists: nothing when absent, a mirrored pair of the given amount
/// when present.
pub open spec fn spec_tip_plan(amount: Option<u64>) -> TransferPlan {
    match amount {
        Option::None => TransferPlan::NoTransfer,
        Option::Some(am) => TransferPlan::Mirrored { amount: am },
    }
}

/// The plan an optional fee payment produces where a subsidy branch
/// exists: the fixed subsidy when absent, a mirrored pair when present.
pub open spec fn spec_subsidized_plan(amount: Option<u64>, subsidy: u64) -> TransferPlan {
    match amount {
        Option::None => TransferPlan::Subsidy { lamports: subsidy },
        Option::Some(am) => TransferPlan::Mirrored { amount: am },
    }
}

/// Builds the transfer plan for an operation without a subsidy branch.
pub fn tip_plan(amount: Option<u64>) -> (p: TransferPlan)
    ensures
        p == spec_tip_plan(amount),
{
    match amount {
        Option::None => TransferPlan::NoTransfer,
        Option::Some(am) => TransferPlan::Mirrored { amount: am },
    }
}

/// Builds the transfer plan for an operation with a subsidy branch.
pub fn subsidized_plan(amount: Option<u64>, subsidy: u64) -> (p: TransferPlan)
    ensures
        p == spec_subsidized_plan(amount, subsidy),
{
    match amount {
        Option::None => TransferPlan::Subsidy { lamports: subsidy },
        Option::Some(am) => TransferPlan::Mirrored { amount: am },
    }
}

} // verus!
