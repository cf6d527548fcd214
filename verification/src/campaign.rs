//! The campaign record, its lifecycle states and the ways an operation can fail.

use vstd::prelude::*;

verus! {

/// Lifecycle of a campaign. A campaign starts `Running` and becomes `Success`
/// when the amount raised reaches the target. `Expired` is a value that a
/// record can hold; no operation of this crate ever stores it.
#[derive(Clone, Copy, Debug, PartialEq, Eq, Structural)]
pub enum State {
    Running,
    Success,
    Expired,
}

impl State {
    /// The number that stands for a state: 0 for `Running`, 1 for `Success`,
    /// 2 for `Expired`.
    pub open spec fn ordinal(self) -> u32 {
        match self {
            State::Running => 0,
            State::Success => 1,
            State::Expired => 2,
        }
    }

    /// The state's ordinal.
    pub fn code(self) -> (r: u32)
        ensures
            r == self.ordinal(),
    {
        match self {
            State::Running => 0,
            State::Success => 1,
            State::Expired => 2,
        }
    }
}

/// Why an operation was refused. A refused operation changes nothing.
#[derive(Clone, Copy, Debug, PartialEq, Eq, Structural)]
pub enum Error {
    /// `initialize` on a ledger that already holds a campaign.
    AlreadyInitialized,
    /// The contributor has not authorized the call.
    Unauthorized,
    /// The deadline has been reached while the campaign was still running.
    CampaignExpired,
    /// The campaign is not in the `Running` state.
    CampaignNotRunning,
    /// The amount is zero or negative.
    InvalidAmount,
    /// A total would leave the range of a signed 128-bit integer.
    ArithmeticOverflow,
}

/// The campaign record. `target_amount` and `deadline` are fixed when the
/// campaign is created; `raised_amount` and `state` change with contributions.
#[derive(Clone, Copy, Debug, PartialEq, Eq, Structural)]
pub struct Campaign {
    pub target_amount: i128,
    pub deadline: u64,
    pub raised_amount: i128,
    pub state: State,
}

} // verus!
