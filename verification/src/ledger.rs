//! The ledger as a mathematical value, and what each operation makes of it.
//!
//! The executable ledger is specified against this model: the contract of
//! every operation names the transition below that it carries out.

use vstd::prelude::*;
use crate::campaign::{Campaign, Error, State};

verus! {

/// What a ledger holds: the campaign record, once there is one, and for every
/// contributor who has given, the sum of their accepted contributions. A
/// contributor who has never given has no entry.
pub struct Ledger {
    pub campaign: Option<Campaign>,
    pub donations: Map<Seq<u8>, i128>,
}

impl Ledger {
    /// The ledger of an instance on which nothing has happened yet.
    pub open spec fn empty() -> Ledger {
        Ledger { campaign: None, donations: Map::empty() }
    }

    /// The amount raised; zero where there is no campaign yet.
    pub open spec fn raised(self) -> int {
        match self.campaign {
            Some(c) => c.raised_amount as int,
            None => 0,
        }
    }

    /// What `who` has contributed so far: zero for one who has no entry.
    pub open spec fn donated_by(self, who: Seq<u8>) -> int {
        if self.donations.dom().contains(who) {
            self.donations[who] as int
        } else {
            0
        }
    }

    /// `initialize`: creates the campaign, running and with nothing raised,
    /// unless there is one already.
    pub open spec fn initialize(self, target: i128, deadline: u64) -> Result<Ledger, Error> {
        if self.campaign is Some {
            Err(Error::AlreadyInitialized)
        } else {
            Ok(
                Ledger {
                    campaign: Some(
                        Campaign {
                            target_amount: target,
                            deadline,
                            raised_amount: 0,
                            state: State::Running,
                        },
                    ),
                    donations: self.donations,
                },
            )
        }
    }

    /// The ledger with a positive `amount` booked for `donor`: added to the
    /// amount raised and to the donor's total. The campaign becomes a success
    /// when the amount raised has reached the target.
    pub open spec fn credit(self, donor: Seq<u8>, amount: i128) -> Ledger
        recommends
            self.campaign is Some,
            0 < amount,
            self.raised() + amount <= i128::MAX,
            self.donated_by(donor) + amount <= i128::MAX,
    {
        let c = self.campaign.unwrap();
        let raised = c.raised_amount + amount;
        Ledger {
            campaign: Some(
                Campaign {
                    target_amount: c.target_amount,
                    deadline: c.deadline,
                    raised_amount: raised as i128,
                    state: if raised >= c.target_amount {
                        State::Success
                    } else {
                        c.state
                    },
                },
            ),
            donations: self.donations.insert(donor, (self.donated_by(donor) + amount) as i128),
        }
    }

    /// `donate` at ledger time `now`: the checks in the order in which they
    /// are made, each with its error, and the new ledger where all pass.
    pub open spec fn donate(
        self,
        donor: Seq<u8>,
        amount: i128,
        now: u64,
        authorized: bool,
    ) -> Result<Ledger, Error>
        recommends
            self.campaign is Some,
    {
        let c = self.campaign.unwrap();
        if !authorized {
            Err(Error::Unauthorized)
        } else if now >= c.deadline && c.state == State::Running {
            Err(Error::CampaignExpired)
        } else if c.state != State::Running {
            Err(Error::CampaignNotRunning)
        } else if amount <= 0 {
            Err(Error::InvalidAmount)
        } else if c.raised_amount + amount > i128::MAX
            || self.donated_by(donor) + amount > i128::MAX {
            Err(Error::ArithmeticOverflow)
        } else {
            Ok(self.credit(donor, amount))
        }
    }

    /// `get_state`: target, amount raised, deadline and the state's ordinal;
    /// zeros, which include the ordinal of `Running`, where there is no
    /// campaign yet.
    pub open spec fn query(self) -> (i128, i128, u64, u32) {
        match self.campaign {
            Some(c) => (c.target_amount, c.raised_amount, c.deadline, c.state.ordinal()),
            None => (0, 0, 0, 0),
        }
    }

    /// What holds of every ledger that `initialize` and `donate` can reach
    /// from the empty one: finitely many contributors, each with a positive
    /// total; the amount raised is the sum of those totals; the state is
    /// `Success` once a contribution has brought the amount raised to the
    /// target, `Running` before, and never `Expired`.
    pub open spec fn consistent(self) -> bool {
        &&& self.donations.dom().finite()
        &&& forall|who: Seq<u8>| #[trigger]
            self.donations.dom().contains(who) ==> self.donations[who] > 0
        &&& self.raised() == sum_of(self.donations)
        &&& match self.campaign {
            Some(c) => match c.state {
                State::Running => c.raised_amount == 0 || c.raised_amount < c.target_amount,
                State::Success => c.raised_amount > 0 && c.raised_amount >= c.target_amount,
                State::Expired => false,
            },
            None => true,
        }
    }
}

/// The sum of all totals of a finite donation ledger.
pub open spec fn sum_of(donations: Map<Seq<u8>, i128>) -> int
    decreases donations.dom().len(),
{
    if donations.dom().finite() && donations.dom().len() > 0 {
        let who = donations.dom().choose();
        donations[who] + sum_of(donations.remove(who))
    } else {
        0
    }
}

/// One call of `donate`, as a value: who gives, how much, the ledger time
/// of the call and whether the giver has authorized it.
pub struct Attempt {
    pub donor: Seq<u8>,
    pub amount: i128,
    pub now: u64,
    pub authorized: bool,
}

impl Ledger {
    /// The ledger that a call of `initialize` leaves: unchanged where the
    /// call is refused.
    pub open spec fn after_initialize(self, target: i128, deadline: u64) -> Ledger {
        match self.initialize(target, deadline) {
            Ok(next) => next,
            Err(_) => self,
        }
    }

    /// What the call of `donate` that `attempt` describes comes to.
    pub open spec fn outcome(self, attempt: Attempt) -> Result<Ledger, Error> {
        self.donate(attempt.donor, attempt.amount, attempt.now, attempt.authorized)
    }

    /// Whether the call is accepted.
    pub open spec fn accepts(self, attempt: Attempt) -> bool {
        self.outcome(attempt) is Ok
    }

    /// The ledger that the call leaves: unchanged where the call is refused.
    pub open spec fn after(self, attempt: Attempt) -> Ledger {
        match self.outcome(attempt) {
            Ok(next) => next,
            Err(_) => self,
        }
    }

    /// The ledger that the calls leave, made one after the other.
    pub open spec fn after_all(self, attempts: Seq<Attempt>) -> Ledger
        decreases attempts.len(),
    {
        if attempts.len() == 0 {
            self
        } else {
            self.after_all(attempts.drop_last()).after(attempts.last())
        }
    }

    /// Those of the calls that are accepted, in order, each judged against
    /// the ledger that the calls before it have left.
    pub open spec fn accepted(self, attempts: Seq<Attempt>) -> Seq<Attempt>
        decreases attempts.len(),
    {
        if attempts.len() == 0 {
            Seq::empty()
        } else {
            let earlier = self.accepted(attempts.drop_last());
            if self.after_all(attempts.drop_last()).accepts(attempts.last()) {
                earlier.push(attempts.last())
            } else {
                earlier
            }
        }
    }
}

/// The sum of the amounts of the calls.
pub open spec fn sum_amounts(attempts: Seq<Attempt>) -> int
    decreases attempts.len(),
{
    if attempts.len() == 0 {
        0
    } else {
        sum_amounts(attempts.drop_last()) + attempts.last().amount
    }
}

/// The sum of the amounts of those calls in which `who` is the giver.
pub open spec fn sum_amounts_by(attempts: Seq<Attempt>, who: Seq<u8>) -> int
    decreases attempts.len(),
{
    if attempts.len() == 0 {
        0
    } else if attempts.last().donor == who {
        sum_amounts_by(attempts.drop_last(), who) + attempts.last().amount
    } else {
        sum_amounts_by(attempts.drop_last(), who)
    }
}

} // verus!
