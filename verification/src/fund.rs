//! The executable ledger.

use vstd::prelude::*;
use crate::address::Address;
use crate::campaign::{Campaign, Error, State};
use crate::ledger::{Attempt, Ledger};
use crate::theorems::{donate_keeps_consistent, empty_is_consistent, initialize_keeps_consistent};

verus! {

/// One entry of the donation ledger: a contributor and the sum of what they
/// have given.
#[derive(Debug)]
pub struct Donation {
    pub contributor: Address,
    pub total_contributed: i128,
}

/// What an accepted contribution makes known: who gave, and how much. The
/// host publishes it under the topic `DONATION_TOPIC`; nothing in the ledger
/// depends on whether it arrives.
#[derive(Debug, PartialEq, Eq)]
pub struct Notification {
    pub contributor: Address,
    pub amount: i128,
}

/// The topic under which a `Notification` is published.
pub const DONATION_TOPIC: &'static str = "donation";

/// The totals that a list of entries stands for. Where a contributor occurs
/// more than once, the first entry counts.
pub open spec fn totals(entries: Seq<Donation>) -> Map<Seq<u8>, i128>
    decreases entries.len(),
{
    if entries.len() == 0 {
        Map::empty()
    } else {
        totals(entries.drop_first()).insert(entries[0].contributor@, entries[0].total_contributed)
    }
}

/// A contributor that no entry names has no total.
proof fn lemma_totals_absent(entries: Seq<Donation>, who: Seq<u8>)
    requires
        forall|j: int| 0 <= j < entries.len() ==> entries[j].contributor@ != who,
    ensures
        !totals(entries).dom().contains(who),
    decreases entries.len(),
{
    if entries.len() > 0 {
        lemma_totals_absent(entries.drop_first(), who);
    }
}

/// A contributor's total is that of the first entry that names them.
proof fn lemma_totals_first(entries: Seq<Donation>, i: int, who: Seq<u8>)
    requires
        0 <= i < entries.len(),
        entries[i].contributor@ == who,
        forall|j: int| 0 <= j < i ==> entries[j].contributor@ != who,
    ensures
        totals(entries).dom().contains(who),
        totals(entries)[who] == entries[i].total_contributed,
    decreases entries.len(),
{
    if i > 0 {
        lemma_totals_first(entries.drop_first(), i - 1, who);
    }
}

/// Replacing the first entry of a contributor sets that contributor's total.
proof fn lemma_totals_update(entries: Seq<Donation>, i: int, entry: Donation)
    requires
        0 <= i < entries.len(),
        entry.contributor@ == entries[i].contributor@,
        forall|j: int| 0 <= j < i ==> entries[j].contributor@ != entry.contributor@,
    ensures
        totals(entries.update(i, entry)) == totals(entries).insert(
            entry.contributor@,
            entry.total_contributed,
        ),
    decreases entries.len(),
{
    let after = entries.update(i, entry);
    if i == 0 {
        assert(after.drop_first() =~= entries.drop_first());
    } else {
        let rest = entries.drop_first();
        lemma_totals_update(rest, i - 1, entry);
        assert(after.drop_first() =~= rest.update(i - 1, entry));
    }
}

/// Appending an entry for a contributor that no entry names adds their total.
proof fn lemma_totals_push(entries: Seq<Donation>, entry: Donation)
    requires
        forall|j: int| 0 <= j < entries.len() ==> entries[j].contributor@ != entry.contributor@,
    ensures
        totals(entries.push(entry)) == totals(entries).insert(
            entry.contributor@,
            entry.total_contributed,
        ),
    decreases entries.len(),
{
    let after = entries.push(entry);
    if entries.len() == 0 {
        assert(after.drop_first() =~= entries);
    } else {
        let rest = entries.drop_first();
        lemma_totals_push(rest, entry);
        assert(after.drop_first() =~= rest.push(entry));
    }
}

/// A crowdfunding ledger: the campaign record and the donation entries. Its
/// value is only changed by `initialize` and `donate`.
#[derive(Debug)]
pub struct NovaFund {
    campaign: Option<Campaign>,
    donations: Vec<Donation>,
}

impl View for NovaFund {
    type V = Ledger;

    closed spec fn view(&self) -> Ledger {
        Ledger { campaign: self.campaign, donations: totals(self.donations@) }
    }
}

impl NovaFund {
    /// A ledger on which nothing has happened yet.
    pub fn new() -> (fund: NovaFund)
        ensures
            fund@ == Ledger::empty(),
            fund@.consistent(),
    {
        proof {
            empty_is_consistent();
        }
        NovaFund { campaign: None, donations: Vec::new() }
    }

    /// The ledger that holds the given record and entries, as a host that
    /// keeps them in a store of its own hands them back. Where a contributor
    /// occurs in more than one entry, the first counts.
    pub fn restore(campaign: Option<Campaign>, donations: Vec<Donation>) -> (fund: NovaFund)
        ensures
            fund@.campaign == campaign,
            fund@.donations == totals(donations@),
    {
        NovaFund { campaign, donations }
    }

    /// The campaign record, if the ledger has been initialized.
    pub fn campaign(&self) -> (record: Option<Campaign>)
        ensures
            record == self@.campaign,
    {
        self.campaign
    }

    /// What `who` has contributed so far: zero for one who never has.
    pub fn donated_by(&self, who: &Address) -> (total: i128)
        ensures
            total == self@.donated_by(who@),
    {
        match self.find(who) {
            Some(i) => {
                proof {
                    lemma_totals_first(self.donations@, i as int, who@);
                }
                self.donations[i].total_contributed
            },
            None => {
                proof {
                    lemma_totals_absent(self.donations@, who@);
                }
                0
            },
        }
    }

    /// The index of the first entry that names `who`, if there is one.
    fn find(&self, who: &Address) -> (slot: Option<usize>)
        ensures
            match slot {
                Some(i) => {
                    &&& i < self.donations@.len()
                    &&& self.donations@[i as int].contributor@ == who@
                    &&& forall|j: int| 0 <= j < i ==> self.donations@[j].contributor@ != who@
                },
                None => forall|j: int|
                    0 <= j < self.donations@.len() ==> self.donations@[j].contributor@ != who@,
            },
    {
        let mut i: usize = 0;
        while i < self.donations.len()
            invariant
                i <= self.donations@.len(),
                forall|j: int| 0 <= j < i ==> self.donations@[j].contributor@ != who@,
            decreases self.donations@.len() - i,
        {
            if self.donations[i].contributor == *who {
                return Some(i);
            }
            i += 1;
        }
        None
    }

    /// Creates the campaign with the given target and deadline, running and
    /// with nothing raised. Neither value is validated. Fails with
    /// `AlreadyInitialized`, and changes nothing, where the ledger already
    /// holds a campaign.
    pub fn initialize(&mut self, target: i128, deadline: u64) -> (r: Result<(), Error>)
        ensures
            match old(self)@.initialize(target, deadline) {
                Ok(next) => r is Ok && final(self)@ == next,
                Err(e) => r == Err::<(), Error>(e) && final(self)@ == old(self)@,
            },
            old(self)@.consistent() ==> final(self)@.consistent(),
    {
        proof {
            if self@.consistent() {
                initialize_keeps_consistent(self@, target, deadline);
            }
        }
        if self.campaign.is_some() {
            return Err(Error::AlreadyInitialized);
        }
        self.campaign = Some(
            Campaign {
                target_amount: target,
                deadline,
                raised_amount: 0,
                state: State::Running,
            },
        );
        Ok(())
    }

    /// Books a contribution of `amount` by `donor` at ledger time `now`.
    /// `authorized` says whether the donor has authorized this call.
    ///
    /// The checks are made in this order, and the first that fails gives the
    /// error: authorization, the deadline while the campaign is running, the
    /// state, the sign of the amount, the range of the two sums. On an error
    /// the ledger is unchanged. An accepted contribution returns the
    /// notification that is due for it.
    pub fn donate(
        &mut self,
        donor: Address,
        amount: i128,
        now: u64,
        authorized: bool,
    ) -> (r: Result<Notification, Error>)
        requires
            old(self)@.campaign is Some,
        ensures
            match old(self)@.donate(donor@, amount, now, authorized) {
                Ok(next) => {
                    &&& r matches Ok(notice)
                    &&& notice.contributor@ == donor@
                    &&& notice.amount == amount
                    &&& final(self)@ == next
                },
                Err(e) => r == Err::<Notification, Error>(e) && final(self)@ == old(self)@,
            },
            old(self)@.consistent() ==> final(self)@.consistent(),
    {
        proof {
            if self@.consistent() {
                donate_keeps_consistent(
                    self@,
                    Attempt { donor: donor@, amount, now, authorized },
                );
            }
        }
        if !authorized {
            return Err(Error::Unauthorized);
        }
        let campaign = self.campaign.unwrap();
        if now >= campaign.deadline && campaign.state == State::Running {
            return Err(Error::CampaignExpired);
        }
        if campaign.state != State::Running {
            return Err(Error::CampaignNotRunning);
        }
        if amount <= 0 {
            return Err(Error::InvalidAmount);
        }
        let raised = match campaign.raised_amount.checked_add(amount) {
            Some(sum) => sum,
            None => { return Err(Error::ArithmeticOverflow); },
        };
        let slot = self.find(&donor);
        let prior: i128 = match slot {
            Some(i) => self.donations[i].total_contributed,
            None => 0,
        };
        proof {
            match slot {
                Some(i) => lemma_totals_first(self.donations@, i as int, donor@),
                None => lemma_totals_absent(self.donations@, donor@),
            }
        }
        let total = match prior.checked_add(amount) {
            Some(sum) => sum,
            None => { return Err(Error::ArithmeticOverflow); },
        };
        let notice = Notification { contributor: donor.clone(), amount };
        let entry = Donation { contributor: donor, total_contributed: total };
        proof {
            match slot {
                Some(i) => lemma_totals_update(self.donations@, i as int, entry),
                None => lemma_totals_push(self.donations@, entry),
            }
        }
        match slot {
            Some(i) => { self.donations.set(i, entry); },
            None => { self.donations.push(entry); },
        }
        let state = if raised >= campaign.target_amount {
            State::Success
        } else {
            campaign.state
        };
        self.campaign = Some(
            Campaign {
                target_amount: campaign.target_amount,
                deadline: campaign.deadline,
                raised_amount: raised,
                state,
            },
        );
        Ok(notice)
    }

    /// Target, amount raised, deadline and the ordinal of the state. Where
    /// there is no campaign yet, all four are zero, which is the ordinal of
    /// `Running`.
    pub fn get_state(&self) -> (r: (i128, i128, u64, u32))
        ensures
            r == self@.query(),
    {
        match self.campaign {
            Some(c) => (c.target_amount, c.raised_amount, c.deadline, c.state.code()),
            None => (0, 0, 0, 0),
        }
    }
}

} // verus!
