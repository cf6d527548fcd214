//! What holds of the ledger model whatever calls are made, proved once and for
//! all from the transitions.

use vstd::prelude::*;
use crate::campaign::{Campaign, Error, State};
use crate::ledger::{sum_amounts, sum_amounts_by, sum_of, Attempt, Ledger};

verus! {

/// The sum of a finite donation ledger is the total of any one contributor
/// plus the sum of the others.
proof fn lemma_sum_of_remove(donations: Map<Seq<u8>, i128>, who: Seq<u8>)
    requires
        donations.dom().finite(),
        donations.dom().contains(who),
    ensures
        sum_of(donations) == donations[who] + sum_of(donations.remove(who)),
    decreases donations.dom().len(),
{
    let chosen = donations.dom().choose();
    if chosen != who {
        lemma_sum_of_remove(donations.remove(chosen), who);
        lemma_sum_of_remove(donations.remove(who), chosen);
        assert(donations.remove(chosen).remove(who) =~= donations.remove(who).remove(chosen));
    }
}

/// Setting one contributor's total changes the sum by the difference.
proof fn lemma_sum_of_insert(donations: Map<Seq<u8>, i128>, who: Seq<u8>, total: i128)
    requires
        donations.dom().finite(),
    ensures
        donations.dom().contains(who) ==> sum_of(donations.insert(who, total)) == sum_of(donations)
            - donations[who] + total,
        !donations.dom().contains(who) ==> sum_of(donations.insert(who, total)) == sum_of(donations)
            + total,
{
    let after = donations.insert(who, total);
    lemma_sum_of_remove(after, who);
    assert(after.remove(who) =~= donations.remove(who));
    if donations.dom().contains(who) {
        lemma_sum_of_remove(donations, who);
    } else {
        assert(donations.remove(who) =~= donations);
    }
}

/// Where every total is positive, the sum is not negative.
proof fn lemma_sum_of_positive(donations: Map<Seq<u8>, i128>)
    requires
        donations.dom().finite(),
        forall|who: Seq<u8>| #[trigger] donations.dom().contains(who) ==> donations[who] > 0,
    ensures
        sum_of(donations) >= 0,
    decreases donations.dom().len(),
{
    if donations.dom().len() > 0 {
        let chosen = donations.dom().choose();
        lemma_sum_of_positive(donations.remove(chosen));
    }
}

/// The empty ledger is consistent.
pub proof fn empty_is_consistent()
    ensures
        Ledger::empty().consistent(),
{
}

/// `initialize` keeps a consistent ledger consistent, whether it succeeds
/// or is refused.
pub proof fn initialize_keeps_consistent(ledger: Ledger, target: i128, deadline: u64)
    requires
        ledger.consistent(),
    ensures
        ledger.after_initialize(target, deadline).consistent(),
{
}

/// In a consistent ledger no contributor's total exceeds the amount raised.
pub proof fn total_is_within_raised(ledger: Ledger, who: Seq<u8>)
    requires
        ledger.consistent(),
    ensures
        0 <= ledger.donated_by(who) <= ledger.raised(),
{
    if ledger.donations.dom().contains(who) {
        lemma_sum_of_remove(ledger.donations, who);
        lemma_sum_of_positive(ledger.donations.remove(who));
    } else {
        lemma_sum_of_positive(ledger.donations);
    }
}

/// `donate` keeps a consistent ledger consistent, whether it succeeds or is
/// refused. In particular the amount raised stays the sum of all totals.
pub proof fn donate_keeps_consistent(ledger: Ledger, attempt: Attempt)
    requires
        ledger.campaign is Some,
        ledger.consistent(),
    ensures
        ledger.after(attempt).consistent(),
{
    if ledger.accepts(attempt) {
        let total = (ledger.donated_by(attempt.donor) + attempt.amount) as i128;
        lemma_sum_of_insert(ledger.donations, attempt.donor, total);
        lemma_sum_of_positive(ledger.donations);
    }
}

/// Any number of calls of `donate` keep a consistent ledger consistent.
pub proof fn calls_keep_consistent(ledger: Ledger, attempts: Seq<Attempt>)
    requires
        ledger.campaign is Some,
        ledger.consistent(),
    ensures
        ledger.after_all(attempts).campaign is Some,
        ledger.after_all(attempts).consistent(),
    decreases attempts.len(),
{
    if attempts.len() > 0 {
        calls_keep_consistent(ledger, attempts.drop_last());
        donate_keeps_consistent(ledger.after_all(attempts.drop_last()), attempts.last());
    }
}

/// Every ledger that `initialize` and then any calls of `donate` make of the
/// empty one is consistent.
pub proof fn every_reachable_ledger_is_consistent(
    target: i128,
    deadline: u64,
    attempts: Seq<Attempt>,
)
    ensures
        Ledger::empty().after_initialize(target, deadline).after_all(attempts).consistent(),
{
    calls_keep_consistent(Ledger::empty().after_initialize(target, deadline), attempts);
}

/// A campaign is created once. Whatever a first call of `initialize` found, a
/// second call on the ledger that it left is refused with
/// `AlreadyInitialized` and leaves that ledger as it is. On a ledger without a
/// campaign the first call stores its own target and deadline, so these are
/// what the second call leaves untouched.
pub proof fn second_initialize_is_refused(
    ledger: Ledger,
    target: i128,
    deadline: u64,
    other_target: i128,
    other_deadline: u64,
)
    ensures
        ledger.after_initialize(target, deadline).initialize(other_target, other_deadline)
            == Err::<Ledger, Error>(Error::AlreadyInitialized),
        ledger.after_initialize(target, deadline).after_initialize(other_target, other_deadline)
            == ledger.after_initialize(target, deadline),
        ledger.campaign is None ==> ledger.after_initialize(target, deadline).campaign == Some(
            (Campaign { target_amount: target, deadline, raised_amount: 0, state: State::Running }),
        ),
{
}

/// One call of `donate` never touches the target or the deadline, never
/// lowers the amount raised, changes the amount raised exactly when it is
/// accepted, and moves the state from `Running` to `Success` or not at all.
pub proof fn donate_only_advances(ledger: Ledger, attempt: Attempt)
    requires
        ledger.campaign is Some,
    ensures
        ledger.after(attempt).campaign is Some,
        ledger.after(attempt).campaign.unwrap().target_amount
            == ledger.campaign.unwrap().target_amount,
        ledger.after(attempt).campaign.unwrap().deadline == ledger.campaign.unwrap().deadline,
        ledger.after(attempt).raised() >= ledger.raised(),
        ledger.after(attempt).raised() != ledger.raised() <==> ledger.accepts(attempt),
        ledger.after(attempt).campaign.unwrap().state == ledger.campaign.unwrap().state
            || (ledger.campaign.unwrap().state == State::Running
            && ledger.after(attempt).campaign.unwrap().state == State::Success),
{
}

/// Whatever calls of `donate` are made, the amount raised afterwards is the
/// amount raised before plus the amounts of the calls that were accepted.
pub proof fn raised_is_sum_of_accepted(ledger: Ledger, attempts: Seq<Attempt>)
    requires
        ledger.campaign is Some,
    ensures
        ledger.after_all(attempts).campaign is Some,
        ledger.after_all(attempts).raised() == ledger.raised()
            + sum_amounts(ledger.accepted(attempts)),
    decreases attempts.len(),
{
    if attempts.len() > 0 {
        let earlier = attempts.drop_last();
        raised_is_sum_of_accepted(ledger, earlier);
        if ledger.after_all(earlier).accepts(attempts.last()) {
            assert(ledger.accepted(attempts).drop_last() =~= ledger.accepted(earlier));
        }
    }
}

/// The amount raised never decreases: after the first `longer` of a series
/// of calls it is at least what it was after the first `shorter` of them.
pub proof fn raised_never_decreases(
    ledger: Ledger,
    attempts: Seq<Attempt>,
    shorter: int,
    longer: int,
)
    requires
        ledger.campaign is Some,
        0 <= shorter <= longer <= attempts.len(),
    ensures
        ledger.after_all(attempts.take(shorter)).raised()
            <= ledger.after_all(attempts.take(longer)).raised(),
    decreases longer - shorter,
{
    if shorter < longer {
        raised_never_decreases(ledger, attempts, shorter, longer - 1);
        assert(attempts.take(longer).drop_last() =~= attempts.take(longer - 1));
        raised_is_sum_of_accepted(ledger, attempts.take(longer - 1));
        donate_only_advances(
            ledger.after_all(attempts.take(longer - 1)),
            attempts.take(longer).last(),
        );
    }
}

/// Whatever calls of `donate` are made, the total of a contributor
/// afterwards is their total before plus the amounts of their own calls
/// that were accepted. The calls of other contributors add nothing to it.
pub proof fn total_is_sum_of_own_accepted(ledger: Ledger, attempts: Seq<Attempt>, who: Seq<u8>)
    requires
        ledger.campaign is Some,
    ensures
        ledger.after_all(attempts).campaign is Some,
        ledger.after_all(attempts).donated_by(who) == ledger.donated_by(who)
            + sum_amounts_by(ledger.accepted(attempts), who),
    decreases attempts.len(),
{
    if attempts.len() > 0 {
        let earlier = attempts.drop_last();
        total_is_sum_of_own_accepted(ledger, earlier, who);
        if ledger.after_all(earlier).accepts(attempts.last()) {
            assert(ledger.accepted(attempts).drop_last() =~= ledger.accepted(earlier));
        }
    }
}

/// No call of `donate` removes an entry or lowers a total, and the giver
/// has an entry once a call of theirs has been accepted.
pub proof fn totals_never_decrease(ledger: Ledger, attempt: Attempt, who: Seq<u8>)
    requires
        ledger.campaign is Some,
    ensures
        ledger.donations.dom().contains(who) ==> ledger.after(attempt).donations.dom().contains(
            who,
        ),
        ledger.after(attempt).donated_by(who) >= ledger.donated_by(who),
        ledger.accepts(attempt) ==> ledger.after(attempt).donations.dom().contains(attempt.donor),
{
}

/// A call of `donate` leaves every contributor but the giver as they were:
/// with the same total, or still without an entry.
pub proof fn others_are_untouched(ledger: Ledger, attempt: Attempt, who: Seq<u8>)
    requires
        ledger.campaign is Some,
        who != attempt.donor,
    ensures
        ledger.after(attempt).donations.dom().contains(who) == ledger.donations.dom().contains(who),
        ledger.after(attempt).donated_by(who) == ledger.donated_by(who),
{
}

/// The deadline is enforced. While the campaign is running, an authorized
/// call at or after the deadline is refused with `CampaignExpired` and
/// changes nothing; an authorized call before the deadline, with a positive
/// amount that both sums can take, is accepted.
pub proof fn deadline_is_enforced(ledger: Ledger, attempt: Attempt)
    requires
        ledger.campaign is Some,
        ledger.campaign.unwrap().state == State::Running,
        attempt.authorized,
    ensures
        attempt.now >= ledger.campaign.unwrap().deadline ==> {
            &&& ledger.outcome(attempt) == Err::<Ledger, Error>(Error::CampaignExpired)
            &&& ledger.after(attempt) == ledger
        },
        ({
            &&& attempt.now < ledger.campaign.unwrap().deadline
            &&& attempt.amount > 0
            &&& ledger.raised() + attempt.amount <= i128::MAX
            &&& ledger.donated_by(attempt.donor) + attempt.amount <= i128::MAX
        }) ==> ledger.outcome(attempt) == Ok::<Ledger, Error>(
            ledger.credit(attempt.donor, attempt.amount),
        ),
{
}

/// An accepted contribution that brings the amount raised to the target
/// makes the campaign a success, and every authorized call after that is
/// refused with `CampaignNotRunning`, whatever its amount and time.
pub proof fn reaching_the_target_closes_the_campaign(
    ledger: Ledger,
    attempt: Attempt,
    later: Attempt,
)
    requires
        ledger.campaign is Some,
        ledger.accepts(attempt),
        ledger.raised() + attempt.amount >= ledger.campaign.unwrap().target_amount,
        later.authorized,
    ensures
        ledger.after(attempt).campaign.unwrap().state == State::Success,
        ledger.after(attempt).outcome(later) == Err::<Ledger, Error>(Error::CampaignNotRunning),
{
}

/// No call of `donate` changes a ledger whose campaign is not running.
pub proof fn only_a_running_campaign_changes(ledger: Ledger, attempts: Seq<Attempt>)
    requires
        ledger.campaign is Some,
        ledger.campaign.unwrap().state != State::Running,
    ensures
        ledger.after_all(attempts) == ledger,
    decreases attempts.len(),
{
    if attempts.len() > 0 {
        only_a_running_campaign_changes(ledger, attempts.drop_last());
    }
}

/// A call with an amount of zero or less is refused and changes nothing,
/// whatever the state and the time. The error is `InvalidAmount` where the
/// checks that come first pass: the call is authorized, the campaign is
/// running and the deadline has not been reached.
pub proof fn non_positive_amount_is_refused(ledger: Ledger, attempt: Attempt)
    requires
        ledger.campaign is Some,
        attempt.amount <= 0,
    ensures
        !ledger.accepts(attempt),
        ledger.after(attempt) == ledger,
        ({
            &&& attempt.authorized
            &&& ledger.campaign.unwrap().state == State::Running
            &&& attempt.now < ledger.campaign.unwrap().deadline
        }) ==> ledger.outcome(attempt) == Err::<Ledger, Error>(Error::InvalidAmount),
{
}

/// In a consistent ledger the giver's total can only leave the range where
/// the amount raised does: `ArithmeticOverflow` comes exactly when every
/// earlier check passes and the amount raised would exceed the range.
pub proof fn overflow_is_that_of_the_raised_amount(ledger: Ledger, attempt: Attempt)
    requires
        ledger.campaign is Some,
        ledger.consistent(),
    ensures
        ledger.outcome(attempt) == Err::<Ledger, Error>(Error::ArithmeticOverflow) <==> {
            &&& attempt.authorized
            &&& ledger.campaign.unwrap().state == State::Running
            &&& attempt.now < ledger.campaign.unwrap().deadline
            &&& attempt.amount > 0
            &&& ledger.raised() + attempt.amount > i128::MAX
        },
{
    total_is_within_raised(ledger, attempt.donor);
}

} // verus!
