use nova_fund::{
    Address, Campaign, Donation, Error, Notification, NovaFund, State, DONATION_TOPIC,
};

fn who(name: &str) -> Address {
    Address::new(name.as_bytes().to_vec())
}

fn given(name: &str, amount: i128) -> Result<Notification, Error> {
    Ok(Notification { contributor: who(name), amount })
}

fn running(target: i128, deadline: u64) -> NovaFund {
    let mut fund = NovaFund::new();
    assert_eq!(fund.initialize(target, deadline), Ok(()));
    fund
}

#[test]
fn query_before_initialize_gives_zeros() {
    let fund = NovaFund::new();
    assert_eq!(fund.get_state(), (0, 0, 0, 0));
    assert_eq!(fund.get_state().3, State::Running.code());
    assert_eq!(fund.campaign(), None);
}

#[test]
fn initialize_stores_target_and_deadline() {
    let fund = running(1_000, 500);
    assert_eq!(fund.get_state(), (1_000, 0, 500, 0));
    assert_eq!(
        fund.campaign(),
        Some(Campaign {
            target_amount: 1_000,
            deadline: 500,
            raised_amount: 0,
            state: State::Running,
        })
    );
}

#[test]
fn initialize_validates_neither_value() {
    let fund = running(-5, 0);
    assert_eq!(fund.get_state(), (-5, 0, 0, 0));
    let fund = running(i128::MIN, u64::MAX);
    assert_eq!(fund.get_state(), (i128::MIN, 0, u64::MAX, 0));
}

#[test]
fn second_initialize_is_refused_and_changes_nothing() {
    let mut fund = running(1_000, 500);
    assert_eq!(fund.initialize(7, 9), Err(Error::AlreadyInitialized));
    assert_eq!(fund.get_state(), (1_000, 0, 500, 0));
    assert_eq!(fund.initialize(1_000, 500), Err(Error::AlreadyInitialized));
    assert_eq!(fund.get_state(), (1_000, 0, 500, 0));
}

#[test]
fn initialize_is_refused_after_contributions_too() {
    let mut fund = running(1_000, 500);
    assert_eq!(fund.donate(who("alice"), 40, 1, true), given("alice", 40));
    assert_eq!(fund.initialize(7, 9), Err(Error::AlreadyInitialized));
    assert_eq!(fund.get_state(), (1_000, 40, 500, 0));
    assert_eq!(fund.donated_by(&who("alice")), 40);
}

#[test]
fn contribution_is_added_to_raised_and_to_the_donor() {
    let mut fund = running(1_000, 500);
    assert_eq!(fund.donated_by(&who("alice")), 0);
    assert_eq!(fund.donate(who("alice"), 25, 10, true), given("alice", 25));
    assert_eq!(fund.get_state(), (1_000, 25, 500, 0));
    assert_eq!(fund.donated_by(&who("alice")), 25);
}

#[test]
fn raised_is_the_sum_of_the_accepted_amounts() {
    let mut fund = running(1_000, 500);
    let mut expected: i128 = 0;
    let calls: [(&str, i128, u64, bool); 7] = [
        ("alice", 10, 1, true),
        ("bob", 0, 2, true),
        ("bob", 20, 3, true),
        ("carol", 30, 4, false),
        ("alice", -4, 5, true),
        ("alice", 5, 6, true),
        ("carol", 7, 500, true),
    ];
    for (name, amount, now, authorized) in calls {
        let before = fund.get_state().1;
        let accepted = fund.donate(who(name), amount, now, authorized).is_ok();
        if accepted {
            expected += amount;
        }
        assert!(fund.get_state().1 >= before);
        assert_eq!(fund.get_state().1, expected);
    }
    assert_eq!(expected, 35);
    assert_eq!(fund.get_state(), (1_000, 35, 500, 0));
}

#[test]
fn each_contributor_accumulates_their_own_amounts() {
    let mut fund = running(1_000, 500);
    assert_eq!(fund.donate(who("alice"), 10, 1, true), given("alice", 10));
    assert_eq!(fund.donate(who("bob"), 3, 2, true), given("bob", 3));
    assert_eq!(fund.donate(who("alice"), 20, 3, true), given("alice", 20));
    assert_eq!(fund.donate(who("alice"), 30, 4, true), given("alice", 30));
    assert_eq!(fund.donate(who("bob"), 4, 5, true), given("bob", 4));
    assert_eq!(fund.donated_by(&who("alice")), 60);
    assert_eq!(fund.donated_by(&who("bob")), 7);
    assert_eq!(fund.donated_by(&who("carol")), 0);
    assert_eq!(fund.get_state().1, 67);
}

#[test]
fn a_new_contributor_leaves_the_others_as_they_were() {
    let mut fund = running(1_000, 500);
    assert_eq!(fund.donate(who("alice"), 10, 1, true), given("alice", 10));
    assert_eq!(fund.donate(who("dave"), 99, 2, true), given("dave", 99));
    assert_eq!(fund.donated_by(&who("alice")), 10);
    assert_eq!(fund.donated_by(&who("dave")), 99);
}

#[test]
fn addresses_that_share_a_prefix_are_different_contributors() {
    let mut fund = running(1_000, 500);
    assert_eq!(fund.donate(who("al"), 1, 1, true), given("al", 1));
    assert_eq!(fund.donate(who("ali"), 2, 1, true), given("ali", 2));
    assert_eq!(fund.donate(who(""), 4, 1, true), given("", 4));
    assert_eq!(fund.donated_by(&who("al")), 1);
    assert_eq!(fund.donated_by(&who("ali")), 2);
    assert_eq!(fund.donated_by(&who("")), 4);
    assert_eq!(fund.donated_by(&who("a")), 0);
}

#[test]
fn contribution_at_the_deadline_is_refused() {
    let mut fund = running(1_000, 500);
    assert_eq!(fund.donate(who("alice"), 10, 499, true), given("alice", 10));
    assert_eq!(fund.donate(who("alice"), 10, 500, true), Err(Error::CampaignExpired));
    assert_eq!(fund.donate(who("bob"), 10, 501, true), Err(Error::CampaignExpired));
    assert_eq!(fund.donate(who("bob"), 10, u64::MAX, true), Err(Error::CampaignExpired));
    assert_eq!(fund.get_state(), (1_000, 10, 500, 0));
    assert_eq!(fund.donated_by(&who("alice")), 10);
    assert_eq!(fund.donated_by(&who("bob")), 0);
}

#[test]
fn contribution_just_before_the_deadline_is_accepted() {
    let mut fund = running(1_000, 500);
    assert_eq!(fund.donate(who("alice"), 10, 499, true), given("alice", 10));
    assert_eq!(fund.get_state(), (1_000, 10, 500, 0));
}

#[test]
fn deadline_zero_refuses_every_contribution() {
    let mut fund = running(1_000, 0);
    assert_eq!(fund.donate(who("alice"), 10, 0, true), Err(Error::CampaignExpired));
    assert_eq!(fund.get_state(), (1_000, 0, 0, 0));
}

#[test]
fn expiry_is_not_stored() {
    let mut fund = running(1_000, 500);
    assert_eq!(fund.donate(who("alice"), 10, 600, true), Err(Error::CampaignExpired));
    assert_eq!(fund.get_state().3, 0);
    assert_eq!(fund.donate(who("alice"), 10, 499, true), given("alice", 10));
    assert_eq!(fund.get_state(), (1_000, 10, 500, 0));
}

#[test]
fn reaching_the_target_makes_the_campaign_a_success() {
    let mut fund = running(100, 500);
    assert_eq!(fund.donate(who("alice"), 90, 1, true), given("alice", 90));
    assert_eq!(fund.get_state(), (100, 90, 500, 0));
    assert_eq!(fund.donate(who("bob"), 10, 2, true), given("bob", 10));
    assert_eq!(fund.get_state(), (100, 100, 500, 1));
    assert_eq!(fund.get_state().3, State::Success.code());
    assert_eq!(fund.donate(who("bob"), 1, 3, true), Err(Error::CampaignNotRunning));
    assert_eq!(fund.donate(who("carol"), i128::MAX, 3, true), Err(Error::CampaignNotRunning));
    assert_eq!(fund.get_state(), (100, 100, 500, 1));
    assert_eq!(fund.donated_by(&who("bob")), 10);
}

#[test]
fn passing_the_target_makes_the_campaign_a_success() {
    let mut fund = running(100, 500);
    assert_eq!(fund.donate(who("alice"), 99, 1, true), given("alice", 99));
    assert_eq!(fund.get_state().3, 0);
    assert_eq!(fund.donate(who("alice"), 500, 2, true), given("alice", 500));
    assert_eq!(fund.get_state(), (100, 599, 500, 1));
    assert_eq!(fund.donated_by(&who("alice")), 599);
}

#[test]
fn success_outlasts_the_deadline() {
    let mut fund = running(100, 500);
    assert_eq!(fund.donate(who("alice"), 100, 1, true), given("alice", 100));
    assert_eq!(fund.donate(who("alice"), 1, 500, true), Err(Error::CampaignNotRunning));
    assert_eq!(fund.donate(who("alice"), 1, 9_999, true), Err(Error::CampaignNotRunning));
    assert_eq!(fund.get_state(), (100, 100, 500, 1));
}

#[test]
fn target_of_zero_is_met_by_the_first_contribution() {
    let mut fund = running(0, 500);
    assert_eq!(fund.get_state(), (0, 0, 500, 0));
    assert_eq!(fund.donate(who("alice"), 1, 1, true), given("alice", 1));
    assert_eq!(fund.get_state(), (0, 1, 500, 1));
}

#[test]
fn amount_of_zero_is_refused() {
    let mut fund = running(1_000, 500);
    assert_eq!(fund.donate(who("alice"), 0, 1, true), Err(Error::InvalidAmount));
    assert_eq!(fund.get_state(), (1_000, 0, 500, 0));
    assert_eq!(fund.donated_by(&who("alice")), 0);
}

#[test]
fn negative_amount_is_refused() {
    let mut fund = running(1_000, 500);
    assert_eq!(fund.donate(who("alice"), 50, 1, true), given("alice", 50));
    assert_eq!(fund.donate(who("alice"), -1, 2, true), Err(Error::InvalidAmount));
    assert_eq!(fund.donate(who("alice"), i128::MIN, 2, true), Err(Error::InvalidAmount));
    assert_eq!(fund.get_state(), (1_000, 50, 500, 0));
    assert_eq!(fund.donated_by(&who("alice")), 50);
}

#[test]
fn unauthorized_call_is_refused_first() {
    let mut fund = running(100, 500);
    assert_eq!(fund.donate(who("alice"), 10, 1, false), Err(Error::Unauthorized));
    assert_eq!(fund.donate(who("alice"), 10, 500, false), Err(Error::Unauthorized));
    assert_eq!(fund.donate(who("alice"), 0, 1, false), Err(Error::Unauthorized));
    assert_eq!(fund.get_state(), (100, 0, 500, 0));
    assert_eq!(fund.donate(who("alice"), 100, 1, true), given("alice", 100));
    assert_eq!(fund.donate(who("alice"), 10, 1, false), Err(Error::Unauthorized));
    assert_eq!(fund.get_state(), (100, 100, 500, 1));
}

#[test]
fn deadline_is_checked_before_the_amount() {
    let mut fund = running(100, 500);
    assert_eq!(fund.donate(who("alice"), 0, 500, true), Err(Error::CampaignExpired));
    assert_eq!(fund.donate(who("alice"), -3, 700, true), Err(Error::CampaignExpired));
}

#[test]
fn state_is_checked_before_the_amount() {
    let mut fund = running(100, 500);
    assert_eq!(fund.donate(who("alice"), 100, 1, true), given("alice", 100));
    assert_eq!(fund.donate(who("alice"), 0, 2, true), Err(Error::CampaignNotRunning));
    assert_eq!(fund.donate(who("alice"), -3, 700, true), Err(Error::CampaignNotRunning));
}

#[test]
fn raised_amount_does_not_wrap() {
    let mut fund = running(i128::MAX, 500);
    assert_eq!(fund.donate(who("alice"), i128::MAX - 1, 1, true), given("alice", i128::MAX - 1));
    assert_eq!(fund.get_state(), (i128::MAX, i128::MAX - 1, 500, 0));
    assert_eq!(fund.donate(who("bob"), 2, 2, true), Err(Error::ArithmeticOverflow));
    assert_eq!(fund.donate(who("alice"), i128::MAX, 2, true), Err(Error::ArithmeticOverflow));
    assert_eq!(fund.get_state(), (i128::MAX, i128::MAX - 1, 500, 0));
    assert_eq!(fund.donated_by(&who("alice")), i128::MAX - 1);
    assert_eq!(fund.donated_by(&who("bob")), 0);
    assert_eq!(fund.donate(who("bob"), 1, 3, true), given("bob", 1));
    assert_eq!(fund.get_state(), (i128::MAX, i128::MAX, 500, 1));
    assert_eq!(fund.donated_by(&who("bob")), 1);
}

#[test]
fn contributor_total_does_not_wrap() {
    let record = Campaign {
        target_amount: 100,
        deadline: 500,
        raised_amount: 5,
        state: State::Running,
    };
    let entries = vec![Donation { contributor: who("alice"), total_contributed: i128::MAX }];
    let mut fund = NovaFund::restore(Some(record), entries);
    assert_eq!(fund.donate(who("alice"), 1, 1, true), Err(Error::ArithmeticOverflow));
    assert_eq!(fund.get_state(), (100, 5, 500, 0));
    assert_eq!(fund.donated_by(&who("alice")), i128::MAX);
    assert_eq!(fund.donate(who("bob"), 1, 1, true), given("bob", 1));
    assert_eq!(fund.get_state(), (100, 6, 500, 0));
}

#[test]
fn restored_ledger_goes_on_where_it_stood() {
    let record = Campaign {
        target_amount: 100,
        deadline: 500,
        raised_amount: 90,
        state: State::Running,
    };
    let entries = vec![
        Donation { contributor: who("alice"), total_contributed: 60 },
        Donation { contributor: who("bob"), total_contributed: 30 },
    ];
    let mut fund = NovaFund::restore(Some(record), entries);
    assert_eq!(fund.campaign(), Some(record));
    assert_eq!(fund.donated_by(&who("alice")), 60);
    assert_eq!(fund.donated_by(&who("bob")), 30);
    assert_eq!(fund.initialize(1, 1), Err(Error::AlreadyInitialized));
    assert_eq!(fund.donate(who("bob"), 10, 1, true), given("bob", 10));
    assert_eq!(fund.get_state(), (100, 100, 500, 1));
    assert_eq!(fund.donated_by(&who("alice")), 60);
    assert_eq!(fund.donated_by(&who("bob")), 40);
}

#[test]
fn restored_ledger_without_a_record_can_be_initialized() {
    let mut fund = NovaFund::restore(None, Vec::new());
    assert_eq!(fund.get_state(), (0, 0, 0, 0));
    assert_eq!(fund.initialize(10, 20), Ok(()));
    assert_eq!(fund.get_state(), (10, 0, 20, 0));
}

#[test]
fn first_of_two_entries_for_one_contributor_counts() {
    let record = Campaign {
        target_amount: 100,
        deadline: 500,
        raised_amount: 0,
        state: State::Running,
    };
    let entries = vec![
        Donation { contributor: who("alice"), total_contributed: 1 },
        Donation { contributor: who("alice"), total_contributed: 50 },
    ];
    let mut fund = NovaFund::restore(Some(record), entries);
    assert_eq!(fund.donated_by(&who("alice")), 1);
    assert_eq!(fund.donate(who("alice"), 2, 1, true), given("alice", 2));
    assert_eq!(fund.donated_by(&who("alice")), 3);
}

#[test]
fn expired_record_takes_no_contribution() {
    let record = Campaign {
        target_amount: 100,
        deadline: 500,
        raised_amount: 5,
        state: State::Expired,
    };
    let mut fund = NovaFund::restore(Some(record), Vec::new());
    assert_eq!(fund.get_state(), (100, 5, 500, 2));
    assert_eq!(fund.donate(who("alice"), 1, 1, true), Err(Error::CampaignNotRunning));
    assert_eq!(fund.donate(who("alice"), 1, 500, true), Err(Error::CampaignNotRunning));
    assert_eq!(fund.get_state(), (100, 5, 500, 2));
}

#[test]
fn accepted_contribution_returns_its_notification() {
    let mut fund = running(1_000, 500);
    let notice = fund.donate(who("alice"), 25, 10, true).unwrap();
    assert_eq!(notice.contributor, who("alice"));
    assert_eq!(notice.amount, 25);
    let notice = fund.donate(who("alice"), 5, 11, true).unwrap();
    assert_eq!(notice, Notification { contributor: who("alice"), amount: 5 });
    assert_eq!(DONATION_TOPIC, "donation");
}

#[test]
fn states_have_their_ordinals() {
    assert_eq!(State::Running.code(), 0);
    assert_eq!(State::Success.code(), 1);
    assert_eq!(State::Expired.code(), 2);
}

#[test]
fn addresses_compare_by_their_bytes() {
    let a = Address::new(vec![1, 2, 3]);
    let b = Address::new(vec![1, 2, 3]);
    let c = Address::new(vec![1, 2, 4]);
    let d = Address::new(vec![1, 2]);
    assert!(a == b);
    assert!(b == a);
    assert!(a != c);
    assert!(a != d);
    assert!(d != a);
    assert!(Address::new(Vec::new()) == Address::new(Vec::new()));
    assert!(Address::new(Vec::new()) != d);
}

#[test]
fn address_keeps_its_bytes() {
    let a = Address::new(vec![9, 8, 7]);
    assert_eq!(a.as_bytes(), &[9u8, 8, 7]);
    let b = a.clone();
    assert_eq!(b.as_bytes(), &[9u8, 8, 7]);
    assert_eq!(a, b);
}
