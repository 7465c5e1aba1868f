use auction_draft::commands::{add_captain, bid, pick, set_config};
use auction_draft::draft::{DraftError, Phase, UserData};
use auction_draft::registry::Captain;

fn pairs(names: &[&str]) -> Vec<(String, bool)> {
    names.iter().map(|n| (n.to_string(), false)).collect()
}

fn run_bidding_out(data: &mut UserData) {
    while data.draft_state.phase == Phase::Bidding {
        data.tick();
    }
}

fn nominator_id(data: &UserData) -> u64 {
    let idx = data.draft_state.order[data.draft_state.order_pos];
    data.captains[idx].discord_id
}

#[test]
fn max_bid_empty_roster() {
    // minBid 10, startingBalance 200, teamSize 8, empty roster.
    let cfg = auction_draft::config::Config::create();
    let captain = Captain::new(1, "A".to_string(), 200);
    assert_eq!(captain.get_max_bid(&cfg), 200 - 8 * 10);
    assert_eq!(captain.get_max_bid(&cfg), 120);
}

#[test]
fn max_bid_after_winning_at_fifty() {
    let mut data = UserData::new(pairs(&["P1", "P2"]));
    assert!(add_captain(&mut data, 1, "A".to_string()).is_ok());
    assert!(data.start_draft().is_ok());
    let who = nominator_id(&data);
    assert!(pick(&mut data, who, "P1".to_string(), Some(50)).is_ok());
    run_bidding_out(&mut data);
    assert_eq!(data.draft_state.phase, Phase::Settling);
    data.settle();
    // One player won for 50: balance 150, roster size 1, max bid 150 - 7*10.
    assert_eq!(data.captains[0].balance, 150);
    assert_eq!(data.captains[0].players.len(), 1);
    assert_eq!(data.captains[0].get_max_bid(&data.config), 80);
}

#[test]
fn low_bid_rejected_state_unchanged() {
    let mut data = UserData::new(pairs(&["P1"]));
    assert!(add_captain(&mut data, 1, "A".to_string()).is_ok());
    assert!(add_captain(&mut data, 2, "B".to_string()).is_ok());
    assert!(data.start_draft().is_ok());
    let who = nominator_id(&data);
    assert!(pick(&mut data, who, "P1".to_string(), None).is_ok());
    assert_eq!(data.draft_state.current_bid, 10);
    let bid_before = data.draft_state.current_bid;
    let winner_before = data.draft_state.current_winner;
    let nominated_before = data.draft_state.nominated_player;
    let r = bid(&mut data, 2, 5);
    assert_eq!(r, Err(DraftError::BidTooLow));
    assert_eq!(data.draft_state.current_bid, bid_before);
    assert_eq!(data.draft_state.current_winner, winner_before);
    assert_eq!(data.draft_state.nominated_player, nominated_before);
}

#[test]
fn pick_by_wrong_captain_rejected() {
    let mut data = UserData::new(pairs(&["P1"]));
    assert!(add_captain(&mut data, 1, "A".to_string()).is_ok());
    assert!(add_captain(&mut data, 2, "B".to_string()).is_ok());
    assert!(data.start_draft().is_ok());
    let who = nominator_id(&data);
    let other = if who == 1 { 2 } else { 1 };
    let r = pick(&mut data, other, "P1".to_string(), None);
    assert_eq!(r, Err(DraftError::NotYourTurn));
    assert!(data.draft_state.nominated_player.is_none());
}

#[test]
fn quiet_round_settles_to_nominator_at_starting_bid() {
    // No bid ever exceeds the starting bid of 10: at time 0 the nominating
    // captain wins at 10; the balance drops by 10 and the owner is set.
    let mut data = UserData::new(pairs(&["P1"]));
    assert!(add_captain(&mut data, 1, "A".to_string()).is_ok());
    assert!(set_config(&mut data, None, None, None, None, Some(1), None).is_ok());
    assert!(data.start_draft().is_ok());
    assert!(pick(&mut data, 1, "P1".to_string(), None).is_ok());
    assert_eq!(data.draft_state.current_bid, 10);
    run_bidding_out(&mut data);
    assert_eq!(data.draft_state.time, 0);
    assert_eq!(data.draft_state.phase, Phase::Settling);
    data.settle();
    assert_eq!(data.captains[0].balance, 190);
    assert_eq!(data.players[0].team, Some(0));
    assert!(data.players[0].picked);
    assert_eq!(data.draft_state.phase, Phase::Completed);
}

#[test]
fn anti_snipe_extension_on_tick() {
    let mut data = UserData::new(pairs(&["P1"]));
    assert!(add_captain(&mut data, 1, "A".to_string()).is_ok());
    assert!(add_captain(&mut data, 2, "B".to_string()).is_ok());
    assert!(data.start_draft().is_ok());
    let who = nominator_id(&data);
    assert!(pick(&mut data, who, "P1".to_string(), None).is_ok());
    assert_eq!(data.draft_state.time, 20);
    data.tick();
    data.tick();
    assert_eq!(data.draft_state.time, 18);
    let other = if who == 1 { 2 } else { 1 };
    assert!(bid(&mut data, other, 11).is_ok());
    assert!(data.draft_state.bid_placed);
    let t = data.draft_state.time;
    data.tick();
    // The tick that observes the bid extends by bidAddTime and clears the
    // flag, before any further decrement.
    assert_eq!(data.draft_state.time, t + 5);
    assert!(!data.draft_state.bid_placed);
    data.tick();
    assert_eq!(data.draft_state.time, t + 4);
}

#[test]
fn full_draft_settles_team_size_times_captains() {
    let mut data = UserData::new(pairs(&["P1", "P2", "P3", "P4"]));
    assert!(add_captain(&mut data, 1, "A".to_string()).is_ok());
    assert!(add_captain(&mut data, 2, "B".to_string()).is_ok());
    assert!(set_config(&mut data, None, None, None, None, Some(2), None).is_ok());
    assert!(data.start_draft().is_ok());
    let names = ["P1", "P2", "P3", "P4"];
    let mut settlements = 0;
    let mut next = 0;
    while data.draft_state.phase != Phase::Completed {
        assert_eq!(data.draft_state.phase, Phase::Nominating);
        let who = nominator_id(&data);
        assert!(pick(&mut data, who, names[next].to_string(), None).is_ok());
        next += 1;
        run_bidding_out(&mut data);
        data.settle();
        settlements += 1;
        assert!(settlements <= 4);
    }
    // teamSize x captainCount settlements, every player settled once.
    assert_eq!(settlements, 2 * 2);
    assert!(data.players.iter().all(|p| p.picked));
    assert_eq!(
        data.captains[0].players.len() + data.captains[1].players.len(),
        4
    );
    // Final balance equals the start minus the sum of winning bids (4 wins
    // at the minimum bid of 10 split between the captains).
    let spent_a = 10 * data.captains[0].players.len() as u32;
    let spent_b = 10 * data.captains[1].players.len() as u32;
    assert_eq!(data.captains[0].balance, 200 - spent_a);
    assert_eq!(data.captains[1].balance, 200 - spent_b);
}

#[test]
fn each_captain_nominates_once_per_round() {
    let mut data = UserData::new(pairs(&["P1", "P2", "P3", "P4"]));
    assert!(add_captain(&mut data, 1, "A".to_string()).is_ok());
    assert!(add_captain(&mut data, 2, "B".to_string()).is_ok());
    assert!(set_config(&mut data, None, None, None, None, Some(2), None).is_ok());
    assert!(data.start_draft().is_ok());
    let names = ["P1", "P2", "P3", "P4"];
    let mut next = 0;
    let mut nominators_by_round: Vec<Vec<u64>> = vec![Vec::new(), Vec::new()];
    while data.draft_state.phase != Phase::Completed {
        let round = data.draft_state.current_round as usize;
        let who = nominator_id(&data);
        nominators_by_round[round - 1].push(who);
        assert!(pick(&mut data, who, names[next].to_string(), None).is_ok());
        next += 1;
        run_bidding_out(&mut data);
        data.settle();
    }
    for round in nominators_by_round {
        let mut ids = round.clone();
        ids.sort();
        assert_eq!(ids, vec![1, 2]);
    }
}

#[test]
fn settling_a_restricted_player_counts() {
    let mut data = UserData::new(vec![("R1".to_string(), true), ("N1".to_string(), false)]);
    assert!(add_captain(&mut data, 1, "A".to_string()).is_ok());
    assert!(set_config(&mut data, None, None, None, None, Some(2), None).is_ok());
    assert!(data.start_draft().is_ok());
    assert!(pick(&mut data, 1, "N1".to_string(), None).is_ok());
    run_bidding_out(&mut data);
    data.settle();
    assert_eq!(data.captains[0].legio_count, 0);
    assert!(pick(&mut data, 1, "R1".to_string(), None).is_ok());
    run_bidding_out(&mut data);
    data.settle();
    assert_eq!(data.captains[0].legio_count, 1);
    assert_eq!(data.captains[0].players, vec![1, 0]);
}

#[test]
fn duplicate_captain_rejected() {
    let mut data = UserData::new(pairs(&["P1"]));
    assert!(add_captain(&mut data, 7, "A".to_string()).is_ok());
    let r = add_captain(&mut data, 7, "A again".to_string());
    assert_eq!(r, Err(DraftError::DuplicateCaptain));
    assert_eq!(data.captains.len(), 1);
    assert_eq!(data.captains[0].balance, 200);
}

#[test]
fn start_draft_preconditions() {
    let mut data = UserData::new(pairs(&["P1"]));
    assert_eq!(data.start_draft(), Err(DraftError::InvalidPreconditions));
    assert!(add_captain(&mut data, 1, "A".to_string()).is_ok());
    assert!(data.start_draft().is_ok());
    assert_eq!(data.start_draft(), Err(DraftError::WrongPhase));
}

#[test]
fn start_draft_order_is_permutation() {
    let mut data = UserData::new(pairs(&["P1"]));
    for id in 0..5u64 {
        assert!(add_captain(&mut data, id + 1, format!("C{}", id)).is_ok());
    }
    assert!(data.start_draft().is_ok());
    let mut order = data.draft_state.order.clone();
    order.sort();
    assert_eq!(order, vec![0, 1, 2, 3, 4]);
}

#[test]
fn locked_fields_after_start() {
    let mut data = UserData::new(pairs(&["P1"]));
    assert!(add_captain(&mut data, 1, "A".to_string()).is_ok());
    // Before the start everything is tunable.
    assert_eq!(
        set_config(&mut data, Some(30), Some(7), Some(5), Some(500), Some(3), Some(1)),
        Ok(false)
    );
    assert_eq!(data.config.round_time, 30);
    assert_eq!(data.config.bid_add_time, 7);
    assert_eq!(data.config.min_bid, 5);
    assert_eq!(data.config.starting_balance, 500);
    assert_eq!(data.config.team_size, 3);
    assert_eq!(data.config.legio_limit, 1);
    assert!(data.start_draft().is_ok());
    // Afterwards the starting balance and team size are locked, while the
    // other fields still apply.
    let r = set_config(&mut data, Some(40), None, None, Some(900), None, None);
    assert_eq!(r, Err(DraftError::LockedField));
    assert_eq!(data.config.starting_balance, 500);
    assert_eq!(data.config.team_size, 3);
    assert_eq!(data.config.round_time, 40);
    // A restricted-limit change mid-draft succeeds with the advisory flag.
    assert_eq!(set_config(&mut data, None, None, None, None, None, Some(9)), Ok(true));
    assert_eq!(data.config.legio_limit, 9);
}

#[test]
fn bid_rejections_and_acceptance() {
    let mut data = UserData::new(pairs(&["P1"]));
    assert!(add_captain(&mut data, 1, "A".to_string()).is_ok());
    assert!(add_captain(&mut data, 2, "B".to_string()).is_ok());
    // No auction open yet.
    assert_eq!(bid(&mut data, 1, 50), Err(DraftError::NoActiveAuction));
    assert!(data.start_draft().is_ok());
    assert_eq!(bid(&mut data, 1, 50), Err(DraftError::NoActiveAuction));
    let who = nominator_id(&data);
    assert!(pick(&mut data, who, "P1".to_string(), None).is_ok());
    let other = if who == 1 { 2 } else { 1 };
    // A stranger to the captain list is turned away.
    assert_eq!(bid(&mut data, 99, 50), Err(DraftError::UnknownCaptain));
    // Beyond the budget: an empty roster at teamSize 8 reserves 80 of 200.
    assert_eq!(bid(&mut data, other, 121), Err(DraftError::InsufficientFunds));
    assert_eq!(bid(&mut data, other, 120), Ok(()));
    assert_eq!(data.draft_state.current_bid, 120);
    assert!(data.draft_state.bid_placed);
}

#[test]
fn pick_rejections() {
    let mut data = UserData::new(pairs(&["P1", "P2"]));
    assert!(add_captain(&mut data, 1, "A".to_string()).is_ok());
    assert_eq!(
        pick(&mut data, 1, "P1".to_string(), None),
        Err(DraftError::WrongPhase)
    );
    assert!(set_config(&mut data, None, None, None, None, Some(2), None).is_ok());
    assert!(data.start_draft().is_ok());
    // Unknown names and already-picked players are both turned away.
    assert_eq!(
        pick(&mut data, 1, "nobody".to_string(), None),
        Err(DraftError::UnknownOrPickedPlayer)
    );
    // An opening bid outside [minBid, maxBid] is out of range.
    assert_eq!(
        pick(&mut data, 1, "P1".to_string(), Some(5)),
        Err(DraftError::BidOutOfRange)
    );
    assert_eq!(
        pick(&mut data, 1, "P1".to_string(), Some(181)),
        Err(DraftError::BidOutOfRange)
    );
    assert!(pick(&mut data, 1, "P1".to_string(), Some(180)).is_ok());
    run_bidding_out(&mut data);
    data.settle();
    assert_eq!(
        pick(&mut data, 1, "P1".to_string(), None),
        Err(DraftError::UnknownOrPickedPlayer)
    );
}
