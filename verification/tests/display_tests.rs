use auction_draft::commands::{add_captain, display_captains, display_players, pick};
use auction_draft::config::Config;
use auction_draft::draft::{Phase, UserData};
use auction_draft::registry::{import_players, Captain, Player};
use auction_draft::summary::{generate_draft_embed, get_wn8_color, make_final_draft_embed};
use auction_draft::text::u32_to_string;

fn pairs(names: &[&str]) -> Vec<(String, bool)> {
    names.iter().map(|n| (n.to_string(), false)).collect()
}

#[test]
fn decimal_rendering() {
    assert_eq!(u32_to_string(0), "0");
    assert_eq!(u32_to_string(7), "7");
    assert_eq!(u32_to_string(10), "10");
    assert_eq!(u32_to_string(105), "105");
    assert_eq!(u32_to_string(4294967295), "4294967295");
}

#[test]
fn config_defaults_and_listing() {
    let c = Config::create();
    assert_eq!(c.min_bid, 10);
    assert_eq!(c.starting_balance, 200);
    assert_eq!(c.team_size, 8);
    assert_eq!(c.round_time, 20);
    assert_eq!(c.bid_add_time, 5);
    assert_eq!(c.legio_limit, 2);
    let d = Config::default();
    assert_eq!(d.team_size, 8);
    assert_eq!(
        c.to_string(),
        "Min Bid: 10\nStarting Balance: 200\nTeam Size: 8\nRound Time: 20\nBid add team: 5\nLegio Limit: 2\n"
    );
}

#[test]
fn captain_listing() {
    let players = vec![Player::new("Px".to_string(), false), Player::new("Py".to_string(), true)];
    let empty = Captain::new(1, "A".to_string(), 200);
    assert_eq!(empty.to_string(&players), "Name: A\nBalance: 200\n Players: None");
    let mut full = Captain::new(2, "B".to_string(), 140);
    full.players.push(1);
    full.players.push(0);
    assert_eq!(full.to_string(&players), "Name: B\nBalance: 140\n Players: PyPx");
}

#[test]
fn player_listing() {
    let p = Player::new("Zed".to_string(), true);
    assert_eq!(p.to_string(), "Zed");
    assert!(p.is_legio);
    assert!(!p.picked);
    assert!(p.team.is_none());
}

#[test]
fn import_keeps_order_and_flags() {
    let imported = import_players(vec![
        ("One".to_string(), false),
        ("Two".to_string(), true),
    ]);
    assert_eq!(imported.len(), 2);
    assert_eq!(imported[0].name, "One");
    assert!(!imported[0].is_legio);
    assert_eq!(imported[1].name, "Two");
    assert!(imported[1].is_legio);
    assert!(!imported[1].picked);
}

#[test]
fn captains_listing_string() {
    let mut data = UserData::new(pairs(&["P1"]));
    assert!(add_captain(&mut data, 1, "A".to_string()).is_ok());
    assert!(add_captain(&mut data, 2, "B".to_string()).is_ok());
    assert_eq!(display_captains(&data), "Captains: \nA\nB\n");
}

#[test]
fn players_listing() {
    let data = UserData::new(pairs(&["P1", "P2"]));
    let names = display_players(&data);
    assert_eq!(names, vec!["P1".to_string(), "P2".to_string()]);
}

#[test]
fn wn8_colors() {
    assert_eq!(get_wn8_color(0), 0x808080);
    assert_eq!(get_wn8_color(1), 0x930D0D);
    assert_eq!(get_wn8_color(300), 0x930D0D);
    assert_eq!(get_wn8_color(301), 0xCD3333);
    assert_eq!(get_wn8_color(1200), 0x849B24);
    assert_eq!(get_wn8_color(2451), 0x6844d4);
    assert_eq!(get_wn8_color(4700), 0x310d59);
    assert_eq!(get_wn8_color(4701), 0x24073d);
    assert_eq!(get_wn8_color(u32::MAX), 0x24073d);
}

#[test]
fn round_summary_projection() {
    let mut data = UserData::new(pairs(&["P1"]));
    assert!(add_captain(&mut data, 1, "A".to_string()).is_ok());
    let idle = generate_draft_embed(&data);
    assert!(idle.captain_name.is_none());
    assert!(idle.player_name.is_none());
    assert!(idle.winner_name.is_none());
    assert!(data.start_draft().is_ok());
    let nominating = generate_draft_embed(&data);
    assert_eq!(nominating.captain_name, Some("A".to_string()));
    assert_eq!(nominating.current_round, 1);
    assert!(nominating.player_name.is_none());
    assert!(pick(&mut data, 1, "P1".to_string(), Some(15)).is_ok());
    let bidding = generate_draft_embed(&data);
    assert_eq!(bidding.player_name, Some("P1".to_string()));
    assert_eq!(bidding.player_wn8, 0);
    assert_eq!(bidding.winner_name, Some("A".to_string()));
    assert_eq!(bidding.starting_bid, 15);
    assert_eq!(bidding.current_bid, 15);
    assert_eq!(bidding.time, 20);
}

#[test]
fn final_results_projection() {
    let mut data = UserData::new(pairs(&["P1", "P2"]));
    assert!(add_captain(&mut data, 1, "A".to_string()).is_ok());
    assert!(
        auction_draft::commands::set_config(&mut data, None, None, None, None, Some(1), None)
            .is_ok()
    );
    assert!(data.start_draft().is_ok());
    assert!(pick(&mut data, 1, "P2".to_string(), None).is_ok());
    while data.draft_state.phase == Phase::Bidding {
        data.tick();
    }
    data.settle();
    let fields = make_final_draft_embed(&data);
    assert_eq!(fields.len(), 1);
    assert_eq!(fields[0].0, "A");
    assert_eq!(fields[0].1, "P2\n");
}
