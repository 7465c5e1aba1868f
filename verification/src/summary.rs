use vstd::prelude::*;

use crate::commands::nominator_index;
use crate::draft::{Phase, UserData};
use crate::registry::Player;
use crate::text::push_string;

verus! {

/// The wn8 display colour for a recent-performance score.
pub open spec fn spec_wn8_color(wn8: u32) -> i32 {
    if wn8 == 0 {
        0x808080
    } else if wn8 <= 300 {
        0x930D0D
    } else if wn8 <= 450 {
        0xCD3333
    } else if wn8 <= 650 {
        0xCC7A00
    } else if wn8 <= 900 {
        0xCCB800
    } else if wn8 <= 1200 {
        0x849B24
    } else if wn8 <= 1600 {
        0x4D7326
    } else if wn8 <= 2000 {
        0x4099BF
    } else if wn8 <= 2450 {
        0x3972C6
    } else if wn8 <= 2900 {
        0x6844d4
    } else if wn8 <= 3400 {
        0x522b99
    } else if wn8 <= 4000 {
        0x411d73
    } else if wn8 <= 4700 {
        0x310d59
    } else {
        0x24073d
    }
}

pub fn get_wn8_color(wn8: u32) -> (c: i32)
    ensures
        c == spec_wn8_color(wn8),
{
    match wn8 {
        0 => 0x808080,
        1..=300 => 0x930D0D,
        301..=450 => 0xCD3333,
        451..=650 => 0xCC7A00,
        651..=900 => 0xCCB800,
        901..=1200 => 0x849B24,
        1201..=1600 => 0x4D7326,
        1601..=2000 => 0x4099BF,
        2001..=2450 => 0x3972C6,
        2451..=2900 => 0x6844d4,
        2901..=3400 => 0x522b99,
        3401..=4000 => 0x411d73,
        4001..=4700 => 0x310d59,
        _ => 0x24073d,
    }
}

/// The roster's player names, one per line, in roster order.
pub open spec fn roster_lines(roster: Seq<usize>, players: Seq<Player>) -> Seq<char>
    decreases roster.len(),
{
    if roster.len() == 0 {
        Seq::<char>::empty()
    } else {
        roster_lines(roster.drop_last(), players) + players[roster.last() as int].name@ + "\n"@
    }
}

/// The final-results projection the closing embed is built from: one
/// (captain name, roster listing) field per captain, in table order.
pub fn make_final_draft_embed(data: &UserData) -> (fields: Vec<(String, String)>)
    requires
        forall|w: int, k: int|
            0 <= w < data.captains@.len() && 0 <= k < data.captains@[w].players@.len()
                ==> #[trigger] data.captains@[w].players@[k] < data.players@.len(),
    ensures
        fields@.len() == data.captains@.len(),
        forall|w: int|
            0 <= w < fields@.len() ==> #[trigger] fields@[w].0@ == data.captains@[w].name@
                && fields@[w].1@ == roster_lines(data.captains@[w].players@, data.players@),
{
    let mut fields: Vec<(String, String)> = Vec::new();
    let mut w: usize = 0;
    let n = data.captains.len();
    while w < n
        invariant
            w <= n,
            n == data.captains@.len(),
            forall|v: int, k: int|
                0 <= v < data.captains@.len() && 0 <= k < data.captains@[v].players@.len()
                    ==> #[trigger] data.captains@[v].players@[k] < data.players@.len(),
            fields@.len() == w,
            forall|v: int|
                0 <= v < w ==> #[trigger] fields@[v].0@ == data.captains@[v].name@
                    && fields@[v].1@ == roster_lines(data.captains@[v].players@, data.players@),
        decreases n - w,
    {
        let mut player_str = String::new();
        let mut k: usize = 0;
        let m = data.captains[w].players.len();
        while k < m
            invariant
                k <= m,
                w < data.captains@.len(),
                m == data.captains@[w as int].players@.len(),
                forall|v: int, j: int|
                    0 <= v < data.captains@.len() && 0 <= j < data.captains@[v].players@.len()
                        ==> #[trigger] data.captains@[v].players@[j] < data.players@.len(),
                player_str@ == roster_lines(
                    data.captains@[w as int].players@.take(k as int),
                    data.players@,
                ),
            decreases m - k,
        {
            let idx = data.captains[w].players[k];
            push_string(&mut player_str, data.players[idx].name.as_str());
            push_string(&mut player_str, "\n");
            proof {
                assert(data.captains@[w as int].players@.take(k + 1 as int).drop_last()
                    =~= data.captains@[w as int].players@.take(k as int));
                assert(player_str@ =~= roster_lines(
                    data.captains@[w as int].players@.take(k + 1 as int),
                    data.players@,
                ));
            }
            k = k + 1;
        }
        proof {
            assert(data.captains@[w as int].players@.take(m as int) =~= data.captains@[w as int].players@);
        }
        let name = data.captains[w].name.clone();
        fields.push((name, player_str));
        w = w + 1;
    }
    fields
}

/// The running-round projection the live embed is built from: round
/// number, designated nominator, clock, nominated player, and bid state.
pub struct RoundSummary {
    pub current_round: u32,
    pub captain_name: Option<String>,
    pub time: u32,
    pub player_name: Option<String>,
    pub player_wn8: u32,
    pub starting_bid: u32,
    pub winner_name: Option<String>,
    pub current_bid: u32,
}

pub fn generate_draft_embed(data: &UserData) -> (s: RoundSummary)
    requires
        data.wf(),
    ensures
        s.current_round == data.draft_state.current_round,
        s.time == data.draft_state.time,
        s.starting_bid == data.draft_state.starting_bid,
        s.current_bid == data.draft_state.current_bid,
        (s.captain_name is Some <==> data.draft_state.draft_started && !(
        data.draft_state.phase is Completed)),
        s.captain_name is Some ==> s.captain_name->0@ == data.captains@[nominator_index(
            *data,
        )].name@,
        (s.player_name is Some <==> data.draft_state.nominated_player is Some),
        s.player_name is Some ==> s.player_name->0@ == data.players@[data.draft_state.nominated_player->0 as int].name@
            && s.player_wn8 == data.players@[data.draft_state.nominated_player->0 as int].recent_wn8,
        s.player_name is None ==> s.player_wn8 == 0,
        (s.winner_name is Some <==> data.draft_state.current_winner is Some),
        s.winner_name is Some ==> s.winner_name->0@ == data.captains@[data.draft_state.current_winner->0 as int].name@,
{
    let captain_name: Option<String> = if data.draft_state.draft_started
        && data.draft_state.phase != Phase::Completed {
        let nom = data.draft_state.order[data.draft_state.order_pos];
        Some(data.captains[nom].name.clone())
    } else {
        None
    };
    let mut player_name: Option<String> = None;
    let mut player_wn8: u32 = 0;
    match data.draft_state.nominated_player {
        Some(p) => {
            player_name = Some(data.players[p].name.clone());
            player_wn8 = data.players[p].recent_wn8;
        },
        None => {},
    }
    let winner_name: Option<String> = match data.draft_state.current_winner {
        Some(w) => Some(data.captains[w].name.clone()),
        None => None,
    };
    RoundSummary {
        current_round: data.draft_state.current_round,
        captain_name,
        time: data.draft_state.time,
        player_name,
        player_wn8,
        starting_bid: data.draft_state.starting_bid,
        winner_name,
        current_bid: data.draft_state.current_bid,
    }
}

} // verus!
