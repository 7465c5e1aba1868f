use vstd::prelude::*;
use vstd::seq_lib::*;
use vstd::set_lib::{lemma_int_range, lemma_len_subset, set_int_range};
use vstd::std_specs::vec::vec_index_mut;

use crate::config::Config;
use crate::text::{dec_digits, push_string, u32_to_string};

verus! {

/// One draftable player. `team` holds the index of the owning captain once
/// the player has been settled, and stays absent until then.
pub struct Player {
    pub name: String,
    pub is_legio: bool,
    pub recent_wn8: u32,
    pub team: Option<usize>,
    pub picked: bool,
}

impl Player {
    pub fn new(name: String, is_legio: bool) -> (p: Player)
        ensures
            p.name@ == name@,
            p.is_legio == is_legio,
            p.recent_wn8 == 0,
            p.team is None,
            !p.picked,
    {
        Player { name, is_legio, recent_wn8: 0, team: None, picked: false }
    }

    pub fn to_string(&self) -> (s: String)
        ensures
            s@ == self.name@,
    {
        self.name.clone()
    }
}

/// One team captain. `players` is the roster, as indices into the player
/// table. The two ghost fields record what the captain started with and what
/// settlements have taken from it, so that conservation of funds can be
/// stated as an invariant.
pub struct Captain {
    pub discord_id: u64,
    pub name: String,
    pub players: Vec<usize>,
    pub balance: u32,
    pub legio_count: u32,
    pub initial_balance: Ghost<u32>,
    pub spent: Ghost<u32>,
}

impl Captain {
    pub fn new(id: u64, name: String, bal: u32) -> (c: Captain)
        ensures
            c.discord_id == id,
            c.name@ == name@,
            c.players@ == Seq::<usize>::empty(),
            c.balance == bal,
            c.legio_count == 0,
            c.initial_balance@ == bal,
            c.spent@ == 0,
    {
        Captain {
            discord_id: id,
            name,
            players: Vec::new(),
            balance: bal,
            legio_count: 0,
            initial_balance: Ghost(bal),
            spent: Ghost(0),
        }
    }

    /// The largest amount this captain may legally bid: the balance, minus
    /// the minimum bid reserved for every roster slot not yet filled
    /// (counting the slot currently being contested).
    pub fn get_max_bid(&self, config: &Config) -> (m: i128)
        requires
            self.players@.len() <= config.team_size,
        ensures
            m == self.balance - (config.team_size - self.players@.len()) * config.min_bid,
            m == spec_max_bid(*self, *config),
    {
        max_bid_amount(self, config)
    }

    /// The captain's listing: name, balance, and the roster's player names
    /// run together, or "None" for an empty roster.
    pub fn to_string(&self, players: &Vec<Player>) -> (s: String)
        requires
            forall|k: int|
                0 <= k < self.players@.len() ==> self.players@[k] < players@.len(),
        ensures
            s@ == captain_text(*self, players@),
    {
        let mut player_str = String::new();
        if self.players.len() == 0 {
            push_string(&mut player_str, "None");
            proof {
                assert(player_str@ =~= "None"@);
            }
        } else {
            let mut k: usize = 0;
            while k < self.players.len()
                invariant
                    k <= self.players@.len(),
                    forall|j: int|
                        0 <= j < self.players@.len() ==> self.players@[j] < players@.len(),
                    player_str@ == roster_names(self.players@.take(k as int), players@),
                decreases self.players@.len() - k,
            {
                let idx = self.players[k];
                push_string(&mut player_str, players[idx].name.as_str());
                proof {
                    assert(self.players@.take(k + 1 as int).drop_last() =~= self.players@.take(
                        k as int,
                    ));
                    assert(player_str@ =~= roster_names(
                        self.players@.take(k + 1 as int),
                        players@,
                    ));
                }
                k = k + 1;
            }
            proof {
                assert(self.players@.take(self.players@.len() as int) =~= self.players@);
            }
        }
        let mut s = String::new();
        push_string(&mut s, "Name: ");
        push_string(&mut s, self.name.as_str());
        push_string(&mut s, "\n");
        push_string(&mut s, "Balance: ");
        let t = u32_to_string(self.balance);
        push_string(&mut s, t.as_str());
        push_string(&mut s, "\n");
        push_string(&mut s, " Players: ");
        push_string(&mut s, player_str.as_str());
        proof {
            assert(s@ =~= captain_text(*self, players@));
        }
        s
    }
}

/// How many roster slots the captain still has to fill.
pub open spec fn spec_slots_left(c: Captain, cfg: Config) -> int {
    if c.players@.len() <= cfg.team_size {
        cfg.team_size - c.players@.len()
    } else {
        0
    }
}

/// The budget rule: the balance minus the minimum bid reserved for every
/// slot still to fill.
pub open spec fn spec_max_bid(c: Captain, cfg: Config) -> int {
    c.balance - spec_slots_left(c, cfg) * cfg.min_bid
}

/// The budget rule, total over every roster size.
pub fn max_bid_amount(c: &Captain, cfg: &Config) -> (m: i128)
    ensures
        m == spec_max_bid(*c, *cfg),
        m <= c.balance,
{
    let len = c.players.len();
    let slots: u32 = if len < cfg.team_size as usize {
        cfg.team_size - len as u32
    } else {
        0
    };
    proof {
        assert((slots as int) * (cfg.min_bid as int) <= 0xFFFF_FFFF * 0xFFFF_FFFF)
            by (nonlinear_arith)
            requires
                0 <= slots as int <= 0xFFFF_FFFF,
                0 <= cfg.min_bid as int <= 0xFFFF_FFFF,
        ;
        assert((slots as int) * (cfg.min_bid as int) >= 0) by (nonlinear_arith)
            requires
                0 <= slots as int,
                0 <= cfg.min_bid as int,
        ;
    }
    let m: i128 = c.balance as i128 - (slots as i128) * (cfg.min_bid as i128);
    m
}

/// The roster's player names run together, in roster order.
pub open spec fn roster_names(roster: Seq<usize>, players: Seq<Player>) -> Seq<char>
    decreases roster.len(),
{
    if roster.len() == 0 {
        Seq::<char>::empty()
    } else {
        roster_names(roster.drop_last(), players) + players[roster.last() as int].name@
    }
}

/// The textual rendering of a captain, as the listing shows it.
pub open spec fn captain_text(c: Captain, players: Seq<Player>) -> Seq<char> {
    "Name: "@ + c.name@ + "\n"@ + "Balance: "@ + dec_digits(c.balance as nat) + "\n"@
        + " Players: "@ + if c.players@.len() == 0 {
        "None"@
    } else {
        roster_names(c.players@, players)
    }
}

/// Builds the player table from the imported `(name, restricted)` pairs,
/// in their given order.
pub fn import_players(pairs: Vec<(String, bool)>) -> (players: Vec<Player>)
    ensures
        players@.len() == pairs@.len(),
        forall|i: int|
            0 <= i < pairs@.len() ==> {
                &&& players@[i].name@ == pairs@[i].0@
                &&& players@[i].is_legio == pairs@[i].1
                &&& players@[i].recent_wn8 == 0
                &&& players@[i].team is None
                &&& !players@[i].picked
            },
{
    let mut players: Vec<Player> = Vec::new();
    let mut i: usize = 0;
    while i < pairs.len()
        invariant
            i <= pairs@.len(),
            players@.len() == i,
            forall|j: int|
                0 <= j < i ==> {
                    &&& players@[j].name@ == pairs@[j].0@
                    &&& players@[j].is_legio == pairs@[j].1
                    &&& players@[j].recent_wn8 == 0
                    &&& players@[j].team is None
                    &&& !players@[j].picked
                },
        decreases pairs@.len() - i,
    {
        let name = pairs[i].0.clone();
        let is_legio = pairs[i].1;
        players.push(Player::new(name, is_legio));
        i = i + 1;
    }
    players
}

/// Settles one player onto one captain: the player is marked picked and
/// owned, appended to the roster, and counted if restricted. The balance is
/// not touched here; the settlement deducts it separately.
pub fn add_player_to_captain(
    captains: &mut Vec<Captain>,
    players: &mut Vec<Player>,
    c: usize,
    p: usize,
)
    requires
        c < old(captains)@.len(),
        p < old(players)@.len(),
        old(captains)@[c as int].legio_count < u32::MAX,
    ensures
        final(players)@.len() == old(players)@.len(),
        forall|q: int|
            0 <= q < old(players)@.len() && q != p ==> final(players)@[q] == old(players)@[q],
        final(players)@[p as int].picked,
        final(players)@[p as int].team == Some(c),
        final(players)@[p as int].name@ == old(players)@[p as int].name@,
        final(players)@[p as int].is_legio == old(players)@[p as int].is_legio,
        final(players)@[p as int].recent_wn8 == old(players)@[p as int].recent_wn8,
        final(captains)@.len() == old(captains)@.len(),
        forall|w: int|
            0 <= w < old(captains)@.len() && w != c ==> final(captains)@[w] == old(captains)@[w],
        final(captains)@[c as int].players@ == old(captains)@[c as int].players@.push(p),
        final(captains)@[c as int].legio_count == old(captains)@[c as int].legio_count + (
        if old(players)@[p as int].is_legio {
            1int
        } else {
            0int
        }),
        final(captains)@[c as int].discord_id == old(captains)@[c as int].discord_id,
        final(captains)@[c as int].name@ == old(captains)@[c as int].name@,
        final(captains)@[c as int].balance == old(captains)@[c as int].balance,
        final(captains)@[c as int].initial_balance == old(captains)@[c as int].initial_balance,
        final(captains)@[c as int].spent == old(captains)@[c as int].spent,
{
    let is_legio = players[p].is_legio;
    let pl = vec_index_mut(players, p);
    pl.picked = true;
    pl.team = Some(c);
    let cap = vec_index_mut(captains, c);
    if is_legio {
        cap.legio_count = cap.legio_count + 1;
    }
    cap.players.push(p);
}

/// Distinct indices below `n` cannot number more than `n`.
pub proof fn lemma_distinct_bounded_len(s: Seq<usize>, n: nat)
    requires
        s.no_duplicates(),
        forall|k: int| 0 <= k < s.len() ==> s[k] < n,
    ensures
        s.len() <= n,
{
    let f = |x: usize| x as int;
    let si = s.map_values(f);
    assert(si.no_duplicates()) by {
        s.lemma_no_duplicates_injective(f);
    }
    si.unique_seq_to_set();
    assert(si.to_set().subset_of(set_int_range(0, n as int))) by {
        assert forall|x: int| si.to_set().contains(x) implies set_int_range(
            0,
            n as int,
        ).contains(x) by {
            let k = choose|k: int| 0 <= k < si.len() && si[k] == x;
            assert(0 <= x < n);
        }
    }
    lemma_int_range(0, n as int);
    lemma_len_subset(si.to_set(), set_int_range(0, n as int));
}

} // verus!
