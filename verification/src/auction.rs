use vstd::prelude::*;
use vstd::std_specs::vec::vec_index_mut;

use crate::config::{default_config, Config};
use crate::draft::{
    spec_settlements, wf_registry, DraftError, DraftState, Phase, UserData,
};
use crate::registry::{
    add_player_to_captain, import_players, lemma_distinct_bounded_len, Captain,
};
use crate::shuffle::{identity_order, lemma_permutation_of_identity, shuffle_order};

verus! {

impl UserData {
    /// A fresh context: no captains yet, the imported players, the stock
    /// configuration, and an idle draft.
    pub fn new(pairs: Vec<(String, bool)>) -> (data: UserData)
        requires
            pairs@.len() <= 0xFFFF_FFFF,
        ensures
            data.wf(),
            data.captains@.len() == 0,
            data.players@.len() == pairs@.len(),
            forall|i: int|
                0 <= i < pairs@.len() ==> {
                    &&& data.players@[i].name@ == pairs@[i].0@
                    &&& data.players@[i].is_legio == pairs@[i].1
                    &&& !data.players@[i].picked
                },
            data.config == default_config(),
            !data.draft_state.draft_started,
            data.draft_state.phase is Idle,
    {
        UserData {
            captains: Vec::new(),
            players: import_players(pairs),
            config: Config::create(),
            draft_state: DraftState::new(),
        }
    }

    /// Opens the draft: only from idle, with at least one captain, one
    /// player and a positive team size. Fixes a randomly permuted
    /// nomination order and enters round 1 waiting on its first nominator.
    pub fn start_draft(&mut self) -> (r: Result<(), DraftError>)
        requires
            old(self).wf(),
        ensures
            final(self).wf(),
            final(self).config == old(self).config,
            final(self).captains@ == old(self).captains@,
            final(self).players@ == old(self).players@,
            r is Err ==> *final(self) == *old(self),
            (r == Err::<(), DraftError>(DraftError::WrongPhase) <==> old(self).draft_state.draft_started),
            (r == Err::<(), DraftError>(DraftError::InvalidPreconditions) <==> !old(self).draft_state.draft_started && (old(self).captains@.len() == 0 || old(self).players@.len() == 0 || old(self).config.team_size == 0)),
            (r is Ok <==> !old(self).draft_state.draft_started && old(self).captains@.len() > 0
                && old(self).players@.len() > 0 && old(self).config.team_size > 0),
            r is Ok ==> {
                let d = final(self).draft_state;
                &&& d.draft_started
                &&& d.phase is Nominating
                &&& d.current_round == 1
                &&& d.order_pos == 0
                &&& d.order@.len() == old(self).captains@.len()
                &&& d.order@.to_multiset() == identity_order(
                    old(self).captains@.len() as nat,
                ).to_multiset()
                &&& d.nominated_player is None
                &&& d.current_winner is None
                &&& !d.bid_placed
                &&& d.starting_bid == old(self).config.min_bid
                &&& d.current_bid == old(self).config.min_bid
                &&& d.time == old(self).config.round_time
            },
    {
        if self.draft_state.draft_started {
            return Err(DraftError::WrongPhase);
        }
        if self.captains.len() == 0 || self.players.len() == 0 || self.config.team_size == 0 {
            return Err(DraftError::InvalidPreconditions);
        }
        let n = self.captains.len();
        let mut order: Vec<usize> = Vec::new();
        let mut i: usize = 0;
        while i < n
            invariant
                i <= n,
                order@.len() == i,
                forall|j: int| 0 <= j < i ==> order@[j] == j,
            decreases n - i,
        {
            order.push(i);
            i = i + 1;
        }
        proof {
            assert(order@ =~= identity_order(n as nat));
        }
        shuffle_order(&mut order);
        proof {
            lemma_permutation_of_identity(order@, n as nat);
        }
        self.draft_state.order = order;
        self.draft_state.order_pos = 0;
        self.draft_state.current_round = 1;
        self.draft_state.draft_started = true;
        self.draft_state.phase = Phase::Nominating;
        self.draft_state.nominated_player = None;
        self.draft_state.current_winner = None;
        self.draft_state.bid_placed = false;
        self.draft_state.starting_bid = self.config.min_bid;
        self.draft_state.current_bid = self.config.min_bid;
        self.draft_state.time = self.config.round_time;
        Ok(())
    }

    /// One clock step of the bidding countdown. A bid observed since the
    /// last tick extends the clock by `bid_add_time` instead of counting
    /// down (the anti-snipe rule) and consumes the flag; once the clock
    /// reaches zero with no bid pending, the round closes for settlement.
    pub fn tick(&mut self)
        requires
            old(self).wf(),
            old(self).draft_state.phase is Bidding,
            old(self).draft_state.bid_placed ==> old(self).draft_state.time + old(self).config.bid_add_time <= u32::MAX,
        ensures
            final(self).wf(),
            final(self).config == old(self).config,
            final(self).captains@ == old(self).captains@,
            final(self).players@ == old(self).players@,
            final(self).draft_state.order@ == old(self).draft_state.order@,
            final(self).draft_state.order_pos == old(self).draft_state.order_pos,
            final(self).draft_state.current_round == old(self).draft_state.current_round,
            final(self).draft_state.nominated_player == old(self).draft_state.nominated_player,
            final(self).draft_state.current_winner == old(self).draft_state.current_winner,
            final(self).draft_state.starting_bid == old(self).draft_state.starting_bid,
            final(self).draft_state.current_bid == old(self).draft_state.current_bid,
            final(self).draft_state.draft_started,
            !final(self).draft_state.bid_placed,
            old(self).draft_state.bid_placed ==> final(self).draft_state.time == old(self).draft_state.time + old(self).config.bid_add_time && final(self).draft_state.phase is Bidding,
            !old(self).draft_state.bid_placed && old(self).draft_state.time > 1 ==> final(self).draft_state.time == old(self).draft_state.time - 1 && final(self).draft_state.phase is Bidding,
            !old(self).draft_state.bid_placed && old(self).draft_state.time <= 1 ==> final(self).draft_state.time == 0 && final(self).draft_state.phase is Settling,
    {
        if self.draft_state.bid_placed {
            self.draft_state.time = self.draft_state.time + self.config.bid_add_time;
            self.draft_state.bid_placed = false;
        } else {
            if self.draft_state.time > 0 {
                self.draft_state.time = self.draft_state.time - 1;
            }
            if self.draft_state.time == 0 {
                self.draft_state.phase = Phase::Settling;
            }
        }
    }

    /// Applies the closed round: deducts the winning bid from the leading
    /// bidder, hands the nominated player over, and advances to the next
    /// nomination — or completes the draft after the last one.
    pub fn settle(&mut self)
        requires
            old(self).wf(),
            old(self).draft_state.phase is Settling,
        ensures
            final(self).wf(),
            final(self).config == old(self).config,
            final(self).players@.len() == old(self).players@.len(),
            final(self).captains@.len() == old(self).captains@.len(),
            ({
                let p = old(self).draft_state.nominated_player->0 as int;
                let w = old(self).draft_state.current_winner->0 as int;
                let bid = old(self).draft_state.current_bid;
                &&& forall|q: int|
                    0 <= q < old(self).players@.len() && q != p ==> final(self).players@[q] == old(self).players@[q]
                &&& final(self).players@[p].picked
                &&& final(self).players@[p].team == Some(old(self).draft_state.current_winner->0)
                &&& final(self).players@[p].name@ == old(self).players@[p].name@
                &&& forall|v: int|
                    0 <= v < old(self).captains@.len() && v != w ==> final(self).captains@[v]
                        == old(self).captains@[v]
                &&& final(self).captains@[w].balance == old(self).captains@[w].balance - bid
                &&& final(self).captains@[w].spent@ == old(self).captains@[w].spent@ + bid
                &&& final(self).captains@[w].initial_balance == old(self).captains@[w].initial_balance
                &&& final(self).captains@[w].players@ == old(self).captains@[w].players@.push(
                    old(self).draft_state.nominated_player->0,
                )
                &&& final(self).captains@[w].legio_count == old(self).captains@[w].legio_count + (
                if old(self).players@[p].is_legio {
                    1int
                } else {
                    0int
                })
                &&& final(self).captains@[w].name@ == old(self).captains@[w].name@
                &&& final(self).captains@[w].discord_id == old(self).captains@[w].discord_id
            }),
            ({
                let d0 = old(self).draft_state;
                let d = final(self).draft_state;
                &&& d.order@ == d0.order@
                &&& d.draft_started
                &&& spec_settlements(d) == spec_settlements(d0) + 1
                &&& d.nominated_player is None
                &&& d.current_winner is None
                &&& !d.bid_placed
                &&& (d0.order_pos + 1 < d0.order@.len() ==> d.phase is Nominating
                    && d.current_round == d0.current_round && d.order_pos == d0.order_pos + 1)
                &&& (d0.order_pos + 1 == d0.order@.len() && d0.current_round < old(self).config.team_size ==> d.phase is Nominating && d.current_round
                    == d0.current_round + 1 && d.order_pos == 0)
                &&& (d0.order_pos + 1 == d0.order@.len() && d0.current_round == old(self).config.team_size ==> d.phase is Completed && d.current_round
                    == d0.current_round && d.order_pos == d0.order@.len())
                &&& (d.phase is Nominating ==> d.starting_bid == old(self).config.min_bid
                    && d.current_bid == old(self).config.min_bid && d.time == old(self).config.round_time)
            }),
    {
        let p = self.draft_state.nominated_player.unwrap();
        let w = self.draft_state.current_winner.unwrap();
        let bid = self.draft_state.current_bid;
        proof {
            let c = self.captains@[w as int];
            assert(!c.players@.contains(p)) by {
                if c.players@.contains(p) {
                    let k = choose|k: int| 0 <= k < c.players@.len() && c.players@[k] == p;
                    assert(self.players@[p as int].picked);
                }
            }
            assert(c.players@.push(p).no_duplicates());
            lemma_distinct_bounded_len(c.players@.push(p), self.players@.len() as nat);
            assert(c.spent@ + bid <= u32::MAX);
        }
        let cap = vec_index_mut(&mut self.captains, w);
        cap.balance = cap.balance - bid;
        cap.spent = Ghost((cap.spent@ + bid) as u32);
        add_player_to_captain(&mut self.captains, &mut self.players, w, p);
        proof {
            let pi = p as int;
            let wi = w as int;
            let caps0 = old(self).captains@;
            let caps = self.captains@;
            let pls0 = old(self).players@;
            let pls = self.players@;
            assert forall|v: int|
                0 <= v < caps.len() implies crate::draft::wf_captain(
                #[trigger] caps[v],
                pls.len() as int,
            ) by {
                assert(crate::draft::wf_captain(caps0[v], pls0.len() as int));
                if v == wi {
                    assert(caps[v].players@ == caps0[v].players@.push(p));
                    assert forall|k: int|
                        0 <= k < caps[v].players@.len() implies caps[v].players@[k]
                        < pls.len() by {
                        if k < caps0[v].players@.len() {
                            assert(caps[v].players@[k] == caps0[v].players@[k]);
                        } else {
                            assert(caps[v].players@[k] == p);
                        }
                    }
                }
            }
            assert forall|v: int, k: int|
                0 <= v < caps.len() && 0 <= k < caps[v].players@.len() implies (pls[#[trigger] caps[v].players@[k] as int].picked
                && pls[caps[v].players@[k] as int].team == Some(v as usize)) by {
                if v == wi && k == caps0[v].players@.len() {
                    assert(caps[v].players@[k] == p);
                } else {
                    assert(caps[v].players@[k] == caps0[v].players@[k]);
                    assert(pls0[caps0[v].players@[k] as int].picked);
                    assert(caps0[v].players@[k] != p);
                }
            }
            assert forall|q: int|
                0 <= q < pls.len() && pls[q].team is Some implies ((#[trigger] pls[q].team)->0
                < caps.len() && caps[pls[q].team->0 as int].players@.contains(q as usize)) by {
                if q == pi {
                    assert(caps[wi].players@[caps0[wi].players@.len() as int] == p);
                    assert(caps[wi].players@.contains(p));
                } else {
                    assert(pls[q] == pls0[q]);
                    let v = pls0[q].team->0;
                    assert(caps0[v as int].players@.contains(q as usize));
                    let k = choose|k: int|
                        0 <= k < caps0[v as int].players@.len() && caps0[v as int].players@[k] == q as usize;
                    if v == w {
                        assert(caps[v as int].players@[k] == q as usize);
                        assert(caps[v as int].players@.contains(q as usize));
                    } else {
                        assert(caps[v as int] == caps0[v as int]);
                    }
                }
            }
            assert(old(self).draft_state.order_pos < old(self).draft_state.order@.len());
        }
        self.draft_state.nominated_player = None;
        self.draft_state.current_winner = None;
        self.draft_state.bid_placed = false;
        let order_len = self.draft_state.order.len();
        proof {
            assert(self.draft_state.order_pos == old(self).draft_state.order_pos);
            assert(self.draft_state.order_pos < order_len);
        }
        if self.draft_state.order_pos + 1 < order_len {
            self.draft_state.order_pos = self.draft_state.order_pos + 1;
            self.draft_state.phase = Phase::Nominating;
            self.draft_state.starting_bid = self.config.min_bid;
            self.draft_state.current_bid = self.config.min_bid;
            self.draft_state.time = self.config.round_time;
        } else if self.draft_state.current_round < self.config.team_size {
            self.draft_state.current_round = self.draft_state.current_round + 1;
            self.draft_state.order_pos = 0;
            self.draft_state.phase = Phase::Nominating;
            self.draft_state.starting_bid = self.config.min_bid;
            self.draft_state.current_bid = self.config.min_bid;
            self.draft_state.time = self.config.round_time;
        } else {
            self.draft_state.order_pos = self.draft_state.order_pos + 1;
            self.draft_state.phase = Phase::Completed;
        }
        proof {
            let d0 = old(self).draft_state;
            let d = self.draft_state;
            let r = d0.current_round as int;
            let len = d0.order@.len() as int;
            if d0.order_pos + 1 == len && r < self.config.team_size {
                assert(r * len == (r - 1) * len + len) by (nonlinear_arith);
            }
        }
    }
}

/// Law: a completed draft has applied exactly `team_size` times
/// `captain_count` settlements — one per round per captain in the
/// nomination order.
pub proof fn lemma_settlement_total(data: UserData)
    requires
        data.wf(),
        data.draft_state.phase is Completed,
    ensures
        spec_settlements(data.draft_state) == data.config.team_size
            * data.draft_state.order@.len(),
{
    let ts = data.config.team_size as int;
    let len = data.draft_state.order@.len() as int;
    assert((ts - 1) * len + len == ts * len) by (nonlinear_arith);
}

/// Law: every player is settled at most once — no roster slot anywhere in
/// the registry holds the same player as any other.
pub proof fn lemma_player_owned_once(data: UserData, v: int, k1: int, w: int, k2: int)
    requires
        data.wf(),
        0 <= v < data.captains@.len(),
        0 <= w < data.captains@.len(),
        0 <= k1 < data.captains@[v].players@.len(),
        0 <= k2 < data.captains@[w].players@.len(),
        !(v == w && k1 == k2),
    ensures
        data.captains@[v].players@[k1] != data.captains@[w].players@[k2],
{
    if v == w {
        assert(data.captains@[v].players@.no_duplicates());
    } else {
        if data.captains@[v].players@[k1] == data.captains@[w].players@[k2] {
            let p = data.captains@[v].players@[k1] as int;
            assert(data.players@[p].team == Some(v as usize));
            assert(data.players@[data.captains@[w].players@[k2] as int].team == Some(
                w as usize,
            ));
            assert(vstd::std_specs::vec::spec_vec_len(&data.captains)
                == data.captains@.len()) by {
                vstd::std_specs::vec::axiom_spec_len(&data.captains);
            }
            assert(v as usize == w as usize);
            assert(false);
        }
    }
}

/// Law: funds are conserved — a captain's total spending never exceeds the
/// balance it started with, and the balance held is exactly the start
/// minus the spend.
pub proof fn lemma_budget_conserved(data: UserData, w: int)
    requires
        data.wf(),
        0 <= w < data.captains@.len(),
    ensures
        data.captains@[w].spent@ <= data.captains@[w].initial_balance@,
        data.captains@[w].balance == data.captains@[w].initial_balance@
            - data.captains@[w].spent@,
{
    assert(wf_registry(data.captains@, data.players@));
}

} // verus!
