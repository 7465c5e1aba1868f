use vstd::prelude::*;

use crate::config::Config;
use crate::registry::{Captain, Player};

verus! {

/// Where the machine stands: waiting to start, waiting for the round's
/// nomination, counting a bidding window down, about to apply a result, or
/// finished.
#[derive(PartialEq, Eq, Structural, Clone, Copy, Debug)]
pub enum Phase {
    Idle,
    Nominating,
    Bidding,
    Settling,
    Completed,
}

/// Every way a command can be turned down. Rejections never mutate state.
#[derive(PartialEq, Eq, Structural, Clone, Copy, Debug)]
pub enum DraftError {
    DuplicateCaptain,
    LockedField,
    InvalidPreconditions,
    WrongPhase,
    NotYourTurn,
    UnknownOrPickedPlayer,
    BidOutOfRange,
    NoActiveAuction,
    BidTooLow,
    InsufficientFunds,
    UnknownCaptain,
}

/// The round, nomination and bid state of the running draft. `order` is the
/// nomination order fixed at start (indices into the captain table), and
/// `order[order_pos]` is the round's designated nominator.
pub struct DraftState {
    pub draft_started: bool,
    pub phase: Phase,
    pub order: Vec<usize>,
    pub order_pos: usize,
    pub current_round: u32,
    pub nominated_player: Option<usize>,
    pub bid_placed: bool,
    pub starting_bid: u32,
    pub current_bid: u32,
    pub current_winner: Option<usize>,
    pub time: u32,
}

impl DraftState {
    pub fn new() -> (d: DraftState)
        ensures
            !d.draft_started,
            d.phase is Idle,
            d.order@ == Seq::<usize>::empty(),
            d.order_pos == 0,
            d.current_round == 0,
            d.nominated_player is None,
            !d.bid_placed,
            d.starting_bid == 0,
            d.current_bid == 0,
            d.current_winner is None,
            d.time == 0,
    {
        DraftState {
            draft_started: false,
            phase: Phase::Idle,
            order: Vec::new(),
            order_pos: 0,
            current_round: 0,
            nominated_player: None,
            bid_placed: false,
            starting_bid: 0,
            current_bid: 0,
            current_winner: None,
            time: 0,
        }
    }
}

/// How many settlements the draft has already applied: a full sweep of the
/// nomination order per finished round, plus the rounds' position so far.
pub open spec fn spec_settlements(d: DraftState) -> int {
    (d.current_round - 1) * d.order@.len() + d.order_pos
}

/// Validity of one captain in isolation: funds are conserved against the
/// ghost record, and the restricted count never outruns the roster.
pub open spec fn wf_captain(c: Captain, n_players: int) -> bool {
    &&& c.balance + c.spent@ == c.initial_balance@
    &&& c.legio_count <= c.players@.len()
    &&& c.players@.no_duplicates()
    &&& forall|k: int| 0 <= k < c.players@.len() ==> c.players@[k] < n_players
}

/// Validity of the whole registry: captains are distinct by external
/// identity, rosters and owner references point at each other, and a player
/// is picked exactly when it has an owner.
pub open spec fn wf_registry(captains: Seq<Captain>, players: Seq<Player>) -> bool {
    &&& players.len() <= 0xFFFF_FFFF
    &&& forall|i: int, j: int|
        0 <= i < j < captains.len() ==> captains[i].discord_id != captains[j].discord_id
    &&& forall|w: int| 0 <= w < captains.len() ==> wf_captain(#[trigger] captains[w], players.len() as int)
    &&& forall|w: int, k: int|
        0 <= w < captains.len() && 0 <= k < captains[w].players@.len() ==> {
            &&& players[#[trigger] captains[w].players@[k] as int].picked
            &&& players[captains[w].players@[k] as int].team == Some(w as usize)
        }
    &&& forall|p: int|
        0 <= p < players.len() ==> ((#[trigger] players[p].picked) <==> players[p].team is Some)
    &&& forall|p: int|
        0 <= p < players.len() && players[p].team is Some ==> {
            &&& (#[trigger] players[p].team)->0 < captains.len()
            &&& captains[players[p].team->0 as int].players@.contains(p as usize)
        }
}

/// The one authoritative context every command works against.
pub struct UserData {
    pub captains: Vec<Captain>,
    pub players: Vec<Player>,
    pub config: Config,
    pub draft_state: DraftState,
}

impl UserData {
    /// Well-formedness of the whole draft context; every public operation
    /// preserves it.
    pub open spec fn wf(self) -> bool {
        let d = self.draft_state;
        let n = self.captains@.len();
        &&& wf_registry(self.captains@, self.players@)
        &&& (d.draft_started <==> !(d.phase is Idle))
        &&& d.order@.len() <= n
        &&& d.order@.no_duplicates()
        &&& forall|k: int| 0 <= k < d.order@.len() ==> d.order@[k] < d.order@.len()
        &&& (d.draft_started ==> {
            &&& d.order@.len() >= 1
            &&& 1 <= d.current_round <= self.config.team_size
            &&& d.order_pos <= d.order@.len()
        })
        &&& (d.phase is Completed ==> d.current_round == self.config.team_size && d.order_pos
            == d.order@.len())
        &&& (d.draft_started && d.order_pos == d.order@.len() ==> d.phase is Completed)
        &&& (d.nominated_player is Some <==> d.current_winner is Some)
        &&& (d.phase is Idle || d.phase is Completed ==> d.nominated_player is None
            && d.current_winner is None)
        &&& (d.phase is Nominating ==> {
            &&& d.nominated_player is None
            &&& d.current_winner is None
            &&& !d.bid_placed
            &&& d.order_pos < d.order@.len()
        })
        &&& (d.phase is Bidding || d.phase is Settling ==> {
            let p = d.nominated_player->0;
            let w = d.current_winner->0;
            &&& d.nominated_player is Some
            &&& p < self.players@.len()
            &&& !self.players@[p as int].picked
            &&& d.current_winner is Some
            &&& w < n
            &&& d.current_bid <= self.captains@[w as int].balance
            &&& d.starting_bid <= d.current_bid
            &&& d.order_pos < d.order@.len()
        })
        &&& (d.phase is Settling ==> !d.bid_placed)
    }
}

} // verus!
