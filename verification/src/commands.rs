use vstd::prelude::*;

use crate::config::Config;
use crate::draft::{DraftError, Phase, UserData};
use crate::registry::{max_bid_amount, spec_max_bid, Captain, Player};
use crate::text::push_string;

verus! {

/// The first captain at or after `i` carrying the given external identity.
pub open spec fn find_captain_from(captains: Seq<Captain>, id: u64, i: int) -> Option<int>
    decreases captains.len() - i,
{
    if i < 0 || i >= captains.len() {
        None::<int>
    } else if captains[i].discord_id == id {
        Some(i)
    } else {
        find_captain_from(captains, id, i + 1)
    }
}

/// The first captain index carrying the given external identity, if any.
pub open spec fn find_captain(captains: Seq<Captain>, id: u64) -> Option<int> {
    find_captain_from(captains, id, 0)
}

/// The first player at or after `i` carrying the given name.
pub open spec fn find_player_from(players: Seq<Player>, name: Seq<char>, i: int) -> Option<int>
    decreases players.len() - i,
{
    if i < 0 || i >= players.len() {
        None::<int>
    } else if players[i].name@ == name {
        Some(i)
    } else {
        find_player_from(players, name, i + 1)
    }
}

/// The first player index carrying the given name, if any.
pub open spec fn find_player(players: Seq<Player>, name: Seq<char>) -> Option<int> {
    find_player_from(players, name, 0)
}

fn captain_index(captains: &Vec<Captain>, id: u64) -> (r: Option<usize>)
    ensures
        (r is Some <==> find_captain(captains@, id) is Some),
        r is Some ==> r->0 == find_captain(captains@, id)->0 && r->0 < captains@.len()
            && captains@[r->0 as int].discord_id == id,
{
    let mut i: usize = 0;
    let n = captains.len();
    while i < n
        invariant
            i <= n,
            n == captains@.len(),
            find_captain(captains@, id) == find_captain_from(captains@, id, i as int),
        decreases n - i,
    {
        if captains[i].discord_id == id {
            return Some(i);
        }
        i = i + 1;
    }
    None
}

fn player_index(players: &Vec<Player>, name: &String) -> (r: Option<usize>)
    ensures
        (r is Some <==> find_player(players@, name@) is Some),
        r is Some ==> r->0 == find_player(players@, name@)->0 && r->0 < players@.len()
            && players@[r->0 as int].name@ == name@,
{
    let mut i: usize = 0;
    let n = players.len();
    while i < n
        invariant
            i <= n,
            n == players@.len(),
            find_player(players@, name@) == find_player_from(players@, name@, i as int),
        decreases n - i,
    {
        if players[i].name.eq(name) {
            return Some(i);
        }
        i = i + 1;
    }
    None
}

/// addCaptain: registers a captain under the chat identity, funded with the
/// configured starting balance; a duplicate identity is rejected unchanged.
pub fn add_captain(data: &mut UserData, discord_id: u64, name: String) -> (r: Result<
    (),
    DraftError,
>)
    requires
        old(data).wf(),
    ensures
        final(data).wf(),
        final(data).config == old(data).config,
        final(data).players@ == old(data).players@,
        final(data).draft_state == old(data).draft_state,
        (r is Err <==> find_captain(old(data).captains@, discord_id) is Some),
        r is Err ==> r == Err::<(), DraftError>(DraftError::DuplicateCaptain) && *final(data)
            == *old(data),
        r is Ok ==> {
            &&& final(data).captains@.len() == old(data).captains@.len() + 1
            &&& forall|i: int|
                0 <= i < old(data).captains@.len() ==> final(data).captains@[i] == old(data).captains@[i]
            &&& final(data).captains@.last().discord_id == discord_id
            &&& final(data).captains@.last().name@ == name@
            &&& final(data).captains@.last().balance == old(data).config.starting_balance
            &&& final(data).captains@.last().players@ == Seq::<usize>::empty()
            &&& final(data).captains@.last().legio_count == 0
            &&& final(data).captains@.last().initial_balance@ == old(data).config.starting_balance
            &&& final(data).captains@.last().spent@ == 0
        },
{
    let existing = captain_index(&data.captains, discord_id);
    if existing.is_some() {
        return Err(DraftError::DuplicateCaptain);
    }
    let captain = Captain::new(discord_id, name, data.config.starting_balance);
    data.captains.push(captain);
    proof {
        assert forall|j: int|
            0 <= j < old(data).captains@.len() implies old(data).captains@[j].discord_id
            != discord_id by {
            lemma_find_captain_none(old(data).captains@, discord_id, j);
        }
    }
    Ok(())
}

/// A missing find result means no captain anywhere carries the identity.
proof fn lemma_find_captain_none(captains: Seq<Captain>, id: u64, j: int)
    requires
        find_captain(captains, id) is None,
        0 <= j < captains.len(),
    ensures
        captains[j].discord_id != id,
{
    lemma_find_captain_none_from(captains, id, 0, j);
}

proof fn lemma_find_captain_none_from(captains: Seq<Captain>, id: u64, i: int, j: int)
    requires
        find_captain_from(captains, id, i) is None,
        0 <= i <= j < captains.len(),
    ensures
        captains[j].discord_id != id,
    decreases captains.len() - i,
{
    if i < j {
        lemma_find_captain_none_from(captains, id, i + 1, j);
    }
}

/// setConfig: applies the given fields. Starting balance and team size are
/// locked once the draft has started: the call then still applies the
/// unlocked fields, leaves the locked ones, and reports LockedField.
/// Ok(true) asks the caller to show the advisory notice for a
/// restricted-limit change made mid-draft.
pub fn set_config(
    data: &mut UserData,
    round_time: Option<u32>,
    bid_add_time: Option<u32>,
    min_bid: Option<u32>,
    starting_balance: Option<u32>,
    team_size: Option<u32>,
    legio_limit: Option<u32>,
) -> (r: Result<bool, DraftError>)
    requires
        old(data).wf(),
    ensures
        final(data).wf(),
        final(data).captains@ == old(data).captains@,
        final(data).players@ == old(data).players@,
        final(data).draft_state == old(data).draft_state,
        final(data).config.round_time == (if round_time is Some {
            round_time->0
        } else {
            old(data).config.round_time
        }),
        final(data).config.bid_add_time == (if bid_add_time is Some {
            bid_add_time->0
        } else {
            old(data).config.bid_add_time
        }),
        final(data).config.min_bid == (if min_bid is Some {
            min_bid->0
        } else {
            old(data).config.min_bid
        }),
        final(data).config.legio_limit == (if legio_limit is Some {
            legio_limit->0
        } else {
            old(data).config.legio_limit
        }),
        (r is Err <==> old(data).draft_state.draft_started && (starting_balance is Some
            || team_size is Some)),
        r is Err ==> r == Err::<bool, DraftError>(DraftError::LockedField) && final(data).config.starting_balance == old(data).config.starting_balance && final(data).config.team_size == old(data).config.team_size,
        r is Ok ==> {
            &&& final(data).config.starting_balance == (if starting_balance is Some {
                starting_balance->0
            } else {
                old(data).config.starting_balance
            })
            &&& final(data).config.team_size == (if team_size is Some {
                team_size->0
            } else {
                old(data).config.team_size
            })
            &&& r == Ok::<bool, DraftError>(legio_limit is Some && old(data).draft_state.draft_started)
        },
{
    if let Some(rt) = round_time {
        data.config.round_time = rt;
    }
    if let Some(bt) = bid_add_time {
        data.config.bid_add_time = bt;
    }
    if let Some(mb) = min_bid {
        data.config.min_bid = mb;
    }
    if let Some(ll) = legio_limit {
        data.config.legio_limit = ll;
    }
    if data.draft_state.draft_started && (starting_balance.is_some() || team_size.is_some()) {
        return Err(DraftError::LockedField);
    }
    if let Some(sb) = starting_balance {
        data.config.starting_balance = sb;
    }
    if let Some(ts) = team_size {
        data.config.team_size = ts;
    }
    Ok(legio_limit.is_some() && data.draft_state.draft_started)
}

/// Whether pick is being made in the nomination window.
pub open spec fn pick_phase_ok(data: UserData) -> bool {
    data.draft_state.phase is Nominating
}

/// The round's designated nominator: the captain the order points at.
pub open spec fn nominator_index(data: UserData) -> int {
    data.draft_state.order@[data.draft_state.order_pos as int] as int
}

/// Whether the caller is the round's designated nominator.
pub open spec fn pick_turn_ok(data: UserData, caller: u64) -> bool {
    data.captains@[nominator_index(data)].discord_id == caller
}

/// Whether the named player exists (first match by name) and is unpicked.
pub open spec fn pick_player_ok(data: UserData, name: Seq<char>) -> bool {
    match find_player(data.players@, name) {
        Some(i) => !data.players@[i].picked,
        None => false,
    }
}

/// The bid a nomination opens at: the given one, or the minimum bid.
pub open spec fn effective_bid(cfg: Config, starting_bid: Option<u32>) -> u32 {
    if starting_bid is Some {
        starting_bid->0
    } else {
        cfg.min_bid
    }
}

/// Whether the opening bid lies within [minBid, maxBid(nominator)].
pub open spec fn pick_bid_ok(data: UserData, starting_bid: Option<u32>) -> bool {
    let b = effective_bid(data.config, starting_bid);
    data.config.min_bid <= b && b <= spec_max_bid(
        data.captains@[nominator_index(data)],
        data.config,
    )
}

/// pick: the round's designated nominator puts an unpicked player up for
/// bidding, optionally naming a starting bid within the legal range, and
/// the bidding countdown opens with the nominator leading. Any rejection
/// leaves the whole state untouched.
pub fn pick(data: &mut UserData, caller: u64, player: String, starting_bid: Option<u32>) -> (r:
    Result<(), DraftError>)
    requires
        old(data).wf(),
    ensures
        final(data).wf(),
        r is Err ==> *final(data) == *old(data),
        (r == Err::<(), DraftError>(DraftError::WrongPhase) <==> !pick_phase_ok(*old(data))),
        (r == Err::<(), DraftError>(DraftError::NotYourTurn) <==> pick_phase_ok(*old(data))
            && !pick_turn_ok(*old(data), caller)),
        (r == Err::<(), DraftError>(DraftError::UnknownOrPickedPlayer) <==> pick_phase_ok(
            *old(data),
        ) && pick_turn_ok(*old(data), caller) && !pick_player_ok(*old(data), player@)),
        (r == Err::<(), DraftError>(DraftError::BidOutOfRange) <==> pick_phase_ok(*old(data))
            && pick_turn_ok(*old(data), caller) && pick_player_ok(*old(data), player@)
            && !pick_bid_ok(*old(data), starting_bid)),
        (r is Ok <==> pick_phase_ok(*old(data)) && pick_turn_ok(*old(data), caller)
            && pick_player_ok(*old(data), player@) && pick_bid_ok(*old(data), starting_bid)),
        r is Ok ==> {
            let d = final(data).draft_state;
            let d0 = old(data).draft_state;
            &&& final(data).captains@ == old(data).captains@
            &&& final(data).players@ == old(data).players@
            &&& final(data).config == old(data).config
            &&& d.nominated_player == Some(
                find_player(old(data).players@, player@)->0 as usize,
            )
            &&& d.current_winner == Some(d0.order@[d0.order_pos as int])
            &&& d.starting_bid == effective_bid(old(data).config, starting_bid)
            &&& d.current_bid == effective_bid(old(data).config, starting_bid)
            &&& d.time == old(data).config.round_time
            &&& d.phase is Bidding
            &&& !d.bid_placed
            &&& d.order@ == d0.order@
            &&& d.order_pos == d0.order_pos
            &&& d.current_round == d0.current_round
            &&& d.draft_started
        },
{
    if data.draft_state.phase != Phase::Nominating {
        return Err(DraftError::WrongPhase);
    }
    let nom = data.draft_state.order[data.draft_state.order_pos];
    if data.captains[nom].discord_id != caller {
        return Err(DraftError::NotYourTurn);
    }
    let found = player_index(&data.players, &player);
    let i = match found {
        Some(i) => i,
        None => {
            return Err(DraftError::UnknownOrPickedPlayer);
        },
    };
    if data.players[i].picked {
        return Err(DraftError::UnknownOrPickedPlayer);
    }
    let maxb = max_bid_amount(&data.captains[nom], &data.config);
    let b = match starting_bid {
        Some(sb) => sb,
        None => data.config.min_bid,
    };
    if b < data.config.min_bid || (b as i128) > maxb {
        return Err(DraftError::BidOutOfRange);
    }
    data.draft_state.nominated_player = Some(i);
    data.draft_state.current_winner = Some(nom);
    data.draft_state.starting_bid = b;
    data.draft_state.current_bid = b;
    data.draft_state.time = data.config.round_time;
    data.draft_state.phase = Phase::Bidding;
    Ok(())
}

/// Whether a bidding window is open: the bidding phase with time left.
pub open spec fn bid_active(data: UserData) -> bool {
    data.draft_state.phase is Bidding && data.draft_state.time > 0
}

/// bid: while the countdown runs, a strictly higher bid within the
/// caller's budget takes the lead, supersedes the previous bid entirely,
/// and flags the anti-snipe extension for the clock to consume. Any
/// rejection leaves the whole state untouched.
pub fn bid(data: &mut UserData, caller: u64, amount: u32) -> (r: Result<(), DraftError>)
    requires
        old(data).wf(),
    ensures
        final(data).wf(),
        r is Err ==> *final(data) == *old(data),
        (r == Err::<(), DraftError>(DraftError::NoActiveAuction) <==> !bid_active(*old(data))),
        (r == Err::<(), DraftError>(DraftError::BidTooLow) <==> bid_active(*old(data)) && amount
            <= old(data).draft_state.current_bid),
        (r == Err::<(), DraftError>(DraftError::UnknownCaptain) <==> bid_active(*old(data))
            && amount > old(data).draft_state.current_bid && find_captain(
            old(data).captains@,
            caller,
        ) is None),
        (r == Err::<(), DraftError>(DraftError::InsufficientFunds) <==> bid_active(*old(data))
            && amount > old(data).draft_state.current_bid && find_captain(
            old(data).captains@,
            caller,
        ) is Some && amount > spec_max_bid(
            old(data).captains@[find_captain(old(data).captains@, caller)->0],
            old(data).config,
        )),
        (r is Ok <==> bid_active(*old(data)) && amount > old(data).draft_state.current_bid
            && find_captain(old(data).captains@, caller) is Some && amount <= spec_max_bid(
            old(data).captains@[find_captain(old(data).captains@, caller)->0],
            old(data).config,
        )),
        r is Ok ==> {
            let d = final(data).draft_state;
            let d0 = old(data).draft_state;
            &&& final(data).captains@ == old(data).captains@
            &&& final(data).players@ == old(data).players@
            &&& final(data).config == old(data).config
            &&& d.current_bid == amount
            &&& d.current_winner == Some(
                find_captain(old(data).captains@, caller)->0 as usize,
            )
            &&& d.bid_placed
            &&& d.phase is Bidding
            &&& d.time == d0.time
            &&& d.nominated_player == d0.nominated_player
            &&& d.starting_bid == d0.starting_bid
            &&& d.order@ == d0.order@
            &&& d.order_pos == d0.order_pos
            &&& d.current_round == d0.current_round
            &&& d.draft_started
        },
{
    if data.draft_state.phase != Phase::Bidding || data.draft_state.time == 0 {
        return Err(DraftError::NoActiveAuction);
    }
    if amount <= data.draft_state.current_bid {
        return Err(DraftError::BidTooLow);
    }
    let found = captain_index(&data.captains, caller);
    let i = match found {
        Some(i) => i,
        None => {
            return Err(DraftError::UnknownCaptain);
        },
    };
    let maxb = max_bid_amount(&data.captains[i], &data.config);
    if (amount as i128) > maxb {
        return Err(DraftError::InsufficientFunds);
    }
    data.draft_state.current_bid = amount;
    data.draft_state.current_winner = Some(i);
    data.draft_state.bid_placed = true;
    Ok(())
}

/// The captain names, one per line, in table order.
pub open spec fn captain_lines(captains: Seq<Captain>) -> Seq<char>
    decreases captains.len(),
{
    if captains.len() == 0 {
        Seq::<char>::empty()
    } else {
        captain_lines(captains.drop_last()) + captains.last().name@ + "\n"@
    }
}

/// displayCaptains: the heading followed by every captain's name.
pub fn display_captains(data: &UserData) -> (s: String)
    ensures
        s@ == "Captains: \n"@ + captain_lines(data.captains@),
{
    let mut s = String::new();
    push_string(&mut s, "Captains: \n");
    let mut i: usize = 0;
    let n = data.captains.len();
    while i < n
        invariant
            i <= n,
            n == data.captains@.len(),
            s@ == "Captains: \n"@ + captain_lines(data.captains@.take(i as int)),
        decreases n - i,
    {
        push_string(&mut s, data.captains[i].name.as_str());
        push_string(&mut s, "\n");
        proof {
            assert(data.captains@.take(i + 1 as int).drop_last() =~= data.captains@.take(
                i as int,
            ));
            assert(s@ =~= "Captains: \n"@ + captain_lines(data.captains@.take(i + 1 as int)));
        }
        i = i + 1;
    }
    proof {
        assert(data.captains@.take(n as int) =~= data.captains@);
    }
    s
}

/// displayPlayers: every player's name, in table order.
pub fn display_players(data: &UserData) -> (names: Vec<String>)
    ensures
        names@.len() == data.players@.len(),
        forall|i: int| 0 <= i < names@.len() ==> names@[i]@ == data.players@[i].name@,
{
    let mut names: Vec<String> = Vec::new();
    let mut i: usize = 0;
    let n = data.players.len();
    while i < n
        invariant
            i <= n,
            n == data.players@.len(),
            names@.len() == i,
            forall|j: int| 0 <= j < i ==> names@[j]@ == data.players@[j].name@,
        decreases n - i,
    {
        names.push(data.players[i].name.clone());
        i = i + 1;
    }
    names
}

} // verus!
