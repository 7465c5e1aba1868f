use vstd::prelude::*;

use crate::text::{dec_digits, push_string, u32_to_string};

verus! {

/// Auction parameters, tunable before the draft starts.
#[derive(Clone, Copy)]
pub struct Config {
    pub min_bid: u32,
    pub starting_balance: u32,
    pub team_size: u32,
    pub round_time: u32,
    pub bid_add_time: u32,
    pub legio_limit: u32,
}

/// The stock parameters a fresh auction starts from.
pub open spec fn default_config() -> Config {
    Config {
        min_bid: 10,
        starting_balance: 200,
        team_size: 8,
        round_time: 20,
        bid_add_time: 5,
        legio_limit: 2,
    }
}

/// The textual rendering of a configuration, one labelled line per field.
pub open spec fn config_text(c: Config) -> Seq<char> {
    "Min Bid: "@ + dec_digits(c.min_bid as nat) + "\n"@ + "Starting Balance: "@ + dec_digits(
        c.starting_balance as nat,
    ) + "\n"@ + "Team Size: "@ + dec_digits(c.team_size as nat) + "\n"@ + "Round Time: "@
        + dec_digits(c.round_time as nat) + "\n"@ + "Bid add team: "@ + dec_digits(
        c.bid_add_time as nat,
    ) + "\n"@ + "Legio Limit: "@ + dec_digits(c.legio_limit as nat) + "\n"@
}

impl Config {
    pub fn create() -> (c: Config)
        ensures
            c == default_config(),
    {
        Config {
            min_bid: 10,
            starting_balance: 200,
            team_size: 8,
            round_time: 20,
            bid_add_time: 5,
            legio_limit: 2,
        }
    }

    pub fn default() -> (c: Config)
        ensures
            c == default_config(),
    {
        Config::create()
    }

    pub fn to_string(&self) -> (s: String)
        ensures
            s@ == config_text(*self),
    {
        let mut s = String::new();
        push_string(&mut s, "Min Bid: ");
        let t = u32_to_string(self.min_bid);
        push_string(&mut s, t.as_str());
        push_string(&mut s, "\n");
        push_string(&mut s, "Starting Balance: ");
        let t = u32_to_string(self.starting_balance);
        push_string(&mut s, t.as_str());
        push_string(&mut s, "\n");
        push_string(&mut s, "Team Size: ");
        let t = u32_to_string(self.team_size);
        push_string(&mut s, t.as_str());
        push_string(&mut s, "\n");
        push_string(&mut s, "Round Time: ");
        let t = u32_to_string(self.round_time);
        push_string(&mut s, t.as_str());
        push_string(&mut s, "\n");
        push_string(&mut s, "Bid add team: ");
        let t = u32_to_string(self.bid_add_time);
        push_string(&mut s, t.as_str());
        push_string(&mut s, "\n");
        push_string(&mut s, "Legio Limit: ");
        let t = u32_to_string(self.legio_limit);
        push_string(&mut s, t.as_str());
        push_string(&mut s, "\n");
        proof {
            assert(s@ =~= config_text(*self));
        }
        s
    }
}

} // verus!
