use vstd::prelude::*;

use crate::draft::UserData;
use crate::registry::Player;

verus! {

/// What str::to_lowercase returns for the given characters.
pub uninterp spec fn lower_of(s: Seq<char>) -> Seq<char>;

/// Relies on str::to_lowercase: the lowercase equivalent of the string,
/// a function of its characters alone.
#[verifier::external_body]
fn lowercase(s: &str) -> (r: String)
    ensures
        r@ == lower_of(s@),
{
    s.to_lowercase()
}

/// Relies on str::starts_with: true exactly when the pattern's characters
/// are a prefix of the string's.
#[verifier::external_body]
fn starts_with_str(s: &str, prefix: &str) -> (r: bool)
    ensures
        r == prefix@.is_prefix_of(s@),
{
    s.starts_with(prefix)
}

/// Whether autocomplete offers the player for the typed fragment: still
/// unpicked, and the lowercased name begins with the lowercased fragment.
pub open spec fn autocomplete_match(p: Player, partial: Seq<char>) -> bool {
    !p.picked && lower_of(partial).is_prefix_of(lower_of(p.name@))
}

/// The names of the matching players, in table order.
pub open spec fn matching_names(players: Seq<Player>, partial: Seq<char>) -> Seq<Seq<char>>
    decreases players.len(),
{
    if players.len() == 0 {
        Seq::<Seq<char>>::empty()
    } else {
        matching_names(players.drop_last(), partial) + (if autocomplete_match(
            players.last(),
            partial,
        ) {
            seq![players.last().name@]
        } else {
            Seq::<Seq<char>>::empty()
        })
    }
}

/// autocompletePlayer: the names of the unpicked players whose names
/// begin, case folded, with the typed fragment.
pub fn autocomplete_player(data: &UserData, partial: &str) -> (names: Vec<String>)
    ensures
        names@.map_values(|s: String| s@) == matching_names(data.players@, partial@),
{
    let low_partial = lowercase(partial);
    let mut names: Vec<String> = Vec::new();
    let mut i: usize = 0;
    let n = data.players.len();
    while i < n
        invariant
            i <= n,
            n == data.players@.len(),
            low_partial@ == lower_of(partial@),
            names@.map_values(|s: String| s@) == matching_names(
                data.players@.take(i as int),
                partial@,
            ),
        decreases n - i,
    {
        let low_name = lowercase(data.players[i].name.as_str());
        if !data.players[i].picked && starts_with_str(low_name.as_str(), low_partial.as_str()) {
            names.push(data.players[i].name.clone());
        }
        proof {
            assert(data.players@.take(i + 1 as int).drop_last() =~= data.players@.take(i as int));
            assert(names@.map_values(|s: String| s@) =~= matching_names(
                data.players@.take(i + 1 as int),
                partial@,
            ));
        }
        i = i + 1;
    }
    proof {
        assert(data.players@.take(n as int) =~= data.players@);
    }
    names
}

} // verus!
