//! The games whose wish records are handled, and what depends on the game.
use vstd::prelude::*;
use crate::text::{contains, has_substring, texts};

verus! {

/// A game of the publisher whose gacha records can be fetched.
#[allow(clippy::upper_case_acronyms)]
#[derive(Clone, Copy, Debug, PartialEq, Eq, Structural)]
pub enum Game {
    /// Genshin Impact.
    /// Banner codes: 100 beginner, 200 permanent, 3xx event (301 character, 302 weapon).
    Genshin,
    /// Honkai: Star Rail.
    /// Banner codes: 1 permanent, 2 beginner, 1x event (11 character, 12 weapon).
    HSR,
    /// Anything else.
    Unsupported,
}

/// The name under which a game's data is kept.
pub open spec fn game_name(game: Game) -> Seq<char> {
    match game {
        Game::Genshin => "yuanshen"@,
        Game::HSR => "hkrpg"@,
        Game::Unsupported => "Unsupported"@,
    }
}

impl Game {
    /// The name under which the game's data is kept: `yuanshen`, `hkrpg`
    /// or `Unsupported`.
    pub fn name(&self) -> (r: String)
        ensures
            r@ == game_name(*self),
    {
        match self {
            Game::Genshin => String::from_str("yuanshen"),
            Game::HSR => String::from_str("hkrpg"),
            Game::Unsupported => String::from_str("Unsupported"),
        }
    }
}

/// The game that a link path belongs to: a path that mentions `hkrpg` is
/// Star Rail's, else one that mentions `Genshin` is Genshin's.
pub open spec fn game_of_path(path: Seq<char>) -> Game {
    if has_substring(path, "hkrpg"@) {
        Game::HSR
    } else if has_substring(path, "Genshin"@) {
        Game::Genshin
    } else {
        Game::Unsupported
    }
}

/// The game that a link path belongs to.
pub fn game_from_path(path: &str) -> (r: Game)
    ensures
        r == game_of_path(path@),
{
    if contains(path, "hkrpg") {
        Game::HSR
    } else if contains(path, "Genshin") {
        Game::Genshin
    } else {
        Game::Unsupported
    }
}

/// Every banner code of a game, in the order in which they are fetched.
pub open spec fn all_banner_codes(game: Game) -> Seq<Seq<char>> {
    match game {
        Game::Genshin => seq!["100"@, "200"@, "301"@, "302"@],
        Game::HSR => seq!["1"@, "2"@, "11"@, "12"@],
        Game::Unsupported => Seq::empty(),
    }
}

/// The banner codes to fetch: all of the game's when `process_all` is set,
/// else the one that the link names.
pub open spec fn banner_codes(game: Game, first_type: Seq<char>, process_all: bool) -> Seq<Seq<char>> {
    if process_all {
        all_banner_codes(game)
    } else {
        seq![first_type]
    }
}

/// The banner codes to fetch: all of the game's when `process_all` is set,
/// else only `first_type`. All codes of an unsupported game cannot be asked for.
pub fn get_list_of_gacha_types(game: Game, first_type: &String, process_all: bool) -> (r: Vec<String>)
    requires
        !(process_all && game == Game::Unsupported),
    ensures
        texts(r@) == banner_codes(game, first_type@, process_all),
{
    let mut r: Vec<String> = Vec::new();
    if process_all {
        match game {
            Game::Genshin => {
                r.push(String::from_str("100"));
                r.push(String::from_str("200"));
                r.push(String::from_str("301"));
                r.push(String::from_str("302"));
            },
            Game::HSR => {
                r.push(String::from_str("1"));
                r.push(String::from_str("2"));
                r.push(String::from_str("11"));
                r.push(String::from_str("12"));
            },
            Game::Unsupported => {},
        }
    } else {
        r.push(first_type.clone());
    }
    assert(texts(r@) =~= banner_codes(game, first_type@, process_all));
    r
}

} // verus!
