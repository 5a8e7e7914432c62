//! The launch orchestrator's decision half: which flow a run takes, the
//! name-search resolution, the watch URL and quality handed to the player,
//! and the forced info suppression when a top-games choice drills into a
//! game's streams.  The surrounding program performs the requests, reads the
//! input and spawns the player.

use vstd::prelude::*;
use vstd::string::StringExecFns;
use crate::error::Failure;
use crate::json::{json_eq, Json};
use crate::normalize::{entity_array, first_bad_game, game_matches, normalize_games, parsed_game};
use crate::types::{Game, Stream};

verus! {

/// Which flow a run takes, by option precedence: game filter first, channel
/// filter second, follow flag third, else the top-games listing.
#[derive(Debug, PartialEq)]
pub enum Flow {
    ByGame(String),
    ByChannel(String),
    Followed,
    TopGames,
}

/// Chooses the flow from the already-parsed options, by precedence.
pub fn select_flow(game: Option<String>, channel: Option<String>, follow: bool) -> (r: Flow)
    ensures
        game matches Some(g) ==> r == Flow::ByGame(g),
        game is None ==> (channel matches Some(c) ==> r == Flow::ByChannel(c)),
        game is None && channel is None && follow ==> r == Flow::Followed,
        game is None && channel is None && !follow ==> r == Flow::TopGames,
{
    match game {
        Some(g) => Flow::ByGame(g),
        None => match channel {
            Some(c) => Flow::ByChannel(c),
            None => if follow {
                Flow::Followed
            } else {
                Flow::TopGames
            },
        },
    }
}

/// The placeholder stream for a directly named channel: no lookup happens
/// on this path, and game and viewer count are cosmetic only.
pub fn placeholder_stream(name: &str) -> (r: Stream)
    ensures
        r.channel@ == name@,
        r.game@ == Seq::<char>::empty(),
        r.viewers == 0,
{
    Stream { game: String::new(), viewers: 0, channel: name.to_owned() }
}

/// The first match of a name search; an empty match list is `NotFound`.
pub fn first_game(games: Vec<Game>, name: &str) -> (r: Result<Game, Failure>)
    ensures
        games@.len() == 0 ==> (r matches Err(Failure::NotFound(n)) && n@ == name@),
        games@.len() > 0 ==> (r matches Ok(g) && g == games@[0]),
{
    let mut games = games;
    if games.len() == 0 {
        Err(Failure::NotFound(name.to_owned()))
    } else {
        let g = games.remove(0);
        Ok(g)
    }
}

/// Resolves a name-search payload to the game it names: the first match of
/// the search.  No match at all is `NotFound` with the searched name; a
/// malformed payload fails as normalization does.
pub fn resolve_game(doc: &Json, name: &str) -> (r: Result<Game, Failure>)
    ensures
        match entity_array(*doc, "top"@) {
            None => r matches Err(Failure::MalformedEntity(f)) && json_eq(*doc, f),
            Some(elems) => {
                if elems.len() == 0 {
                    r matches Err(Failure::NotFound(n)) && n@ == name@
                } else if forall|i: int| 0 <= i < elems.len() ==> #[trigger] parsed_game(elems[i]) is Some {
                    r matches Ok(g) && game_matches(elems[0], g)
                } else {
                    exists|i: int|
                        {
                            &&& #[trigger] first_bad_game(elems, i)
                            &&& r matches Err(Failure::MalformedEntity(f))
                            &&& json_eq(elems[i], f)
                        }
                }
            },
        },
{
    match normalize_games(doc) {
        Ok(games) => first_game(games, name),
        Err(Failure::NoResults) => Err(Failure::NotFound(name.to_owned())),
        Err(e) => Err(e),
    }
}

/// The canonical watch URL for a channel.
pub fn watch_url(channel: &str) -> (r: String)
    ensures
        r@ == "https://www.twitch.tv/"@ + channel@,
{
    let mut s = String::from_str("https://www.twitch.tv/");
    s.append(channel);
    s
}

/// The fixed quality preference handed to the player.
pub fn quality_setting() -> (r: String)
    ensures
        r@ == "best,720p60"@,
{
    String::from_str("best,720p60")
}

/// The announcement printed when a launch begins.
pub fn watching_line(channel: &str) -> (r: String)
    ensures
        r@ == "Watching "@ + channel@,
{
    let mut s = String::from_str("Watching ");
    s.append(channel);
    s
}

/// The default path of the external playback helper, used when no override
/// is configured.
pub fn default_player_path() -> (r: String)
    ensures
        r@ == "/usr/local/bin/streamlink"@,
{
    String::from_str("/usr/local/bin/streamlink")
}

/// The end of one selection round, as the surrounding program observed it.
#[derive(Debug, PartialEq)]
pub enum ChoiceEnd {
    /// An entity was selected, by index into the batch.
    Picked(usize),
    /// The single-entity confirmation was declined.
    Declined,
    /// Info-only mode rendered the table and nothing was selected.
    InfoShown,
}

/// How a run continues after the top-games listing.
#[derive(Debug, PartialEq)]
pub enum TopNext {
    /// Fetch the streams of the picked game, with the info flag forced off.
    DrillInto { index: usize, info: bool },
    /// Stop the run with this outcome.
    Stop(Failure),
}

/// After the top-games listing: a picked game is drilled into with info
/// forced off (an info-only top listing has already stopped at the table,
/// so the inner leg never lists-only); a declined confirmation or an
/// info-only table stops the run.
pub fn top_games_next(end: &ChoiceEnd) -> (r: TopNext)
    ensures
        *end matches ChoiceEnd::Picked(i) ==> r == (TopNext::DrillInto { index: i, info: false }),
        *end is Declined ==> r == TopNext::Stop(Failure::UserDeclined),
        *end is InfoShown ==> r == TopNext::Stop(Failure::InfoOnly),
{
    match end {
        ChoiceEnd::Picked(i) => TopNext::DrillInto { index: *i, info: false },
        ChoiceEnd::Declined => TopNext::Stop(Failure::UserDeclined),
        ChoiceEnd::InfoShown => TopNext::Stop(Failure::InfoOnly),
    }
}

} // verus!
