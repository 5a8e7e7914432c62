//! The response normalizer: converts a decoded JSON document into typed
//! entities, probing the current payload shape first and an operation's
//! legacy shape second, and failing per element with the offending fragment.

use vstd::prelude::*;
use crate::error::Failure;
use crate::json::{json_eq, lookup, Json};
use crate::types::{Game, Stream};

verus! {

/// The entity array of a payload: the top-level `data` array if the `data`
/// key is present, else the array under the operation's legacy key, else
/// nothing.  A probed key that is present but does not hold an array fails.
pub open spec fn entity_array(doc: Json, legacy: Seq<char>) -> Option<Seq<Json>> {
    if doc is Obj {
        match lookup(doc->Obj_0@, "data"@) {
            Some(v) => if v is Arr {
                Some(v->Arr_0@)
            } else {
                None
            },
            None => match lookup(doc->Obj_0@, legacy) {
                Some(v) => if v is Arr {
                    Some(v->Arr_0@)
                } else {
                    None
                },
                None => None,
            },
        }
    } else {
        None
    }
}

/// The `(name, id)` of a game element, if it carries both required fields
/// as strings.
pub open spec fn parsed_game(j: Json) -> Option<(Seq<char>, Seq<char>)> {
    if j is Obj {
        match (lookup(j->Obj_0@, "name"@), lookup(j->Obj_0@, "id"@)) {
            (Some(Json::Str(n)), Some(Json::Str(i))) => Some((n@, i@)),
            _ => None,
        }
    } else {
        None
    }
}

/// The `(channel, game, viewers)` of a stream element, if it carries all
/// three required fields, the viewer count as an unsigned 64-bit number.
pub open spec fn parsed_stream(j: Json) -> Option<(Seq<char>, Seq<char>, u64)> {
    if j is Obj {
        match (
            lookup(j->Obj_0@, "user_name"@),
            lookup(j->Obj_0@, "game_name"@),
            lookup(j->Obj_0@, "viewer_count"@),
        ) {
            (Some(Json::Str(c)), Some(Json::Str(g)), Some(Json::Num(v))) => Some((c@, g@, v)),
            _ => None,
        }
    } else {
        None
    }
}

/// Whether `g` is the Game that element `elem` denotes.
pub open spec fn game_matches(elem: Json, g: Game) -> bool {
    parsed_game(elem) matches Some(p) && g.name@ == p.0 && g.id@ == p.1
}

/// Whether `s` is the Stream that element `elem` denotes.
pub open spec fn stream_matches(elem: Json, s: Stream) -> bool {
    parsed_stream(elem) matches Some(p) && s.channel@ == p.0 && s.game@ == p.1 && s.viewers == p.2
}

/// Whether element `i` is the first game element missing a required field.
pub open spec fn first_bad_game(elems: Seq<Json>, i: int) -> bool {
    &&& 0 <= i < elems.len()
    &&& parsed_game(elems[i]) is None
    &&& forall|j: int| 0 <= j < i ==> parsed_game(elems[j]) is Some
}

/// Whether element `i` is the first stream element missing a required field.
pub open spec fn first_bad_stream(elems: Seq<Json>, i: int) -> bool {
    &&& 0 <= i < elems.len()
    &&& parsed_stream(elems[i]) is None
    &&& forall|j: int| 0 <= j < i ==> parsed_stream(elems[j]) is Some
}

/// Borrows the payload's entity array, exactly as [`entity_array`] says.
fn get_array<'a>(doc: &'a Json, legacy: &str) -> (r: Option<&'a Vec<Json>>)
    ensures
        match r {
            Some(v) => entity_array(*doc, legacy@) == Some(v@),
            None => entity_array(*doc, legacy@) is None,
        },
{
    match doc.get("data") {
        Some(v) => match v {
            Json::Arr(items) => Some(items),
            _ => None,
        },
        None => match doc.get(legacy) {
            Some(Json::Arr(items)) => Some(items),
            _ => None,
        },
    }
}

/// Reads one game element, exactly as [`parsed_game`] says.
fn parse_game(j: &Json) -> (r: Option<Game>)
    ensures
        match r {
            Some(g) => game_matches(*j, g),
            None => parsed_game(*j) is None,
        },
{
    let n = match j.get("name") {
        Some(Json::Str(s)) => s,
        _ => {
            return None;
        },
    };
    let i = match j.get("id") {
        Some(Json::Str(s)) => s,
        _ => {
            return None;
        },
    };
    Some(Game { name: n.clone(), id: i.clone() })
}

/// Reads one stream element, exactly as [`parsed_stream`] says.
fn parse_stream(j: &Json) -> (r: Option<Stream>)
    ensures
        match r {
            Some(s) => stream_matches(*j, s),
            None => parsed_stream(*j) is None,
        },
{
    let c = match j.get("user_name") {
        Some(Json::Str(s)) => s,
        _ => {
            return None;
        },
    };
    let g = match j.get("game_name") {
        Some(Json::Str(s)) => s,
        _ => {
            return None;
        },
    };
    let v = match j.get("viewer_count") {
        Some(Json::Num(n)) => *n,
        _ => {
            return None;
        },
    };
    Some(Stream { game: g.clone(), viewers: v, channel: c.clone() })
}

/// Converts a game-list payload into one `Game` per element, preserving
/// input order.  An empty entity array is `NoResults`; an element missing a
/// required field is `MalformedEntity` with that element, and no partial
/// result is returned.
#[verifier::loop_isolation(false)]
pub fn normalize_games(doc: &Json) -> (r: Result<Vec<Game>, Failure>)
    ensures
        match entity_array(*doc, "top"@) {
            None => r matches Err(Failure::MalformedEntity(f)) && json_eq(*doc, f),
            Some(elems) => {
                if elems.len() == 0 {
                    r == Err::<Vec<Game>, Failure>(Failure::NoResults)
                } else if forall|i: int| 0 <= i < elems.len() ==> #[trigger] parsed_game(elems[i]) is Some {
                    &&& r is Ok
                    &&& r->Ok_0@.len() == elems.len()
                    &&& forall|i: int|
                        0 <= i < elems.len() ==> #[trigger] game_matches(elems[i], r->Ok_0@[i])
                } else {
                    exists|i: int|
                        {
                            &&& #[trigger] first_bad_game(elems, i)
                            &&& r matches Err(Failure::MalformedEntity(f))
                            &&& json_eq(elems[i], f)
                        }
                }
            },
        },
{
    let arr = match get_array(doc, "top") {
        Some(a) => a,
        None => {
            return Err(Failure::MalformedEntity(doc.duplicate()));
        },
    };
    if arr.len() == 0 {
        return Err(Failure::NoResults);
    }
    let mut out: Vec<Game> = Vec::new();
    let mut i: usize = 0;
    while i < arr.len()
        invariant
            i <= arr@.len(),
            out@.len() == i,
            forall|j: int| 0 <= j < i ==> #[trigger] parsed_game(arr@[j]) is Some,
            forall|j: int| 0 <= j < i ==> #[trigger] game_matches(arr@[j], out@[j]),
        decreases arr@.len() - i,
    {
        match parse_game(&arr[i]) {
            Some(g) => {
                out.push(g);
                i = i + 1;
            },
            None => {
                proof {
                    assert(first_bad_game(arr@, i as int));
                }
                return Err(Failure::MalformedEntity(arr[i].duplicate()));
            },
        }
    }
    Ok(out)
}

/// Converts a stream-list payload into one `Stream` per element, preserving
/// input order, with the same failure policy as [`normalize_games`].
#[verifier::loop_isolation(false)]
pub fn normalize_streams(doc: &Json) -> (r: Result<Vec<Stream>, Failure>)
    ensures
        match entity_array(*doc, "streams"@) {
            None => r matches Err(Failure::MalformedEntity(f)) && json_eq(*doc, f),
            Some(elems) => {
                if elems.len() == 0 {
                    r == Err::<Vec<Stream>, Failure>(Failure::NoResults)
                } else if forall|i: int| 0 <= i < elems.len() ==> #[trigger] parsed_stream(elems[i]) is Some {
                    &&& r is Ok
                    &&& r->Ok_0@.len() == elems.len()
                    &&& forall|i: int|
                        0 <= i < elems.len() ==> #[trigger] stream_matches(elems[i], r->Ok_0@[i])
                } else {
                    exists|i: int|
                        {
                            &&& #[trigger] first_bad_stream(elems, i)
                            &&& r matches Err(Failure::MalformedEntity(f))
                            &&& json_eq(elems[i], f)
                        }
                }
            },
        },
{
    let arr = match get_array(doc, "streams") {
        Some(a) => a,
        None => {
            return Err(Failure::MalformedEntity(doc.duplicate()));
        },
    };
    if arr.len() == 0 {
        return Err(Failure::NoResults);
    }
    let mut out: Vec<Stream> = Vec::new();
    let mut i: usize = 0;
    while i < arr.len()
        invariant
            i <= arr@.len(),
            out@.len() == i,
            forall|j: int| 0 <= j < i ==> #[trigger] parsed_stream(arr@[j]) is Some,
            forall|j: int| 0 <= j < i ==> #[trigger] stream_matches(arr@[j], out@[j]),
        decreases arr@.len() - i,
    {
        match parse_stream(&arr[i]) {
            Some(s) => {
                out.push(s);
                i = i + 1;
            },
            None => {
                proof {
                    assert(first_bad_stream(arr@, i as int));
                }
                return Err(Failure::MalformedEntity(arr[i].duplicate()));
            },
        }
    }
    Ok(out)
}

/// Converts a single-channel payload into the one `Stream` its first element
/// denotes.
pub fn normalize_single_stream(doc: &Json) -> (r: Result<Stream, Failure>)
    ensures
        match entity_array(*doc, "streams"@) {
            None => r matches Err(Failure::MalformedEntity(f)) && json_eq(*doc, f),
            Some(elems) => {
                if elems.len() == 0 {
                    r == Err::<Stream, Failure>(Failure::NoResults)
                } else if parsed_stream(elems[0]) is Some {
                    r matches Ok(s) && stream_matches(elems[0], s)
                } else {
                    r matches Err(Failure::MalformedEntity(f)) && json_eq(elems[0], f)
                }
            },
        },
{
    let arr = match get_array(doc, "streams") {
        Some(a) => a,
        None => {
            return Err(Failure::MalformedEntity(doc.duplicate()));
        },
    };
    if arr.len() == 0 {
        return Err(Failure::NoResults);
    }
    match parse_stream(&arr[0]) {
        Some(s) => Ok(s),
        None => Err(Failure::MalformedEntity(arr[0].duplicate())),
    }
}

/// The identifier of the first user in a current-user payload, if present
/// as a string.
pub open spec fn user_id_of(doc: Json) -> Option<Seq<char>> {
    match entity_array(doc, "data"@) {
        Some(elems) => if elems.len() > 0 && elems[0] is Obj {
            match lookup(elems[0]->Obj_0@, "id"@) {
                Some(Json::Str(s)) => Some(s@),
                _ => None,
            }
        } else {
            None
        },
        None => None,
    }
}

/// Resolves the follow-list owner from a current-user payload: the `id` of
/// the first user entry.
pub fn extract_user_id(doc: &Json) -> (r: Result<String, Failure>)
    ensures
        match entity_array(*doc, "data"@) {
            None => r matches Err(Failure::MalformedEntity(f)) && json_eq(*doc, f),
            Some(elems) => {
                if elems.len() == 0 {
                    r == Err::<String, Failure>(Failure::NoResults)
                } else if user_id_of(*doc) is Some {
                    r matches Ok(s) && Some(s@) == user_id_of(*doc)
                } else {
                    r matches Err(Failure::MalformedEntity(f)) && json_eq(elems[0], f)
                }
            },
        },
{
    let arr = match get_array(doc, "data") {
        Some(a) => a,
        None => {
            return Err(Failure::MalformedEntity(doc.duplicate()));
        },
    };
    if arr.len() == 0 {
        return Err(Failure::NoResults);
    }
    match arr[0].get("id") {
        Some(Json::Str(s)) => Ok(s.clone()),
        _ => Err(Failure::MalformedEntity(arr[0].duplicate())),
    }
}

} // verus!
