//! The API gateway's decision half: building operation URLs and header
//! values, and mapping an HTTP status with its decoded body to either the
//! payload or a typed failure.  The transport itself lives outside the crate
//! and hands in the plain `(status, body)` pair.

use vstd::prelude::*;
use vstd::string::StringExecFns;
use crate::digits::{dec_chars, u64_to_string};
use crate::error::Failure;
use crate::json::{lookup, Json};
use crate::text::{str_eq, token_list, tokens};

verus! {

/// The full request URL for an operation path.
pub fn request_url(option: &str) -> (r: String)
    ensures
        r@ == "https://api.twitch.tv/helix/"@ + option@,
{
    let mut s = String::from_str("https://api.twitch.tv/helix/");
    s.append(option);
    s
}

/// The operation path for the top-games query.
pub fn top_games_path(limit: u64) -> (r: String)
    ensures
        r@ == "games/top?limit="@ + dec_chars(limit as nat),
{
    let mut s = String::from_str("games/top?limit=");
    let d = u64_to_string(limit);
    s.append(d.as_str());
    s
}

/// The operation path for the streams-of-a-game query.
pub fn streams_path(game_id: &str, limit: u64) -> (r: String)
    ensures
        r@ == "streams?game_id="@ + game_id@ + "&limit="@ + dec_chars(limit as nat),
{
    let mut s = String::from_str("streams?game_id=");
    s.append(game_id);
    s.append("&limit=");
    let d = u64_to_string(limit);
    s.append(d.as_str());
    s
}

/// The operation path for the game-by-name search.
pub fn game_by_name_path(name: &str) -> (r: String)
    ensures
        r@ == "games?name="@ + name@,
{
    let mut s = String::from_str("games?name=");
    s.append(name);
    s
}

/// The operation path for the current-user query.
pub fn users_path() -> (r: String)
    ensures
        r@ == "users"@,
{
    String::from_str("users")
}

/// The operation path for the followed-streams query.
pub fn followed_path(user_id: &str, limit: u64) -> (r: String)
    ensures
        r@ == "streams/followed?user_id="@ + user_id@ + "&limit="@ + dec_chars(limit as nat),
{
    let mut s = String::from_str("streams/followed?user_id=");
    s.append(user_id);
    s.append("&limit=");
    let d = u64_to_string(limit);
    s.append(d.as_str());
    s
}

/// The operation path for the single-channel lookup.
pub fn channel_path(name: &str) -> (r: String)
    ensures
        r@ == "streams?name="@ + name@,
{
    let mut s = String::from_str("streams?name=");
    s.append(name);
    s
}

/// The fixed Accept header value.
pub fn accept_header_value() -> (r: String)
    ensures
        r@ == "application/vnd.twitchtv.v3+json"@,
{
    String::from_str("application/vnd.twitchtv.v3+json")
}

/// The Authorization header value for a bearer credential.
pub fn bearer_header_value(token: &str) -> (r: String)
    ensures
        r@ == "Bearer "@ + token@,
{
    let mut s = String::from_str("Bearer ");
    s.append(token);
    s
}

/// The channel name in an error envelope, when the envelope's `message`
/// contains the token `Channel`: the message's second whitespace-delimited
/// token.  (A documented quirk of the upstream wording; preserved, not
/// hardened.)
pub open spec fn spec_unknown_channel(body: Option<Json>) -> Option<Seq<char>> {
    match body {
        Some(doc) => if doc is Obj {
            match lookup(doc->Obj_0@, "message"@) {
                Some(Json::Str(m)) => {
                    let toks = tokens(m@);
                    if toks.contains("Channel"@) && toks.len() >= 2 {
                        Some(toks[1])
                    } else {
                        None
                    }
                },
                _ => None,
            }
        } else {
            None
        },
        None => None,
    }
}

/// Extracts the channel name, exactly as [`spec_unknown_channel`] says.
fn extract_channel_name(body: &Option<Json>) -> (r: Option<String>)
    ensures
        match r {
            Some(s) => spec_unknown_channel(*body) == Some(s@),
            None => spec_unknown_channel(*body) is None,
        },
{
    let doc = match body {
        Some(d) => d,
        None => {
            return None;
        },
    };
    let m = match doc.get("message") {
        Some(Json::Str(s)) => s,
        _ => {
            return None;
        },
    };
    let toks = token_list(m.as_str());
    let ghost dv = toks.deep_view();
    let mut found = false;
    let mut i: usize = 0;
    while i < toks.len()
        invariant_except_break
            i <= toks@.len(),
            dv == toks.deep_view(),
            dv.len() == toks@.len(),
            !found,
            forall|j: int| 0 <= j < i ==> dv[j] != "Channel"@,
        ensures
            dv == toks.deep_view(),
            found == dv.contains("Channel"@),
        decreases toks@.len() - i,
    {
        if str_eq(toks[i].as_str(), "Channel") {
            found = true;
            proof {
                assert(dv[i as int] == "Channel"@);
            }
            break ;
        }
        proof {
            assert(dv[i as int] == toks@[i as int]@);
        }
        i = i + 1;
    }
    if !found {
        return None;
    }
    if toks.len() < 2 {
        return None;
    }
    let name = toks[1].clone();
    proof {
        assert(dv[1] == toks@[1]@);
    }
    Some(name)
}

/// Maps one HTTP exchange to its payload or typed failure: a success status
/// yields the decoded body (an undecodable success body is a decode
/// failure); 401 is `Unauthorized`; a 404 envelope naming a channel is
/// `UnknownChannel`; every other non-success status is `RequestRejected`.
pub fn interpret_response(url: &str, status: u16, body: Option<Json>) -> (r: Result<
    Json,
    Failure,
>)
    ensures
        200 <= status < 300 ==> match body {
            Some(doc) => r matches Ok(d) && d == doc,
            None => r == Err::<Json, Failure>(Failure::ResponseDecodeFailure),
        },
        status == 401 ==> r == Err::<Json, Failure>(Failure::Unauthorized),
        status == 404 ==> match spec_unknown_channel(body) {
            Some(name) => r matches Err(Failure::UnknownChannel(n)) && n@ == name,
            None => r matches Err(Failure::RequestRejected { url: u, status: st }) && u@ == url@
                && st == status,
        },
        !(200 <= status < 300) && status != 401 && status != 404 ==> (r matches Err(
            Failure::RequestRejected { url: u, status: st },
        ) && u@ == url@ && st == status),
{
    if 200 <= status && status < 300 {
        match body {
            Some(doc) => Ok(doc),
            None => Err(Failure::ResponseDecodeFailure),
        }
    } else if status == 401 {
        Err(Failure::Unauthorized)
    } else if status == 404 {
        match extract_channel_name(&body) {
            Some(name) => Err(Failure::UnknownChannel(name)),
            None => Err(Failure::RequestRejected { url: url.to_owned(), status }),
        }
    } else {
        Err(Failure::RequestRejected { url: url.to_owned(), status })
    }
}

} // verus!
