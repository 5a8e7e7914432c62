use twitch_cli::error::Failure;
use twitch_cli::json::Json;
use twitch_cli::normalize::{
    extract_user_id, normalize_games, normalize_single_stream, normalize_streams,
};

fn obj(pairs: Vec<(&str, Json)>) -> Json {
    Json::Obj(pairs.into_iter().map(|(k, v)| (k.to_string(), v)).collect())
}

fn s(v: &str) -> Json {
    Json::Str(v.to_string())
}

fn game(name: &str, id: &str) -> Json {
    obj(vec![("name", s(name)), ("id", s(id))])
}

fn stream(user: &str, game_name: &str, viewers: u64) -> Json {
    obj(vec![
        ("user_name", s(user)),
        ("game_name", s(game_name)),
        ("viewer_count", Json::Num(viewers)),
    ])
}

#[test]
fn games_one_per_element_in_order() {
    let doc = obj(vec![(
        "data",
        Json::Arr(vec![game("Chess", "1"), game("Go", "2"), game("Shogi", "3")]),
    )]);
    let games = normalize_games(&doc).unwrap();
    assert_eq!(games.len(), 3);
    assert_eq!(games[0].name, "Chess");
    assert_eq!(games[0].id, "1");
    assert_eq!(games[1].name, "Go");
    assert_eq!(games[1].id, "2");
    assert_eq!(games[2].name, "Shogi");
    assert_eq!(games[2].id, "3");
}

#[test]
fn games_legacy_top_key() {
    let doc = obj(vec![("top", Json::Arr(vec![game("Chess", "1")]))]);
    let games = normalize_games(&doc).unwrap();
    assert_eq!(games.len(), 1);
    assert_eq!(games[0].name, "Chess");
}

#[test]
fn games_data_preferred_over_legacy() {
    let doc = obj(vec![
        ("data", Json::Arr(vec![game("Chess", "1")])),
        ("top", Json::Arr(vec![game("Go", "2")])),
    ]);
    let games = normalize_games(&doc).unwrap();
    assert_eq!(games[0].name, "Chess");
}

#[test]
fn games_empty_data_is_no_results() {
    let doc = obj(vec![("data", Json::Arr(vec![]))]);
    assert_eq!(normalize_games(&doc), Err(Failure::NoResults));
}

#[test]
fn games_empty_legacy_is_no_results() {
    let doc = obj(vec![("top", Json::Arr(vec![]))]);
    assert_eq!(normalize_games(&doc), Err(Failure::NoResults));
}

#[test]
fn streams_empty_data_is_no_results() {
    let doc = obj(vec![("data", Json::Arr(vec![]))]);
    assert_eq!(normalize_streams(&doc), Err(Failure::NoResults));
}

#[test]
fn streams_empty_legacy_is_no_results() {
    let doc = obj(vec![("streams", Json::Arr(vec![]))]);
    assert_eq!(normalize_streams(&doc), Err(Failure::NoResults));
}

#[test]
fn games_missing_required_field_is_malformed() {
    let bad = obj(vec![("name", s("Chess"))]);
    let doc = obj(vec![("data", Json::Arr(vec![game("Go", "2"), bad.duplicate()]))]);
    match normalize_games(&doc) {
        Err(Failure::MalformedEntity(frag)) => assert_eq!(frag, bad),
        other => panic!("expected MalformedEntity, got {:?}", other),
    }
}

#[test]
fn streams_missing_user_name_is_malformed_with_that_element() {
    let bad = obj(vec![("game_name", s("Chess")), ("viewer_count", Json::Num(5))]);
    let doc = obj(vec![(
        "data",
        Json::Arr(vec![stream("alice", "Chess", 10), bad.duplicate()]),
    )]);
    match normalize_streams(&doc) {
        Err(Failure::MalformedEntity(frag)) => assert_eq!(frag, bad),
        other => panic!("expected MalformedEntity, got {:?}", other),
    }
}

#[test]
fn streams_non_numeric_viewers_is_malformed() {
    let bad = obj(vec![
        ("user_name", s("alice")),
        ("game_name", s("Chess")),
        ("viewer_count", s("many")),
    ]);
    let doc = obj(vec![("data", Json::Arr(vec![bad.duplicate()]))]);
    match normalize_streams(&doc) {
        Err(Failure::MalformedEntity(frag)) => assert_eq!(frag, bad),
        other => panic!("expected MalformedEntity, got {:?}", other),
    }
}

#[test]
fn streams_fractional_viewers_is_malformed() {
    let bad = obj(vec![
        ("user_name", s("alice")),
        ("game_name", s("Chess")),
        ("viewer_count", Json::NumOther),
    ]);
    let doc = obj(vec![("data", Json::Arr(vec![bad.duplicate()]))]);
    assert!(matches!(
        normalize_streams(&doc),
        Err(Failure::MalformedEntity(_))
    ));
}

#[test]
fn streams_valid_batch() {
    let doc = obj(vec![(
        "data",
        Json::Arr(vec![stream("alice", "Chess", 10), stream("bob", "Go", 2)]),
    )]);
    let streams = normalize_streams(&doc).unwrap();
    assert_eq!(streams.len(), 2);
    assert_eq!(streams[0].channel, "alice");
    assert_eq!(streams[0].game, "Chess");
    assert_eq!(streams[0].viewers, 10);
    assert_eq!(streams[1].channel, "bob");
}

#[test]
fn missing_array_key_is_malformed_whole_doc() {
    let doc = obj(vec![("other", Json::Null)]);
    match normalize_games(&doc) {
        Err(Failure::MalformedEntity(frag)) => assert_eq!(frag, doc),
        other => panic!("expected MalformedEntity, got {:?}", other),
    }
}

#[test]
fn data_key_not_an_array_is_malformed() {
    let doc = obj(vec![("data", Json::Null)]);
    assert!(matches!(
        normalize_games(&doc),
        Err(Failure::MalformedEntity(_))
    ));
}

#[test]
fn non_object_document_is_malformed() {
    let doc = Json::Arr(vec![]);
    assert!(matches!(
        normalize_games(&doc),
        Err(Failure::MalformedEntity(_))
    ));
}

#[test]
fn single_stream_takes_first_element() {
    let doc = obj(vec![(
        "data",
        Json::Arr(vec![stream("alice", "Chess", 10), stream("bob", "Go", 2)]),
    )]);
    let st = normalize_single_stream(&doc).unwrap();
    assert_eq!(st.channel, "alice");
}

#[test]
fn single_stream_empty_is_no_results() {
    let doc = obj(vec![("streams", Json::Arr(vec![]))]);
    assert_eq!(normalize_single_stream(&doc), Err(Failure::NoResults));
}

#[test]
fn user_id_extracted() {
    let doc = obj(vec![(
        "data",
        Json::Arr(vec![obj(vec![("id", s("42")), ("login", s("alice"))])]),
    )]);
    assert_eq!(extract_user_id(&doc).unwrap(), "42");
}

#[test]
fn user_id_empty_is_no_results() {
    let doc = obj(vec![("data", Json::Arr(vec![]))]);
    assert_eq!(extract_user_id(&doc), Err(Failure::NoResults));
}

#[test]
fn user_id_missing_is_malformed() {
    let entry = obj(vec![("login", s("alice"))]);
    let doc = obj(vec![("data", Json::Arr(vec![entry.duplicate()]))]);
    match extract_user_id(&doc) {
        Err(Failure::MalformedEntity(frag)) => assert_eq!(frag, entry),
        other => panic!("expected MalformedEntity, got {:?}", other),
    }
}
