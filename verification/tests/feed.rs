use valorant_menubar::facade::get_live_matches;
use valorant_menubar::feed::{
    decode_feed, decode_segment, find_segments, read_feed_reply, FeedError, FeedReply,
    SHAPE_MISMATCH,
};
use valorant_menubar::json::{Json, JsonNumber, Member};

fn object(members: Vec<(&str, Json)>) -> Json {
    Json::Object(
        members
            .into_iter()
            .map(|(key, value)| Member { key: key.to_string(), value })
            .collect(),
    )
}

fn text(s: &str) -> Json {
    Json::Text(s.to_string())
}

fn number(n: u64) -> Json {
    Json::Number(JsonNumber::Unsigned(n))
}

fn bare(team1: &str, team2: &str, score1: &str, score2: &str) -> Json {
    object(vec![
        ("team1", text(team1)),
        ("team2", text(team2)),
        ("score1", text(score1)),
        ("score2", text(score2)),
    ])
}

fn envelope(segments: Json) -> Json {
    object(vec![
        ("status", text("success")),
        ("data", object(vec![("status", number(200)), ("segments", segments)])),
    ])
}

fn with(item: Json, key: &str, value: Json) -> Json {
    match item {
        Json::Object(mut members) => {
            members.push(Member { key: key.to_string(), value });
            Json::Object(members)
        }
        other => other,
    }
}

fn is_shape_error(r: Result<Vec<valorant_menubar::segment::MatchSegment>, FeedError>) -> bool {
    matches!(r, Err(FeedError::Decode(detail)) if detail == SHAPE_MISMATCH)
}

#[test]
fn omitted_optional_fields_decode_to_empty_strings() {
    let doc = envelope(Json::Array(vec![bare("Sentinels", "100 Thieves", "13", "9")]));
    let segments = decode_feed(&doc).expect("a bare segment is no decode failure");
    assert_eq!(segments.len(), 1);
    let m = &segments[0];
    assert_eq!(m.team1, "Sentinels");
    assert_eq!(m.team2, "100 Thieves");
    assert_eq!(m.score1, "13");
    assert_eq!(m.score2, "9");
    assert_eq!(m.current_map, "");
    assert_eq!(m.match_event, "");
    assert_eq!(m.match_series, "");
    assert_eq!(m.time_until_match, "");
    assert_eq!(m.flag1, "");
    assert_eq!(m.flag2, "");
    assert_eq!(m.team1_logo, "");
    assert_eq!(m.team2_logo, "");
    assert_eq!(m.team1_round_ct, "");
    assert_eq!(m.team1_round_t, "");
    assert_eq!(m.team2_round_ct, "");
    assert_eq!(m.team2_round_t, "");
    assert_eq!(m.map_number, "");
    assert_eq!(m.unix_timestamp, "");
    assert_eq!(m.match_page, "");
}

#[test]
fn every_field_is_decoded_from_its_own_key() {
    let keys = [
        "team1",
        "team2",
        "score1",
        "score2",
        "current_map",
        "match_event",
        "match_series",
        "time_until_match",
        "flag1",
        "flag2",
        "team1_logo",
        "team2_logo",
        "team1_round_ct",
        "team1_round_t",
        "team2_round_ct",
        "team2_round_t",
        "map_number",
        "unix_timestamp",
        "match_page",
    ];
    let item = object(keys.iter().map(|k| (*k, text(&format!("<{}>", k)))).collect());
    let m = decode_segment(&item).expect("a full segment");
    assert_eq!(m.team1, "<team1>");
    assert_eq!(m.team2, "<team2>");
    assert_eq!(m.score1, "<score1>");
    assert_eq!(m.score2, "<score2>");
    assert_eq!(m.current_map, "<current_map>");
    assert_eq!(m.match_event, "<match_event>");
    assert_eq!(m.match_series, "<match_series>");
    assert_eq!(m.time_until_match, "<time_until_match>");
    assert_eq!(m.flag1, "<flag1>");
    assert_eq!(m.flag2, "<flag2>");
    assert_eq!(m.team1_logo, "<team1_logo>");
    assert_eq!(m.team2_logo, "<team2_logo>");
    assert_eq!(m.team1_round_ct, "<team1_round_ct>");
    assert_eq!(m.team1_round_t, "<team1_round_t>");
    assert_eq!(m.team2_round_ct, "<team2_round_ct>");
    assert_eq!(m.team2_round_t, "<team2_round_t>");
    assert_eq!(m.map_number, "<map_number>");
    assert_eq!(m.unix_timestamp, "<unix_timestamp>");
    assert_eq!(m.match_page, "<match_page>");
}

#[test]
fn segments_keep_their_order() {
    let doc = envelope(Json::Array(vec![
        bare("A", "B", "1", "2"),
        with(bare("C", "D", "3", "4"), "time_until_match", text("LIVE")),
        bare("E", "F", "5", "6"),
    ]));
    let segments = decode_feed(&doc).expect("three segments");
    let names: Vec<&str> = segments.iter().map(|m| m.team1.as_str()).collect();
    assert_eq!(names, vec!["A", "C", "E"]);
    assert_eq!(segments[1].time_until_match, "LIVE");
}

#[test]
fn zero_segments_is_a_success() {
    let segments = decode_feed(&envelope(Json::Array(vec![]))).expect("an empty list");
    assert!(segments.is_empty());
}

#[test]
fn unknown_members_are_ignored() {
    let item = with(bare("A", "B", "1", "2"), "round_info", Json::Null);
    let doc = with(envelope(Json::Array(vec![item])), "extra", number(1));
    assert_eq!(decode_feed(&doc).expect("extra members").len(), 1);
}

#[test]
fn a_missing_required_field_is_a_decode_error() {
    for missing in ["team1", "team2", "score1", "score2"] {
        let incomplete = || {
            object(
                ["team1", "team2", "score1", "score2"]
                    .iter()
                    .filter(|k| **k != missing)
                    .map(|k| (*k, text("x")))
                    .collect(),
            )
        };
        assert!(decode_segment(&incomplete()).is_none());
        let doc = envelope(Json::Array(vec![bare("A", "B", "1", "2"), incomplete()]));
        assert!(is_shape_error(decode_feed(&doc)));
    }
}

#[test]
fn a_field_of_another_type_is_a_decode_error() {
    assert!(decode_segment(&with(bare("A", "B", "1", "2"), "current_map", number(3))).is_none());
    assert!(decode_segment(&with(bare("A", "B", "1", "2"), "match_page", Json::Null)).is_none());
    assert!(decode_segment(&with(bare("A", "B", "1", "2"), "flag1", Json::Bool(true))).is_none());
    let score_as_number = object(vec![
        ("team1", text("A")),
        ("team2", text("B")),
        ("score1", number(13)),
        ("score2", text("9")),
    ]);
    assert!(decode_segment(&score_as_number).is_none());
    assert!(decode_segment(&Json::Null).is_none());
    assert!(decode_segment(&Json::Array(vec![])).is_none());
}

#[test]
fn an_envelope_of_another_shape_is_a_decode_error() {
    let segments = || Json::Array(vec![bare("A", "B", "1", "2")]);
    let no_status = object(vec![(
        "data",
        object(vec![("status", number(200)), ("segments", segments())]),
    )]);
    assert!(is_shape_error(decode_feed(&no_status)));
    let no_data = object(vec![("status", text("success"))]);
    assert!(is_shape_error(decode_feed(&no_data)));
    let data_without_code = object(vec![
        ("status", text("success")),
        ("data", object(vec![("segments", segments())])),
    ]);
    assert!(is_shape_error(decode_feed(&data_without_code)));
    let segments_not_a_list = envelope(object(vec![]));
    assert!(is_shape_error(decode_feed(&segments_not_a_list)));
    let no_segments = object(vec![
        ("status", text("success")),
        ("data", object(vec![("status", number(200))])),
    ]);
    assert!(is_shape_error(decode_feed(&no_segments)));
    assert!(is_shape_error(decode_feed(&Json::Null)));
    assert!(is_shape_error(decode_feed(&segments())));
}

#[test]
fn the_status_code_must_fit_sixteen_bits() {
    let with_code = |code: Json| {
        object(vec![
            ("status", text("success")),
            ("data", object(vec![("status", code), ("segments", Json::Array(vec![]))])),
        ])
    };
    assert!(decode_feed(&with_code(number(0))).is_ok());
    assert!(decode_feed(&with_code(number(65535))).is_ok());
    assert!(is_shape_error(decode_feed(&with_code(number(65536)))));
    assert!(is_shape_error(decode_feed(&with_code(Json::Number(JsonNumber::Negative(-1))))));
    assert!(is_shape_error(decode_feed(&with_code(Json::Number(JsonNumber::Fraction(
        "200.5".to_string()
    ))))));
    assert!(is_shape_error(decode_feed(&with_code(text("200")))));
    assert!(find_segments(&with_code(number(200))).is_some());
    assert!(find_segments(&with_code(text("200"))).is_none());
}

#[test]
fn transport_failure_is_a_network_error() {
    let reply = FeedReply::Unreachable("connection refused".to_string());
    match read_feed_reply(&reply) {
        Err(FeedError::Network(detail)) => assert_eq!(detail, "connection refused"),
        other => panic!("unexpected {:?}", other),
    }
}

#[test]
fn malformed_body_is_a_decode_error() {
    let reply = FeedReply::Undecodable("expected value at line 1 column 1".to_string());
    match read_feed_reply(&reply) {
        Err(FeedError::Decode(detail)) => assert_eq!(detail, "expected value at line 1 column 1"),
        other => panic!("unexpected {:?}", other),
    }
}

#[test]
fn a_document_reply_is_decoded() {
    let reply = FeedReply::Document(envelope(Json::Array(vec![bare("A", "B", "1", "2")])));
    assert_eq!(read_feed_reply(&reply).expect("segments").len(), 1);
    let reply = FeedReply::Document(Json::Bool(false));
    assert!(is_shape_error(read_feed_reply(&reply)));
}

#[test]
fn error_message_is_the_detail() {
    assert_eq!(FeedError::Network("timed out".to_string()).message(), "timed out");
    assert_eq!(FeedError::Decode("bad".to_string()).message(), "bad");
}

#[test]
fn foreground_gets_segments_or_a_message() {
    let ok = FeedReply::Document(envelope(Json::Array(vec![bare("A", "B", "1", "2")])));
    assert_eq!(get_live_matches(&ok).expect("segments")[0].team2, "B");
    let down = FeedReply::Unreachable("dns error".to_string());
    assert_eq!(get_live_matches(&down).unwrap_err(), "dns error");
    let garbled = FeedReply::Undecodable("EOF while parsing".to_string());
    assert_eq!(get_live_matches(&garbled).unwrap_err(), "EOF while parsing");
    let odd = FeedReply::Document(Json::Null);
    assert_eq!(
        get_live_matches(&odd).unwrap_err(),
        "the score feed response does not have the expected shape"
    );
}
