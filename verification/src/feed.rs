//! Decoding the score feed's response into match segments.

use crate::json::{Json, JsonNumber};
use crate::segment::{bare_segment, segment_views, MatchSegment, SegmentView};
use vstd::prelude::*;

verus! {

/// Address of the score feed.
pub const FEED_URL: &'static str = "https://vlrggapi.vercel.app/v2/match?q=live_score";

/// The detail of the error for a document of another shape than the feed's.
pub const SHAPE_MISMATCH: &'static str = "the score feed response does not have the expected shape";

/// Why the score feed gave no segments.
#[derive(Debug, Clone, PartialEq, Eq)]
pub enum FeedError {
    /// The request failed in transport: no connection, or a timeout.
    Network(String),
    /// The response was not JSON, or not of the feed's shape.
    Decode(String),
}

impl FeedError {
    /// The detail that the error carries.
    pub open spec fn detail(&self) -> Seq<char> {
        match self {
            FeedError::Network(detail) => detail@,
            FeedError::Decode(detail) => detail@,
        }
    }

    /// The message shown to the user: the error's detail.
    pub fn message(&self) -> (r: String)
        ensures
            r@ == self.detail(),
    {
        match self {
            FeedError::Network(detail) => detail.clone(),
            FeedError::Decode(detail) => detail.clone(),
        }
    }
}

/// A member that may be left out is acceptable when it is left out or is a string.
pub open spec fn tolerated(item: Json, key: Seq<char>) -> bool {
    item.member(key) is None || item.text_member(key) is Some
}

/// The text of a member that may be left out: empty where it is left out.
pub open spec fn optional_text(item: Json, key: Seq<char>) -> Seq<char> {
    match item.text_member(key) {
        Some(text) => text,
        None => Seq::empty(),
    }
}

/// A segment of the feed's shape: the two team names and the two scores are
/// strings, and each of the other fields is a string or left out.
pub open spec fn is_segment(item: Json) -> bool {
    &&& item.text_member("team1"@) is Some
    &&& item.text_member("team2"@) is Some
    &&& item.text_member("score1"@) is Some
    &&& item.text_member("score2"@) is Some
    &&& tolerated(item, "current_map"@)
    &&& tolerated(item, "match_event"@)
    &&& tolerated(item, "match_series"@)
    &&& tolerated(item, "time_until_match"@)
    &&& tolerated(item, "flag1"@)
    &&& tolerated(item, "flag2"@)
    &&& tolerated(item, "team1_logo"@)
    &&& tolerated(item, "team2_logo"@)
    &&& tolerated(item, "team1_round_ct"@)
    &&& tolerated(item, "team1_round_t"@)
    &&& tolerated(item, "team2_round_ct"@)
    &&& tolerated(item, "team2_round_t"@)
    &&& tolerated(item, "map_number"@)
    &&& tolerated(item, "unix_timestamp"@)
    &&& tolerated(item, "match_page"@)
}

/// None of the fields that may be left out is there.
pub open spec fn is_bare(item: Json) -> bool {
    &&& item.member("current_map"@) is None
    &&& item.member("match_event"@) is None
    &&& item.member("match_series"@) is None
    &&& item.member("time_until_match"@) is None
    &&& item.member("flag1"@) is None
    &&& item.member("flag2"@) is None
    &&& item.member("team1_logo"@) is None
    &&& item.member("team2_logo"@) is None
    &&& item.member("team1_round_ct"@) is None
    &&& item.member("team1_round_t"@) is None
    &&& item.member("team2_round_ct"@) is None
    &&& item.member("team2_round_t"@) is None
    &&& item.member("map_number"@) is None
    &&& item.member("unix_timestamp"@) is None
    &&& item.member("match_page"@) is None
}

/// The segment that a JSON object of the feed's shape stands for.
pub open spec fn decoded_segment(item: Json) -> SegmentView {
    SegmentView {
        team1: optional_text(item, "team1"@),
        team2: optional_text(item, "team2"@),
        score1: optional_text(item, "score1"@),
        score2: optional_text(item, "score2"@),
        current_map: optional_text(item, "current_map"@),
        match_event: optional_text(item, "match_event"@),
        match_series: optional_text(item, "match_series"@),
        time_until_match: optional_text(item, "time_until_match"@),
        flag1: optional_text(item, "flag1"@),
        flag2: optional_text(item, "flag2"@),
        team1_logo: optional_text(item, "team1_logo"@),
        team2_logo: optional_text(item, "team2_logo"@),
        team1_round_ct: optional_text(item, "team1_round_ct"@),
        team1_round_t: optional_text(item, "team1_round_t"@),
        team2_round_ct: optional_text(item, "team2_round_ct"@),
        team2_round_t: optional_text(item, "team2_round_t"@),
        map_number: optional_text(item, "map_number"@),
        unix_timestamp: optional_text(item, "unix_timestamp"@),
        match_page: optional_text(item, "match_page"@),
    }
}

/// A status code as the feed's data block carries it: a whole number that
/// fits sixteen bits.
pub open spec fn is_status_code(value: Json) -> bool {
    value matches Json::Number(JsonNumber::Unsigned(n)) && n <= 0xffff
}

/// The segment list of a response, where the envelope has the feed's shape:
/// a string `status`, and an object `data` with a numeric `status` and an
/// array `segments`.
pub open spec fn envelope_segments(document: Json) -> Option<Seq<Json>> {
    if document.text_member("status"@) is Some {
        match document.member("data"@) {
            Some(data) => if data.member("status"@) matches Some(code) && is_status_code(code) {
                data.array_member("segments"@)
            } else {
                None
            },
            None => None,
        }
    } else {
        None
    }
}

/// Every item of the list is a segment of the feed's shape.
pub open spec fn all_segments(items: Seq<Json>) -> bool {
    forall|i: int| 0 <= i < items.len() ==> is_segment(#[trigger] items[i])
}

/// The segments that a list of items stands for.
pub open spec fn decoded_segments(items: Seq<Json>) -> Seq<SegmentView> {
    Seq::new(items.len(), |i: int| decoded_segment(items[i]))
}

/// What decoding a response yields: its segments, in order, where the
/// envelope and every segment have the feed's shape, and nothing otherwise.
pub open spec fn decoded_feed(document: Json) -> Option<Seq<SegmentView>> {
    match envelope_segments(document) {
        Some(items) => if all_segments(items) {
            Some(decoded_segments(items))
        } else {
            None
        },
        None => None,
    }
}

/// Reads a member that must be a string.
fn required_field(item: &Json, key: &str) -> (r: Option<String>)
    ensures
        match r {
            Some(text) => item.text_member(key@) == Some(text@),
            None => item.text_member(key@) is None,
        },
{
    match item.get_str(key) {
        Some(text) => Some(text.to_owned()),
        None => None,
    }
}

/// Reads a member that may be left out: the empty string where it is,
/// `None` where it is there and not a string.
fn optional_field(item: &Json, key: &str) -> (r: Option<String>)
    ensures
        match r {
            Some(text) => tolerated(*item, key@) && text@ == optional_text(*item, key@),
            None => !tolerated(*item, key@),
        },
{
    match item.get(key) {
        Some(value) => match value.as_str() {
            Some(text) => Some(text.to_owned()),
            None => None,
        },
        None => Some(String::new()),
    }
}

/// Decodes one segment. Succeeds exactly on a JSON object of the feed's
/// shape; a field that is left out decodes to the empty string.
pub fn decode_segment(item: &Json) -> (r: Option<MatchSegment>)
    ensures
        match r {
            Some(segment) => is_segment(*item) && segment@ == decoded_segment(*item),
            None => !is_segment(*item),
        },
{
    let team1 = required_field(item, "team1")?;
    let team2 = required_field(item, "team2")?;
    let score1 = required_field(item, "score1")?;
    let score2 = required_field(item, "score2")?;
    let current_map = optional_field(item, "current_map")?;
    let match_event = optional_field(item, "match_event")?;
    let match_series = optional_field(item, "match_series")?;
    let time_until_match = optional_field(item, "time_until_match")?;
    let flag1 = optional_field(item, "flag1")?;
    let flag2 = optional_field(item, "flag2")?;
    let team1_logo = optional_field(item, "team1_logo")?;
    let team2_logo = optional_field(item, "team2_logo")?;
    let team1_round_ct = optional_field(item, "team1_round_ct")?;
    let team1_round_t = optional_field(item, "team1_round_t")?;
    let team2_round_ct = optional_field(item, "team2_round_ct")?;
    let team2_round_t = optional_field(item, "team2_round_t")?;
    let map_number = optional_field(item, "map_number")?;
    let unix_timestamp = optional_field(item, "unix_timestamp")?;
    let match_page = optional_field(item, "match_page")?;
    Some(
        MatchSegment {
            team1,
            team2,
            score1,
            score2,
            current_map,
            match_event,
            match_series,
            time_until_match,
            flag1,
            flag2,
            team1_logo,
            team2_logo,
            team1_round_ct,
            team1_round_t,
            team2_round_ct,
            team2_round_t,
            map_number,
            unix_timestamp,
            match_page,
        },
    )
}

/// Finds the segment list of a response whose envelope has the feed's shape.
pub fn find_segments(document: &Json) -> (r: Option<&Vec<Json>>)
    ensures
        match r {
            Some(items) => envelope_segments(*document) == Some(items@),
            None => envelope_segments(*document) is None,
        },
{
    if document.get_str("status").is_none() {
        return None;
    }
    let data = document.get("data")?;
    match data.get("status") {
        Some(Json::Number(JsonNumber::Unsigned(code))) => {
            if *code > 0xffff {
                return None;
            }
        },
        _ => {
            return None;
        },
    }
    data.get_array("segments")
}

/// The error for a response of another shape than the feed's.
fn shape_mismatch() -> (r: FeedError)
    ensures
        r matches FeedError::Decode(detail) && detail@ == SHAPE_MISMATCH@,
{
    FeedError::Decode(SHAPE_MISMATCH.to_owned())
}

/// Decodes the feed's response into its segments. Succeeds exactly when the
/// envelope and every segment have the feed's shape; every other document is
/// a decode error.
pub fn decode_feed(document: &Json) -> (r: Result<Vec<MatchSegment>, FeedError>)
    ensures
        match r {
            Ok(segments) => decoded_feed(*document) == Some(segment_views(segments@)),
            Err(error) => {
                &&& decoded_feed(*document) is None
                &&& error matches FeedError::Decode(detail) && detail@ == SHAPE_MISMATCH@
            },
        },
{
    let items = match find_segments(document) {
        Some(items) => items,
        None => {
            return Err(shape_mismatch());
        },
    };
    let mut segments: Vec<MatchSegment> = Vec::new();
    let mut i: usize = 0;
    while i < items.len()
        invariant
            i <= items.len(),
            envelope_segments(*document) == Some(items@),
            segments@.len() == i,
            forall|j: int| 0 <= j < i ==> is_segment(#[trigger] items@[j]),
            forall|j: int| 0 <= j < i ==> (#[trigger] segments@[j])@ == decoded_segment(items@[j]),
        decreases items.len() - i,
    {
        match decode_segment(&items[i]) {
            Some(segment) => {
                segments.push(segment);
            },
            None => {
                return Err(shape_mismatch());
            },
        }
        i += 1;
    }
    assert(segment_views(segments@) =~= decoded_segments(items@));
    Ok(segments)
}

/// What one request to the score feed brought back.
#[derive(Debug, PartialEq, Eq)]
pub enum FeedReply {
    /// No response arrived; the transport's own message is carried.
    Unreachable(String),
    /// A response arrived whose body is not JSON; the parser's message is
    /// carried.
    Undecodable(String),
    /// A response arrived with this JSON document as its body.
    Document(Json),
}

/// Turns what the request brought back into segments or the error to pass
/// on. Nothing is tried again here: that is the poll loop's business.
pub fn read_feed_reply(reply: &FeedReply) -> (r: Result<Vec<MatchSegment>, FeedError>)
    ensures
        match (*reply, r) {
            (FeedReply::Unreachable(detail), Err(FeedError::Network(message))) => message@
                == detail@,
            (FeedReply::Undecodable(detail), Err(FeedError::Decode(message))) => message@
                == detail@,
            (FeedReply::Document(document), Ok(segments)) => decoded_feed(document) == Some(
                segment_views(segments@),
            ),
            (FeedReply::Document(document), Err(FeedError::Decode(message))) => {
                &&& decoded_feed(document) is None
                &&& message@ == SHAPE_MISMATCH@
            },
            _ => false,
        },
{
    match reply {
        FeedReply::Unreachable(detail) => Err(FeedError::Network(detail.clone())),
        FeedReply::Undecodable(detail) => Err(FeedError::Decode(detail.clone())),
        FeedReply::Document(document) => decode_feed(document),
    }
}

/// A segment of the feed's shape with none of the optional fields decodes to
/// a segment whose optional fields are all the empty string.
pub proof fn lemma_bare_segment_decodes(item: Json)
    requires
        item.text_member("team1"@) is Some,
        item.text_member("team2"@) is Some,
        item.text_member("score1"@) is Some,
        item.text_member("score2"@) is Some,
        is_bare(item),
    ensures
        is_segment(item),
        decoded_segment(item) == bare_segment(
            item.text_member("team1"@)->0,
            item.text_member("team2"@)->0,
            item.text_member("score1"@)->0,
            item.text_member("score2"@)->0,
        ),
{
}

/// A response with the feed's envelope whose segments carry only the two
/// team names and the two scores is decoded, not refused, and every segment
/// that comes out has the empty string in each field that was left out.
pub proof fn lemma_bare_feed_decodes(document: Json)
    requires
        envelope_segments(document) matches Some(items) && forall|i: int|
            0 <= i < items.len() ==> {
                &&& (#[trigger] items[i]).text_member("team1"@) is Some
                &&& items[i].text_member("team2"@) is Some
                &&& items[i].text_member("score1"@) is Some
                &&& items[i].text_member("score2"@) is Some
                &&& is_bare(items[i])
            },
    ensures
        decoded_feed(document) matches Some(segments) && {
            let items = envelope_segments(document)->0;
            &&& segments.len() == items.len()
            &&& forall|i: int|
                0 <= i < segments.len() ==> #[trigger] segments[i] == bare_segment(
                    items[i].text_member("team1"@)->0,
                    items[i].text_member("team2"@)->0,
                    items[i].text_member("score1"@)->0,
                    items[i].text_member("score2"@)->0,
                )
        },
{
    let items = envelope_segments(document)->0;
    assert forall|i: int| 0 <= i < items.len() implies is_segment(#[trigger] items[i]) by {
        lemma_bare_segment_decodes(items[i]);
    }
    let segments = decoded_segments(items);
    assert forall|i: int| 0 <= i < segments.len() implies #[trigger] segments[i] == bare_segment(
        items[i].text_member("team1"@)->0,
        items[i].text_member("team2"@)->0,
        items[i].text_member("score1"@)->0,
        items[i].text_member("score2"@)->0,
    ) by {
        lemma_bare_segment_decodes(items[i]);
    }
}

} // verus!
