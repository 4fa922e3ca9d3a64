//! The two operations the foreground asks for on demand. Each begins with a
//! step that either has the answer already or names the request to make, and
//! ends with the reading of what the request brought back.

use crate::feed::{decoded_feed, read_feed_reply, FeedReply, FEED_URL, SHAPE_MISMATCH};
use crate::market::{search_url, search_url_text, OddsResult, OddsView};
use crate::segment::{get_test_matches, segment_views, test_matches, MatchSegment};
use vstd::prelude::*;

verus! {

/// Offline mode: with `true`, fixed data stands in for both remote services.
pub const USE_TEST_DATA: bool = false;

/// The link of the fixed odds.
pub const DUMMY_MARKET_URL: &'static str =
    "https://polymarket.com/event/will-jesus-christ-return-before-2027";

/// How an operation begins.
#[derive(Debug, Clone, PartialEq, Eq)]
pub enum Step<T> {
    /// The answer is known without any request.
    Ready(T),
    /// The address to send a GET request to.
    Request(String),
}

/// The fixed odds of offline mode: four in a hundred against ninety-six.
pub open spec fn dummy_odds() -> OddsView {
    OddsView {
        team1_odds: Some("0.04"@),
        team2_odds: Some("0.96"@),
        market_url: DUMMY_MARKET_URL@,
    }
}

/// The fixed odds of offline mode.
pub fn get_dummy_polymarket_odds() -> (r: OddsResult)
    ensures
        r@ == dummy_odds(),
        r.well_formed(),
{
    proof {
        reveal_strlit("https://polymarket.com/event/will-jesus-christ-return-before-2027");
    }
    OddsResult {
        team1_odds: Some("0.04".to_owned()),
        team2_odds: Some("0.96".to_owned()),
        market_url: DUMMY_MARKET_URL.to_owned(),
    }
}

/// Begins a fetch of the live matches: the fixtures in offline mode, a
/// request to the score feed otherwise.
pub fn begin_live_matches(use_test_data: bool) -> (r: Step<Vec<MatchSegment>>)
    ensures
        match r {
            Step::Ready(segments) => use_test_data && segment_views(segments@) == test_matches(),
            Step::Request(url) => !use_test_data && url@ == FEED_URL@,
        },
{
    if use_test_data {
        Step::Ready(get_test_matches())
    } else {
        Step::Request(FEED_URL.to_owned())
    }
}

/// Ends a fetch of the live matches for the foreground: the segments of the
/// feed's reply, or the message of the error for the user.
pub fn get_live_matches(reply: &FeedReply) -> (r: Result<Vec<MatchSegment>, String>)
    ensures
        match (*reply, r) {
            (FeedReply::Unreachable(detail), Err(message)) => message@ == detail@,
            (FeedReply::Undecodable(detail), Err(message)) => message@ == detail@,
            (FeedReply::Document(document), Ok(segments)) => decoded_feed(document) == Some(
                segment_views(segments@),
            ),
            (FeedReply::Document(document), Err(message)) => {
                &&& decoded_feed(document) is None
                &&& message@ == SHAPE_MISMATCH@
            },
            _ => false,
        },
{
    match read_feed_reply(reply) {
        Ok(segments) => Ok(segments),
        Err(error) => Err(error.message()),
    }
}

/// Begins a lookup of the odds for two teams: the fixed odds in offline
/// mode, a request to the market search otherwise.
pub fn begin_polymarket_odds(use_test_data: bool, team1: &str, team2: &str) -> (r: Step<OddsResult>)
    ensures
        match r {
            Step::Ready(odds) => use_test_data && odds@ == dummy_odds() && odds.well_formed(),
            Step::Request(url) => !use_test_data && url@ == search_url_text(team1@, team2@),
        },
{
    if use_test_data {
        Step::Ready(get_dummy_polymarket_odds())
    } else {
        Step::Request(search_url(team1, team2))
    }
}

} // verus!
