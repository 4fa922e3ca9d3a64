//! Correlating a pair of teams with a prediction-market search: the search
//! request, the choice among the returned candidates, the odds read from the
//! chosen one, and the link that is offered in every case.

use crate::json::Json;
use crate::slug::{slug_of, team_to_slug};
use crate::text::{chars_of, contains_chars, contains_text, lowercased, to_lowercase};
use vstd::prelude::*;
use vstd::string::StringExecFns;
use vstd::utf8::encode_utf8;

verus! {

/// Address of the market search, up to and including `q=`.
pub const SEARCH_ENDPOINT: &'static str = "https://gamma-api.polymarket.com/public-search?q=";

/// The tail of a search address: at most ten results are asked for.
pub const SEARCH_LIMIT_SUFFIX: &'static str = "&limit=10";

/// The `User-Agent` header that the search service requires.
pub const USER_AGENT: &'static str = "Valorant-Menubar-App";

/// Start of every market page address.
pub const MARKET_SITE: &'static str = "https://polymarket.com/";

/// Start of the address of a match's page when no market record is known.
pub const MATCH_PAGE_PREFIX: &'static str =
    "https://polymarket.com/sports/valorant/games/week/1/val-";

/// The outcome of one correlation attempt. Each side's odds are the price
/// text of the market record, exactly as the market wrote it; a caller turns
/// it into a probability. The link is always there.
#[derive(Debug, Clone, PartialEq, Eq)]
pub struct OddsResult {
    pub team1_odds: Option<String>,
    pub team2_odds: Option<String>,
    pub market_url: String,
}

/// The mathematical content of an [`OddsResult`].
pub struct OddsView {
    pub team1_odds: Option<Seq<char>>,
    pub team2_odds: Option<Seq<char>>,
    pub market_url: Seq<char>,
}

/// The characters of an optional string.
pub open spec fn text_of(s: Option<String>) -> Option<Seq<char>> {
    match s {
        Some(s) => Some(s@),
        None => None,
    }
}

impl View for OddsResult {
    type V = OddsView;

    open spec fn view(&self) -> OddsView {
        OddsView {
            team1_odds: text_of(self.team1_odds),
            team2_odds: text_of(self.team2_odds),
            market_url: self.market_url@,
        }
    }
}

impl OddsResult {
    /// The link is never empty.
    pub open spec fn well_formed(&self) -> bool {
        self.market_url@.len() > 0
    }
}

/// What the search service answered, as far as the correlation reads it.
#[derive(Debug, PartialEq, Eq)]
pub enum SearchReply {
    /// No response arrived: the connection failed or timed out.
    Unreachable,
    /// A response arrived. `body` is the decoded document, or `None` where
    /// the body was not JSON.
    Answered { status: u16, body: Option<Json> },
}

/// Bytes that a percent-encoding leaves as they are: ASCII letters and
/// digits, `-`, `.`, `_` and `~`.
pub open spec fn is_unreserved(b: u8) -> bool {
    ||| 0x30 <= b <= 0x39
    ||| 0x41 <= b <= 0x5a
    ||| 0x61 <= b <= 0x7a
    ||| b == 0x2d
    ||| b == 0x2e
    ||| b == 0x5f
    ||| b == 0x7e
}

/// The upper-case hexadecimal digit for a value below sixteen.
pub open spec fn hex_digit(d: int) -> char {
    seq!['0', '1', '2', '3', '4', '5', '6', '7', '8', '9', 'A', 'B', 'C', 'D', 'E', 'F'][d]
}

/// One byte, percent-encoded.
pub open spec fn escaped_byte(b: u8) -> Seq<char> {
    if is_unreserved(b) {
        seq![b as char]
    } else {
        seq!['%', hex_digit(b as int / 16), hex_digit(b as int % 16)]
    }
}

/// A byte string, percent-encoded byte by byte.
pub open spec fn percent_encoded(bytes: Seq<u8>) -> Seq<char>
    decreases bytes.len(),
{
    if bytes.len() == 0 {
        Seq::empty()
    } else {
        percent_encoded(bytes.drop_last()) + escaped_byte(bytes.last())
    }
}

/// Calls `urlencoding::encode`, which percent-encodes every byte of the
/// text's UTF-8 form except ASCII alphanumerics and `-`, `.`, `_`, `~`, with
/// upper-case hexadecimal digits.
#[verifier::external_body]
fn percent_encode(text: &str) -> (r: String)
    ensures
        r@ == percent_encoded(encode_utf8(text@)),
{
    urlencoding::encode(text).into_owned()
}

/// An ASCII decimal digit.
pub open spec fn is_digit(c: char) -> bool {
    '0' <= c && c <= '9'
}

/// The shape of a calendar date written as year, month and day: a year of
/// exactly four digits, or a sign and four or more digits for a year
/// outside 0..=9999, then `-`, two digits, `-`, two digits.
pub open spec fn is_date_text(s: Seq<char>) -> bool {
    let n = s.len() as int;
    &&& n >= 10
    &&& if is_digit(s[0]) {
        n == 10
    } else {
        (s[0] == '+' || s[0] == '-') && n >= 11
    }
    &&& forall|i: int| 1 <= i < n - 6 ==> is_digit(#[trigger] s[i])
    &&& s[n - 6] == '-'
    &&& is_digit(s[n - 5])
    &&& is_digit(s[n - 4])
    &&& s[n - 3] == '-'
    &&& is_digit(s[n - 2])
    &&& is_digit(s[n - 1])
}

/// Asks `chrono::Local::now` for the current moment in the machine's time
/// zone and formats its date with `%Y-%m-%d`. Which date comes back depends
/// on the clock and the time zone, so only the shape of the text is stated.
/// The call stops the program where the system clock reads a moment before
/// 1970 or the machine's time-zone data yields no local time.
#[verifier::external_body]
fn format_date_for_polymarket() -> (r: String)
    ensures
        is_date_text(r@),
{
    chrono::Local::now().format("%Y-%m-%d").to_string()
}

/// The free-text query for a pair of teams.
pub open spec fn search_query_text(team1: Seq<char>, team2: Seq<char>) -> Seq<char> {
    team1 + " vs "@ + team2
}

/// The address of the search request for a pair of teams.
pub open spec fn search_url_text(team1: Seq<char>, team2: Seq<char>) -> Seq<char> {
    SEARCH_ENDPOINT@ + percent_encoded(encode_utf8(search_query_text(team1, team2)))
        + SEARCH_LIMIT_SUFFIX@
}

/// The link offered when no market record is found.
pub open spec fn fallback_url_text(
    team1: Seq<char>,
    team2: Seq<char>,
    date: Seq<char>,
) -> Seq<char> {
    MATCH_PAGE_PREFIX@ + slug_of(team1) + "-"@ + slug_of(team2) + "-"@ + date
}

/// The link to a market record with the given slug.
pub open spec fn market_url_text(slug: Seq<char>) -> Seq<char> {
    MARKET_SITE@ + slug
}

/// A text names a team when, both lower-cased, the team's name is a part of
/// the text.
pub open spec fn mentions(text: Seq<char>, team: Seq<char>) -> bool {
    contains_text(lowercased(text), lowercased(team))
}

/// A candidate qualifies when its question is a string that names both teams.
pub open spec fn qualifies(candidate: Json, team1: Seq<char>, team2: Seq<char>) -> bool {
    match candidate.text_member("question"@) {
        Some(question) => mentions(question, team1) && mentions(question, team2),
        None => false,
    }
}

/// Candidate `i` qualifies and none before it does.
pub open spec fn is_first_qualifying(
    results: Seq<Json>,
    team1: Seq<char>,
    team2: Seq<char>,
    i: int,
) -> bool {
    &&& 0 <= i < results.len()
    &&& qualifies(results[i], team1, team2)
    &&& forall|j: int| 0 <= j < i ==> !qualifies(#[trigger] results[j], team1, team2)
}

/// The position of the candidate that is chosen: the first that qualifies.
pub open spec fn selected(results: Seq<Json>, team1: Seq<char>, team2: Seq<char>) -> Option<int> {
    if exists|i: int| is_first_qualifying(results, team1, team2, i) {
        Some(choose|i: int| is_first_qualifying(results, team1, team2, i))
    } else {
        None
    }
}

/// An outcome counts for the first team when its title and its price are
/// strings and the title names the first team.
pub open spec fn counts_for_first(outcome: Json, team1: Seq<char>) -> bool {
    &&& outcome.text_member("price"@) is Some
    &&& outcome.text_member("title"@) matches Some(title) && mentions(title, team1)
}

/// An outcome counts for the second team when its title and its price are
/// strings and the title names the second team but not the first.
pub open spec fn counts_for_second(outcome: Json, team1: Seq<char>, team2: Seq<char>) -> bool {
    &&& outcome.text_member("price"@) is Some
    &&& outcome.text_member("title"@) matches Some(title) && !mentions(title, team1)
        && mentions(title, team2)
}

/// The first team's odds: the price of the last outcome that counts for it.
pub open spec fn first_team_price(outcomes: Seq<Json>, team1: Seq<char>) -> Option<Seq<char>>
    decreases outcomes.len(),
{
    if outcomes.len() == 0 {
        None
    } else if counts_for_first(outcomes.last(), team1) {
        outcomes.last().text_member("price"@)
    } else {
        first_team_price(outcomes.drop_last(), team1)
    }
}

/// The second team's odds: the price of the last outcome that counts for it.
pub open spec fn second_team_price(
    outcomes: Seq<Json>,
    team1: Seq<char>,
    team2: Seq<char>,
) -> Option<Seq<char>>
    decreases outcomes.len(),
{
    if outcomes.len() == 0 {
        None
    } else if counts_for_second(outcomes.last(), team1, team2) {
        outcomes.last().text_member("price"@)
    } else {
        second_team_price(outcomes.drop_last(), team1, team2)
    }
}

/// No odds, and the fallback link.
pub open spec fn fallback_only(fallback: Seq<char>) -> OddsView {
    OddsView { team1_odds: None, team2_odds: None, market_url: fallback }
}

/// What the chosen candidate yields: its odds and its own link where it has
/// a slug; the fallback alone where it has no list of outcomes.
pub open spec fn candidate_odds(
    candidate: Json,
    team1: Seq<char>,
    team2: Seq<char>,
    fallback: Seq<char>,
) -> OddsView {
    match candidate.array_member("outcomes"@) {
        Some(outcomes) => OddsView {
            team1_odds: first_team_price(outcomes, team1),
            team2_odds: second_team_price(outcomes, team1, team2),
            market_url: match candidate.text_member("slug"@) {
                Some(slug) => market_url_text(slug),
                None => fallback,
            },
        },
        None => fallback_only(fallback),
    }
}

/// What a decoded search document yields.
pub open spec fn document_odds(
    document: Json,
    team1: Seq<char>,
    team2: Seq<char>,
    fallback: Seq<char>,
) -> OddsView {
    match document.array_member("results"@) {
        Some(results) => match selected(results, team1, team2) {
            Some(i) => candidate_odds(results[i], team1, team2, fallback),
            None => fallback_only(fallback),
        },
        None => fallback_only(fallback),
    }
}

/// A status in the success class, 200 to 299.
pub open spec fn is_success(status: u16) -> bool {
    200 <= status < 300
}

/// The result of a correlation: the document's odds when the search answered
/// with a success status and a JSON body, the fallback alone otherwise.
pub open spec fn correlated(
    team1: Seq<char>,
    team2: Seq<char>,
    date: Seq<char>,
    reply: SearchReply,
) -> OddsView {
    let fallback = fallback_url_text(team1, team2, date);
    match reply {
        SearchReply::Answered { status, body: Some(document) } if is_success(status) => {
            document_odds(document, team1, team2, fallback)
        },
        _ => fallback_only(fallback),
    }
}

/// Whether a status lies in the success class.
pub fn status_is_success(status: u16) -> (r: bool)
    ensures
        r == is_success(status),
{
    200 <= status && status < 300
}

/// Builds the address of the search request: the query `"{team1} vs {team2}"`,
/// percent-encoded, with the fixed result limit.
pub fn search_url(team1: &str, team2: &str) -> (r: String)
    ensures
        r@ == search_url_text(team1@, team2@),
{
    let mut query = team1.to_owned();
    query.append(" vs ");
    query.append(team2);
    let encoded = percent_encode(query.as_str());
    let mut url = SEARCH_ENDPOINT.to_owned();
    url.append(encoded.as_str());
    url.append(SEARCH_LIMIT_SUFFIX);
    url
}

/// Builds the link that is offered when no market record is found, from the
/// two slugs and a date.
pub fn fallback_market_url(team1: &str, team2: &str, date: &str) -> (r: String)
    ensures
        r@ == fallback_url_text(team1@, team2@, date@),
        r@.len() > 0,
{
    let slug1 = team_to_slug(team1);
    let slug2 = team_to_slug(team2);
    let mut url = MATCH_PAGE_PREFIX.to_owned();
    url.append(slug1.as_str());
    url.append("-");
    url.append(slug2.as_str());
    url.append("-");
    url.append(date);
    proof {
        reveal_strlit("https://polymarket.com/sports/valorant/games/week/1/val-");
    }
    url
}

/// Builds the link to a market record from its slug.
pub fn market_url(slug: &str) -> (r: String)
    ensures
        r@ == market_url_text(slug@),
        r@.len() > 0,
{
    let mut url = MARKET_SITE.to_owned();
    url.append(slug);
    proof {
        reveal_strlit("https://polymarket.com/");
    }
    url
}

/// The characters of a team name, lower-cased.
fn lowered(team: &str) -> (r: Vec<char>)
    ensures
        r@ == lowercased(team@),
{
    let lower = to_lowercase(team);
    chars_of(lower.as_str())
}

/// Whether a text, lower-cased, contains an already lower-cased name.
fn names(text: &str, lower_team: &Vec<char>) -> (r: bool)
    ensures
        r == contains_text(lowercased(text@), lower_team@),
{
    let lower = lowered(text);
    contains_chars(&lower, lower_team)
}

/// Whether a candidate's question names both teams.
fn candidate_qualifies(
    candidate: &Json,
    lower1: &Vec<char>,
    lower2: &Vec<char>,
    Ghost(team1): Ghost<Seq<char>>,
    Ghost(team2): Ghost<Seq<char>>,
) -> (r: bool)
    requires
        lower1@ == lowercased(team1),
        lower2@ == lowercased(team2),
    ensures
        r == qualifies(*candidate, team1, team2),
{
    match candidate.get_str("question") {
        Some(question) => {
            let lower = lowered(question);
            contains_chars(&lower, lower1) && contains_chars(&lower, lower2)
        },
        None => false,
    }
}

/// Chooses among the candidates in the order the service returned them: the
/// first whose question names both teams, and `None` when there is none.
pub fn select_candidate(results: &Vec<Json>, team1: &str, team2: &str) -> (r: Option<usize>)
    ensures
        match r {
            Some(i) => selected(results@, team1@, team2@) == Some(i as int),
            None => selected(results@, team1@, team2@) is None,
        },
{
    let lower1 = lowered(team1);
    let lower2 = lowered(team2);
    let mut i: usize = 0;
    while i < results.len()
        invariant
            i <= results.len(),
            lower1@ == lowercased(team1@),
            lower2@ == lowercased(team2@),
            forall|j: int| 0 <= j < i ==> !qualifies(#[trigger] results@[j], team1@, team2@),
        decreases results.len() - i,
    {
        if candidate_qualifies(&results[i], &lower1, &lower2, Ghost(team1@), Ghost(team2@)) {
            proof {
                lemma_first_match_wins(results@, team1@, team2@, i as int);
            }
            return Some(i);
        }
        i += 1;
    }
    None
}

/// Reads the two teams' odds from a candidate's outcomes. An outcome whose
/// title or price is not a string, or whose title names neither team, is
/// passed over; of several outcomes for one team the last one stands.
pub fn read_odds(outcomes: &Vec<Json>, team1: &str, team2: &str) -> (r: (
    Option<String>,
    Option<String>,
))
    ensures
        text_of(r.0) == first_team_price(outcomes@, team1@),
        text_of(r.1) == second_team_price(outcomes@, team1@, team2@),
{
    let lower1 = lowered(team1);
    let lower2 = lowered(team2);
    let mut first: Option<String> = None;
    let mut second: Option<String> = None;
    let mut i: usize = 0;
    while i < outcomes.len()
        invariant
            i <= outcomes.len(),
            lower1@ == lowercased(team1@),
            lower2@ == lowercased(team2@),
            text_of(first) == first_team_price(outcomes@.take(i as int), team1@),
            text_of(second) == second_team_price(outcomes@.take(i as int), team1@, team2@),
        decreases outcomes.len() - i,
    {
        let outcome = &outcomes[i];
        proof {
            assert(outcomes@.take(i + 1).last() == outcomes@[i as int]);
            assert(outcomes@.take(i + 1).drop_last() =~= outcomes@.take(i as int));
        }
        let title = outcome.get_str("title");
        let price = outcome.get_str("price");
        match (title, price) {
            (Some(title), Some(price)) => {
                if names(title, &lower1) {
                    first = Some(price.to_owned());
                } else if names(title, &lower2) {
                    second = Some(price.to_owned());
                }
            },
            _ => {},
        }
        i += 1;
    }
    assert(outcomes@.take(i as int) =~= outcomes@);
    (first, second)
}

/// The result that carries the fallback link and no odds.
fn without_odds(fallback: String) -> (r: OddsResult)
    ensures
        r@ == fallback_only(fallback@),
{
    OddsResult { team1_odds: None, team2_odds: None, market_url: fallback }
}

/// Reads the chosen candidate: its odds, and its own link where it has a slug.
fn read_candidate(candidate: &Json, team1: &str, team2: &str, fallback: String) -> (r: OddsResult)
    requires
        fallback@.len() > 0,
    ensures
        r@ == candidate_odds(*candidate, team1@, team2@, fallback@),
        r.well_formed(),
{
    match candidate.get_array("outcomes") {
        Some(outcomes) => {
            let (first, second) = read_odds(outcomes, team1, team2);
            let url = match candidate.get_str("slug") {
                Some(slug) => market_url(slug),
                None => fallback,
            };
            OddsResult { team1_odds: first, team2_odds: second, market_url: url }
        },
        None => without_odds(fallback),
    }
}

/// Reads a decoded search document.
fn read_document(document: &Json, team1: &str, team2: &str, fallback: String) -> (r: OddsResult)
    requires
        fallback@.len() > 0,
    ensures
        r@ == document_odds(*document, team1@, team2@, fallback@),
        r.well_formed(),
{
    match document.get_array("results") {
        Some(results) => match select_candidate(results, team1, team2) {
            Some(i) => read_candidate(&results[i], team1, team2, fallback),
            None => without_odds(fallback),
        },
        None => without_odds(fallback),
    }
}

/// Correlates two teams with what the market search answered, on a given
/// date. Never fails: a search that did not answer, answered with another
/// status than success, or answered with something that is not the expected
/// document, yields the fallback link and no odds.
pub fn correlate(team1: &str, team2: &str, date: &str, reply: &SearchReply) -> (r: OddsResult)
    ensures
        r@ == correlated(team1@, team2@, date@, *reply),
        r.well_formed(),
{
    let fallback = fallback_market_url(team1, team2, date);
    match reply {
        SearchReply::Answered { status, body: Some(document) } => {
            if status_is_success(*status) {
                read_document(document, team1, team2, fallback)
            } else {
                without_odds(fallback)
            }
        },
        _ => without_odds(fallback),
    }
}

/// Correlates two teams with what the market search answered, with today's
/// date in the fallback link.
pub fn correlate_today(team1: &str, team2: &str, reply: &SearchReply) -> (r: OddsResult)
    ensures
        r.well_formed(),
        exists|date: Seq<char>|
            is_date_text(date) && r@ == #[trigger] correlated(team1@, team2@, date, *reply),
{
    let date = format_date_for_polymarket();
    correlate(team1, team2, date.as_str(), reply)
}

/// Two positions that are both the first qualifying one are the same.
pub proof fn lemma_first_qualifying_unique(
    results: Seq<Json>,
    team1: Seq<char>,
    team2: Seq<char>,
    i: int,
    j: int,
)
    requires
        is_first_qualifying(results, team1, team2, i),
        is_first_qualifying(results, team1, team2, j),
    ensures
        i == j,
{
    if i < j {
        assert(!qualifies(results[i], team1, team2));
    } else if j < i {
        assert(!qualifies(results[j], team1, team2));
    }
}

/// First match wins: a candidate that qualifies, with none before it that
/// does, is the one selected, whatever follows it in the list.
pub proof fn lemma_first_match_wins(
    results: Seq<Json>,
    team1: Seq<char>,
    team2: Seq<char>,
    i: int,
)
    requires
        is_first_qualifying(results, team1, team2, i),
    ensures
        selected(results, team1, team2) == Some(i),
        forall|later: Seq<Json>| #[trigger]
            selected(results.take(i + 1) + later, team1, team2) == Some(i),
{
    let k = choose|k: int| is_first_qualifying(results, team1, team2, k);
    lemma_first_qualifying_unique(results, team1, team2, i, k);
    assert forall|later: Seq<Json>| #[trigger]
        selected(results.take(i + 1) + later, team1, team2) == Some(i) by {
        let all = results.take(i + 1) + later;
        assert(all[i] == results[i]);
        assert forall|j: int| 0 <= j < i implies !qualifies(#[trigger] all[j], team1, team2) by {
            assert(all[j] == results[j]);
        }
        assert(is_first_qualifying(all, team1, team2, i));
        let k2 = choose|k: int| is_first_qualifying(all, team1, team2, k);
        lemma_first_qualifying_unique(all, team1, team2, i, k2);
    }
}

/// A search that did not answer, or answered with another status than
/// success, yields the fallback link and no odds, whatever its body holds.
pub proof fn lemma_failed_search_gives_fallback(
    team1: Seq<char>,
    team2: Seq<char>,
    date: Seq<char>,
    reply: SearchReply,
)
    requires
        reply matches SearchReply::Answered { status, .. } ==> !is_success(status),
    ensures
        correlated(team1, team2, date, reply) == fallback_only(
            fallback_url_text(team1, team2, date),
        ),
{
}

/// The link of a correlation is the fallback link or a market record's
/// link, and neither is empty.
pub proof fn lemma_market_url_never_empty(
    team1: Seq<char>,
    team2: Seq<char>,
    date: Seq<char>,
    reply: SearchReply,
)
    ensures
        correlated(team1, team2, date, reply).market_url.len() > 0,
{
    reveal_strlit("https://polymarket.com/sports/valorant/games/week/1/val-");
    reveal_strlit("https://polymarket.com/");
}

/// A list with a qualifying candidate always has a selection, at or before
/// that candidate; a list without one has none.
pub proof fn lemma_selected_exists(results: Seq<Json>, team1: Seq<char>, team2: Seq<char>)
    ensures
        selected(results, team1, team2) is Some <==> exists|i: int|
            0 <= i < results.len() && qualifies(#[trigger] results[i], team1, team2),
        selected(results, team1, team2) matches Some(k) ==> is_first_qualifying(
            results,
            team1,
            team2,
            k,
        ),
{
    if exists|i: int| 0 <= i < results.len() && qualifies(#[trigger] results[i], team1, team2) {
        let i = choose|i: int|
            0 <= i < results.len() && qualifies(#[trigger] results[i], team1, team2);
        lemma_least_qualifying(results, team1, team2, i);
    }
}

/// Below any qualifying candidate there is a first one.
proof fn lemma_least_qualifying(results: Seq<Json>, team1: Seq<char>, team2: Seq<char>, i: int)
    requires
        0 <= i < results.len(),
        qualifies(results[i], team1, team2),
    ensures
        exists|k: int| 0 <= k <= i && is_first_qualifying(results, team1, team2, k),
    decreases i,
{
    if exists|j: int| 0 <= j < i && qualifies(#[trigger] results[j], team1, team2) {
        let j = choose|j: int| 0 <= j < i && qualifies(#[trigger] results[j], team1, team2);
        lemma_least_qualifying(results, team1, team2, j);
    } else {
        assert(is_first_qualifying(results, team1, team2, i));
    }
}

} // verus!
