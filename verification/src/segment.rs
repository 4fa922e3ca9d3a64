//! One reported match state from the score feed, and the fixed set of
//! segments that stands in for the feed in offline mode.

use vstd::prelude::*;

verus! {

/// One live or upcoming match as the score feed reports it. Only the two team
/// names and the two scores are always supplied by the feed; every other field
/// is the empty string when the feed leaves it out.
#[derive(Debug, Clone, PartialEq, Eq)]
pub struct MatchSegment {
    pub team1: String,
    pub team2: String,
    pub score1: String,
    pub score2: String,
    pub current_map: String,
    pub match_event: String,
    pub match_series: String,
    pub time_until_match: String,
    pub flag1: String,
    pub flag2: String,
    pub team1_logo: String,
    pub team2_logo: String,
    pub team1_round_ct: String,
    pub team1_round_t: String,
    pub team2_round_ct: String,
    pub team2_round_t: String,
    pub map_number: String,
    pub unix_timestamp: String,
    pub match_page: String,
}

/// The mathematical content of a [`MatchSegment`]: each field as its characters.
pub struct SegmentView {
    pub team1: Seq<char>,
    pub team2: Seq<char>,
    pub score1: Seq<char>,
    pub score2: Seq<char>,
    pub current_map: Seq<char>,
    pub match_event: Seq<char>,
    pub match_series: Seq<char>,
    pub time_until_match: Seq<char>,
    pub flag1: Seq<char>,
    pub flag2: Seq<char>,
    pub team1_logo: Seq<char>,
    pub team2_logo: Seq<char>,
    pub team1_round_ct: Seq<char>,
    pub team1_round_t: Seq<char>,
    pub team2_round_ct: Seq<char>,
    pub team2_round_t: Seq<char>,
    pub map_number: Seq<char>,
    pub unix_timestamp: Seq<char>,
    pub match_page: Seq<char>,
}

impl View for MatchSegment {
    type V = SegmentView;

    open spec fn view(&self) -> SegmentView {
        SegmentView {
            team1: self.team1@,
            team2: self.team2@,
            score1: self.score1@,
            score2: self.score2@,
            current_map: self.current_map@,
            match_event: self.match_event@,
            match_series: self.match_series@,
            time_until_match: self.time_until_match@,
            flag1: self.flag1@,
            flag2: self.flag2@,
            team1_logo: self.team1_logo@,
            team2_logo: self.team2_logo@,
            team1_round_ct: self.team1_round_ct@,
            team1_round_t: self.team1_round_t@,
            team2_round_ct: self.team2_round_ct@,
            team2_round_t: self.team2_round_t@,
            map_number: self.map_number@,
            unix_timestamp: self.unix_timestamp@,
            match_page: self.match_page@,
        }
    }
}

/// The contents of a sequence of segments.
pub open spec fn segment_views(segments: Seq<MatchSegment>) -> Seq<SegmentView> {
    Seq::new(segments.len(), |i: int| segments[i]@)
}

/// A segment that carries only the four fields the feed always supplies.
pub open spec fn bare_segment(
    team1: Seq<char>,
    team2: Seq<char>,
    score1: Seq<char>,
    score2: Seq<char>,
) -> SegmentView {
    SegmentView {
        team1,
        team2,
        score1,
        score2,
        current_map: Seq::empty(),
        match_event: Seq::empty(),
        match_series: Seq::empty(),
        time_until_match: Seq::empty(),
        flag1: Seq::empty(),
        flag2: Seq::empty(),
        team1_logo: Seq::empty(),
        team2_logo: Seq::empty(),
        team1_round_ct: Seq::empty(),
        team1_round_t: Seq::empty(),
        team2_round_ct: Seq::empty(),
        team2_round_t: Seq::empty(),
        map_number: Seq::empty(),
        unix_timestamp: Seq::empty(),
        match_page: Seq::empty(),
    }
}

/// A regular-season match that is being played right now, with the fields
/// the offline fixtures fill in.
pub open spec fn live_fixture(
    team1: Seq<char>,
    team2: Seq<char>,
    score1: Seq<char>,
    score2: Seq<char>,
    current_map: Seq<char>,
    match_event: Seq<char>,
    map_number: Seq<char>,
) -> SegmentView {
    SegmentView {
        current_map,
        match_event,
        match_series: "Regular Season"@,
        time_until_match: "LIVE"@,
        map_number,
        ..bare_segment(team1, team2, score1, score2)
    }
}

/// The five offline fixtures.
pub open spec fn test_matches() -> Seq<SegmentView> {
    seq![
        SegmentView {
            flag1: "flag_us"@,
            flag2: "flag_us"@,
            team1_logo: "https://owcdn.net/img/62e7a0e8f1c0b.png"@,
            team2_logo: "https://owcdn.net/img/62e7a0e8f1c0b.png"@,
            team1_round_ct: "7"@,
            team1_round_t: "6"@,
            team2_round_ct: "5"@,
            team2_round_t: "4"@,
            unix_timestamp: "1713996000"@,
            match_page: "https://www.vlr.gg/12345"@,
            ..live_fixture(
                "Sentinels"@,
                "100 Thieves"@,
                "13"@,
                "9"@,
                "Ascent"@,
                "VCT 2025: Americas Stage 1"@,
                "1"@,
            )
        },
        live_fixture(
            "Fnatic"@,
            "Team Liquid"@,
            "7"@,
            "5"@,
            "Bind"@,
            "VCT 2025: EMEA Stage 1"@,
            "2"@,
        ),
        live_fixture(
            "Paper Rex"@,
            "DRX"@,
            "10"@,
            "8"@,
            "Icebox"@,
            "VCT 2025: Pacific Stage 1"@,
            "1"@,
        ),
        live_fixture(
            "LOUD"@,
            "KRÜ Esports"@,
            "6"@,
            "6"@,
            "Lotus"@,
            "VCT 2025: Americas Stage 1"@,
            "3"@,
        ),
        live_fixture(
            "G2 Esports"@,
            "KOI"@,
            "12"@,
            "11"@,
            "Split"@,
            "VCT 2025: EMEA Stage 1"@,
            "2"@,
        ),
    ]
}

/// Builds a live regular-season fixture from its distinguishing fields.
fn live_match(
    team1: &str,
    team2: &str,
    score1: &str,
    score2: &str,
    current_map: &str,
    match_event: &str,
    map_number: &str,
) -> (r: MatchSegment)
    ensures
        r@ == live_fixture(
            team1@,
            team2@,
            score1@,
            score2@,
            current_map@,
            match_event@,
            map_number@,
        ),
{
    MatchSegment {
        team1: team1.to_owned(),
        team2: team2.to_owned(),
        score1: score1.to_owned(),
        score2: score2.to_owned(),
        current_map: current_map.to_owned(),
        match_event: match_event.to_owned(),
        match_series: "Regular Season".to_owned(),
        time_until_match: "LIVE".to_owned(),
        flag1: String::new(),
        flag2: String::new(),
        team1_logo: String::new(),
        team2_logo: String::new(),
        team1_round_ct: String::new(),
        team1_round_t: String::new(),
        team2_round_ct: String::new(),
        team2_round_t: String::new(),
        map_number: map_number.to_owned(),
        unix_timestamp: String::new(),
        match_page: String::new(),
    }
}

/// The hand-authored segments that replace the feed in offline mode: five
/// live matches, the first with every field filled in.
pub fn get_test_matches() -> (r: Vec<MatchSegment>)
    ensures
        segment_views(r@) == test_matches(),
{
    let mut first = live_match(
        "Sentinels",
        "100 Thieves",
        "13",
        "9",
        "Ascent",
        "VCT 2025: Americas Stage 1",
        "1",
    );
    first.flag1 = "flag_us".to_owned();
    first.flag2 = "flag_us".to_owned();
    first.team1_logo = "https://owcdn.net/img/62e7a0e8f1c0b.png".to_owned();
    first.team2_logo = "https://owcdn.net/img/62e7a0e8f1c0b.png".to_owned();
    first.team1_round_ct = "7".to_owned();
    first.team1_round_t = "6".to_owned();
    first.team2_round_ct = "5".to_owned();
    first.team2_round_t = "4".to_owned();
    first.unix_timestamp = "1713996000".to_owned();
    first.match_page = "https://www.vlr.gg/12345".to_owned();
    let mut out: Vec<MatchSegment> = Vec::new();
    out.push(first);
    out.push(live_match("Fnatic", "Team Liquid", "7", "5", "Bind", "VCT 2025: EMEA Stage 1", "2"));
    out.push(live_match("Paper Rex", "DRX", "10", "8", "Icebox", "VCT 2025: Pacific Stage 1", "1"));
    out.push(
        live_match("LOUD", "KRÜ Esports", "6", "6", "Lotus", "VCT 2025: Americas Stage 1", "3"),
    );
    out.push(live_match("G2 Esports", "KOI", "12", "11", "Split", "VCT 2025: EMEA Stage 1", "2"));
    assert(segment_views(out@) =~= test_matches());
    out
}

} // verus!
