//! The one-line status text of a match.

use crate::segment::{MatchSegment, SegmentView};
use crate::text::same_text;
use vstd::prelude::*;
use vstd::string::StringExecFns;

verus! {

/// The status text that marks a match as being played right now.
pub const LIVE: &'static str = "LIVE";

/// The map label of a live match whose map the feed left out.
pub const UNKNOWN_MAP: &'static str = "Unknown Map";

/// `"{team1} vs {team2}"`.
pub open spec fn teams_text(segment: SegmentView) -> Seq<char> {
    segment.team1 + " vs "@ + segment.team2
}

/// `"{score1} - {score2}"`.
pub open spec fn score_text(segment: SegmentView) -> Seq<char> {
    segment.score1 + " - "@ + segment.score2
}

/// The map's name, or the placeholder where the segment has none.
pub open spec fn map_label(segment: SegmentView) -> Seq<char> {
    if segment.current_map.len() == 0 {
        UNKNOWN_MAP@
    } else {
        segment.current_map
    }
}

/// Teams, then score: the part every summary starts with.
pub open spec fn summary_head(segment: SegmentView) -> Seq<char> {
    teams_text(segment) + " | "@ + score_text(segment)
}

/// The summary of a segment. A live match shows its map in the third place;
/// any other status is shown itself in that place; without a status there is
/// no third place.
pub open spec fn summary_text(segment: SegmentView) -> Seq<char> {
    if segment.time_until_match == LIVE@ {
        summary_head(segment) + " | "@ + map_label(segment)
    } else if segment.time_until_match.len() > 0 {
        summary_head(segment) + " | "@ + segment.time_until_match
    } else {
        summary_head(segment)
    }
}

/// Renders a segment into its short status line.
pub fn format_match_text(segment: &MatchSegment) -> (r: String)
    ensures
        r@ == summary_text(segment@),
{
    let mut line = segment.team1.clone();
    line.append(" vs ");
    line.append(segment.team2.as_str());
    line.append(" | ");
    line.append(segment.score1.as_str());
    line.append(" - ");
    line.append(segment.score2.as_str());
    let status = segment.time_until_match.as_str();
    if same_text(status, LIVE) {
        line.append(" | ");
        if segment.current_map.as_str().is_empty() {
            line.append(UNKNOWN_MAP);
        } else {
            line.append(segment.current_map.as_str());
        }
    } else if !status.is_empty() {
        line.append(" | ");
        line.append(status);
    }
    assert(line@ =~= summary_text(segment@));
    line
}

/// With no map in the segment, the placeholder stands in the third place of
/// a live match's summary.
pub proof fn lemma_placeholder_when_live(segment: SegmentView)
    requires
        segment.current_map.len() == 0,
        segment.time_until_match == LIVE@,
    ensures
        summary_text(segment) == summary_head(segment) + " | "@ + UNKNOWN_MAP@,
{
}

/// A summary of a match that is not live does not depend on the map at all:
/// neither a map's name nor the placeholder for a missing one is shown.
pub proof fn lemma_map_hidden_unless_live(segment: SegmentView, other_map: Seq<char>)
    requires
        segment.time_until_match != LIVE@,
    ensures
        summary_text(segment) == summary_text(SegmentView { current_map: other_map, ..segment }),
        summary_text(segment) == if segment.time_until_match.len() > 0 {
            summary_head(segment) + " | "@ + segment.time_until_match
        } else {
            summary_head(segment)
        },
{
}

} // verus!
