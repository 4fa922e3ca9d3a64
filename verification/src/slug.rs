//! Canonical, URL-safe short identifiers for team names.

use crate::text::{alphanumeric, chars_of, lowercased, same_text, to_lowercase};
use vstd::prelude::*;

verus! {

/// The short code of a lower-cased team name or abbreviation that the table
/// knows, and `None` for every other text.
pub open spec fn abbreviation(lower: Seq<char>) -> Option<Seq<char>> {
    if lower == "100 thieves"@ || lower == "100t"@ {
        Some("100t"@)
    } else if lower == "mibr"@ {
        Some("mibr"@)
    } else if lower == "nrg"@ {
        Some("nrg"@)
    } else if lower == "g2 esports"@ || lower == "g2"@ {
        Some("g2"@)
    } else if lower == "sentinels"@ {
        Some("sentinels"@)
    } else if lower == "fnatic"@ {
        Some("fnatic"@)
    } else if lower == "team liquid"@ {
        Some("tl"@)
    } else if lower == "paper rex"@ {
        Some("prx"@)
    } else if lower == "loud"@ {
        Some("loud"@)
    } else if lower == "kru esports"@ || lower == "kru"@ {
        Some("kru"@)
    } else if lower == "koi"@ {
        Some("koi"@)
    } else if lower == "drx"@ {
        Some("drx"@)
    } else {
        None
    }
}

/// A text with every character that is not alphanumeric removed.
pub open spec fn alphanumerics(s: Seq<char>) -> Seq<char> {
    s.filter(|c: char| alphanumeric(c))
}

/// The slug of a team name: the table's short code for the lower-cased name
/// where it has one, and otherwise the alphanumeric characters of the
/// lower-cased name.
pub open spec fn slug_of(team: Seq<char>) -> Seq<char> {
    let lower = lowercased(team);
    match abbreviation(lower) {
        Some(code) => code,
        None => alphanumerics(lower),
    }
}

/// Looks a lower-cased name up in the abbreviation table.
pub fn lookup_abbreviation(lower: &str) -> (r: Option<&'static str>)
    ensures
        match r {
            Some(code) => abbreviation(lower@) == Some(code@),
            None => abbreviation(lower@) is None,
        },
{
    if same_text(lower, "100 thieves") || same_text(lower, "100t") {
        Some("100t")
    } else if same_text(lower, "mibr") {
        Some("mibr")
    } else if same_text(lower, "nrg") {
        Some("nrg")
    } else if same_text(lower, "g2 esports") || same_text(lower, "g2") {
        Some("g2")
    } else if same_text(lower, "sentinels") {
        Some("sentinels")
    } else if same_text(lower, "fnatic") {
        Some("fnatic")
    } else if same_text(lower, "team liquid") {
        Some("tl")
    } else if same_text(lower, "paper rex") {
        Some("prx")
    } else if same_text(lower, "loud") {
        Some("loud")
    } else if same_text(lower, "kru esports") || same_text(lower, "kru") {
        Some("kru")
    } else if same_text(lower, "koi") {
        Some("koi")
    } else if same_text(lower, "drx") {
        Some("drx")
    } else {
        None
    }
}

/// Drops every character that is not alphanumeric.
pub fn keep_alphanumerics(s: &str) -> (r: String)
    ensures
        r@ == alphanumerics(s@),
{
    let chars = chars_of(s);
    let mut out = String::new();
    let mut i: usize = 0;
    proof {
        reveal(Seq::filter);
        assert(chars@.take(0) =~= Seq::<char>::empty());
    }
    while i < chars.len()
        invariant
            i <= chars.len(),
            chars@ == s@,
            out@ == alphanumerics(chars@.take(i as int)),
        decreases chars.len() - i,
    {
        let c = chars[i];
        proof {
            reveal(Seq::filter);
            assert(chars@.take(i + 1).drop_last() =~= chars@.take(i as int));
            assert(chars@.take(i + 1).last() == c);
        }
        if c.is_alphanumeric() {
            out.push(c);
        }
        i += 1;
    }
    assert(chars@.take(i as int) =~= chars@);
    out
}

/// Canonicalizes a team's display name into its slug. Total: every name has
/// a slug, possibly the empty one.
pub fn team_to_slug(team: &str) -> (r: String)
    ensures
        r@ == slug_of(team@),
{
    let lower = to_lowercase(team);
    match lookup_abbreviation(lower.as_str()) {
        Some(code) => code.to_owned(),
        None => keep_alphanumerics(lower.as_str()),
    }
}

} // verus!
