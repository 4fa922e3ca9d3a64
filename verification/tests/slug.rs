use valorant_menubar::slug::{keep_alphanumerics, lookup_abbreviation, team_to_slug};

#[test]
fn table_hit_for_full_name() {
    assert_eq!(team_to_slug("100 Thieves"), "100t");
}

#[test]
fn fallback_rule_for_unknown_name() {
    assert_eq!(team_to_slug("Cloud9"), "cloud9");
}

#[test]
fn every_table_entry_maps_to_its_code() {
    let table = [
        ("100 thieves", "100t"),
        ("100t", "100t"),
        ("mibr", "mibr"),
        ("nrg", "nrg"),
        ("g2 esports", "g2"),
        ("g2", "g2"),
        ("sentinels", "sentinels"),
        ("fnatic", "fnatic"),
        ("team liquid", "tl"),
        ("paper rex", "prx"),
        ("loud", "loud"),
        ("kru esports", "kru"),
        ("kru", "kru"),
        ("koi", "koi"),
        ("drx", "drx"),
    ];
    for (name, code) in table {
        assert_eq!(lookup_abbreviation(name), Some(code));
        assert_eq!(team_to_slug(name), code);
    }
}

#[test]
fn table_lookup_ignores_case() {
    assert_eq!(team_to_slug("TEAM LIQUID"), "tl");
    assert_eq!(team_to_slug("Paper Rex"), "prx");
    assert_eq!(team_to_slug("G2 Esports"), "g2");
    assert_eq!(team_to_slug("KOI"), "koi");
}

#[test]
fn table_lookup_is_exact() {
    assert_eq!(lookup_abbreviation("team liquid "), None);
    assert_eq!(lookup_abbreviation("Team Liquid"), None);
    assert_eq!(lookup_abbreviation(""), None);
    assert_eq!(team_to_slug(" Team Liquid"), "teamliquid");
}

#[test]
fn fallback_strips_spaces_and_punctuation() {
    assert_eq!(team_to_slug("Team Heretics"), "teamheretics");
    assert_eq!(team_to_slug("FUT Esports!"), "futesports");
    assert_eq!(team_to_slug("T1"), "t1");
    assert_eq!(team_to_slug("Gen.G"), "geng");
}

#[test]
fn fallback_keeps_letters_beyond_ascii() {
    assert_eq!(team_to_slug("KRÜ Esports"), "krüesports");
}

#[test]
fn slug_of_nothing_is_empty() {
    assert_eq!(team_to_slug(""), "");
    assert_eq!(team_to_slug(" - "), "");
}

#[test]
fn keep_alphanumerics_drops_the_rest() {
    assert_eq!(keep_alphanumerics("a-b c_1.2"), "abc12");
    assert_eq!(keep_alphanumerics("Ab"), "Ab");
    assert_eq!(keep_alphanumerics("--"), "");
}
