// Metrics on small fonts built here byte by byte.

use fontquant::casing::{font_chars, test_casing, CharClass};
use fontquant::features::{gather_features, FeatureError};
use fontquant::font::font_codepoints;
use fontquant::numerals::{
    default_numerals, get_numeral_styles, matrix_works, NumeralMeasurements, NumeralStylesError,
    NumeralSet,
};
use fontquant::shaping::{
    ratio_of_different_shapes, shaped_first_glyph, shapes_differently_between,
    shapes_differently_with_features, Ratio,
};
use fontquant::tag::{TAG_LNUM, TAG_ONUM, TAG_PNUM, TAG_TNUM};

fn push16(v: &mut Vec<u8>, x: u16) {
    v.extend_from_slice(&x.to_be_bytes());
}

fn push32(v: &mut Vec<u8>, x: u32) {
    v.extend_from_slice(&x.to_be_bytes());
}

/// An SFNT file holding the given tables.
fn sfnt(mut tables: Vec<([u8; 4], Vec<u8>)>) -> Vec<u8> {
    tables.sort_by(|a, b| a.0.cmp(&b.0));
    let n = tables.len() as u16;
    let mut out = Vec::new();
    push32(&mut out, 0x0001_0000);
    push16(&mut out, n);
    push16(&mut out, 16);
    push16(&mut out, 0);
    push16(&mut out, 0);
    let mut offset = 12 + 16 * tables.len();
    let mut data = Vec::new();
    for (tag, table) in &tables {
        out.extend_from_slice(tag);
        push32(&mut out, 0);
        push32(&mut out, offset as u32);
        push32(&mut out, table.len() as u32);
        let mut padded = table.clone();
        while padded.len() % 4 != 0 {
            padded.push(0);
        }
        offset += padded.len();
        data.extend_from_slice(&padded);
    }
    out.extend_from_slice(&data);
    out
}

const NUM_GLYPHS: u16 = 120;

fn head() -> Vec<u8> {
    let mut t = Vec::new();
    push32(&mut t, 0x0001_0000);
    push32(&mut t, 0x0001_0000);
    push32(&mut t, 0);
    push32(&mut t, 0x5F0F_3CF5);
    push16(&mut t, 0);
    push16(&mut t, 1000);
    t.extend_from_slice(&[0u8; 16]);
    for _ in 0..4 {
        push16(&mut t, 0);
    }
    push16(&mut t, 0);
    push16(&mut t, 8);
    push16(&mut t, 2);
    push16(&mut t, 0);
    push16(&mut t, 0);
    t
}

fn maxp() -> Vec<u8> {
    let mut t = Vec::new();
    push32(&mut t, 0x0000_5000);
    push16(&mut t, NUM_GLYPHS);
    t
}

fn hhea() -> Vec<u8> {
    let mut t = Vec::new();
    push32(&mut t, 0x0001_0000);
    push16(&mut t, 800);
    push16(&mut t, (-200i16) as u16);
    push16(&mut t, 0);
    push16(&mut t, 500);
    for _ in 0..3 {
        push16(&mut t, 0);
    }
    push16(&mut t, 1);
    push16(&mut t, 0);
    push16(&mut t, 0);
    for _ in 0..5 {
        push16(&mut t, 0);
    }
    push16(&mut t, 1);
    t
}

fn hmtx() -> Vec<u8> {
    let mut t = Vec::new();
    push16(&mut t, 500);
    push16(&mut t, 0);
    for _ in 1..NUM_GLYPHS {
        push16(&mut t, 0);
    }
    t
}

/// Maps U+0021..=U+007E to glyphs 1..=94.
fn cmap() -> Vec<u8> {
    let mut t = Vec::new();
    push16(&mut t, 0);
    push16(&mut t, 1);
    push16(&mut t, 3);
    push16(&mut t, 1);
    push32(&mut t, 12);
    push16(&mut t, 4);
    push16(&mut t, 32);
    push16(&mut t, 0);
    push16(&mut t, 4);
    push16(&mut t, 4);
    push16(&mut t, 1);
    push16(&mut t, 0);
    push16(&mut t, 0x7E);
    push16(&mut t, 0xFFFF);
    push16(&mut t, 0);
    push16(&mut t, 0x21);
    push16(&mut t, 0xFFFF);
    push16(&mut t, 1u16.wrapping_sub(0x21));
    push16(&mut t, 1);
    push16(&mut t, 0);
    push16(&mut t, 0);
    t
}

/// A `name` table with one Windows English string for each (id, text).
fn name(strings: &[(u16, &str)]) -> Vec<u8> {
    let mut t = Vec::new();
    push16(&mut t, 0);
    push16(&mut t, strings.len() as u16);
    push16(&mut t, 6 + 12 * strings.len() as u16);
    let mut storage = Vec::new();
    for (id, text) in strings {
        let encoded: Vec<u8> = text.encode_utf16().flat_map(|u| u.to_be_bytes()).collect();
        push16(&mut t, 3);
        push16(&mut t, 1);
        push16(&mut t, 0x0409);
        push16(&mut t, *id);
        push16(&mut t, encoded.len() as u16);
        push16(&mut t, storage.len() as u16);
        storage.extend_from_slice(&encoded);
    }
    t.extend_from_slice(&storage);
    t
}

/// A feature of a layout table: its tag, the name id of its stylistic-set
/// parameters, its lookups, and whether its record points past the table.
struct Feature {
    tag: [u8; 4],
    ui_name: Option<u16>,
    lookups: Vec<u16>,
    broken: bool,
}

/// A `GSUB`/`GPOS` table with a `DFLT` script using every feature, and
/// single-substitution lookups (first glyph, last glyph, delta).
fn layout(features: &[Feature], lookups: &[(u16, u16, i16)]) -> Vec<u8> {
    let n = features.len();
    let script_list_len = 8 + 4 + 6 + 2 * n;
    let mut feature_list = Vec::new();
    push16(&mut feature_list, n as u16);
    let mut tables = Vec::new();
    let mut feature_offset = 2 + 6 * n;
    for f in features {
        feature_list.extend_from_slice(&f.tag);
        push16(&mut feature_list, if f.broken { 0xFFF0 } else { feature_offset as u16 });
        let mut table = Vec::new();
        let params_offset = 4 + 2 * f.lookups.len();
        push16(&mut table, if f.ui_name.is_some() { params_offset as u16 } else { 0 });
        push16(&mut table, f.lookups.len() as u16);
        for l in &f.lookups {
            push16(&mut table, *l);
        }
        if let Some(id) = f.ui_name {
            push16(&mut table, 0);
            push16(&mut table, id);
        }
        feature_offset += table.len();
        tables.push(table);
    }
    for table in tables {
        feature_list.extend_from_slice(&table);
    }
    let mut lookup_list = Vec::new();
    push16(&mut lookup_list, lookups.len() as u16);
    for i in 0..lookups.len() {
        push16(&mut lookup_list, (2 + 2 * lookups.len() + 24 * i) as u16);
    }
    for (first, last, delta) in lookups {
        push16(&mut lookup_list, 1);
        push16(&mut lookup_list, 0);
        push16(&mut lookup_list, 1);
        push16(&mut lookup_list, 8);
        push16(&mut lookup_list, 1);
        push16(&mut lookup_list, 6);
        push16(&mut lookup_list, *delta as u16);
        push16(&mut lookup_list, 2);
        push16(&mut lookup_list, 1);
        push16(&mut lookup_list, *first);
        push16(&mut lookup_list, *last);
        push16(&mut lookup_list, 0);
    }
    let mut t = Vec::new();
    push16(&mut t, 1);
    push16(&mut t, 0);
    push16(&mut t, 10);
    push16(&mut t, (10 + script_list_len) as u16);
    push16(&mut t, (10 + script_list_len + feature_list.len()) as u16);
    push16(&mut t, 1);
    t.extend_from_slice(b"DFLT");
    push16(&mut t, 8);
    push16(&mut t, 4);
    push16(&mut t, 0);
    push16(&mut t, 0);
    push16(&mut t, 0xFFFF);
    push16(&mut t, n as u16);
    for i in 0..n {
        push16(&mut t, i as u16);
    }
    t.extend_from_slice(&feature_list);
    t.extend_from_slice(&lookup_list);
    t
}

fn feature(tag: &[u8; 4], ui_name: Option<u16>, lookups: Vec<u16>) -> Feature {
    Feature { tag: *tag, ui_name, lookups, broken: false }
}

/// Glyph of a character of U+0021..=U+007E.
fn gid(c: char) -> u32 {
    c as u32 - 0x20
}

/// A font whose `onum` and `pnum` features replace the digits (glyphs 16..=25)
/// by glyphs 100..=109 and 110..=119, with a named stylistic set `ss01` and a
/// `GPOS` table registering `kern` and `onum`.
fn digits_font() -> Vec<u8> {
    let gsub = layout(
        &[
            feature(b"onum", None, vec![0]),
            feature(b"pnum", None, vec![1]),
            feature(b"ss01", Some(256), vec![]),
        ],
        &[(16, 25, 84), (16, 25, 94)],
    );
    let gpos = layout(&[feature(b"kern", None, vec![]), feature(b"onum", None, vec![])], &[]);
    sfnt(vec![
        (*b"head", head()),
        (*b"maxp", maxp()),
        (*b"hhea", hhea()),
        (*b"hmtx", hmtx()),
        (*b"cmap", cmap()),
        (*b"name", name(&[(256, "Alternate Digits")])),
        (*b"GSUB", gsub),
        (*b"GPOS", gpos),
    ])
}

/// A font with no layout features at all.
fn plain_font() -> Vec<u8> {
    sfnt(vec![
        (*b"head", head()),
        (*b"maxp", maxp()),
        (*b"hhea", hhea()),
        (*b"hmtx", hmtx()),
        (*b"cmap", cmap()),
    ])
}

#[test]
fn charmap_code_points_are_read() {
    let font = digits_font();
    let cps = font_codepoints(&font);
    assert_eq!(cps, (0x21u32..=0x7E).collect::<Vec<_>>());
}

#[test]
fn classes_select_font_characters() {
    let font = digits_font();
    let references = font_chars(&font, CharClass::UnicaseReference);
    let expected: Vec<char> = ('A'..='Z').filter(|c| *c != 'Q' && *c != 'J').collect();
    assert_eq!(references, expected);
    let digits = font_chars(&font, CharClass::AsciiDigit);
    assert_eq!(digits, ('0'..='9').collect::<Vec<_>>());
    let candidates = font_chars(&font, CharClass::UnicaseCandidate);
    assert_eq!(candidates.len(), 24 + 26);
    assert_eq!(font_chars(&font, CharClass::Punctuation).len(), 23);
}

#[test]
fn shaping_gives_glyphs_not_code_points() {
    let font = digits_font();
    assert_eq!(shaped_first_glyph(&font, "0", &[]), Some(gid('0')));
    assert_eq!(shaped_first_glyph(&font, "7", &[TAG_ONUM]), Some(107));
    assert_eq!(shaped_first_glyph(&font, "7", &[TAG_PNUM]), Some(117));
    assert_eq!(shaped_first_glyph(&font, "A", &[TAG_ONUM]), Some(gid('A')));
    assert_eq!(shaped_first_glyph(&[], "0", &[]), None);
}

#[test]
fn features_change_shaping_only_where_they_apply() {
    let font = digits_font();
    assert!(shapes_differently_with_features(&font, "0123456789", &[TAG_ONUM]));
    assert!(!shapes_differently_with_features(&font, "0123456789", &[TAG_LNUM]));
    assert!(!shapes_differently_with_features(&font, "ABC", &[TAG_ONUM]));
    assert!(shapes_differently_between(&font, "1", &[TAG_ONUM], &[TAG_PNUM]));
    assert!(!shapes_differently_between(&font, "1", &[TAG_ONUM], &[TAG_ONUM, TAG_LNUM]));
    assert!(!shapes_differently_with_features(&font, "12", &[]));
}

#[test]
fn ratio_counts_changed_digits() {
    let font = digits_font();
    assert_eq!(
        ratio_of_different_shapes(&font, CharClass::AsciiDigit, TAG_ONUM),
        Ratio { hits: 10, total: 10 }
    );
    assert_eq!(
        ratio_of_different_shapes(&font, CharClass::AsciiDigit, TAG_TNUM),
        Ratio { hits: 0, total: 10 }
    );
}

#[test]
fn casing_ratios_of_a_font_without_casing_features() {
    let r = test_casing(&digits_font());
    assert_eq!(r.smcp, Ratio { hits: 0, total: 26 });
    assert_eq!(r.c2sc, Ratio { hits: 0, total: 26 });
    assert_eq!(r.case, Ratio { hits: 0, total: 23 });
}

#[test]
fn matrices_that_work() {
    let font = digits_font();
    assert!(matrix_works(&font, NumeralSet::ProportionalOldstyle));
    assert!(matrix_works(&font, NumeralSet::TabularOldstyle));
    assert!(matrix_works(&font, NumeralSet::ProportionalLining));
    assert!(!matrix_works(&font, NumeralSet::TabularLining));
}

#[test]
fn single_unchanged_set_is_the_default() {
    let font = digits_font();
    assert_eq!(
        default_numerals(&font, Some(NumeralSet::ProportionalOldstyle)),
        Some(NumeralSet::TabularLining)
    );
}

#[test]
fn without_features_the_measurement_decides() {
    let font = plain_font();
    assert_eq!(
        default_numerals(&font, Some(NumeralSet::ProportionalLining)),
        Some(NumeralSet::ProportionalLining)
    );
    assert_eq!(default_numerals(&font, None), None);
}

fn measurements(all: Option<NumeralSet>) -> NumeralMeasurements {
    NumeralMeasurements {
        plain: all,
        proportional_oldstyle: all,
        tabular_oldstyle: all,
        proportional_lining: all,
        tabular_lining: all,
    }
}

#[test]
fn numeral_styles_of_the_digits_font() {
    let font = digits_font();
    let m = NumeralMeasurements {
        plain: Some(NumeralSet::TabularLining),
        proportional_oldstyle: Some(NumeralSet::ProportionalOldstyle),
        tabular_oldstyle: Some(NumeralSet::ProportionalOldstyle),
        proportional_lining: Some(NumeralSet::ProportionalLining),
        tabular_lining: Some(NumeralSet::TabularLining),
    };
    let s = get_numeral_styles(&font, &m).unwrap();
    assert_eq!(s.default, Some(NumeralSet::TabularLining));
    assert!(!s.tabular_oldstyle);
    assert!(s.proportional_oldstyle);
    assert!(s.proportional_lining);
    assert!(s.tabular_lining);
    assert_eq!(s.inferior, Ratio { hits: 0, total: 10 });
    assert_eq!(s.superior, Ratio { hits: 0, total: 10 });
    assert_eq!(s.encoded_fractions, Ratio { hits: 0, total: 20 });
    assert!(!s.arbitrary_fractions);
    assert_eq!(s.slashed_zero, Ratio { hits: 0, total: 1 });
}

#[test]
fn failed_measurement_stops_the_numeral_styles() {
    let font = digits_font();
    match get_numeral_styles(&font, &measurements(None)) {
        Err(NumeralStylesError { default, decided, failed }) => {
            assert_eq!(default, Some(NumeralSet::TabularLining));
            assert!(decided.is_empty());
            assert_eq!(failed, NumeralSet::TabularOldstyle);
        }
        other => panic!("unexpected {:?}", other),
    }
}

#[test]
fn plain_font_numeral_styles() {
    let font = plain_font();
    let s = get_numeral_styles(&font, &measurements(Some(NumeralSet::TabularOldstyle))).unwrap();
    assert_eq!(s.default, Some(NumeralSet::TabularOldstyle));
    assert!(s.tabular_oldstyle);
    assert!(!s.proportional_oldstyle);
    assert!(!s.proportional_lining && !s.tabular_lining);
}

#[test]
fn untold_default_still_reports_the_rest() {
    let font = plain_font();
    let told = get_numeral_styles(&font, &measurements(Some(NumeralSet::TabularOldstyle))).unwrap();
    let s = get_numeral_styles(&font, &measurements(None)).unwrap();
    assert_eq!(s.default, None);
    assert!(!s.tabular_oldstyle && !s.proportional_oldstyle);
    assert!(!s.proportional_lining && !s.tabular_lining);
    assert_eq!(s.inferior, told.inferior);
    assert_eq!(s.superior, told.superior);
    assert_eq!(s.encoded_fractions, Ratio { hits: 0, total: 20 });
    assert_eq!(s.encoded_fractions, told.encoded_fractions);
    assert!(!s.arbitrary_fractions);
    assert_eq!(s.slashed_zero, told.slashed_zero);
}

#[test]
fn features_of_both_tables_sorted_once_each() {
    let summary = gather_features(&digits_font()).unwrap();
    assert_eq!(summary.features, vec!["kern", "onum", "pnum", "ss01"]);
    assert_eq!(
        summary.stylistic_sets,
        vec![("ss01".to_string(), "Alternate Digits".to_string())]
    );
}

#[test]
fn stylistic_set_without_name_string_is_left_out() {
    let gsub = layout(&[feature(b"ss02", Some(300), vec![])], &[]);
    let font = sfnt(vec![(*b"cmap", cmap()), (*b"name", name(&[(256, "Other")])), (*b"GSUB", gsub)]);
    let summary = gather_features(&font).unwrap();
    assert_eq!(summary.features, vec!["ss02"]);
    assert!(summary.stylistic_sets.is_empty());
}

#[test]
fn unreadable_stylistic_set_table_is_an_error() {
    let mut broken = feature(b"ss03", Some(256), vec![]);
    broken.broken = true;
    let gsub = layout(&[feature(b"onum", None, vec![]), broken], &[]);
    let font = sfnt(vec![(*b"name", name(&[(256, "Set")])), (*b"GSUB", gsub)]);
    assert_eq!(
        gather_features(&font).unwrap_err(),
        FeatureError::FeatureTableUnreadable(u32::from_be_bytes(*b"ss03"))
    );
}

#[test]
fn unreadable_other_feature_table_is_skipped() {
    let mut broken = feature(b"liga", None, vec![]);
    broken.broken = true;
    let gsub = layout(&[broken, feature(b"calt", None, vec![])], &[]);
    let font = sfnt(vec![(*b"GSUB", gsub)]);
    let summary = gather_features(&font).unwrap();
    assert_eq!(summary.features, vec!["calt", "liga"]);
}

#[test]
fn no_font_no_features() {
    let summary = gather_features(&[1, 2, 3]).unwrap();
    assert!(summary.features.is_empty());
    assert!(summary.stylistic_sets.is_empty());
}

#[test]
fn stylistic_sets_are_listed_features() {
    let summary = gather_features(&digits_font()).unwrap();
    for (tag, _) in &summary.stylistic_sets {
        assert!(tag.starts_with("ss"));
        assert!(summary.features.contains(tag));
    }
}

#[test]
fn shaping_differences_are_symmetric_and_reflexive() {
    let font = digits_font();
    for (a, b) in [(vec![TAG_ONUM], vec![TAG_PNUM]), (vec![], vec![TAG_ONUM]), (vec![TAG_LNUM], vec![])] {
        assert_eq!(
            shapes_differently_between(&font, "2", &a, &b),
            shapes_differently_between(&font, "2", &b, &a)
        );
        assert!(!shapes_differently_between(&font, "2", &a, &a));
    }
}

#[test]
fn stylistic_set_registered_in_gpos() {
    let gpos = layout(&[feature(b"ss04", Some(257), vec![]), feature(b"kern", None, vec![])], &[]);
    let gsub = layout(&[feature(b"ss04", None, vec![])], &[]);
    let font = sfnt(vec![
        (*b"name", name(&[(256, "Unused"), (257, "Spaced Caps")])),
        (*b"GSUB", gsub),
        (*b"GPOS", gpos),
    ]);
    let summary = gather_features(&font).unwrap();
    assert_eq!(summary.features, vec!["kern", "ss04"]);
    assert_eq!(
        summary.stylistic_sets,
        vec![("ss04".to_string(), "Spaced Caps".to_string())]
    );
}
