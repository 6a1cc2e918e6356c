// The decisions that need no font: classification, tags, text order, and the
// verdicts of the metrics.

use fontquant::appearance::{a_style_measurable, g_style, story_can_be_told, story_style_to_string, StoryStyle};
use fontquant::casing::{
    basic_latin_case_pairs, char_in_class, lowercase_shape, lowercase_shape_to_string,
    unicase_verdict, CharClass, LowercaseShape,
};
use fontquant::numerals::{
    numeral_set_of, numeral_set_to_string, tags_from_matrix, NumeralSet,
};
use fontquant::tag::{starts_with_ss, tag_to_string, TAG_C2SC, TAG_ONUM, TAG_SMCP, TAG_TNUM, TAG_ZERO};
use fontquant::text::{insert_sorted, string_lt};
use fontquant::unicode::{general_category, general_category_group, is_ascii_digit, GeneralCategory, GeneralCategoryGroup};

#[test]
fn general_categories() {
    assert_eq!(general_category('A'), GeneralCategory::UppercaseLetter);
    assert_eq!(general_category('a'), GeneralCategory::LowercaseLetter);
    assert_eq!(general_category('\u{1C5}'), GeneralCategory::TitlecaseLetter);
    assert_eq!(general_category('5'), GeneralCategory::DecimalNumber);
    assert_eq!(general_category(' '), GeneralCategory::SpaceSeparator);
    assert_eq!(general_category('\u{E000}'), GeneralCategory::PrivateUse);
    assert_eq!(general_category('\u{378}'), GeneralCategory::Unassigned);
    assert_eq!(general_category_group('!'), GeneralCategoryGroup::Punctuation);
    assert_eq!(general_category_group('('), GeneralCategoryGroup::Punctuation);
    assert_eq!(general_category_group('+'), GeneralCategoryGroup::Symbol);
    assert_eq!(general_category_group('\u{301}'), GeneralCategoryGroup::Mark);
    assert_eq!(general_category_group('\u{7}'), GeneralCategoryGroup::Other);
}

#[test]
fn ascii_digits() {
    assert!(is_ascii_digit('0') && is_ascii_digit('9'));
    assert!(!is_ascii_digit('a') && !is_ascii_digit('\u{663}'));
}

#[test]
fn unicase_classes() {
    assert!(char_in_class(CharClass::UnicaseReference, 'A'));
    assert!(!char_in_class(CharClass::UnicaseReference, 'Q'));
    assert!(!char_in_class(CharClass::UnicaseReference, 'J'));
    assert!(!char_in_class(CharClass::UnicaseReference, '\u{14A}'));
    assert!(!char_in_class(CharClass::UnicaseReference, 'a'));
    // U+00C9 decomposes into E and a combining acute accent.
    assert!(!char_in_class(CharClass::UnicaseReference, '\u{C9}'));
    assert!(char_in_class(CharClass::UnicaseCandidate, 'a'));
    assert!(char_in_class(CharClass::UnicaseCandidate, 'B'));
    assert!(!char_in_class(CharClass::UnicaseCandidate, '\u{E9}'));
    assert!(!char_in_class(CharClass::UnicaseCandidate, '\u{3BC}'));
    assert!(!char_in_class(CharClass::UnicaseCandidate, '\u{14B}'));
    assert!(!char_in_class(CharClass::UnicaseCandidate, '1'));
}

#[test]
fn feature_classes() {
    assert!(char_in_class(CharClass::SmallCaps, 'a'));
    assert!(!char_in_class(CharClass::SmallCaps, 'A'));
    assert!(!char_in_class(CharClass::SmallCaps, '\u{B5}'));
    assert!(!char_in_class(CharClass::SmallCaps, '\u{2113}'));
    assert!(char_in_class(CharClass::CapsToSmallCaps, 'A'));
    assert!(!char_in_class(CharClass::CapsToSmallCaps, 'a'));
    assert!(!char_in_class(CharClass::CapsToSmallCaps, '\u{3A9}'));
    assert!(char_in_class(CharClass::Punctuation, '-'));
    assert!(!char_in_class(CharClass::Punctuation, '$'));
    assert!(char_in_class(CharClass::AsciiDigit, '3'));
}

#[test]
fn unicase_verdicts() {
    assert!(!unicase_verdict(0, 0));
    assert!(unicase_verdict(1, 1));
    assert!(!unicase_verdict(19, 20));
    assert!(unicase_verdict(96, 100));
    assert!(!unicase_verdict(95, 100));
    assert!(unicase_verdict(20, 20));
}

#[test]
fn lowercase_shapes() {
    assert_eq!(lowercase_shape(&vec![], true), LowercaseShape::Lowercase);
    let alike = vec![(1, 1), (2, 2), (1, 1)];
    assert_eq!(lowercase_shape(&alike, false), LowercaseShape::Uppercase);
    assert_eq!(lowercase_shape(&alike, true), LowercaseShape::Smallcaps);
    let mut mostly = vec![(1usize, 1usize); 9];
    mostly.push((2, 1));
    // 9 out of 10 is not more than 90%.
    assert_eq!(lowercase_shape(&mostly, false), LowercaseShape::Lowercase);
    let mut more = vec![(1usize, 1usize); 19];
    more.push((2, 1));
    assert_eq!(lowercase_shape(&more, false), LowercaseShape::Uppercase);
    assert_eq!(lowercase_shape_to_string(LowercaseShape::Smallcaps), "smallcaps");
    assert_eq!(lowercase_shape_to_string(LowercaseShape::Uppercase), "uppercase");
    assert_eq!(lowercase_shape_to_string(LowercaseShape::Lowercase), "lowercase");
}

#[test]
fn case_pairs() {
    let pairs = basic_latin_case_pairs();
    assert_eq!(pairs.len(), 26);
    assert_eq!(pairs[0], ('A', 'a'));
    assert_eq!(pairs[25], ('Z', 'z'));
}

#[test]
fn tag_text() {
    assert_eq!(tag_to_string(TAG_ONUM), "onum");
    assert_eq!(tag_to_string(TAG_C2SC), "c2sc");
    assert_eq!(tag_to_string(u32::from_be_bytes(*b"cv0 ")), "cv0 ");
    assert_eq!(tag_to_string(u32::from_be_bytes([0x00, b'a', 0x7F, 0xE9])), "{0x00}a{0x7F}{0xE9}");
    assert!(starts_with_ss(u32::from_be_bytes(*b"ss01")));
    assert!(!starts_with_ss(TAG_SMCP));
    assert!(!starts_with_ss(u32::from_be_bytes(*b"s\0s1")));
}

#[test]
fn text_order() {
    let s = |x: &str| x.to_string();
    assert!(string_lt(&s("kern"), &s("liga")));
    assert!(!string_lt(&s("liga"), &s("kern")));
    assert!(string_lt(&s("ss"), &s("ss01")));
    assert!(!string_lt(&s("onum"), &s("onum")));
    assert!(string_lt(&s("zero"), &s("{0x00}abc")));
    let mut v = Vec::new();
    for t in ["ss01", "kern", "aalt", "kern", "zero"] {
        insert_sorted(&mut v, s(t));
    }
    assert_eq!(v, vec!["aalt", "kern", "ss01", "zero"]);
}

#[test]
fn numeral_sets() {
    assert_eq!(numeral_set_of(true, false), NumeralSet::ProportionalOldstyle);
    assert_eq!(numeral_set_of(true, true), NumeralSet::TabularOldstyle);
    assert_eq!(numeral_set_of(false, false), NumeralSet::ProportionalLining);
    assert_eq!(numeral_set_of(false, true), NumeralSet::TabularLining);
    assert_eq!(tags_from_matrix(NumeralSet::TabularOldstyle), vec![TAG_ONUM, TAG_TNUM]);
    assert_eq!(numeral_set_to_string(NumeralSet::ProportionalLining), "proportional_lining");
    assert_eq!(numeral_set_to_string(NumeralSet::TabularOldstyle), "tabular_oldstyle");
    assert_eq!(numeral_set_to_string(NumeralSet::ProportionalOldstyle), "proportional_oldstyle");
    assert_eq!(numeral_set_to_string(NumeralSet::TabularLining), "tabular_lining");
    assert_eq!(tag_to_string(TAG_ZERO), "zero");
}

#[test]
fn story_styles() {
    assert!(story_can_be_told(Some(false), Some(false)));
    assert!(!story_can_be_told(Some(true), Some(false)));
    assert!(!story_can_be_told(Some(false), None));
    assert!(!story_can_be_told(None, Some(false)));
    assert_eq!(g_style(2), Some(StoryStyle::SingleStory));
    assert_eq!(g_style(3), Some(StoryStyle::DoubleStory));
    assert_eq!(g_style(1), None);
    assert_eq!(g_style(4), None);
    assert!(a_style_measurable(2) && !a_style_measurable(3));
    assert_eq!(story_style_to_string(StoryStyle::DoubleStory), "double_story");
}
