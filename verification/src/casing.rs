//! Casing metrics: which characters the unicase test measures and how it
//! decides, which characters the `smcp`, `c2sc` and `case` features are
//! expected to change, and how the shapes of lowercase letters are judged.
use vstd::prelude::*;
use crate::font::{font_codepoints, spec_codepoints};
use crate::shaping::{chars_in_class, count_changed, font_chars_in_class, ratio_of_different_shapes, Ratio};
use crate::tag::{TAG_C2SC, TAG_CASE, TAG_SMCP};
use crate::unicode::{
    general_category, general_category_group, group_of, is_ascii_digit, is_lowercase,
    is_uppercase, nfd_len, spec_general_category, spec_is_ascii_digit, spec_is_lowercase,
    spec_is_uppercase, spec_nfd_len, GeneralCategory, GeneralCategoryGroup,
};

verus! {

/// Uppercase letters whose heights do not count towards the unicase test:
/// `Q`, `J` and `Ŋ` (U+014A), whose shapes often reach below the baseline.
pub open spec fn is_excluded_uppercase(c: char) -> bool {
    c == 'Q' || c == 'J' || c == '\u{14A}'
}

/// Lowercase letters left out of the unicase test: `μ` (U+03BC), `ŋ` (U+014B)
/// and `ƒ` (U+0192).
pub open spec fn is_excluded_lowercase(c: char) -> bool {
    c == '\u{3BC}' || c == '\u{14B}' || c == '\u{192}'
}

/// Uppercase letters that `c2sc` is not expected to change: `Ω` (U+03A9).
pub open spec fn is_c2sc_exception(c: char) -> bool {
    c == '\u{3A9}'
}

/// Lowercase letters that `smcp` is not expected to change: `µ` (U+00B5),
/// `ℓ` (U+2113), `ᾳ` (U+1FB3), `ƒ` (U+0192) and `μ` (U+03BC).
pub open spec fn is_smcp_exception(c: char) -> bool {
    c == '\u{B5}' || c == '\u{2113}' || c == '\u{1FB3}' || c == '\u{192}' || c == '\u{3BC}'
}

/// The characters whose glyphs set the reference heights of the unicase test:
/// uppercase letters (`Lu`), not excluded, that do not decompose.
pub open spec fn is_unicase_reference(c: char) -> bool {
    &&& spec_general_category(c) == GeneralCategory::UppercaseLetter
    &&& !is_excluded_uppercase(c)
    &&& spec_nfd_len(c) == 1
}

/// The characters that the unicase test measures against the reference
/// heights: upper- or lowercase letters (`Lu`, `Ll`), excluded by neither
/// list, that do not decompose.
pub open spec fn is_unicase_candidate(c: char) -> bool {
    &&& (spec_general_category(c) == GeneralCategory::UppercaseLetter || spec_general_category(c)
        == GeneralCategory::LowercaseLetter)
    &&& !is_excluded_uppercase(c)
    &&& !is_excluded_lowercase(c)
    &&& spec_nfd_len(c) == 1
}

/// The sets of characters that the metrics test.
#[derive(Clone, Copy, Debug, PartialEq, Eq, Structural)]
pub enum CharClass {
    /// Reference letters of the unicase test.
    UnicaseReference,
    /// Letters measured by the unicase test.
    UnicaseCandidate,
    /// Lowercase characters that `smcp` should change.
    SmallCaps,
    /// Uppercase characters that `c2sc` should change.
    CapsToSmallCaps,
    /// Punctuation (`P*`), which `case` may change.
    Punctuation,
    /// ASCII digits, which `sinf` and `sups` should change.
    AsciiDigit,
}

/// Whether `c` belongs to `class`.
pub open spec fn in_class(class: CharClass, c: char) -> bool {
    match class {
        CharClass::UnicaseReference => is_unicase_reference(c),
        CharClass::UnicaseCandidate => is_unicase_candidate(c),
        CharClass::SmallCaps => spec_is_lowercase(c) && !is_smcp_exception(c),
        CharClass::CapsToSmallCaps => spec_is_uppercase(c) && !is_c2sc_exception(c),
        CharClass::Punctuation => group_of(spec_general_category(c))
            == GeneralCategoryGroup::Punctuation,
        CharClass::AsciiDigit => spec_is_ascii_digit(c),
    }
}

/// Whether `c` belongs to `class`.
pub fn char_in_class(class: CharClass, c: char) -> (b: bool)
    ensures
        b == in_class(class, c),
{
    match class {
        CharClass::UnicaseReference => {
            general_category(c) == GeneralCategory::UppercaseLetter && !(c == 'Q' || c == 'J'
                || c == '\u{14A}') && nfd_len(c) == 1
        },
        CharClass::UnicaseCandidate => {
            let g = general_category(c);
            (g == GeneralCategory::UppercaseLetter || g == GeneralCategory::LowercaseLetter) && !(c
                == 'Q' || c == 'J' || c == '\u{14A}') && !(c == '\u{3BC}' || c == '\u{14B}' || c
                == '\u{192}') && nfd_len(c) == 1
        },
        CharClass::SmallCaps => {
            is_lowercase(c) && !(c == '\u{B5}' || c == '\u{2113}' || c == '\u{1FB3}' || c
                == '\u{192}' || c == '\u{3BC}')
        },
        CharClass::CapsToSmallCaps => is_uppercase(c) && c != '\u{3A9}',
        CharClass::Punctuation => general_category_group(c) == GeneralCategoryGroup::Punctuation,
        CharClass::AsciiDigit => is_ascii_digit(c),
    }
}

/// The unicase verdict on the letters measured: more than 95% of them lie
/// within the tolerance of the reference heights. With nothing measured the
/// verdict is `false`.
pub open spec fn spec_unicase_verdict(unicase_count: nat, char_count: nat) -> bool {
    char_count > 0 && 100 * unicase_count > 95 * char_count
}

/// Whether `unicase_count` out of `char_count` measured letters is more than 95%.
pub fn unicase_verdict(unicase_count: usize, char_count: usize) -> (b: bool)
    requires
        unicase_count <= char_count,
    ensures
        b == spec_unicase_verdict(unicase_count as nat, char_count as nat),
{
    char_count > 0 && (unicase_count as u128) * 100 > (char_count as u128) * 95
}

/// The casing features' reach: the share of the characters that each of
/// `smcp`, `c2sc` and `case` is expected to change that it does change.
#[derive(Clone, Copy, Debug, PartialEq, Eq, Structural)]
pub struct CasingRatios {
    pub smcp: Ratio,
    pub c2sc: Ratio,
    pub case: Ratio,
}

/// Measures how much of the lowercase (`smcp`), uppercase (`c2sc`) and
/// punctuation (`case`) characters of the font the respective feature changes.
pub fn test_casing(font: &[u8]) -> (r: CasingRatios)
    ensures
        r.smcp.total == font_chars_in_class(font@, CharClass::SmallCaps).len(),
        r.smcp.hits == count_changed(
            font@,
            font_chars_in_class(font@, CharClass::SmallCaps),
            TAG_SMCP,
        ),
        r.c2sc.total == font_chars_in_class(font@, CharClass::CapsToSmallCaps).len(),
        r.c2sc.hits == count_changed(
            font@,
            font_chars_in_class(font@, CharClass::CapsToSmallCaps),
            TAG_C2SC,
        ),
        r.case.total == font_chars_in_class(font@, CharClass::Punctuation).len(),
        r.case.hits == count_changed(
            font@,
            font_chars_in_class(font@, CharClass::Punctuation),
            TAG_CASE,
        ),
{
    let smcp = ratio_of_different_shapes(font, CharClass::SmallCaps, TAG_SMCP);
    let c2sc = ratio_of_different_shapes(font, CharClass::CapsToSmallCaps, TAG_C2SC);
    let case = ratio_of_different_shapes(font, CharClass::Punctuation, TAG_CASE);
    CasingRatios { smcp, c2sc, case }
}

/// The characters of the font (each code point of its character map once, in
/// the map's order) that belong to `class`; for the unicase test, the letters
/// whose glyphs it measures.
pub fn font_chars(font: &[u8], class: CharClass) -> (chars: Vec<char>)
    ensures
        chars@ == font_chars_in_class(font@, class),
{
    let cps = font_codepoints(font);
    let n = cps.len();
    let mut chars: Vec<char> = Vec::new();
    let mut i: usize = 0;
    assert(cps@.take(0) =~= Seq::<u32>::empty());
    while i < n
        invariant
            n == cps@.len(),
            cps@ == spec_codepoints(font@),
            i <= n,
            chars@ == chars_in_class(cps@.take(i as int), class),
        decreases n - i,
    {
        let cp = cps[i];
        assert(cps@.take(i + 1).drop_last() =~= cps@.take(i as int));
        assert(cps@.take(i + 1).last() == cp);
        if let Some(c) = core::char::from_u32(cp) {
            if char_in_class(class, c) {
                chars.push(c);
            }
        }
        i = i + 1;
    }
    assert(cps@.take(n as int) =~= cps@);
    chars
}

/// What lowercase letters look like, next to the uppercase ones.
#[derive(Clone, Copy, Debug, PartialEq, Eq, Structural)]
pub enum LowercaseShape {
    /// They are built like the capitals and as tall (a unicase or all-caps font).
    Uppercase,
    /// They are built otherwise.
    Lowercase,
    /// They are built like the capitals but clearly shorter.
    Smallcaps,
}

/// The text under which the metric reports a lowercase shape.
pub open spec fn lowercase_shape_name(shape: LowercaseShape) -> Seq<char> {
    match shape {
        LowercaseShape::Uppercase => "uppercase"@,
        LowercaseShape::Lowercase => "lowercase"@,
        LowercaseShape::Smallcaps => "smallcaps"@,
    }
}

/// The name of a lowercase shape: `uppercase`, `lowercase` or `smallcaps`.
pub fn lowercase_shape_to_string(shape: LowercaseShape) -> (s: String)
    ensures
        s@ == lowercase_shape_name(shape),
{
    proof {
        reveal_strlit("uppercase");
        reveal_strlit("lowercase");
        reveal_strlit("smallcaps");
    }
    match shape {
        LowercaseShape::Uppercase => String::from_str("uppercase"),
        LowercaseShape::Lowercase => String::from_str("lowercase"),
        LowercaseShape::Smallcaps => String::from_str("smallcaps"),
    }
}

/// The letter pairs compared: `A`/`a` through `Z`/`z`.
pub open spec fn case_pair(i: int) -> (char, char) {
    ((65 + i) as char, (97 + i) as char)
}

/// The 26 basic Latin letters with their lowercase forms, `('A', 'a')` to `('Z', 'z')`.
pub fn basic_latin_case_pairs() -> (pairs: Vec<(char, char)>)
    ensures
        pairs@.len() == 26,
        forall|i: int| 0 <= i < 26 ==> #[trigger] pairs@[i] == case_pair(i),
{
    let mut pairs: Vec<(char, char)> = Vec::new();
    let mut i: u8 = 0;
    while i < 26
        invariant
            i <= 26,
            pairs@.len() == i,
            forall|j: int| 0 <= j < i ==> #[trigger] pairs@[j] == case_pair(j),
        decreases 26 - i,
    {
        pairs.push(((65 + i) as char, (97 + i) as char));
        i = i + 1;
    }
    pairs
}

/// How many of the letter pairs have as many contours in the lowercase glyph
/// as in the uppercase one.
pub open spec fn matching_contours(contours: Seq<(usize, usize)>) -> nat
    decreases contours.len(),
{
    if contours.len() == 0 {
        0
    } else {
        matching_contours(contours.drop_last()) + if contours.last().0 == contours.last().1 {
            1nat
        } else {
            0nat
        }
    }
}

/// The shape of the lowercase letters, from the contour counts of each letter
/// pair whose two glyphs the font has (uppercase, lowercase) and from whether
/// the lowercase letters are, on average, less than 80% as tall as the
/// uppercase ones: more than 90% of the pairs alike in construction means the
/// lowercase letters are capitals, small ones if they are that much shorter.
pub open spec fn spec_lowercase_shape(contours: Seq<(usize, usize)>, lowercase_is_short: bool) -> LowercaseShape {
    if contours.len() > 0 && 10 * matching_contours(contours) > 9 * contours.len() {
        if lowercase_is_short {
            LowercaseShape::Smallcaps
        } else {
            LowercaseShape::Uppercase
        }
    } else {
        LowercaseShape::Lowercase
    }
}

/// Judges the shape of the lowercase letters (see `spec_lowercase_shape`).
pub fn lowercase_shape(contours: &Vec<(usize, usize)>, lowercase_is_short: bool) -> (shape: LowercaseShape)
    ensures
        shape == spec_lowercase_shape(contours@, lowercase_is_short),
{
    let n = contours.len();
    let mut matching: usize = 0;
    let mut i: usize = 0;
    assert(contours@.take(0) =~= Seq::<(usize, usize)>::empty());
    while i < n
        invariant
            n == contours@.len(),
            i <= n,
            matching == matching_contours(contours@.take(i as int)),
            matching <= i,
        decreases n - i,
    {
        assert(contours@.take(i + 1).drop_last() =~= contours@.take(i as int));
        if contours[i].0 == contours[i].1 {
            matching = matching + 1;
        }
        i = i + 1;
    }
    assert(contours@.take(n as int) =~= contours@);
    if n > 0 && (matching as u128) * 10 > (n as u128) * 9 {
        if lowercase_is_short {
            LowercaseShape::Smallcaps
        } else {
            LowercaseShape::Uppercase
        }
    } else {
        LowercaseShape::Lowercase
    }
}

/// Counting more unicase letters out of the same total never turns a
/// unicase verdict into a non-unicase one.
pub proof fn lemma_unicase_verdict_monotone(fewer: nat, more: nat, total: nat)
    requires
        fewer <= more <= total,
        spec_unicase_verdict(fewer, total),
    ensures
        spec_unicase_verdict(more, total),
{
}

/// Where every measured letter is unicase, the font is unicase; where no
/// letter is measured, it is not.
pub proof fn lemma_unicase_verdict_extremes(total: nat)
    ensures
        total > 0 ==> spec_unicase_verdict(total, total),
        !spec_unicase_verdict(0, 0),
{
}

/// With no letter pairs to compare, the lowercase letters count as lowercase.
pub proof fn lemma_lowercase_shape_without_pairs(lowercase_is_short: bool)
    ensures
        spec_lowercase_shape(Seq::empty(), lowercase_is_short) == LowercaseShape::Lowercase,
{
}

/// Where every compared pair has as many contours in both cases, the
/// lowercase letters are capitals: small ones if they are short, full-size
/// ones else.
pub proof fn lemma_lowercase_shape_all_alike(contours: Seq<(usize, usize)>, lowercase_is_short: bool)
    requires
        contours.len() > 0,
        forall|i: int| 0 <= i < contours.len() ==> (#[trigger] contours[i]).0 == contours[i].1,
    ensures
        spec_lowercase_shape(contours, lowercase_is_short) == (if lowercase_is_short {
            LowercaseShape::Smallcaps
        } else {
            LowercaseShape::Uppercase
        }),
{
    lemma_matching_all(contours);
}

proof fn lemma_matching_all(contours: Seq<(usize, usize)>)
    requires
        forall|i: int| 0 <= i < contours.len() ==> (#[trigger] contours[i]).0 == contours[i].1,
    ensures
        matching_contours(contours) == contours.len(),
    decreases contours.len(),
{
    if contours.len() > 0 {
        let rest = contours.drop_last();
        assert forall|i: int| 0 <= i < rest.len() implies (#[trigger] rest[i]).0 == rest[i].1 by {
            assert(rest[i] == contours[i]);
        }
        lemma_matching_all(rest);
        assert(contours.last() == contours[contours.len() - 1]);
    }
}

/// The pairs whose two glyphs have equally many contours.
pub open spec fn pairs_alike(contours: Seq<(usize, usize)>) -> Seq<(usize, usize)> {
    contours.filter(|p: (usize, usize)| p.0 == p.1)
}

proof fn lemma_matching_is_alike_count(contours: Seq<(usize, usize)>)
    ensures
        matching_contours(contours) == pairs_alike(contours).len(),
    decreases contours.len(),
{
    reveal(Seq::filter);
    if contours.len() > 0 {
        lemma_matching_is_alike_count(contours.drop_last());
    }
}

/// Only pairs with equally many contours in both glyphs count as alike: the
/// lowercase letters are judged capitals (small or not) exactly when more
/// than 90% of the pairs compared have equal contour counts; small capitals
/// exactly when, besides, the lowercase letters are short.
pub proof fn lemma_lowercase_shape_counts_equal_pairs(contours: Seq<(usize, usize)>, lowercase_is_short: bool)
    ensures
        spec_lowercase_shape(contours, lowercase_is_short) != LowercaseShape::Lowercase <==> (
        contours.len() > 0 && 10 * pairs_alike(contours).len() > 9 * contours.len()),
        spec_lowercase_shape(contours, lowercase_is_short) == LowercaseShape::Smallcaps ==> lowercase_is_short,
        spec_lowercase_shape(contours, lowercase_is_short) == LowercaseShape::Uppercase ==> !lowercase_is_short,
{
    lemma_matching_is_alike_count(contours);
}

/// Where no pair has equally many contours in both glyphs, the lowercase
/// letters are built otherwise than the capitals.
pub proof fn lemma_no_equal_pair_is_lowercase(contours: Seq<(usize, usize)>, lowercase_is_short: bool)
    requires
        forall|i: int| 0 <= i < contours.len() ==> (#[trigger] contours[i]).0 != contours[i].1,
    ensures
        spec_lowercase_shape(contours, lowercase_is_short) == LowercaseShape::Lowercase,
{
    lemma_matching_none(contours);
}

proof fn lemma_matching_none(contours: Seq<(usize, usize)>)
    requires
        forall|i: int| 0 <= i < contours.len() ==> (#[trigger] contours[i]).0 != contours[i].1,
    ensures
        matching_contours(contours) == 0,
    decreases contours.len(),
{
    if contours.len() > 0 {
        let rest = contours.drop_last();
        assert forall|i: int| 0 <= i < rest.len() implies (#[trigger] rest[i]).0 != rest[i].1 by {
            assert(rest[i] == contours[i]);
        }
        lemma_matching_none(rest);
        assert(contours.last() == contours[contours.len() - 1]);
    }
}

/// The characters `smcp` is expected to change are exactly the lowercase
/// ones other than `µ`, `ℓ`, `ᾳ`, `ƒ` and `μ`, wherever in Unicode they stand;
/// those `c2sc` is expected to change are exactly the uppercase ones other
/// than `Ω`; the digits are exactly `0` to `9`.
pub proof fn lemma_feature_classes(c: char)
    ensures
        in_class(CharClass::SmallCaps, c) <==> spec_is_lowercase(c) && !(c == '\u{B5}' || c
            == '\u{2113}' || c == '\u{1FB3}' || c == '\u{192}' || c == '\u{3BC}'),
        in_class(CharClass::CapsToSmallCaps, c) <==> spec_is_uppercase(c) && c != '\u{3A9}',
        in_class(CharClass::AsciiDigit, c) <==> '0' <= c && c <= '9',
{
}

} // verus!
