//! Numeral metrics: which of the four numeral sets a font has, which one it
//! uses by default, and how well its fraction, superior, inferior and
//! slashed-zero features work.
use vstd::prelude::*;
use crate::casing::CharClass;
use crate::shaping::{
    count_changed, font_chars_in_class, ratio_of_different_shapes,
    shapes_differently_between, shapes_differently_with_features,
    spec_shaped_glyphs, spec_shapes_differently_between, spec_shapes_differently_with_features, Ratio,
};
use crate::tag::{TAG_FRAC, TAG_LNUM, TAG_ONUM, TAG_PNUM, TAG_SINF, TAG_SUPS, TAG_TNUM, TAG_ZERO};

verus! {

/// The four numeral sets: oldstyle or lining, proportional or tabular.
#[derive(Clone, Copy, Debug, PartialEq, Eq, Structural)]
pub enum NumeralSet {
    ProportionalOldstyle,
    TabularOldstyle,
    ProportionalLining,
    TabularLining,
}

/// The label under which a numeral set is reported.
pub open spec fn numeral_set_label(set: NumeralSet) -> Seq<char> {
    match set {
        NumeralSet::ProportionalOldstyle => "proportional_oldstyle"@,
        NumeralSet::TabularOldstyle => "tabular_oldstyle"@,
        NumeralSet::ProportionalLining => "proportional_lining"@,
        NumeralSet::TabularLining => "tabular_lining"@,
    }
}

/// The label of a numeral set: `proportional_oldstyle`, `tabular_oldstyle`,
/// `proportional_lining` or `tabular_lining`.
pub fn numeral_set_to_string(set: NumeralSet) -> (s: String)
    ensures
        s@ == numeral_set_label(set),
{
    proof {
        reveal_strlit("proportional_oldstyle");
        reveal_strlit("tabular_oldstyle");
        reveal_strlit("proportional_lining");
        reveal_strlit("tabular_lining");
    }
    match set {
        NumeralSet::ProportionalOldstyle => String::from_str("proportional_oldstyle"),
        NumeralSet::TabularOldstyle => String::from_str("tabular_oldstyle"),
        NumeralSet::ProportionalLining => String::from_str("proportional_lining"),
        NumeralSet::TabularLining => String::from_str("tabular_lining"),
    }
}

/// The pair of features that switches a numeral set on: `onum` or `lnum`
/// for the figure style, `pnum` or `tnum` for the spacing.
pub open spec fn matrix(set: NumeralSet) -> (u32, u32) {
    match set {
        NumeralSet::ProportionalOldstyle => (TAG_ONUM, TAG_PNUM),
        NumeralSet::TabularOldstyle => (TAG_ONUM, TAG_TNUM),
        NumeralSet::ProportionalLining => (TAG_LNUM, TAG_PNUM),
        NumeralSet::TabularLining => (TAG_LNUM, TAG_TNUM),
    }
}

/// The features of a numeral set's matrix, style first.
pub open spec fn matrix_tags(set: NumeralSet) -> Seq<u32> {
    seq![matrix(set).0, matrix(set).1]
}

/// The two feature tags that switch `set` on.
pub fn tags_from_matrix(set: NumeralSet) -> (tags: Vec<u32>)
    ensures
        tags@ == matrix_tags(set),
{
    let tags = match set {
        NumeralSet::ProportionalOldstyle => vec![TAG_ONUM, TAG_PNUM],
        NumeralSet::TabularOldstyle => vec![TAG_ONUM, TAG_TNUM],
        NumeralSet::ProportionalLining => vec![TAG_LNUM, TAG_PNUM],
        NumeralSet::TabularLining => vec![TAG_LNUM, TAG_TNUM],
    };
    assert(tags@ =~= matrix_tags(set));
    tags
}

/// The numeral set that a style and a spacing make: oldstyle or lining,
/// tabular or proportional.
pub open spec fn spec_numeral_set_of(oldstyle: bool, tabular: bool) -> NumeralSet {
    if oldstyle {
        if tabular {
            NumeralSet::TabularOldstyle
        } else {
            NumeralSet::ProportionalOldstyle
        }
    } else {
        if tabular {
            NumeralSet::TabularLining
        } else {
            NumeralSet::ProportionalLining
        }
    }
}

/// The numeral set whose matrix is the (style, spacing) pair that the
/// measurements chose: `onum` where the figures' heights vary, else `lnum`;
/// `tnum` where their widths hardly vary, else `pnum`.
pub fn numeral_set_of(oldstyle: bool, tabular: bool) -> (set: NumeralSet)
    ensures
        set == spec_numeral_set_of(oldstyle, tabular),
        matrix(set) == (if oldstyle { TAG_ONUM } else { TAG_LNUM }, if tabular {
            TAG_TNUM
        } else {
            TAG_PNUM
        }),
{
    let vertical = if oldstyle {
        TAG_ONUM
    } else {
        TAG_LNUM
    };
    let horizontal = if tabular {
        TAG_TNUM
    } else {
        TAG_PNUM
    };
    if vertical == TAG_ONUM && horizontal == TAG_PNUM {
        NumeralSet::ProportionalOldstyle
    } else if vertical == TAG_ONUM && horizontal == TAG_TNUM {
        NumeralSet::TabularOldstyle
    } else if vertical == TAG_LNUM && horizontal == TAG_PNUM {
        NumeralSet::ProportionalLining
    } else {
        NumeralSet::TabularLining
    }
}

/// The ten digits, as the text shaped to test a numeral set.
pub open spec fn digits_text() -> Seq<char> {
    seq!['0', '1', '2', '3', '4', '5', '6', '7', '8', '9']
}

/// Switching on the matrix of `set` changes how the digits are shaped.
pub open spec fn spec_matrix_works(font: Seq<u8>, set: NumeralSet) -> bool {
    spec_shapes_differently_with_features(font, digits_text(), matrix_tags(set))
}

/// Whether switching on the features of `set` changes how the digits
/// `0123456789` are shaped.
pub fn matrix_works(font: &[u8], set: NumeralSet) -> (b: bool)
    ensures
        b == spec_matrix_works(font@, set),
{
    let digits = "0123456789";
    proof {
        reveal_strlit("0123456789");
        assert(digits@ =~= digits_text());
    }
    let tags = tags_from_matrix(set);
    shapes_differently_with_features(font, digits, tags.as_slice())
}

/// The numeral sets whose features change nothing: the candidates for the
/// set that the font shows by default.
pub open spec fn unchanged_sets(font: Seq<u8>) -> Set<NumeralSet> {
    Set::new(|set: NumeralSet| !spec_matrix_works(font, set))
}

/// The font's default numeral set: where the features of exactly one set
/// change nothing, that set; else the set that the measurements of the
/// default figures tell. `None` where it cannot be told: the features do not
/// decide and the measurement failed.
pub open spec fn spec_default_numerals(font: Seq<u8>, measured: Option<NumeralSet>) -> Option<NumeralSet> {
    if unchanged_sets(font).len() == 1 {
        Some(unchanged_sets(font).choose())
    } else {
        measured
    }
}

/// All four numeral sets, in the order of the metrics.
pub open spec fn all_sets() -> Seq<NumeralSet> {
    seq![
        NumeralSet::ProportionalOldstyle,
        NumeralSet::TabularOldstyle,
        NumeralSet::ProportionalLining,
        NumeralSet::TabularLining,
    ]
}

/// The sets among the four whose flag is false.
spec fn sets_without(pon: bool, ton: bool, pln: bool, tln: bool) -> Set<NumeralSet> {
    let s0 = Set::<NumeralSet>::empty();
    let s1 = if pon { s0 } else { s0.insert(NumeralSet::ProportionalOldstyle) };
    let s2 = if ton { s1 } else { s1.insert(NumeralSet::TabularOldstyle) };
    let s3 = if pln { s2 } else { s2.insert(NumeralSet::ProportionalLining) };
    if tln { s3 } else { s3.insert(NumeralSet::TabularLining) }
}

proof fn lemma_unchanged_sets(font: Seq<u8>, pon: bool, ton: bool, pln: bool, tln: bool)
    requires
        pon == spec_matrix_works(font, NumeralSet::ProportionalOldstyle),
        ton == spec_matrix_works(font, NumeralSet::TabularOldstyle),
        pln == spec_matrix_works(font, NumeralSet::ProportionalLining),
        tln == spec_matrix_works(font, NumeralSet::TabularLining),
    ensures
        unchanged_sets(font) == sets_without(pon, ton, pln, tln),
{
    assert(unchanged_sets(font) =~= sets_without(pon, ton, pln, tln)) by {
        assert forall|set: NumeralSet| unchanged_sets(font).contains(set) <==> sets_without(
            pon,
            ton,
            pln,
            tln,
        ).contains(set) by {
            match set {
                NumeralSet::ProportionalOldstyle => {},
                NumeralSet::TabularOldstyle => {},
                NumeralSet::ProportionalLining => {},
                NumeralSet::TabularLining => {},
            }
        }
    }
}

/// Tells the font's default numeral set, one of the four (see
/// `spec_default_numerals`); `None` where it cannot be told. Where the
/// features decide, `measured` is not looked at.
pub fn default_numerals(font: &[u8], measured: Option<NumeralSet>) -> (d: Option<NumeralSet>)
    ensures
        d == spec_default_numerals(font@, measured),
{
    let pon = matrix_works(font, NumeralSet::ProportionalOldstyle);
    let ton = matrix_works(font, NumeralSet::TabularOldstyle);
    let pln = matrix_works(font, NumeralSet::ProportionalLining);
    let tln = matrix_works(font, NumeralSet::TabularLining);
    proof {
        lemma_unchanged_sets(font@, pon, ton, pln, tln);
    }
    let count = (if pon { 0usize } else { 1 }) + (if ton { 0usize } else { 1 }) + (if pln {
        0usize
    } else {
        1
    }) + (if tln { 0usize } else { 1 });
    if count == 1 {
        let set = if !pon {
            NumeralSet::ProportionalOldstyle
        } else if !ton {
            NumeralSet::TabularOldstyle
        } else if !pln {
            NumeralSet::ProportionalLining
        } else {
            NumeralSet::TabularLining
        };
        proof {
            let u = unchanged_sets(font@);
            assert(u =~= set![set]);
            assert(u.len() == 1);
            assert(u.contains(u.choose()));
        }
        Some(set)
    } else {
        proof {
            let u = unchanged_sets(font@);
            let s0 = Set::<NumeralSet>::empty();
            let s1 = if pon { s0 } else { s0.insert(NumeralSet::ProportionalOldstyle) };
            let s2 = if ton { s1 } else { s1.insert(NumeralSet::TabularOldstyle) };
            let s3 = if pln { s2 } else { s2.insert(NumeralSet::ProportionalLining) };
            assert(s1.len() == (if pon { 0int } else { 1 }));
            assert(s2.len() == s1.len() + (if ton { 0int } else { 1 }));
            assert(s3.len() == s2.len() + (if pln { 0int } else { 1 }));
            assert(u.len() == s3.len() + (if tln { 0int } else { 1 }));
        }
        measured
    }
}

/// The fractions that fonts commonly encode, tested with `frac`.
pub open spec fn encoded_fraction_texts() -> Seq<Seq<char>> {
    seq![
        "1/4"@, "1/2"@, "3/4"@, "1/7"@, "1/9"@, "1/10"@, "1/3"@, "2/3"@, "1/5"@, "2/5"@,
        "3/5"@, "4/5"@, "1/6"@, "5/6"@, "1/8"@, "3/8"@, "5/8"@, "7/8"@, "1/"@, "0/3"@,
    ]
}

/// Arbitrary fractions, which a complete `frac` feature should shape too.
pub open spec fn arbitrary_fraction_texts() -> Seq<Seq<char>> {
    seq!["12/99"@, "1/3"@, "1234/9876"@, "1/1234567890"@]
}

fn encoded_fractions() -> (v: Vec<&'static str>)
    ensures
        v@.map_values(|s: &str| s@) == encoded_fraction_texts(),
{
    let v = vec![
        "1/4", "1/2", "3/4", "1/7", "1/9", "1/10", "1/3", "2/3", "1/5", "2/5", "3/5", "4/5", "1/6",
        "5/6", "1/8", "3/8", "5/8", "7/8", "1/", "0/3",
    ];
    assert(v@.map_values(|s: &str| s@) =~= encoded_fraction_texts());
    v
}

fn arbitrary_fractions() -> (v: Vec<&'static str>)
    ensures
        v@.map_values(|s: &str| s@) == arbitrary_fraction_texts(),
{
    let v = vec!["12/99", "1/3", "1234/9876", "1/1234567890"];
    assert(v@.map_values(|s: &str| s@) =~= arbitrary_fraction_texts());
    v
}

/// How many of `texts` `frac` changes.
pub open spec fn count_frac_changed(font: Seq<u8>, texts: Seq<Seq<char>>) -> nat
    decreases texts.len(),
{
    if texts.len() == 0 {
        0
    } else {
        count_frac_changed(font, texts.drop_last()) + if spec_shapes_differently_with_features(
            font,
            texts.last(),
            seq![TAG_FRAC],
        ) {
            1nat
        } else {
            0nat
        }
    }
}

/// Counts how many of the texts `frac` changes.
fn count_changed_by_frac(font: &[u8], texts: &Vec<&'static str>) -> (n: usize)
    ensures
        n == count_frac_changed(font@, texts@.map_values(|s: &str| s@)),
        n <= texts.len(),
{
    let frac = vec![TAG_FRAC];
    let ghost all = texts@.map_values(|s: &str| s@);
    let mut n: usize = 0;
    let mut i: usize = 0;
    assert(all.take(0) =~= Seq::<Seq<char>>::empty());
    while i < texts.len()
        invariant
            i <= texts.len(),
            all == texts@.map_values(|s: &str| s@),
            frac@ == seq![TAG_FRAC],
            n == count_frac_changed(font@, all.take(i as int)),
            n <= i,
        decreases texts.len() - i,
    {
        assert(all.take(i + 1).drop_last() =~= all.take(i as int));
        assert(all.take(i + 1).last() == texts@[i as int]@);
        if shapes_differently_with_features(font, texts[i], frac.as_slice()) {
            n = n + 1;
        }
        i = i + 1;
    }
    assert(all.take(texts.len() as int) =~= all);
    n
}

/// `frac` shapes every arbitrary fraction.
pub open spec fn spec_arbitrary_fractions_work(font: Seq<u8>) -> bool {
    count_frac_changed(font, arbitrary_fraction_texts()) == arbitrary_fraction_texts().len()
}

/// One slashed-zero test: a text, features without `zero`, and the same
/// features with `zero`.
pub type ZeroCheck = (Seq<char>, Seq<u32>, Seq<u32>);

/// The slashed-zero tests that apply to a font: `zero` on its own; on top of
/// `sups` and of `sinf` where these change the `0`; and on top of `frac` in
/// `0/1` and `1/0` where `frac` shapes arbitrary fractions.
pub open spec fn zero_checks(font: Seq<u8>) -> Seq<ZeroCheck> {
    let basic: Seq<ZeroCheck> = seq![("0"@, Seq::empty(), seq![TAG_ZERO])];
    let with_sups: Seq<ZeroCheck> = if spec_shapes_differently_with_features(font, "0"@, seq![TAG_SUPS]) {
        basic.push(("0"@, seq![TAG_SUPS], seq![TAG_ZERO, TAG_SUPS]))
    } else {
        basic
    };
    let with_sinf: Seq<ZeroCheck> = if spec_shapes_differently_with_features(font, "0"@, seq![TAG_SINF]) {
        with_sups.push(("0"@, seq![TAG_SINF], seq![TAG_ZERO, TAG_SINF]))
    } else {
        with_sups
    };
    if spec_arbitrary_fractions_work(font) {
        with_sinf.push(("0/1"@, seq![TAG_FRAC], seq![TAG_ZERO, TAG_FRAC])).push(
            ("1/0"@, seq![TAG_FRAC], seq![TAG_ZERO, TAG_FRAC]),
        )
    } else {
        with_sinf
    }
}

/// How many of the tests see `zero` change the shaping.
pub open spec fn count_zero_changed(font: Seq<u8>, checks: Seq<ZeroCheck>) -> nat
    decreases checks.len(),
{
    if checks.len() == 0 {
        0
    } else {
        count_zero_changed(font, checks.drop_last()) + if spec_shapes_differently_between(
            font,
            checks.last().0,
            checks.last().1,
            checks.last().2,
        ) {
            1nat
        } else {
            0nat
        }
    }
}

/// What the measurements of the figures' outlines tell (see
/// `numeral_set_of`): with no features, and with the matrix of each set
/// switched on; `None` where a measurement failed.
#[derive(Clone, Copy, Debug, PartialEq, Eq, Structural)]
pub struct NumeralMeasurements {
    pub plain: Option<NumeralSet>,
    pub proportional_oldstyle: Option<NumeralSet>,
    pub tabular_oldstyle: Option<NumeralSet>,
    pub proportional_lining: Option<NumeralSet>,
    pub tabular_lining: Option<NumeralSet>,
}

/// The measurement taken with the matrix of `set` switched on.
pub open spec fn measured_with(m: NumeralMeasurements, set: NumeralSet) -> Option<NumeralSet> {
    match set {
        NumeralSet::ProportionalOldstyle => m.proportional_oldstyle,
        NumeralSet::TabularOldstyle => m.tabular_oldstyle,
        NumeralSet::ProportionalLining => m.proportional_lining,
        NumeralSet::TabularLining => m.tabular_lining,
    }
}

/// Whether the font has the numeral set `set`: it is the default one, or its
/// features change the digits and the figures they give measure as that set.
/// `None` where the features change the digits but the measurement failed.
/// An untold default (`None`) is no set, so it gives no set by itself.
pub open spec fn spec_has_set(
    font: Seq<u8>,
    m: NumeralMeasurements,
    default: Option<NumeralSet>,
    set: NumeralSet,
) -> Option<bool> {
    if spec_matrix_works(font, set) {
        match measured_with(m, set) {
            Some(s) => Some(s == set || default == Some(set)),
            None => None,
        }
    } else {
        Some(default == Some(set))
    }
}

/// Whether the font has `set` (see `spec_has_set`).
pub fn has_set(font: &[u8], m: &NumeralMeasurements, default: Option<NumeralSet>, set: NumeralSet) -> (r: Option<bool>)
    ensures
        r == spec_has_set(font@, *m, default, set),
{
    if matrix_works(font, set) {
        let measured = match set {
            NumeralSet::ProportionalOldstyle => m.proportional_oldstyle,
            NumeralSet::TabularOldstyle => m.tabular_oldstyle,
            NumeralSet::ProportionalLining => m.proportional_lining,
            NumeralSet::TabularLining => m.tabular_lining,
        };
        match measured {
            Some(s) => Some(s == set || default == Some(set)),
            None => None,
        }
    } else {
        Some(default == Some(set))
    }
}

/// The order in which the sets are reported: tabular oldstyle, proportional
/// oldstyle, proportional lining, tabular lining.
pub open spec fn report_order() -> Seq<NumeralSet> {
    seq![
        NumeralSet::TabularOldstyle,
        NumeralSet::ProportionalOldstyle,
        NumeralSet::ProportionalLining,
        NumeralSet::TabularLining,
    ]
}

/// The numeral metrics of a font.
#[derive(Clone, Copy, Debug, PartialEq, Eq, Structural)]
pub struct NumeralStyles {
    /// The numeral set shown without features; `None` where it cannot be
    /// told (see `spec_default_numerals`).
    pub default: Option<NumeralSet>,
    pub tabular_oldstyle: bool,
    pub proportional_oldstyle: bool,
    pub proportional_lining: bool,
    pub tabular_lining: bool,
    /// Digits that `sinf` changes.
    pub inferior: Ratio,
    /// Digits that `sups` changes.
    pub superior: Ratio,
    /// Encoded fractions that `frac` changes.
    pub encoded_fractions: Ratio,
    /// `frac` shapes arbitrary fractions.
    pub arbitrary_fractions: bool,
    /// Slashed-zero tests in which `zero` changes the shaping.
    pub slashed_zero: Ratio,
}

/// Why the numeral metrics could not all be told: the features of a set
/// change the digits but its figures could not be measured. What was told
/// before that is kept.
#[derive(Debug)]
pub struct NumeralStylesError {
    /// The default set, as in `NumeralStyles`.
    pub default: Option<NumeralSet>,
    /// Whether the font has each set before the failed one, in report order.
    pub decided: Vec<bool>,
    /// The set whose measurement failed.
    pub failed: NumeralSet,
}

/// The slashed-zero tests that apply, as exec values.
fn zero_check_list(font: &[u8], arbitrary: bool) -> (checks: Vec<(&'static str, Vec<u32>, Vec<u32>)>)
    requires
        arbitrary == spec_arbitrary_fractions_work(font@),
    ensures
        checks@.map_values(|c: (&str, Vec<u32>, Vec<u32>)| (c.0@, c.1@, c.2@)) == zero_checks(font@),
{
    let zero = "0";
    let zero_one = "0/1";
    let one_zero = "1/0";
    let empty: Vec<u32> = vec![];
    let z = vec![TAG_ZERO];
    assert(empty@ =~= Seq::<u32>::empty() && z@ =~= seq![TAG_ZERO]);
    let mut checks: Vec<(&'static str, Vec<u32>, Vec<u32>)> = vec![(zero, empty, z)];
    let ghost view = |c: (&str, Vec<u32>, Vec<u32>)| (c.0@, c.1@, c.2@);
    let ghost basic: Seq<ZeroCheck> = seq![("0"@, Seq::empty(), seq![TAG_ZERO])];
    assert(checks@.map_values(view) =~= basic);
    let sups = vec![TAG_SUPS];
    assert(sups@ =~= seq![TAG_SUPS]);
    let changed_by_sups = shapes_differently_with_features(font, zero, sups.as_slice());
    if changed_by_sups {
        let base = vec![TAG_SUPS];
        let with = vec![TAG_ZERO, TAG_SUPS];
        assert(base@ =~= seq![TAG_SUPS] && with@ =~= seq![TAG_ZERO, TAG_SUPS]);
        let ghost before = checks@;
        checks.push((zero, base, with));
        assert(checks@.map_values(view) =~= before.map_values(view).push(
            ("0"@, seq![TAG_SUPS], seq![TAG_ZERO, TAG_SUPS]),
        ));
    }
    let sinf = vec![TAG_SINF];
    assert(sinf@ =~= seq![TAG_SINF]);
    let changed_by_sinf = shapes_differently_with_features(font, zero, sinf.as_slice());
    if changed_by_sinf {
        let base = vec![TAG_SINF];
        let with = vec![TAG_ZERO, TAG_SINF];
        assert(base@ =~= seq![TAG_SINF] && with@ =~= seq![TAG_ZERO, TAG_SINF]);
        let ghost before = checks@;
        checks.push((zero, base, with));
        assert(checks@.map_values(view) =~= before.map_values(view).push(
            ("0"@, seq![TAG_SINF], seq![TAG_ZERO, TAG_SINF]),
        ));
    }
    if arbitrary {
        let base = vec![TAG_FRAC];
        let with = vec![TAG_ZERO, TAG_FRAC];
        assert(base@ =~= seq![TAG_FRAC] && with@ =~= seq![TAG_ZERO, TAG_FRAC]);
        let ghost before = checks@;
        checks.push((zero_one, base, with));
        assert(checks@.map_values(view) =~= before.map_values(view).push(
            ("0/1"@, seq![TAG_FRAC], seq![TAG_ZERO, TAG_FRAC]),
        ));
        let base = vec![TAG_FRAC];
        let with = vec![TAG_ZERO, TAG_FRAC];
        assert(base@ =~= seq![TAG_FRAC] && with@ =~= seq![TAG_ZERO, TAG_FRAC]);
        let ghost before = checks@;
        checks.push((one_zero, base, with));
        assert(checks@.map_values(view) =~= before.map_values(view).push(
            ("1/0"@, seq![TAG_FRAC], seq![TAG_ZERO, TAG_FRAC]),
        ));
    }
    assert(checks@.map_values(view) == zero_checks(font@));
    checks
}

/// Counts the slashed-zero tests in which `zero` changes the shaping.
fn count_zero_checks(font: &[u8], checks: &Vec<(&'static str, Vec<u32>, Vec<u32>)>) -> (n: usize)
    ensures
        n == count_zero_changed(font@, checks@.map_values(|c: (&str, Vec<u32>, Vec<u32>)| (c.0@, c.1@, c.2@))),
        n <= checks.len(),
{
    let ghost all = checks@.map_values(|c: (&str, Vec<u32>, Vec<u32>)| (c.0@, c.1@, c.2@));
    let mut n: usize = 0;
    let mut i: usize = 0;
    assert(all.take(0) =~= Seq::<ZeroCheck>::empty());
    while i < checks.len()
        invariant
            i <= checks.len(),
            all == checks@.map_values(|c: (&str, Vec<u32>, Vec<u32>)| (c.0@, c.1@, c.2@)),
            n == count_zero_changed(font@, all.take(i as int)),
            n <= i,
        decreases checks.len() - i,
    {
        assert(all.take(i + 1).drop_last() =~= all.take(i as int));
        let check = &checks[i];
        if shapes_differently_between(font, check.0, check.1.as_slice(), check.2.as_slice()) {
            n = n + 1;
        }
        i = i + 1;
    }
    assert(all.take(checks.len() as int) =~= all);
    n
}

/// Reports the font's numeral metrics: its default numerals (see
/// `spec_default_numerals`), which of the four sets it has (see
/// `spec_has_set`), how many digits `sinf` and `sups` change, how many of the
/// commonly encoded fractions `frac` changes, whether it shapes arbitrary
/// fractions, and in how many of the slashed-zero tests `zero` changes the
/// shaping.
///
/// Fails only at the first set, in report order, whose features change the
/// digits but whose figures could not be measured; an untold default is
/// reported as `None` and the rest is told all the same.
pub fn get_numeral_styles(font: &[u8], m: &NumeralMeasurements) -> (r: Result<NumeralStyles, NumeralStylesError>)
    ensures
        ({
            let default = spec_default_numerals(font@, m.plain);
            let has = |set: NumeralSet| spec_has_set(font@, *m, default, set);
            &&& r is Err <==> exists|i: int| 0 <= i < 4 && (#[trigger] has(report_order()[i])) is None
            &&& r matches Err(e) ==> {
                &&& e.default == default
                &&& has(e.failed) is None
                &&& e.decided@.len() < 4
                &&& e.failed == report_order()[e.decided@.len() as int]
                &&& forall|i: int| 0 <= i < e.decided@.len() ==> has(report_order()[i]) == Some(
                    #[trigger] e.decided@[i],
                )
            }
            &&& r matches Ok(s) ==> {
                &&& s.default == default
                &&& Some(s.tabular_oldstyle) == has(NumeralSet::TabularOldstyle)
                &&& Some(s.proportional_oldstyle) == has(NumeralSet::ProportionalOldstyle)
                &&& Some(s.proportional_lining) == has(NumeralSet::ProportionalLining)
                &&& Some(s.tabular_lining) == has(NumeralSet::TabularLining)
                &&& s.inferior.total == font_chars_in_class(font@, CharClass::AsciiDigit).len()
                &&& s.inferior.hits == count_changed(
                    font@,
                    font_chars_in_class(font@, CharClass::AsciiDigit),
                    TAG_SINF,
                )
                &&& s.superior.total == font_chars_in_class(font@, CharClass::AsciiDigit).len()
                &&& s.superior.hits == count_changed(
                    font@,
                    font_chars_in_class(font@, CharClass::AsciiDigit),
                    TAG_SUPS,
                )
                &&& s.encoded_fractions.total == 20
                &&& s.encoded_fractions.hits == count_frac_changed(font@, encoded_fraction_texts())
                &&& s.arbitrary_fractions == spec_arbitrary_fractions_work(font@)
                &&& s.slashed_zero.total == zero_checks(font@).len()
                &&& s.slashed_zero.hits == count_zero_changed(font@, zero_checks(font@))
            }
        }),
{
    let arbitrary_list = arbitrary_fractions();
    let arbitrary = count_changed_by_frac(font, &arbitrary_list) == arbitrary_list.len();
    let encoded_list = encoded_fractions();
    let encoded_hits = count_changed_by_frac(font, &encoded_list);
    let checks = zero_check_list(font, arbitrary);
    let zero_hits = count_zero_checks(font, &checks);
    let default = default_numerals(font, m.plain);
    let ghost has = |set: NumeralSet| spec_has_set(font@, *m, default, set);
    let mut decided: Vec<bool> = Vec::new();
    let ton = match has_set(font, m, default, NumeralSet::TabularOldstyle) {
        Some(b) => b,
        None => {
            return Err(NumeralStylesError { default, decided, failed: NumeralSet::TabularOldstyle });
        },
    };
    decided.push(ton);
    let pon = match has_set(font, m, default, NumeralSet::ProportionalOldstyle) {
        Some(b) => b,
        None => {
            return Err(NumeralStylesError { default, decided, failed: NumeralSet::ProportionalOldstyle });
        },
    };
    decided.push(pon);
    let pln = match has_set(font, m, default, NumeralSet::ProportionalLining) {
        Some(b) => b,
        None => {
            return Err(NumeralStylesError { default, decided, failed: NumeralSet::ProportionalLining });
        },
    };
    decided.push(pln);
    let tln = match has_set(font, m, default, NumeralSet::TabularLining) {
        Some(b) => b,
        None => {
            assert(has(report_order()[3]) is None);
            return Err(NumeralStylesError { default, decided, failed: NumeralSet::TabularLining });
        },
    };
    let inferior = ratio_of_different_shapes(font, CharClass::AsciiDigit, TAG_SINF);
    let superior = ratio_of_different_shapes(font, CharClass::AsciiDigit, TAG_SUPS);
    Ok(NumeralStyles {
        default,
        tabular_oldstyle: ton,
        proportional_oldstyle: pon,
        proportional_lining: pln,
        tabular_lining: tln,
        inferior,
        superior,
        encoded_fractions: Ratio { hits: encoded_hits, total: encoded_list.len() },
        arbitrary_fractions: arbitrary,
        slashed_zero: Ratio { hits: zero_hits, total: checks.len() },
    })
}

/// Each pair of style and spacing makes its own numeral set, and every set is
/// made by one.
pub proof fn lemma_numeral_set_of_is_bijective(o1: bool, t1: bool, o2: bool, t2: bool, set: NumeralSet)
    ensures
        spec_numeral_set_of(o1, t1) == spec_numeral_set_of(o2, t2) ==> o1 == o2 && t1 == t2,
        exists|o: bool, t: bool| spec_numeral_set_of(o, t) == set,
{
    match set {
        NumeralSet::ProportionalOldstyle => assert(spec_numeral_set_of(true, false) == set),
        NumeralSet::TabularOldstyle => assert(spec_numeral_set_of(true, true) == set),
        NumeralSet::ProportionalLining => assert(spec_numeral_set_of(false, false) == set),
        NumeralSet::TabularLining => assert(spec_numeral_set_of(false, true) == set),
    }
}

/// The font's default numeral set is never reported as missing: either it is
/// reported as present, or telling failed.
pub proof fn lemma_default_set_is_available(font: Seq<u8>, m: NumeralMeasurements, set: NumeralSet)
    requires
        spec_default_numerals(font, m.plain) == Some(set),
    ensures
        spec_has_set(font, m, Some(set), set) != Some(false),
{
}

/// Where the features of exactly one numeral set change nothing, that set is
/// the default one, whatever the measurements say.
pub proof fn lemma_only_unchanged_set_is_default(
    font: Seq<u8>,
    measured: Option<NumeralSet>,
    set: NumeralSet,
)
    requires
        !spec_matrix_works(font, set),
        forall|other: NumeralSet| other != set ==> spec_matrix_works(font, other),
    ensures
        spec_default_numerals(font, measured) == Some(set),
{
    let pon = spec_matrix_works(font, NumeralSet::ProportionalOldstyle);
    let ton = spec_matrix_works(font, NumeralSet::TabularOldstyle);
    let pln = spec_matrix_works(font, NumeralSet::ProportionalLining);
    let tln = spec_matrix_works(font, NumeralSet::TabularLining);
    lemma_unchanged_sets(font, pon, ton, pln, tln);
    let u = unchanged_sets(font);
    assert(u =~= set![set]) by {
        assert forall|x: NumeralSet| u.contains(x) <==> x == set by {}
    }
    assert(u.len() == 1);
    assert(u.contains(u.choose()));
}

/// The fraction counts never exceed the number of fractions tested.
pub proof fn lemma_count_frac_changed_bounded(font: Seq<u8>, texts: Seq<Seq<char>>)
    ensures
        count_frac_changed(font, texts) <= texts.len(),
    decreases texts.len(),
{
    if texts.len() > 0 {
        lemma_count_frac_changed_bounded(font, texts.drop_last());
    }
}

/// The basic `zero` test always applies, and at most five do.
pub proof fn lemma_zero_checks_between_one_and_five(font: Seq<u8>)
    ensures
        1 <= zero_checks(font).len() <= 5,
        count_zero_changed(font, zero_checks(font)) <= zero_checks(font).len(),
{
    lemma_count_zero_changed_bounded(font, zero_checks(font));
}

proof fn lemma_count_zero_changed_bounded(font: Seq<u8>, checks: Seq<ZeroCheck>)
    ensures
        count_zero_changed(font, checks) <= checks.len(),
    decreases checks.len(),
{
    if checks.len() > 0 {
        lemma_count_zero_changed_bounded(font, checks.drop_last());
    }
}

/// The default set is always told where the default figures were measured:
/// only a failed measurement leaves it untold.
pub proof fn lemma_default_told_when_measured(font: Seq<u8>, measured: Option<NumeralSet>)
    ensures
        spec_default_numerals(font, measured) is None ==> measured is None,
{
}

/// A set whose features change nothing never makes telling fail, whatever
/// the default and the measurements: only a set whose features change the
/// digits, and whose figures could not be measured, does.
pub proof fn lemma_only_unmeasured_working_set_fails(
    font: Seq<u8>,
    m: NumeralMeasurements,
    default: Option<NumeralSet>,
    set: NumeralSet,
)
    ensures
        spec_has_set(font, m, default, set) is None <==> spec_matrix_works(font, set) && measured_with(
            m,
            set,
        ) is None,
{
}

/// A set is reported present only where it is the default one, or where its
/// features change the digits and the figures they give measure as that very
/// set, in style and in spacing alike; and then it always is (unless its
/// measurement failed). A set whose features work but whose figures measure
/// as another set, and which is not the default, is reported missing.
pub proof fn lemma_set_present_only_as_measured_or_default(
    font: Seq<u8>,
    m: NumeralMeasurements,
    default: Option<NumeralSet>,
    set: NumeralSet,
)
    ensures
        spec_has_set(font, m, default, set) == Some(true) ==> default == Some(set) || (
        spec_matrix_works(font, set) && measured_with(m, set) == Some(set)),
        spec_matrix_works(font, set) && measured_with(m, set) == Some(set) ==> spec_has_set(
            font,
            m,
            default,
            set,
        ) == Some(true),
        spec_matrix_works(font, set) && (measured_with(m, set) matches Some(other) && other != set)
            && default != Some(set) ==> spec_has_set(font, m, default, set) == Some(false),
        !spec_matrix_works(font, set) ==> spec_has_set(font, m, default, set) == Some(
            default == Some(set),
        ),
{
}

proof fn lemma_frac_count_full(font: Seq<u8>, texts: Seq<Seq<char>>)
    ensures
        count_frac_changed(font, texts) == texts.len() <==> forall|i: int|
            0 <= i < texts.len() ==> spec_shapes_differently_with_features(
                font,
                #[trigger] texts[i],
                seq![TAG_FRAC],
            ),
    decreases texts.len(),
{
    if texts.len() > 0 {
        let rest = texts.drop_last();
        lemma_frac_count_full(font, rest);
        lemma_count_frac_changed_bounded(font, rest);
        assert(texts.last() == texts[texts.len() - 1]);
        if forall|i: int|
            0 <= i < texts.len() ==> spec_shapes_differently_with_features(
                font,
                #[trigger] texts[i],
                seq![TAG_FRAC],
            ) {
            assert forall|i: int| 0 <= i < rest.len() implies spec_shapes_differently_with_features(
                font,
                #[trigger] rest[i],
                seq![TAG_FRAC],
            ) by {
                assert(rest[i] == texts[i]);
            }
        }
        if count_frac_changed(font, texts) == texts.len() {
            assert forall|i: int| 0 <= i < texts.len() implies spec_shapes_differently_with_features(
                font,
                #[trigger] texts[i],
                seq![TAG_FRAC],
            ) by {
                if i < rest.len() {
                    assert(rest[i] == texts[i]);
                }
            }
        }
    }
}

/// `frac` is said to shape arbitrary fractions exactly when it changes the
/// shaping of each of `12/99`, `1/3`, `1234/9876` and `1/1234567890`: one
/// fraction it leaves alone is enough to deny it.
pub proof fn lemma_arbitrary_fractions_all_shaped(font: Seq<u8>)
    ensures
        spec_arbitrary_fractions_work(font) <==> {
            &&& spec_shapes_differently_with_features(font, "12/99"@, seq![TAG_FRAC])
            &&& spec_shapes_differently_with_features(font, "1/3"@, seq![TAG_FRAC])
            &&& spec_shapes_differently_with_features(font, "1234/9876"@, seq![TAG_FRAC])
            &&& spec_shapes_differently_with_features(font, "1/1234567890"@, seq![TAG_FRAC])
        },
{
    let texts = arbitrary_fraction_texts();
    lemma_frac_count_full(font, texts);
    assert(texts[0] == "12/99"@ && texts[1] == "1/3"@ && texts[2] == "1234/9876"@ && texts[3]
        == "1/1234567890"@);
}

/// Each slashed-zero test compares a text shaped with some features against
/// the same text with exactly `zero` added to them, so it counts only what
/// `zero` itself changes; the first test is `0` with `zero` alone.
pub proof fn lemma_zero_checks_add_only_zero(font: Seq<u8>)
    ensures
        zero_checks(font).len() >= 1,
        zero_checks(font)[0] == ("0"@, Seq::<u32>::empty(), seq![TAG_ZERO]),
        forall|i: int|
            0 <= i < zero_checks(font).len() ==> (#[trigger] zero_checks(font)[i]).2 == seq![TAG_ZERO]
                + zero_checks(font)[i].1,
{
    let zs = zero_checks(font);
    assert forall|i: int| 0 <= i < zs.len() implies (#[trigger] zs[i]).2 == seq![TAG_ZERO]
        + zs[i].1 by {
        assert(seq![TAG_ZERO] + Seq::<u32>::empty() =~= seq![TAG_ZERO]);
        assert(seq![TAG_ZERO] + seq![TAG_SUPS] =~= seq![TAG_ZERO, TAG_SUPS]);
        assert(seq![TAG_ZERO] + seq![TAG_SINF] =~= seq![TAG_ZERO, TAG_SINF]);
        assert(seq![TAG_ZERO] + seq![TAG_FRAC] =~= seq![TAG_ZERO, TAG_FRAC]);
    }
}

/// The texts among `texts` whose shaping `frac` changes.
pub open spec fn frac_changed_texts(font: Seq<u8>, texts: Seq<Seq<char>>) -> Seq<Seq<char>> {
    texts.filter(|t: Seq<char>| spec_shapes_differently_with_features(font, t, seq![TAG_FRAC]))
}

/// The fraction counts are the number of fractions, among those tested,
/// whose shaping `frac` changes: no more, no fewer.
pub proof fn lemma_frac_count_is_changed_texts(font: Seq<u8>, texts: Seq<Seq<char>>)
    ensures
        count_frac_changed(font, texts) == frac_changed_texts(font, texts).len(),
    decreases texts.len(),
{
    reveal(Seq::filter);
    if texts.len() > 0 {
        lemma_frac_count_is_changed_texts(font, texts.drop_last());
    }
}

/// The slashed-zero tests in which adding `zero` changes the shaping.
pub open spec fn zero_changed_checks(font: Seq<u8>, checks: Seq<ZeroCheck>) -> Seq<ZeroCheck> {
    checks.filter(|c: ZeroCheck| spec_shaped_glyphs(font, c.0, c.1) != spec_shaped_glyphs(font, c.0, c.2))
}

/// The slashed-zero count is the number of tests whose two shapings differ.
pub proof fn lemma_zero_count_is_changed_checks(font: Seq<u8>, checks: Seq<ZeroCheck>)
    ensures
        count_zero_changed(font, checks) == zero_changed_checks(font, checks).len(),
    decreases checks.len(),
{
    reveal(Seq::filter);
    if checks.len() > 0 {
        lemma_zero_count_is_changed_checks(font, checks.drop_last());
    }
}

} // verus!
