//! Shaping short strings with `harfrust`, and telling whether OpenType
//! features change what the shaper makes of them.
use vstd::prelude::*;
use crate::casing::{in_class, CharClass, char_in_class};
use crate::font::{font_codepoints, spec_codepoints};

verus! {

/// The glyph ids that `harfrust` shapes `text` into with the font read from
/// `font` and the given features switched on; `None` where the font cannot
/// be read.
pub uninterp spec fn spec_shaped_glyphs(font: Seq<u8>, text: Seq<char>, features: Seq<u32>) -> Option<
    Seq<u32>,
>;

/// Shapes `text` with `harfrust` (`Font::new`, `Buffer::push_str`,
/// `Buffer::guess_segment_properties`, `shape`), each feature tag switched on
/// (value 1) for the whole text, and gives the glyph id of each resulting
/// glyph. Claimed: the result is a function of the bytes, the text and the
/// features (`None` where `Font::new` refuses the bytes or `shape` reports an
/// error); which glyphs come out is left to the shaper.
#[verifier::external_body]
fn shape(font: &[u8], text: &str, features: &[u32]) -> (glyphs: Option<Vec<u32>>)
    ensures
        glyphs is Some <==> spec_shaped_glyphs(font@, text@, features@) is Some,
        glyphs matches Some(g) ==> spec_shaped_glyphs(font@, text@, features@) == Some(g@),
{
    let font = harfrust::Font::new(font.to_vec(), 0)?;
    let features: Vec<harfrust::Feature> =
        features.iter().map(|t| harfrust::Feature::new(harfrust::Tag::from_u32(*t), 1, ..)).collect();
    let mut buffer = harfrust::Buffer::new();
    buffer.push_str(text);
    buffer.guess_segment_properties();
    let options = harfrust::ShapeOptions::new().features(&features);
    harfrust::shape(&harfrust::ShaperFont::new(&font), &mut buffer, options).ok()?;
    Some(buffer.glyph_infos().iter().map(|info| info.glyph_id).collect())
}

/// Whether two glyph sequences are the same.
fn same_glyphs(a: &Vec<u32>, b: &Vec<u32>) -> (same: bool)
    ensures
        same == (a@ == b@),
{
    if a.len() != b.len() {
        return false;
    }
    let mut i: usize = 0;
    while i < a.len()
        invariant
            a.len() == b.len(),
            i <= a.len(),
            forall|j: int| 0 <= j < i ==> a@[j] == b@[j],
        decreases a.len() - i,
    {
        if a[i] != b[i] {
            return false;
        }
        i = i + 1;
    }
    assert(a@ =~= b@);
    true
}

/// The shaper makes different glyphs of `text` with the features `base` than
/// with the features `with`.
pub open spec fn spec_shapes_differently_between(
    font: Seq<u8>,
    text: Seq<char>,
    base: Seq<u32>,
    with: Seq<u32>,
) -> bool {
    spec_shaped_glyphs(font, text, base) != spec_shaped_glyphs(font, text, with)
}

/// The shaper makes different glyphs of `text` with `features` switched on
/// than with none.
pub open spec fn spec_shapes_differently_with_features(
    font: Seq<u8>,
    text: Seq<char>,
    features: Seq<u32>,
) -> bool {
    spec_shapes_differently_between(font, text, Seq::empty(), features)
}

/// Whether shaping `text` with the features `base` and with the features
/// `with` gives different glyphs.
pub fn shapes_differently_between(font: &[u8], text: &str, base: &[u32], with: &[u32]) -> (r: bool)
    ensures
        r == spec_shapes_differently_between(font@, text@, base@, with@),
{
    let a = shape(font, text, base);
    let b = shape(font, text, with);
    match (a, b) {
        (Some(x), Some(y)) => !same_glyphs(&x, &y),
        (None, None) => false,
        _ => true,
    }
}

/// Whether switching `features` on changes the glyphs that `text` is shaped into.
pub fn shapes_differently_with_features(font: &[u8], text: &str, features: &[u32]) -> (r: bool)
    ensures
        r == spec_shapes_differently_with_features(font@, text@, features@),
{
    let none: Vec<u32> = Vec::new();
    assert(none@ =~= Seq::<u32>::empty());
    shapes_differently_between(font, text, none.as_slice(), features)
}

/// The first glyph that `text` is shaped into.
pub open spec fn spec_first_glyph(font: Seq<u8>, text: Seq<char>, features: Seq<u32>) -> Option<u32> {
    match spec_shaped_glyphs(font, text, features) {
        Some(g) => if g.len() > 0 {
            Some(g[0])
        } else {
            None
        },
        None => None,
    }
}

/// The glyph id of the first glyph that `text` is shaped into with
/// `features`, if there is one (for a single numeral, its glyph).
pub fn shaped_first_glyph(font: &[u8], text: &str, features: &[u32]) -> (g: Option<u32>)
    ensures
        g == spec_first_glyph(font@, text@, features@),
{
    match shape(font, text, features) {
        Some(glyphs) => if glyphs.len() > 0 {
            Some(glyphs[0])
        } else {
            None
        },
        None => None,
    }
}

/// A count out of a total.
#[derive(Clone, Copy, Debug, PartialEq, Eq, Structural)]
pub struct Ratio {
    pub hits: usize,
    pub total: usize,
}

/// The text made of one character.
pub open spec fn one_char(c: char) -> Seq<char> {
    seq![c]
}

/// The characters of the code points in `cps` that are scalar values and
/// belong to `class`, in order.
pub open spec fn chars_in_class(cps: Seq<u32>, class: CharClass) -> Seq<char>
    decreases cps.len(),
{
    if cps.len() == 0 {
        Seq::empty()
    } else {
        let rest = chars_in_class(cps.drop_last(), class);
        let v = cps.last();
        if crate::unicode::is_scalar_value(v) && in_class(class, v as char) {
            rest.push(v as char)
        } else {
            rest
        }
    }
}

/// How many of `chars` are shaped differently with `tag` switched on.
pub open spec fn count_changed(font: Seq<u8>, chars: Seq<char>, tag: u32) -> nat
    decreases chars.len(),
{
    if chars.len() == 0 {
        0
    } else {
        count_changed(font, chars.drop_last(), tag) + if spec_shapes_differently_with_features(
            font,
            one_char(chars.last()),
            seq![tag],
        ) {
            1nat
        } else {
            0nat
        }
    }
}

/// The characters of the font (each code point of its character map once)
/// that belong to `class`.
pub open spec fn font_chars_in_class(font: Seq<u8>, class: CharClass) -> Seq<char> {
    chars_in_class(spec_codepoints(font), class)
}

/// Of the font's characters that belong to `class`, how many are shaped into
/// other glyphs when the feature `tag` is switched on, out of how many.
pub fn ratio_of_different_shapes(font: &[u8], class: CharClass, tag: u32) -> (r: Ratio)
    ensures
        r.total == font_chars_in_class(font@, class).len(),
        r.hits == count_changed(font@, font_chars_in_class(font@, class), tag),
        r.hits <= r.total,
{
    let cps = font_codepoints(font);
    let features: Vec<u32> = vec![tag];
    let n = cps.len();
    let mut hits: usize = 0;
    let mut total: usize = 0;
    let mut i: usize = 0;
    let ghost mut chars: Seq<char> = Seq::empty();
    assert(cps@.take(0) =~= Seq::<u32>::empty());
    while i < n
        invariant
            n == cps@.len(),
            cps@ == spec_codepoints(font@),
            features@ == seq![tag],
            i <= n,
            chars == chars_in_class(cps@.take(i as int), class),
            total == chars.len(),
            hits == count_changed(font@, chars, tag),
            hits <= total <= i,
        decreases n - i,
    {
        let cp = cps[i];
        assert(cps@.take(i + 1).drop_last() =~= cps@.take(i as int));
        assert(cps@.take(i + 1).last() == cp);
        if let Some(c) = core::char::from_u32(cp) {
            if char_in_class(class, c) {
                let mut text = String::new();
                text.push(c);
                assert(text@ =~= one_char(c));
                if shapes_differently_with_features(font, text.as_str(), features.as_slice()) {
                    hits = hits + 1;
                }
                total = total + 1;
                proof {
                    assert(chars.push(c).drop_last() =~= chars);
                    chars = chars.push(c);
                }
            }
        }
        i = i + 1;
    }
    assert(cps@.take(n as int) =~= cps@);
    Ratio { hits, total }
}

/// Shaping with the same features twice never counts as a difference.
pub proof fn lemma_same_features_shape_alike(font: Seq<u8>, text: Seq<char>, features: Seq<u32>)
    ensures
        !spec_shapes_differently_between(font, text, features, features),
{
}

/// Whether two feature sets shape a text differently does not depend on
/// which of them is taken as the base.
pub proof fn lemma_shapes_differently_symmetric(
    font: Seq<u8>,
    text: Seq<char>,
    a: Seq<u32>,
    b: Seq<u32>,
)
    ensures
        spec_shapes_differently_between(font, text, a, b) == spec_shapes_differently_between(
            font,
            text,
            b,
            a,
        ),
{
}

/// Switching no feature on changes nothing.
pub proof fn lemma_no_features_change_nothing(font: Seq<u8>, text: Seq<char>)
    ensures
        !spec_shapes_differently_with_features(font, text, Seq::empty()),
{
}

/// A character counts as changed at most once: the count never exceeds the
/// number of characters.
pub proof fn lemma_count_changed_bounded(font: Seq<u8>, chars: Seq<char>, tag: u32)
    ensures
        count_changed(font, chars, tag) <= chars.len(),
    decreases chars.len(),
{
    if chars.len() > 0 {
        lemma_count_changed_bounded(font, chars.drop_last(), tag);
    }
}

} // verus!
