//! Appearance metrics on the lowercase `a` and `g`: whether they are single-
//! or double-story.
use vstd::prelude::*;

verus! {

/// A single-story or a double-story letter.
#[derive(Clone, Copy, Debug, PartialEq, Eq, Structural)]
pub enum StoryStyle {
    SingleStory,
    DoubleStory,
}

/// The text under which a story style is reported.
pub open spec fn story_style_name(style: StoryStyle) -> Seq<char> {
    match style {
        StoryStyle::SingleStory => "single_story"@,
        StoryStyle::DoubleStory => "double_story"@,
    }
}

/// The name of a story style: `single_story` or `double_story`.
pub fn story_style_to_string(style: StoryStyle) -> (s: String)
    ensures
        s@ == story_style_name(style),
{
    proof {
        reveal_strlit("single_story");
        reveal_strlit("double_story");
    }
    match style {
        StoryStyle::SingleStory => String::from_str("single_story"),
        StoryStyle::DoubleStory => String::from_str("double_story"),
    }
}

/// The story of a letter can only be told in a font known to be neither a
/// stencil nor a unicase font: where either is unknown, or true, the letter
/// is too complex to judge.
pub open spec fn spec_story_can_be_told(stencil: Option<bool>, unicase: Option<bool>) -> bool {
    stencil == Some(false) && unicase == Some(false)
}

/// Whether the story of a letter can be told, given what the stencil and
/// unicase metrics reported.
pub fn story_can_be_told(stencil: Option<bool>, unicase: Option<bool>) -> (b: bool)
    ensures
        b == spec_story_can_be_told(stencil, unicase),
{
    match (stencil, unicase) {
        (Some(s), Some(u)) => !s && !u,
        _ => false,
    }
}

/// The story of a `g` from the number of contours of its outline once
/// overlaps are removed: two is a single story, three a double story; any
/// other count tells nothing.
pub open spec fn spec_g_style(contours: usize) -> Option<StoryStyle> {
    if contours == 2 {
        Some(StoryStyle::SingleStory)
    } else if contours == 3 {
        Some(StoryStyle::DoubleStory)
    } else {
        None
    }
}

/// The story of the lowercase `g`, from the contours of its outline.
pub fn g_style(contours: usize) -> (style: Option<StoryStyle>)
    ensures
        style == spec_g_style(contours),
{
    if contours == 2 {
        Some(StoryStyle::SingleStory)
    } else if contours == 3 {
        Some(StoryStyle::DoubleStory)
    } else {
        None
    }
}

/// The `a` test compares the lengths of the two contours of the letter, so it
/// needs exactly two.
pub open spec fn spec_a_style_measurable(contours: usize) -> bool {
    contours == 2
}

/// Whether the outline of the `a` (overlaps removed) can be measured.
pub fn a_style_measurable(contours: usize) -> (b: bool)
    ensures
        b == spec_a_style_measurable(contours),
{
    contours == 2
}

/// A story is told of the `g` only for two or three contours, and a double
/// story only for three.
pub proof fn lemma_g_style_decided_only_by_two_or_three(contours: usize)
    ensures
        spec_g_style(contours) is Some <==> (contours == 2 || contours == 3),
        spec_g_style(contours) == Some(StoryStyle::DoubleStory) ==> contours == 3,
{
}

} // verus!
