//! Character classification used by the casing and numeral metrics.
use vstd::prelude::*;
use unicode_normalization::UnicodeNormalization;
use unicode_properties::UnicodeGeneralCategory;

verus! {

/// The Unicode scalar values: every code point but the surrogates.
pub open spec fn is_scalar_value(v: u32) -> bool {
    v < 0xD800 || (0xDFFF < v && v <= 0x10FFFF)
}

/// `char::from_u32` gives back the character with the given code point, and
/// `None` where the value is not a Unicode scalar value, as its
/// documentation says.
pub assume_specification[ core::char::from_u32 ](i: u32) -> (r: Option<char>)
    ensures
        r is Some <==> is_scalar_value(i),
        r matches Some(c) ==> c as u32 == i && c == i as char,
;

/// `String::push` appends the given character to the end of the string, as
/// its documentation says.
pub assume_specification[ std::string::String::push ](s: &mut String, ch: char)
    ensures
        final(s)@ == old(s)@.push(ch),
;

/// Position of a character's general category in the declaration of
/// `unicode_properties::GeneralCategory` (`Lu` is 0, `Ll` is 1, ..., `Cn` is 29).
pub uninterp spec fn spec_general_category_index(c: char) -> u8;

/// Calls `UnicodeGeneralCategory::general_category` of `unicode_properties`.
/// Claimed: the result is the declaration position of the category that the
/// crate's tables give to `c`, one of its 30 variants; which category that is
/// for a given character is left to the crate's tables.
#[verifier::external_body]
fn general_category_index(c: char) -> (i: u8)
    ensures
        i == spec_general_category_index(c),
        i < 30,
{
    c.general_category() as u8
}

/// Number of characters in the canonical decomposition (NFD) of a character.
pub uninterp spec fn spec_nfd_len(c: char) -> nat;

/// Calls `UnicodeNormalization::nfd` of `unicode_normalization` on the
/// one-character string `c` and counts what it yields. Claimed: the count is a
/// function of `c` alone; how long each decomposition is, is left to the
/// crate's tables.
#[verifier::external_body]
pub(crate) fn nfd_len(c: char) -> (n: usize)
    ensures
        n as nat == spec_nfd_len(c),
{
    String::from(c).nfd().count()
}

} // verus!

verus! {

/// `char::is_lowercase`: whether a character has the Unicode `Lowercase` property.
pub uninterp spec fn spec_is_lowercase(c: char) -> bool;

/// Calls `char::is_lowercase` of std. Claimed: the answer is a function of
/// `c` alone; which characters have the property is left to std's tables.
#[verifier::external_body]
pub(crate) fn is_lowercase(c: char) -> (b: bool)
    ensures
        b == spec_is_lowercase(c),
{
    c.is_lowercase()
}

/// `char::is_uppercase`: whether a character has the Unicode `Uppercase` property.
pub uninterp spec fn spec_is_uppercase(c: char) -> bool;

/// Calls `char::is_uppercase` of std. Claimed: the answer is a function of
/// `c` alone; which characters have the property is left to std's tables.
#[verifier::external_body]
pub(crate) fn is_uppercase(c: char) -> (b: bool)
    ensures
        b == spec_is_uppercase(c),
{
    c.is_uppercase()
}

/// An ASCII decimal digit, `'0'..='9'`.
pub open spec fn spec_is_ascii_digit(c: char) -> bool {
    '0' <= c && c <= '9'
}

/// Whether `c` is an ASCII decimal digit (what `char::is_ascii_digit` answers).
pub fn is_ascii_digit(c: char) -> (b: bool)
    ensures
        b == spec_is_ascii_digit(c),
{
    '0' <= c && c <= '9'
}

/// The Unicode general categories, in the order of the Unicode standard.
#[derive(Clone, Copy, Debug, PartialEq, Eq, Structural)]
pub enum GeneralCategory {
    UppercaseLetter,
    LowercaseLetter,
    TitlecaseLetter,
    ModifierLetter,
    OtherLetter,
    NonspacingMark,
    SpacingMark,
    EnclosingMark,
    DecimalNumber,
    LetterNumber,
    OtherNumber,
    ConnectorPunctuation,
    DashPunctuation,
    OpenPunctuation,
    ClosePunctuation,
    InitialPunctuation,
    FinalPunctuation,
    OtherPunctuation,
    MathSymbol,
    CurrencySymbol,
    ModifierSymbol,
    OtherSymbol,
    SpaceSeparator,
    LineSeparator,
    ParagraphSeparator,
    Control,
    Format,
    Surrogate,
    PrivateUse,
    Unassigned,
}

/// The groups of general categories (the first letter of their abbreviation).
#[derive(Clone, Copy, Debug, PartialEq, Eq, Structural)]
pub enum GeneralCategoryGroup {
    Letter,
    Mark,
    Number,
    Punctuation,
    Symbol,
    Separator,
    Other,
}

/// The category at a given position of the standard order.
pub open spec fn category_at(i: u8) -> GeneralCategory {
    match i {
        0u8 => GeneralCategory::UppercaseLetter,
        1u8 => GeneralCategory::LowercaseLetter,
        2u8 => GeneralCategory::TitlecaseLetter,
        3u8 => GeneralCategory::ModifierLetter,
        4u8 => GeneralCategory::OtherLetter,
        5u8 => GeneralCategory::NonspacingMark,
        6u8 => GeneralCategory::SpacingMark,
        7u8 => GeneralCategory::EnclosingMark,
        8u8 => GeneralCategory::DecimalNumber,
        9u8 => GeneralCategory::LetterNumber,
        10u8 => GeneralCategory::OtherNumber,
        11u8 => GeneralCategory::ConnectorPunctuation,
        12u8 => GeneralCategory::DashPunctuation,
        13u8 => GeneralCategory::OpenPunctuation,
        14u8 => GeneralCategory::ClosePunctuation,
        15u8 => GeneralCategory::InitialPunctuation,
        16u8 => GeneralCategory::FinalPunctuation,
        17u8 => GeneralCategory::OtherPunctuation,
        18u8 => GeneralCategory::MathSymbol,
        19u8 => GeneralCategory::CurrencySymbol,
        20u8 => GeneralCategory::ModifierSymbol,
        21u8 => GeneralCategory::OtherSymbol,
        22u8 => GeneralCategory::SpaceSeparator,
        23u8 => GeneralCategory::LineSeparator,
        24u8 => GeneralCategory::ParagraphSeparator,
        25u8 => GeneralCategory::Control,
        26u8 => GeneralCategory::Format,
        27u8 => GeneralCategory::Surrogate,
        28u8 => GeneralCategory::PrivateUse,
        _ => GeneralCategory::Unassigned,
    }
}

/// The general category of a character.
pub open spec fn spec_general_category(c: char) -> GeneralCategory {
    category_at(spec_general_category_index(c))
}

fn category_from_index(i: u8) -> (g: GeneralCategory)
    ensures
        g == category_at(i),
{
    match i {
        0u8 => GeneralCategory::UppercaseLetter,
        1u8 => GeneralCategory::LowercaseLetter,
        2u8 => GeneralCategory::TitlecaseLetter,
        3u8 => GeneralCategory::ModifierLetter,
        4u8 => GeneralCategory::OtherLetter,
        5u8 => GeneralCategory::NonspacingMark,
        6u8 => GeneralCategory::SpacingMark,
        7u8 => GeneralCategory::EnclosingMark,
        8u8 => GeneralCategory::DecimalNumber,
        9u8 => GeneralCategory::LetterNumber,
        10u8 => GeneralCategory::OtherNumber,
        11u8 => GeneralCategory::ConnectorPunctuation,
        12u8 => GeneralCategory::DashPunctuation,
        13u8 => GeneralCategory::OpenPunctuation,
        14u8 => GeneralCategory::ClosePunctuation,
        15u8 => GeneralCategory::InitialPunctuation,
        16u8 => GeneralCategory::FinalPunctuation,
        17u8 => GeneralCategory::OtherPunctuation,
        18u8 => GeneralCategory::MathSymbol,
        19u8 => GeneralCategory::CurrencySymbol,
        20u8 => GeneralCategory::ModifierSymbol,
        21u8 => GeneralCategory::OtherSymbol,
        22u8 => GeneralCategory::SpaceSeparator,
        23u8 => GeneralCategory::LineSeparator,
        24u8 => GeneralCategory::ParagraphSeparator,
        25u8 => GeneralCategory::Control,
        26u8 => GeneralCategory::Format,
        27u8 => GeneralCategory::Surrogate,
        28u8 => GeneralCategory::PrivateUse,
        _ => GeneralCategory::Unassigned,
    }
}

/// The general category of `c`, as `unicode_properties` classifies it.
pub fn general_category(c: char) -> (g: GeneralCategory)
    ensures
        g == spec_general_category(c),
{
    category_from_index(general_category_index(c))
}

/// The group that a general category belongs to.
pub open spec fn group_of(g: GeneralCategory) -> GeneralCategoryGroup {
    match g {
        GeneralCategory::UppercaseLetter | GeneralCategory::LowercaseLetter
        | GeneralCategory::TitlecaseLetter | GeneralCategory::ModifierLetter
        | GeneralCategory::OtherLetter => GeneralCategoryGroup::Letter,
        GeneralCategory::NonspacingMark | GeneralCategory::SpacingMark
        | GeneralCategory::EnclosingMark => GeneralCategoryGroup::Mark,
        GeneralCategory::DecimalNumber | GeneralCategory::LetterNumber
        | GeneralCategory::OtherNumber => GeneralCategoryGroup::Number,
        GeneralCategory::ConnectorPunctuation | GeneralCategory::DashPunctuation
        | GeneralCategory::OpenPunctuation | GeneralCategory::ClosePunctuation
        | GeneralCategory::InitialPunctuation | GeneralCategory::FinalPunctuation
        | GeneralCategory::OtherPunctuation => GeneralCategoryGroup::Punctuation,
        GeneralCategory::MathSymbol | GeneralCategory::CurrencySymbol
        | GeneralCategory::ModifierSymbol | GeneralCategory::OtherSymbol => GeneralCategoryGroup::Symbol,
        GeneralCategory::SpaceSeparator | GeneralCategory::LineSeparator
        | GeneralCategory::ParagraphSeparator => GeneralCategoryGroup::Separator,
        _ => GeneralCategoryGroup::Other,
    }
}

/// The group of the general category of `c`.
pub fn general_category_group(c: char) -> (g: GeneralCategoryGroup)
    ensures
        g == group_of(spec_general_category(c)),
{
    match general_category(c) {
        GeneralCategory::UppercaseLetter | GeneralCategory::LowercaseLetter
        | GeneralCategory::TitlecaseLetter | GeneralCategory::ModifierLetter
        | GeneralCategory::OtherLetter => GeneralCategoryGroup::Letter,
        GeneralCategory::NonspacingMark | GeneralCategory::SpacingMark
        | GeneralCategory::EnclosingMark => GeneralCategoryGroup::Mark,
        GeneralCategory::DecimalNumber | GeneralCategory::LetterNumber
        | GeneralCategory::OtherNumber => GeneralCategoryGroup::Number,
        GeneralCategory::ConnectorPunctuation | GeneralCategory::DashPunctuation
        | GeneralCategory::OpenPunctuation | GeneralCategory::ClosePunctuation
        | GeneralCategory::InitialPunctuation | GeneralCategory::FinalPunctuation
        | GeneralCategory::OtherPunctuation => GeneralCategoryGroup::Punctuation,
        GeneralCategory::MathSymbol | GeneralCategory::CurrencySymbol
        | GeneralCategory::ModifierSymbol | GeneralCategory::OtherSymbol => GeneralCategoryGroup::Symbol,
        GeneralCategory::SpaceSeparator | GeneralCategory::LineSeparator
        | GeneralCategory::ParagraphSeparator => GeneralCategoryGroup::Separator,
        _ => GeneralCategoryGroup::Other,
    }
}

} // verus!
