//! OpenType tags, held as big-endian `u32`s, and their text form.
use vstd::prelude::*;

verus! {

/// `onum`: oldstyle figures.
pub const TAG_ONUM: u32 = 0x6F6E_756D;
/// `lnum`: lining figures.
pub const TAG_LNUM: u32 = 0x6C6E_756D;
/// `pnum`: proportional figures.
pub const TAG_PNUM: u32 = 0x706E_756D;
/// `tnum`: tabular figures.
pub const TAG_TNUM: u32 = 0x746E_756D;
/// `frac`: fractions.
pub const TAG_FRAC: u32 = 0x6672_6163;
/// `zero`: slashed zero.
pub const TAG_ZERO: u32 = 0x7A65_726F;
/// `sups`: superscript.
pub const TAG_SUPS: u32 = 0x7375_7073;
/// `sinf`: scientific inferiors.
pub const TAG_SINF: u32 = 0x7369_6E66;
/// `smcp`: small capitals.
pub const TAG_SMCP: u32 = 0x736D_6370;
/// `c2sc`: small capitals from capitals.
pub const TAG_C2SC: u32 = 0x6332_7363;
/// `case`: case-sensitive forms.
pub const TAG_CASE: u32 = 0x6361_7365;

/// The four bytes of a tag, first byte first.
pub open spec fn tag_bytes(tag: u32) -> Seq<u8> {
    seq![
        (tag / 0x100_0000) as u8,
        ((tag / 0x1_0000) % 0x100) as u8,
        ((tag / 0x100) % 0x100) as u8,
        (tag % 0x100) as u8,
    ]
}

/// An upper-case hexadecimal digit.
pub open spec fn hex_digit(n: u8) -> char {
    if n < 10 {
        (48 + n) as char
    } else {
        (55 + n) as char
    }
}

/// A printable ASCII byte, shown as itself.
pub open spec fn is_printable(b: u8) -> bool {
    0x20 <= b && b <= 0x7E
}

/// How one byte of a tag is written: itself where it is printable ASCII,
/// else `{0xHH}` with two upper-case hex digits.
pub open spec fn byte_text(b: u8) -> Seq<char> {
    if is_printable(b) {
        seq![b as char]
    } else {
        seq!['{', '0', 'x', hex_digit(b / 16), hex_digit(b % 16), '}']
    }
}

/// The text form of a tag: its four bytes written one after the other.
pub open spec fn tag_text(tag: u32) -> Seq<char> {
    let b = tag_bytes(tag);
    byte_text(b[0]) + byte_text(b[1]) + byte_text(b[2]) + byte_text(b[3])
}

fn hex_digit_char(n: u8) -> (c: char)
    requires
        n < 16,
    ensures
        c == hex_digit(n),
{
    if n < 10 {
        (48 + n) as char
    } else {
        (55 + n) as char
    }
}

fn push_byte_text(s: &mut String, b: u8)
    ensures
        final(s)@ == old(s)@ + byte_text(b),
{
    if 0x20 <= b && b <= 0x7E {
        s.push(b as char);
        assert(final(s)@ == old(s)@ + byte_text(b)) by {
            assert(byte_text(b) == seq![b as char]);
        }
    } else {
        let ghost start = s@;
        s.push('{');
        s.push('0');
        s.push('x');
        s.push(hex_digit_char(b / 16));
        s.push(hex_digit_char(b % 16));
        s.push('}');
        assert(s@ =~= start + byte_text(b));
    }
}

/// The text form of a tag, as the tag's `Display` writes it: each printable
/// ASCII byte as itself, any other byte as `{0xHH}`.
pub fn tag_to_string(tag: u32) -> (s: String)
    ensures
        s@ == tag_text(tag),
{
    let mut s = String::new();
    push_byte_text(&mut s, (tag / 0x100_0000) as u8);
    push_byte_text(&mut s, ((tag / 0x1_0000) % 0x100) as u8);
    push_byte_text(&mut s, ((tag / 0x100) % 0x100) as u8);
    push_byte_text(&mut s, (tag % 0x100) as u8);
    assert(s@ =~= tag_text(tag));
    s
}

/// Whether a tag's text starts with `ss` (the stylistic sets `ss01`..`ss20`).
pub open spec fn is_stylistic_set_tag(tag: u32) -> bool {
    tag_text(tag).len() >= 2 && tag_text(tag)[0] == 's' && tag_text(tag)[1] == 's'
}

/// Whether the text of `tag` starts with `ss`.
pub fn starts_with_ss(tag: u32) -> (b: bool)
    ensures
        b == is_stylistic_set_tag(tag),
{
    let b0 = (tag / 0x100_0000) as u8;
    let b1 = ((tag / 0x1_0000) % 0x100) as u8;
    proof {
        let t = tag_text(tag);
        let bytes = tag_bytes(tag);
        assert(bytes[0] == b0 && bytes[1] == b1);
        if is_printable(b0) {
            assert(t[0] == b0 as char);
            if is_printable(b1) {
                assert(t[1] == b1 as char);
            } else {
                assert(t[1] == '{');
            }
        } else {
            assert(t[0] == '{');
        }
    }
    b0 == 0x73 && b1 == 0x73
}

} // verus!
