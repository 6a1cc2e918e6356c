# fontquant

Metrics about the design of a font, read from its file: whether it is
unicase, how its lowercase letters are built, which OpenType features and
stylistic sets it registers, which numeral sets it offers and uses by
default, and how well its casing, fraction, superior, inferior and
slashed-zero features work.

The decisions are written in Verus and proved against their contracts:

- `src/features.rs`: the feature list (every `GSUB` and `GPOS` feature tag,
  sorted, each once) and the named stylistic sets;
- `src/numerals.rs`: default numerals, the four numeral sets, fractions,
  slashed zero;
- `src/casing.rs`: which characters each casing metric looks at, the unicase
  verdict, the shape of the lowercase letters;
- `src/appearance.rs`: the single- or double-story `a` and `g`;
- `src/shaping.rs`: whether features change what the shaper makes of a text;
- `src/font.rs`, `src/unicode.rs`: what is read from the font and from the
  Unicode tables, through `read-fonts`, `skrifa`, `harfrust`,
  `unicode-properties` and `unicode-normalization`;
- `src/tag.rs`, `src/text.rs`: tags as text, and text order.

`app/` draws glyph outlines, takes their floating-point measurements and
records each metric by name.
