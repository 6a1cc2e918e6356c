//! What the metrics read from a font file, given as its bytes: the code points
//! of its character map, the feature records of its `GSUB` and `GPOS` tables,
//! and its localized names. Each read goes through `read_fonts` or `skrifa`.
use vstd::prelude::*;
use read_fonts::tables::layout::FeatureParams;
use read_fonts::{FontRef, TableProvider};
use skrifa::string::StringId;
use skrifa::MetadataProvider;

verus! {

broadcast use vstd::std_specs::hash::group_hash_axioms;

/// The code points that a font's character map maps, in the order in which
/// `skrifa`'s `Charmap::mappings` yields them.
pub uninterp spec fn spec_charmap_codepoints(font: Seq<u8>) -> Seq<u32>;

/// Calls `skrifa`'s `Charmap::mappings` on the font read from `font` and keeps
/// the code point of each mapping. Claimed: the result is a function of the
/// bytes alone (empty where `FontRef::new` refuses them); which code points a
/// character map holds is left to the crate.
#[verifier::external_body]
fn charmap_codepoints(font: &[u8]) -> (cps: Vec<u32>)
    ensures
        cps@ == spec_charmap_codepoints(font@),
{
    FontRef::new(font).map(|f| f.charmap().mappings().map(|(cp, _)| cp).collect()).unwrap_or_default()
}

/// The distinct values of `s`, each where it first occurs.
pub open spec fn distinct_in_order(s: Seq<u32>) -> Seq<u32>
    decreases s.len(),
{
    if s.len() == 0 {
        Seq::empty()
    } else {
        let d = distinct_in_order(s.drop_last());
        if d.contains(s.last()) {
            d
        } else {
            d.push(s.last())
        }
    }
}

/// The code points that the font's character map maps, each once.
pub open spec fn spec_codepoints(font: Seq<u8>) -> Seq<u32> {
    distinct_in_order(spec_charmap_codepoints(font))
}

/// Each value occurs once in `distinct_in_order(s)`, and the values are
/// those of `s`.
pub proof fn lemma_distinct_in_order(s: Seq<u32>)
    ensures
        distinct_in_order(s).no_duplicates(),
        distinct_in_order(s).to_set() == s.to_set(),
    decreases s.len(),
{
    if s.len() > 0 {
        let d = distinct_in_order(s.drop_last());
        lemma_distinct_in_order(s.drop_last());
        assert(s =~= s.drop_last().push(s.last()));
        s.drop_last().lemma_push_to_set_commute(s.last());
        if !d.contains(s.last()) {
            d.lemma_push_to_set_commute(s.last());
        } else {
            assert(d.to_set().insert(s.last()) =~= d.to_set());
        }
    }
}

/// The code points of a font's character map, each once, in the order in
/// which the map first yields them.
pub fn font_codepoints(font: &[u8]) -> (cps: Vec<u32>)
    ensures
        cps@ == spec_codepoints(font@),
{
    let all = charmap_codepoints(font);
    let mut seen: std::collections::HashSet<u32> = std::collections::HashSet::new();
    let mut out: Vec<u32> = Vec::new();
    let n = all.len();
    let mut i: usize = 0;
    assert(all@.take(0) =~= Seq::<u32>::empty());
    while i < n
        invariant
            n == all@.len(),
            i <= n,
            all@ == spec_charmap_codepoints(font@),
            out@ == distinct_in_order(all@.take(i as int)),
            seen@ == out@.to_set(),
        decreases n - i,
    {
        let cp = all[i];
        assert(all@.take(i + 1).drop_last() =~= all@.take(i as int));
        assert(all@.take(i + 1).last() == cp);
        let fresh = seen.insert(cp);
        if fresh {
            out.push(cp);
            proof {
                distinct_in_order(all@.take(i as int)).lemma_push_to_set_commute(cp);
            }
        }
        i = i + 1;
    }
    assert(all@.take(n as int) =~= all@);
    out
}

/// What the `FeatureParams` of a feature record hold, as far as the metrics
/// ask: the feature table could not be read, it has no parameters, they could
/// not be read, or which kind they are (for a stylistic set, with the name
/// id of its user-interface name).
#[derive(Clone, Copy, Debug, PartialEq, Eq, Structural)]
pub enum FeatureParamsInfo {
    FeatureUnreadable,
    NoParams,
    ParamsUnreadable,
    StylisticSet(u16),
    Size,
    CharacterVariant,
}

/// The tags of the feature records of the font's `GSUB` feature list, in
/// order; empty where the font, the table or the list cannot be read.
pub uninterp spec fn spec_gsub_feature_tags(font: Seq<u8>) -> Seq<u32>;

/// The tags of the feature records of the font's `GPOS` feature list, in
/// order; empty where the font, the table or the list cannot be read.
pub uninterp spec fn spec_gpos_feature_tags(font: Seq<u8>) -> Seq<u32>;

/// What the `index`-th feature record of the `GSUB` feature list refers to.
pub uninterp spec fn spec_gsub_feature_params(font: Seq<u8>, index: int) -> FeatureParamsInfo;

/// What the `index`-th feature record of the `GPOS` feature list refers to.
pub uninterp spec fn spec_gpos_feature_params(font: Seq<u8>, index: int) -> FeatureParamsInfo;

/// Reads the `GSUB` feature list with `read_fonts` (`FontRef::new`,
/// `TableProvider::gsub`, `Gsub::feature_list`) and gives each record's
/// `feature_tag` as a big-endian `u32`. Claimed: a function of the bytes
/// alone, empty where one of those reads fails.
#[verifier::external_body]
pub(crate) fn gsub_feature_tags(font: &[u8]) -> (tags: Vec<u32>)
    ensures
        tags@ == spec_gsub_feature_tags(font@),
{
    let list = FontRef::new(font).ok().and_then(|f| f.gsub().ok()).and_then(|t| t.feature_list().ok());
    list.map(|l| l.feature_records().iter().map(|r| u32::from_be_bytes(r.feature_tag().to_be_bytes())).collect()).unwrap_or_default()
}

/// As `gsub_feature_tags`, for the `GPOS` table (`TableProvider::gpos`).
#[verifier::external_body]
pub(crate) fn gpos_feature_tags(font: &[u8]) -> (tags: Vec<u32>)
    ensures
        tags@ == spec_gpos_feature_tags(font@),
{
    let list = FontRef::new(font).ok().and_then(|f| f.gpos().ok()).and_then(|t| t.feature_list().ok());
    list.map(|l| l.feature_records().iter().map(|r| u32::from_be_bytes(r.feature_tag().to_be_bytes())).collect()).unwrap_or_default()
}

/// Reads the feature table of the `index`-th `GSUB` feature record
/// (`FeatureRecord::feature`) and its `Feature::feature_params`. Claimed: a
/// function of the bytes and the index; the record exists, since `index` is
/// below the number of records that `gsub_feature_tags` gives.
#[verifier::external_body]
pub(crate) fn gsub_feature_params(font: &[u8], index: usize) -> (p: FeatureParamsInfo)
    requires
        index < spec_gsub_feature_tags(font@).len(),
    ensures
        p == spec_gsub_feature_params(font@, index as int),
{
    let Some(l) = FontRef::new(font).ok().and_then(|f| f.gsub().ok()).and_then(|t| t.feature_list().ok()) else {
        return FeatureParamsInfo::FeatureUnreadable;
    };
    let Ok(feature) = l.feature_records()[index].feature(l.offset_data()) else {
        return FeatureParamsInfo::FeatureUnreadable;
    };
    match feature.feature_params() {
        None => FeatureParamsInfo::NoParams,
        Some(Err(_)) => FeatureParamsInfo::ParamsUnreadable,
        Some(Ok(FeatureParams::StylisticSet(p))) => FeatureParamsInfo::StylisticSet(p.ui_name_id().to_u16()),
        Some(Ok(FeatureParams::Size(_))) => FeatureParamsInfo::Size,
        Some(Ok(FeatureParams::CharacterVariant(_))) => FeatureParamsInfo::CharacterVariant,
    }
}

/// As `gsub_feature_params`, for the `GPOS` table.
#[verifier::external_body]
pub(crate) fn gpos_feature_params(font: &[u8], index: usize) -> (p: FeatureParamsInfo)
    requires
        index < spec_gpos_feature_tags(font@).len(),
    ensures
        p == spec_gpos_feature_params(font@, index as int),
{
    let Some(l) = FontRef::new(font).ok().and_then(|f| f.gpos().ok()).and_then(|t| t.feature_list().ok()) else {
        return FeatureParamsInfo::FeatureUnreadable;
    };
    let Ok(feature) = l.feature_records()[index].feature(l.offset_data()) else {
        return FeatureParamsInfo::FeatureUnreadable;
    };
    match feature.feature_params() {
        None => FeatureParamsInfo::NoParams,
        Some(Err(_)) => FeatureParamsInfo::ParamsUnreadable,
        Some(Ok(FeatureParams::StylisticSet(p))) => FeatureParamsInfo::StylisticSet(p.ui_name_id().to_u16()),
        Some(Ok(FeatureParams::Size(_))) => FeatureParamsInfo::Size,
        Some(Ok(FeatureParams::CharacterVariant(_))) => FeatureParamsInfo::CharacterVariant,
    }
}

/// The English (or else the first) string that the font's `name` table holds
/// for a name id.
pub uninterp spec fn spec_localized_name(font: Seq<u8>, name_id: u16) -> Option<Seq<char>>;

/// Calls `skrifa`'s `MetadataProvider::localized_strings` and
/// `LocalizedStrings::english_or_first`, and writes the string out. Claimed: a
/// function of the bytes and the name id (`None` where the font cannot be
/// read or holds no such string).
#[verifier::external_body]
pub(crate) fn localized_name(font: &[u8], name_id: u16) -> (name: Option<String>)
    ensures
        name is Some <==> spec_localized_name(font@, name_id) is Some,
        name matches Some(s) ==> spec_localized_name(font@, name_id) == Some(s@),
{
    let f = FontRef::new(font).ok()?;
    f.localized_strings(StringId::new(name_id)).english_or_first().map(|s| s.to_string())
}

} // verus!
