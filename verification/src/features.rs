//! The OpenType layout features of a font: the list of every feature that
//! its `GSUB` and `GPOS` tables register, and the names of its stylistic sets.
use vstd::prelude::*;
use crate::font::{
    gpos_feature_params, gpos_feature_tags, gsub_feature_params, gsub_feature_tags, localized_name,
    spec_gpos_feature_params, spec_gpos_feature_tags, spec_gsub_feature_params,
    spec_gsub_feature_tags, spec_localized_name, FeatureParamsInfo,
};
use crate::tag::{is_stylistic_set_tag, starts_with_ss, tag_text, tag_to_string};
use crate::text::{insert_sorted, strictly_sorted, texts};

verus! {

/// The tags of all feature records: those of `GSUB`, then those of `GPOS`.
pub open spec fn record_tags(font: Seq<u8>) -> Seq<u32> {
    spec_gsub_feature_tags(font) + spec_gpos_feature_tags(font)
}

/// What the `k`-th of all feature records refers to.
pub open spec fn record_params(font: Seq<u8>, k: int) -> FeatureParamsInfo {
    let n = spec_gsub_feature_tags(font).len();
    if k < n {
        spec_gsub_feature_params(font, k)
    } else {
        spec_gpos_feature_params(font, k - n)
    }
}

/// The `k`-th record names a stylistic set whose feature table cannot be read:
/// reading the font's features stops with an error there.
pub open spec fn blocks_reading(font: Seq<u8>, k: int) -> bool {
    is_stylistic_set_tag(record_tags(font)[k]) && record_params(font, k)
        == FeatureParamsInfo::FeatureUnreadable
}

/// The name that the `k`-th record gives a stylistic set: the record's tag
/// starts with `ss`, its parameters are stylistic-set parameters, and the
/// font holds a string for their name id.
pub open spec fn stylistic_set_name(font: Seq<u8>, k: int) -> Option<Seq<char>> {
    if is_stylistic_set_tag(record_tags(font)[k]) {
        match record_params(font, k) {
            FeatureParamsInfo::StylisticSet(id) => spec_localized_name(font, id),
            _ => None,
        }
    } else {
        None
    }
}

/// The stylistic sets named by the first `n` records: the text of the tag to
/// the name, a later record overriding an earlier one with the same tag.
pub open spec fn stylistic_sets_upto(font: Seq<u8>, n: int) -> Map<Seq<char>, Seq<char>>
    decreases n,
{
    if n <= 0 {
        Map::empty()
    } else {
        let m = stylistic_sets_upto(font, n - 1);
        match stylistic_set_name(font, n - 1) {
            Some(name) => m.insert(tag_text(record_tags(font)[n - 1]), name),
            None => m,
        }
    }
}

/// The texts of the tags of the first `n` records.
pub open spec fn feature_texts_upto(font: Seq<u8>, n: int) -> Set<Seq<char>> {
    Set::new(|t: Seq<char>| exists|k: int| 0 <= k < n && tag_text(record_tags(font)[k]) == t)
}

/// A list of (key, value) pairs stands for the map `m`: no key occurs twice,
/// each pair is an entry of `m`, and each key of `m` has a pair.
pub open spec fn pairs_represent(pairs: Seq<(String, String)>, m: Map<Seq<char>, Seq<char>>) -> bool {
    &&& forall|i: int, j: int|
        0 <= i < j < pairs.len() ==> (#[trigger] pairs[i]).0@ != (#[trigger] pairs[j]).0@
    &&& forall|i: int|
        0 <= i < pairs.len() ==> m.contains_key((#[trigger] pairs[i]).0@) && m[pairs[i].0@]
            == pairs[i].1@
    &&& forall|key: Seq<char>|
        m.contains_key(key) ==> exists|i: int| 0 <= i < pairs.len() && (#[trigger] pairs[i]).0@ == key
}

/// The features of a font.
///
/// The lists are plain vectors with their ordering and uniqueness proved:
/// vstd specifies `BTreeSet` and `HashMap` only for keys known to follow its
/// order and hash models, which `String` is not.
#[derive(Debug)]
pub struct FeatureSummary {
    /// The text of every registered feature tag, each once, in `String` order.
    pub features: Vec<String>,
    /// The stylistic sets that have a name: (tag text, name).
    pub stylistic_sets: Vec<(String, String)>,
}

/// A feature could not be read.
#[derive(Clone, Copy, Debug, PartialEq, Eq, Structural)]
pub enum FeatureError {
    /// The feature table of a stylistic-set record with this tag is unreadable.
    FeatureTableUnreadable(u32),
}

/// Sets `key` to `value` in the pairs.
fn upsert(pairs: &mut Vec<(String, String)>, key: String, value: String)
    ensures
        forall|m: Map<Seq<char>, Seq<char>>|
            pairs_represent(old(pairs)@, m) ==> pairs_represent(
                final(pairs)@,
                m.insert(key@, value@),
            ),
{
    let n = pairs.len();
    let mut j: usize = 0;
    while j < n
        invariant
            n == pairs.len(),
            j <= n,
            pairs@ == old(pairs)@,
            forall|i: int| 0 <= i < j ==> (#[trigger] pairs@[i]).0@ != key@,
        decreases n - j,
    {
        if pairs[j].0 == key {
            let ghost before = pairs@;
            let ghost kv = key@;
            let ghost vv = value@;
            pairs.set(j, (key, value));
            proof {
                assert forall|m: Map<Seq<char>, Seq<char>>| pairs_represent(before, m) implies pairs_represent(
                    pairs@,
                    m.insert(kv, vv),
                ) by {
                    let m2 = m.insert(kv, vv);
                    assert forall|i: int| 0 <= i < pairs@.len() implies m2.contains_key(
                        (#[trigger] pairs@[i]).0@,
                    ) && m2[pairs@[i].0@] == pairs@[i].1@ by {
                        if i != j {
                            assert(pairs@[i] == before[i]);
                            assert(before[i].0@ != before[j as int].0@);
                        }
                    }
                    assert forall|k: Seq<char>| m2.contains_key(k) implies exists|i: int|
                        0 <= i < pairs@.len() && (#[trigger] pairs@[i]).0@ == k by {
                        if k == kv {
                            assert(pairs@[j as int].0@ == k);
                        } else {
                            let i = choose|i: int| 0 <= i < before.len() && (#[trigger] before[i]).0@ == k;
                            assert(pairs@[i] == before[i]);
                        }
                    }
                    assert forall|a: int, b: int| 0 <= a < b < pairs@.len() implies (
                    #[trigger] pairs@[a]).0@ != (#[trigger] pairs@[b]).0@ by {
                        if a == j {
                            assert(before[a].0@ == kv);
                            assert(before[b].0@ != before[a].0@);
                        } else if b == j {
                            assert(before[b].0@ == kv);
                            assert(before[b].0@ != before[a].0@);
                        } else {
                            assert(before[b].0@ != before[a].0@);
                        }
                    }
                }
            }
            return;
        }
        j = j + 1;
    }
    let ghost before = pairs@;
    let ghost kv = key@;
    let ghost vv = value@;
    pairs.push((key, value));
    proof {
        assert forall|m: Map<Seq<char>, Seq<char>>| pairs_represent(before, m) implies pairs_represent(
            pairs@,
            m.insert(kv, vv),
        ) by {
            let m2 = m.insert(kv, vv);
            assert forall|i: int| 0 <= i < pairs@.len() implies m2.contains_key(
                (#[trigger] pairs@[i]).0@,
            ) && m2[pairs@[i].0@] == pairs@[i].1@ by {
                if i < n {
                    assert(pairs@[i] == before[i]);
                }
            }
            assert forall|k: Seq<char>| m2.contains_key(k) implies exists|i: int|
                0 <= i < pairs@.len() && (#[trigger] pairs@[i]).0@ == k by {
                if k == kv {
                    assert(pairs@[n as int].0@ == k);
                } else {
                    let i = choose|i: int| 0 <= i < before.len() && (#[trigger] before[i]).0@ == k;
                    assert(pairs@[i] == before[i]);
                }
            }
            assert forall|a: int, b: int| 0 <= a < b < pairs@.len() implies (
            #[trigger] pairs@[a]).0@ != (#[trigger] pairs@[b]).0@ by {
                if b == n {
                    assert(pairs@[a] == before[a]);
                } else {
                    assert(pairs@[a] == before[a] && pairs@[b] == before[b]);
                }
            }
        }
    }
}

/// Gathers the font's features: the text of every feature tag of its `GSUB`
/// and `GPOS` feature lists, sorted and each once, and the stylistic sets
/// (`ss..` features) whose parameters name a string that the font holds,
/// keyed by the text of their tag.
///
/// Fails at the first stylistic-set record whose feature table cannot be
/// read; other unreadable parts count as absent.
pub fn gather_features(font: &[u8]) -> (r: Result<FeatureSummary, FeatureError>)
    ensures
        r is Err <==> exists|k: int| 0 <= k < record_tags(font@).len() && blocks_reading(font@, k),
        r matches Err(FeatureError::FeatureTableUnreadable(tag)) ==> exists|k: int|
            0 <= k < record_tags(font@).len() && blocks_reading(font@, k)
                && record_tags(font@)[k] == tag && forall|j: int|
                0 <= j < k ==> !blocks_reading(font@, j),
        r matches Ok(summary) ==> {
            &&& strictly_sorted(texts(summary.features@))
            &&& texts(summary.features@).to_set() == feature_texts_upto(
                font@,
                record_tags(font@).len() as int,
            )
            &&& pairs_represent(
                summary.stylistic_sets@,
                stylistic_sets_upto(font@, record_tags(font@).len() as int),
            )
        },
{
    let mut tags = gsub_feature_tags(font);
    let n_gsub = tags.len();
    let mut gpos_tags = gpos_feature_tags(font);
    tags.append(&mut gpos_tags);
    let n = tags.len();
    let mut features: Vec<String> = Vec::new();
    let mut sets: Vec<(String, String)> = Vec::new();
    let mut k: usize = 0;
    assert(texts(features@).to_set() =~= feature_texts_upto(font@, 0));
    while k < n
        invariant
            n == tags.len(),
            tags@ == record_tags(font@),
            n_gsub == spec_gsub_feature_tags(font@).len(),
            k <= n,
            forall|j: int| 0 <= j < k ==> !blocks_reading(font@, j),
            strictly_sorted(texts(features@)),
            texts(features@).to_set() == feature_texts_upto(font@, k as int),
            pairs_represent(sets@, stylistic_sets_upto(font@, k as int)),
        decreases n - k,
    {
        let tag = tags[k];
        let name = tag_to_string(tag);
        let ghost m = stylistic_sets_upto(font@, k as int);
        if starts_with_ss(tag) {
            let params = if k < n_gsub {
                gsub_feature_params(font, k)
            } else {
                gpos_feature_params(font, k - n_gsub)
            };
            match params {
                FeatureParamsInfo::FeatureUnreadable => {
                    assert(blocks_reading(font@, k as int));
                    return Err(FeatureError::FeatureTableUnreadable(tag));
                },
                FeatureParamsInfo::StylisticSet(id) => {
                    if let Some(set_name) = localized_name(font, id) {
                        upsert(&mut sets, name.clone(), set_name);
                    }
                },
                _ => {},
            }
        }
        assert(pairs_represent(sets@, stylistic_sets_upto(font@, k + 1)));
        let ghost before = texts(features@).to_set();
        insert_sorted(&mut features, name);
        assert(feature_texts_upto(font@, k + 1) =~= before.insert(tag_text(tags@[k as int]))) by {
            assert forall|t: Seq<char>| feature_texts_upto(font@, k + 1).contains(t) implies before.insert(
                tag_text(tags@[k as int]),
            ).contains(t) by {
                let j = choose|j: int| 0 <= j < k + 1 && tag_text(record_tags(font@)[j]) == t;
                if j < k {
                    assert(feature_texts_upto(font@, k as int).contains(t));
                }
            }
            assert forall|t: Seq<char>| before.insert(tag_text(tags@[k as int])).contains(t) implies feature_texts_upto(
                font@,
                k + 1,
            ).contains(t) by {
                if t != tag_text(tags@[k as int]) {
                    assert(feature_texts_upto(font@, k as int).contains(t));
                    let j = choose|j: int| 0 <= j < k && tag_text(record_tags(font@)[j]) == t;
                    assert(0 <= j < k + 1 && tag_text(record_tags(font@)[j]) == t);
                } else {
                    assert(0 <= k < k + 1 && tag_text(record_tags(font@)[k as int]) == t);
                }
            }
        }
        k = k + 1;
    }
    Ok(FeatureSummary { features, stylistic_sets: sets })
}

/// Every stylistic set reported is also in the feature list, under a tag
/// whose text starts with `ss`.
pub proof fn lemma_stylistic_sets_are_listed_features(font: Seq<u8>, n: int, key: Seq<char>)
    requires
        0 <= n <= record_tags(font).len(),
        stylistic_sets_upto(font, n).contains_key(key),
    ensures
        feature_texts_upto(font, n).contains(key),
        key.len() >= 2 && key[0] == 's' && key[1] == 's',
    decreases n,
{
    if n > 0 {
        let tag = record_tags(font)[n - 1];
        match stylistic_set_name(font, n - 1) {
            Some(name) => {
                if key == tag_text(tag) {
                    assert(0 <= n - 1 < n && tag_text(record_tags(font)[n - 1]) == key);
                } else {
                    lemma_stylistic_sets_are_listed_features(font, n - 1, key);
                    let k = choose|k: int| 0 <= k < n - 1 && tag_text(record_tags(font)[k]) == key;
                    assert(0 <= k < n && tag_text(record_tags(font)[k]) == key);
                }
            },
            None => {
                lemma_stylistic_sets_are_listed_features(font, n - 1, key);
                let k = choose|k: int| 0 <= k < n - 1 && tag_text(record_tags(font)[k]) == key;
                assert(0 <= k < n && tag_text(record_tags(font)[k]) == key);
            },
        }
    }
}

} // verus!
