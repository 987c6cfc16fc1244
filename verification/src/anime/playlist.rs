//! HLS playlists of an episode: parsing through `m3u8_rs`, choosing the
//! variant to download, and the key files a media playlist needs.

use vstd::prelude::*;
use indexmap::{IndexMap, IndexSet};
use crate::anime::error::AnimeDownloadError;
use crate::index_map::{
    distinct_in_order, entries_from_pairs, entries_insert, has_key, keys_distinct,
    lemma_entries_come_from_pairs, lemma_entries_from_pairs, lemma_entries_prefix_keys, lookup,
};
use crate::text::{decimal, push_decimal};

verus! {

/// One variant stream of a master playlist: its URI and, when given, its
/// resolution as width and height.
#[derive(Debug)]
pub struct Variant {
    pub uri: String,
    pub resolution: Option<(u64, u64)>,
}

impl View for Variant {
    type V = (Seq<char>, Option<(u64, u64)>);

    open spec fn view(&self) -> (Seq<char>, Option<(u64, u64)>) {
        (self.uri@, self.resolution)
    }
}

impl Variant {
    /// A copy of this variant.
    pub fn duplicate(&self) -> (r: Variant)
        ensures
            r@ == self@,
    {
        Variant { uri: self.uri.clone(), resolution: self.resolution }
    }
}

/// One segment of a media playlist: its URI and the URI of its key, if any.
#[derive(Debug)]
pub struct Segment {
    pub uri: String,
    pub key_uri: Option<String>,
}

impl View for Segment {
    type V = (Seq<char>, Option<Seq<char>>);

    open spec fn view(&self) -> (Seq<char>, Option<Seq<char>>) {
        (self.uri@, self.key_uri.deep_view())
    }
}

/// The abstract values of a list of variants.
pub open spec fn variants_view(v: Seq<Variant>) -> Seq<(Seq<char>, Option<(u64, u64)>)> {
    v.map_values(|x: Variant| x@)
}

/// The abstract values of a list of segments.
pub open spec fn segments_view(v: Seq<Segment>) -> Seq<(Seq<char>, Option<Seq<char>>)> {
    v.map_values(|x: Segment| x@)
}

/// What `m3u8_rs::parse_master_playlist` makes of `bytes`: the URI and
/// resolution of each variant stream in order, or the parser's error message.
pub uninterp spec fn m3u8_master_variants(bytes: Seq<u8>) -> Result<Seq<(Seq<char>, Option<(u64, u64)>)>, Seq<char>>;

/// What `m3u8_rs::parse_media_playlist` makes of `bytes`: the URI and key URI
/// of each segment in order, or the parser's error message.
pub uninterp spec fn m3u8_media_segments(bytes: Seq<u8>) -> Result<Seq<(Seq<char>, Option<Seq<char>>)>, Seq<char>>;

/// Calls `m3u8_rs::parse_master_playlist` and keeps the URI and resolution of
/// each variant. A parser error becomes nom's message for it; where the
/// parser asks for more input, which `nom::Finish` would panic on, the
/// message describes what it needs.
#[verifier::external_body]
pub(crate) fn parse_master_playlist(bytes: &[u8]) -> (r: Result<Vec<Variant>, String>)
    ensures
        match m3u8_master_variants(bytes@) {
            Ok(vs) => r matches Ok(v) && variants_view(v@) == vs,
            Err(e) => r matches Err(m) && m@ == e,
        },
{
    match m3u8_rs::parse_master_playlist(bytes) {
        Ok((_, pl)) => Ok(
            pl.variants
                .into_iter()
                .map(|v| Variant { uri: v.uri, resolution: v.resolution.map(|r| (r.width, r.height)) })
                .collect(),
        ),
        Err(nom::Err::Error(e)) | Err(nom::Err::Failure(e)) => Err(
            nom::error::Error::new(String::from_utf8_lossy(e.input).into_owned(), e.code).to_string(),
        ),
        Err(nom::Err::Incomplete(needed)) => Err(format!("{needed:?}")),
    }
}

/// Calls `m3u8_rs::parse_media_playlist` and keeps the URI and key URI of each
/// segment. Errors are turned into messages as for master playlists.
#[verifier::external_body]
pub(crate) fn parse_media_playlist(bytes: &[u8]) -> (r: Result<Vec<Segment>, String>)
    ensures
        match m3u8_media_segments(bytes@) {
            Ok(ss) => r matches Ok(v) && segments_view(v@) == ss,
            Err(e) => r matches Err(m) && m@ == e,
        },
{
    match m3u8_rs::parse_media_playlist(bytes) {
        Ok((_, pl)) => Ok(
            pl.segments
                .into_iter()
                .map(|s| Segment { uri: s.uri, key_uri: s.key.and_then(|k| k.uri) })
                .collect(),
        ),
        Err(nom::Err::Error(e)) | Err(nom::Err::Failure(e)) => Err(
            nom::error::Error::new(String::from_utf8_lossy(e.input).into_owned(), e.code).to_string(),
        ),
        Err(nom::Err::Incomplete(needed)) => Err(format!("{needed:?}")),
    }
}

/// The entries of a map from picture height to variant.
pub uninterp spec fn variant_map_entries(m: IndexMap<u64, Variant>) -> Seq<(u64, (Seq<char>, Option<(u64, u64)>))>;

/// `IndexMap::new`: an empty map.
#[verifier::external_body]
fn variant_map_new() -> (m: IndexMap<u64, Variant>)
    ensures
        variant_map_entries(m) == Seq::<(u64, (Seq<char>, Option<(u64, u64)>))>::empty(),
{
    IndexMap::new()
}

/// `IndexMap::insert`: an existing key keeps its place and takes the new
/// value, a new key goes last (stated for maps with distinct keys, which every
/// `IndexMap` has).
#[verifier::external_body]
fn variant_map_insert(m: &mut IndexMap<u64, Variant>, key: u64, value: Variant)
    ensures
        keys_distinct(variant_map_entries(*old(m))) ==> variant_map_entries(*final(m))
            == entries_insert(variant_map_entries(*old(m)), key, value@),
{
    m.insert(key, value);
}

/// `IndexMap::get`: the value under `key`, if any (stated for maps with
/// distinct keys).
#[verifier::external_body]
fn variant_map_get(m: &IndexMap<u64, Variant>, key: u64) -> (r: Option<&Variant>)
    ensures
        keys_distinct(variant_map_entries(*m)) ==> match r {
            Some(v) => lookup(variant_map_entries(*m), key) == Some(v@),
            None => lookup(variant_map_entries(*m), key) is None,
        },
{
    m.get(&key)
}

/// `IndexMap::len`: the number of entries.
#[verifier::external_body]
fn variant_map_len(m: &IndexMap<u64, Variant>) -> (r: usize)
    ensures
        r == variant_map_entries(*m).len(),
{
    m.len()
}

/// `IndexMap::get_index`: the entry at position `index`, if any.
#[verifier::external_body]
fn variant_map_get_index(m: &IndexMap<u64, Variant>, index: usize) -> (r: Option<(&u64, &Variant)>)
    ensures
        match r {
            Some((k, v)) => index < variant_map_entries(*m).len() && variant_map_entries(*m)[index as int] == (*k, v@),
            None => index >= variant_map_entries(*m).len(),
        },
{
    m.get_index(index)
}

/// Every variant gives a resolution.
pub open spec fn all_have_resolution(vs: Seq<(Seq<char>, Option<(u64, u64)>)>) -> bool {
    forall|i: int| 0 <= i < vs.len() ==> (#[trigger] vs[i]).1 is Some
}

/// Each variant keyed by its picture height.
pub open spec fn variant_pairs(vs: Seq<(Seq<char>, Option<(u64, u64)>)>) -> Seq<(u64, (Seq<char>, Option<(u64, u64)>))> {
    vs.map_values(|v: (Seq<char>, Option<(u64, u64)>)| (v.1.unwrap().1, v))
}

/// The variants by height, as an `IndexMap` collects them: a height keeps the
/// place where it first came and the last variant that has it.
pub open spec fn variants_by_height(vs: Seq<(Seq<char>, Option<(u64, u64)>)>) -> Seq<(u64, (Seq<char>, Option<(u64, u64)>))> {
    entries_from_pairs(variant_pairs(vs))
}

/// The distance between two heights.
pub open spec fn height_distance(a: u64, b: u64) -> nat {
    if a >= b {
        (a - b) as nat
    } else {
        (b - a) as nat
    }
}

/// Entry `i` is the first of the entries whose height is nearest to `target`.
pub open spec fn is_closest<V>(entries: Seq<(u64, V)>, target: u64, i: int) -> bool {
    &&& 0 <= i < entries.len()
    &&& forall|j: int| 0 <= j < entries.len() ==> height_distance(entries[i].0, target)
        <= height_distance(#[trigger] entries[j].0, target)
    &&& forall|j: int| 0 <= j < i ==> height_distance(#[trigger] entries[j].0, target)
        > height_distance(entries[i].0, target)
}

/// The numbers joined by `, `.
pub open spec fn join_decimals(ks: Seq<u64>) -> Seq<char>
    decreases ks.len(),
{
    if ks.len() == 0 {
        Seq::empty()
    } else if ks.len() == 1 {
        decimal(ks[0] as nat)
    } else {
        join_decimals(ks.drop_last()) + ", "@ + decimal(ks.last() as nat)
    }
}

/// How `Debug` prints a list of numbers: `[a, b, c]`.
pub open spec fn debug_list(ks: Seq<u64>) -> Seq<char> {
    "["@ + join_decimals(ks) + "]"@
}

/// The message for a variant without resolution.
pub open spec fn no_resolution_message() -> Seq<char> {
    "include variant without resolution: \n{variant:#?}"@
}

/// The message for a missing resolution that may not be replaced.
pub open spec fn locked_message(heights: Seq<u64>) -> Seq<char> {
    "there is no selected resolution, and locked resolution. available resolutions: "@ + debug_list(heights)
}

/// The heights of the entries, in order.
pub open spec fn entry_heights<V>(entries: Seq<(u64, V)>) -> Seq<u64> {
    entries.map_values(|e: (u64, V)| e.0)
}

/// The position of the first entry nearest to `target`.
pub open spec fn closest_index<V>(entries: Seq<(u64, V)>, target: u64) -> int {
    choose|i: int| is_closest(entries, target, i)
}

/// At most one entry is the first nearest one.
pub proof fn lemma_closest_unique<V>(entries: Seq<(u64, V)>, target: u64, i: int, j: int)
    requires
        is_closest(entries, target, i),
        is_closest(entries, target, j),
    ensures
        i == j,
{
    if i < j {
        assert(height_distance(entries[i].0, target) > height_distance(entries[j].0, target));
    } else if j < i {
        assert(height_distance(entries[j].0, target) > height_distance(entries[i].0, target));
    }
}

/// A non-empty list of entries has a first nearest one.
pub proof fn lemma_closest_exists<V>(entries: Seq<(u64, V)>, target: u64)
    requires
        entries.len() > 0,
    ensures
        is_closest(entries, target, closest_index(entries, target)),
    decreases entries.len(),
{
    if entries.len() == 1 {
        assert(is_closest(entries, target, 0));
    } else {
        let prev = entries.drop_last();
        lemma_closest_exists(prev, target);
        let i = closest_index(prev, target);
        let last = entries.len() - 1;
        if height_distance(entries[last].0, target) < height_distance(prev[i].0, target) {
            assert forall|j: int| 0 <= j < entries.len() implies height_distance(entries[last].0, target)
                <= height_distance(#[trigger] entries[j].0, target) by {
                if j < last {
                    assert(prev[j] == entries[j]);
                }
            }
            assert forall|j: int| 0 <= j < last implies height_distance(#[trigger] entries[j].0, target)
                > height_distance(entries[last].0, target) by {
                assert(prev[j] == entries[j]);
            }
            assert(is_closest(entries, target, last));
        } else {
            assert forall|j: int| 0 <= j < entries.len() implies height_distance(entries[i].0, target)
                <= height_distance(#[trigger] entries[j].0, target) by {
                if j < last {
                    assert(prev[j] == entries[j]);
                }
            }
            assert forall|j: int| 0 <= j < i implies height_distance(#[trigger] entries[j].0, target)
                > height_distance(entries[i].0, target) by {
                assert(prev[j] == entries[j]);
            }
            assert(is_closest(entries, target, i));
        }
    }
}

/// The variant that a download takes from `variants`, or the message of why
/// none is taken.
pub open spec fn chosen_variant(target: u64, lock_resolution: bool, variants: Seq<(Seq<char>, Option<(u64, u64)>)>) -> Result<(Seq<char>, Option<(u64, u64)>), Seq<char>> {
    if !all_have_resolution(variants) {
        Err(no_resolution_message())
    } else {
        let e = variants_by_height(variants);
        match lookup(e, target) {
            Some(v) => Ok(v),
            None => if lock_resolution {
                Err(locked_message(entry_heights(e)))
            } else {
                Ok(e[closest_index(e, target)].1)
            },
        }
    }
}

/// The variant that a download takes is one of the playlist's variants, and
/// has the asked-for height whenever some variant has it.
pub proof fn lemma_chosen_variant_from_list(
    target: u64,
    lock_resolution: bool,
    variants: Seq<(Seq<char>, Option<(u64, u64)>)>,
)
    requires
        lock_resolution || variants.len() > 0,
    ensures
        chosen_variant(target, lock_resolution, variants) is Ok ==> variants.contains(
            chosen_variant(target, lock_resolution, variants)->Ok_0,
        ),
        chosen_variant(target, lock_resolution, variants) is Ok && (exists|j: int|
            0 <= j < variants.len() && (#[trigger] variants[j]).1 is Some && variants[j].1.unwrap().1
                == target) ==> chosen_variant(target, lock_resolution, variants)->Ok_0.1 is Some
            && chosen_variant(target, lock_resolution, variants)->Ok_0.1.unwrap().1 == target,
{
    if all_have_resolution(variants) {
        let pairs = variant_pairs(variants);
        let e = entries_from_pairs(pairs);
        lemma_entries_from_pairs(pairs);
        lemma_entries_come_from_pairs(pairs);
        assert forall|j: int| 0 <= j < pairs.len() implies (#[trigger] pairs[j]) == (
        variants[j].1.unwrap().1, variants[j]) by {}
        if has_key(e, target) {
            let i = choose|i: int| 0 <= i < e.len() && e[i].0 == target;
            assert(pairs.contains(e[i]));
            let j = choose|j: int| 0 <= j < pairs.len() && pairs[j] == e[i];
            assert(variants[j] == e[i].1);
            assert(lookup(e, target) == Some(e[i].1));
        } else {
            if exists|j: int| 0 <= j < variants.len() && (#[trigger] variants[j]).1 is Some && variants[j].1.unwrap().1 == target {
                let j = choose|j: int| 0 <= j < variants.len() && (#[trigger] variants[j]).1 is Some && variants[j].1.unwrap().1 == target;
                assert(pairs[j].0 == target);
                assert(has_key(pairs, target));
            }
            if !lock_resolution {
                assert(pairs[0].0 == pairs[0].0);
                assert(has_key(pairs, pairs[0].0));
                assert(has_key(e, pairs[0].0));
                lemma_closest_exists(e, target);
                let c = closest_index(e, target);
                assert(pairs.contains(e[c]));
                let j = choose|j: int| 0 <= j < pairs.len() && pairs[j] == e[c];
                assert(variants[j] == e[c].1);
            }
        }
    }
}

/// Without a locked resolution, the variant taken from a playlist whose
/// variants all give a resolution is one of them, and no variant's height is
/// nearer the target than its height.
pub proof fn lemma_chosen_variant_nearest(target: u64, variants: Seq<(Seq<char>, Option<(u64, u64)>)>)
    requires
        variants.len() > 0,
        all_have_resolution(variants),
    ensures
        chosen_variant(target, false, variants) is Ok,
        variants.contains(chosen_variant(target, false, variants)->Ok_0),
        forall|j: int|
            0 <= j < variants.len() ==> height_distance(
                chosen_variant(target, false, variants)->Ok_0.1.unwrap().1,
                target,
            ) <= height_distance((#[trigger] variants[j]).1.unwrap().1, target),
{
    let pairs = variant_pairs(variants);
    let e = entries_from_pairs(pairs);
    lemma_entries_from_pairs(pairs);
    lemma_entries_come_from_pairs(pairs);
    assert forall|j: int| 0 <= j < pairs.len() implies (#[trigger] pairs[j]) == (
    variants[j].1.unwrap().1, variants[j]) by {}
    let r = chosen_variant(target, false, variants);
    if has_key(e, target) {
        let i = choose|i: int| 0 <= i < e.len() && e[i].0 == target;
        assert(pairs.contains(e[i]));
        let m = choose|m: int| 0 <= m < pairs.len() && pairs[m] == e[i];
        assert(lookup(e, target) == Some(e[i].1));
        assert(r == Ok::<(Seq<char>, Option<(u64, u64)>), Seq<char>>(variants[m]));
        assert(variants[m].1.unwrap().1 == target);
    } else {
        assert(pairs[0].0 == pairs[0].0);
        assert(has_key(pairs, pairs[0].0));
        assert(has_key(e, pairs[0].0));
        lemma_closest_exists(e, target);
        let c = closest_index(e, target);
        assert(pairs.contains(e[c]));
        let m = choose|m: int| 0 <= m < pairs.len() && pairs[m] == e[c];
        assert(r == Ok::<(Seq<char>, Option<(u64, u64)>), Seq<char>>(variants[m]));
        assert forall|j: int| 0 <= j < variants.len() implies height_distance(variants[m].1.unwrap().1, target)
            <= height_distance((#[trigger] variants[j]).1.unwrap().1, target) by {
            assert(pairs[j].0 == variants[j].1.unwrap().1);
            assert(has_key(pairs, pairs[j].0));
            assert(has_key(e, pairs[j].0));
            let k = choose|k: int| 0 <= k < e.len() && e[k].0 == pairs[j].0;
            assert(height_distance(e[c].0, target) <= height_distance(e[k].0, target));
        }
    }
}

/// On a tie the earlier height wins: without a locked resolution, no variant
/// whose height is as near the target as the chosen one, but different, comes
/// before the first variant of the chosen height.
pub proof fn lemma_chosen_variant_first_of_nearest(target: u64, variants: Seq<(Seq<char>, Option<(u64, u64)>)>)
    requires
        variants.len() > 0,
        all_have_resolution(variants),
    ensures
        forall|j: int|
            0 <= j < variants.len() && height_distance((#[trigger] variants[j]).1.unwrap().1, target)
                == height_distance(chosen_variant(target, false, variants)->Ok_0.1.unwrap().1, target)
                && variants[j].1.unwrap().1 != chosen_variant(target, false, variants)->Ok_0.1.unwrap().1
                ==> exists|m: int|
                0 <= m < j && variants[m].1.unwrap().1 == chosen_variant(target, false, variants)->Ok_0.1.unwrap().1,
{
    let pairs = variant_pairs(variants);
    let e = entries_from_pairs(pairs);
    lemma_entries_from_pairs(pairs);
    lemma_entries_come_from_pairs(pairs);
    assert forall|j: int| 0 <= j < pairs.len() implies (#[trigger] pairs[j]) == (
    variants[j].1.unwrap().1, variants[j]) by {}
    let r = chosen_variant(target, false, variants);
    if !has_key(e, target) {
        assert(pairs[0].0 == pairs[0].0);
        assert(has_key(pairs, pairs[0].0));
        lemma_closest_exists(e, target);
        let c = closest_index(e, target);
        assert(pairs.contains(e[c]));
        let mc = choose|mc: int| 0 <= mc < pairs.len() && pairs[mc] == e[c];
        assert(r->Ok_0 == variants[mc]);
        let hs = e[c].0;
        assert(variants[mc].1.unwrap().1 == hs);
        assert forall|j: int|
            0 <= j < variants.len() && height_distance((#[trigger] variants[j]).1.unwrap().1, target)
                == height_distance(hs, target) && variants[j].1.unwrap().1 != hs implies exists|m: int|
            0 <= m < j && variants[m].1.unwrap().1 == hs by {
            if !exists|m: int| 0 <= m < j && variants[m].1.unwrap().1 == hs {
                let front = pairs.take(j + 1);
                let ef = entries_from_pairs(front);
                lemma_entries_from_pairs(front);
                lemma_entries_prefix_keys(pairs, j + 1);
                assert(front[j].0 == pairs[j].0);
                assert(has_key(front, pairs[j].0));
                let k = choose|k: int| 0 <= k < ef.len() && ef[k].0 == pairs[j].0;
                assert(!has_key(front, hs)) by {
                    if has_key(front, hs) {
                        let m = choose|m: int| 0 <= m < front.len() && front[m].0 == hs;
                        assert(front[m] == pairs[m]);
                        if m < j {
                            assert(variants[m].1.unwrap().1 == hs);
                        }
                    }
                }
                if c < ef.len() {
                    assert(e[c].0 == ef[c].0);
                    assert(has_key(ef, hs));
                }
                assert(e[k].0 == pairs[j].0);
                assert(k < c);
                assert(height_distance(e[k].0, target) > height_distance(e[c].0, target));
            }
        }
    } else {
        let i = choose|i: int| 0 <= i < e.len() && e[i].0 == target;
        assert(pairs.contains(e[i]));
        let m = choose|m: int| 0 <= m < pairs.len() && pairs[m] == e[i];
        assert(lookup(e, target) == Some(e[i].1));
        assert(r->Ok_0 == variants[m]);
        assert(variants[m].1.unwrap().1 == target);
    }
}

/// Chooses the variant to download: the one with picture height `target`;
/// else, unless `lock_resolution` is set, the one with the nearest height,
/// the earlier on a tie. Every variant must give a resolution.
pub fn select_variant(target: u64, lock_resolution: bool, variants: &Vec<Variant>) -> (r: Result<
    Variant,
    AnimeDownloadError,
>)
    requires
        lock_resolution || variants@.len() > 0,
    ensures
        match chosen_variant(target, lock_resolution, variants_view(variants@)) {
            Ok(v) => r matches Ok(x) && x@ == v,
            Err(m) => r matches Err(AnimeDownloadError::Plain(x)) && x@ == m,
        },
{
    let ghost vv = variants_view(variants@);
    let mut k: usize = 0;
    while k < variants.len()
        invariant
            vv == variants_view(variants@),
            k <= variants@.len(),
            forall|i: int| 0 <= i < k ==> (#[trigger] vv[i]).1 is Some,
        decreases variants@.len() - k,
    {
        if variants[k].resolution.is_none() {
            assert(vv[k as int].1 is None);
            return Err(AnimeDownloadError::Plain(
                String::from_str("include variant without resolution: \n{variant:#?}"),
            ));
        }
        k = k + 1;
    }
    assert(all_have_resolution(vv));
    let mut map = variant_map_new();
    let mut i: usize = 0;
    assert(variant_pairs(vv).take(0) =~= Seq::<(u64, (Seq<char>, Option<(u64, u64)>))>::empty());
    while i < variants.len()
        invariant
            vv == variants_view(variants@),
            all_have_resolution(vv),
            i <= variants@.len(),
            variant_map_entries(map) == entries_from_pairs(variant_pairs(vv).take(i as int)),
        decreases variants@.len() - i,
    {
        let ghost pairs = variant_pairs(vv).take(i + 1);
        assert(pairs.drop_last() =~= variant_pairs(vv).take(i as int));
        assert(vv[i as int].1 is Some);
        let height = match variants[i].resolution {
            Some((_, h)) => h,
            None => 0,
        };
        let v = variants[i].duplicate();
        assert(pairs.last() == (height, v@));
        proof {
            lemma_entries_from_pairs(variant_pairs(vv).take(i as int));
        }
        variant_map_insert(&mut map, height, v);
        i = i + 1;
    }
    assert(variant_pairs(vv).take(variants@.len() as int) =~= variant_pairs(vv));
    let ghost e = variants_by_height(vv);
    proof {
        lemma_entries_from_pairs(variant_pairs(vv));
    }
    assert(variant_map_entries(map) == e);
    if let Some(v) = variant_map_get(&map, target) {
        return Ok(v.duplicate());
    }
    let n = variant_map_len(&map);
    if lock_resolution {
        let mut msg = String::from_str(
            "there is no selected resolution, and locked resolution. available resolutions: [",
        );
        let mut j: usize = 0;
        while j < n
            invariant
                n == e.len(),
                variant_map_entries(map) == e,
                j <= n,
                msg@ == "there is no selected resolution, and locked resolution. available resolutions: ["@
                    + join_decimals(entry_heights(e).take(j as int)),
            decreases n - j,
        {
            let ghost hs = entry_heights(e).take(j + 1);
            assert(hs.drop_last() =~= entry_heights(e).take(j as int));
            match variant_map_get_index(&map, j) {
                Some((h, _)) => {
                    if j > 0 {
                        msg.append(", ");
                    }
                    push_decimal(&mut msg, *h);
                    proof {
                        reveal_strlit("there is no selected resolution, and locked resolution. available resolutions: [");
                        reveal_strlit(", ");
                        assert(msg@ =~= "there is no selected resolution, and locked resolution. available resolutions: ["@
                            + join_decimals(hs));
                    }
                },
                None => {},
            }
            j = j + 1;
        }
        msg.append("]");
        proof {
            reveal_strlit("there is no selected resolution, and locked resolution. available resolutions: [");
            reveal_strlit("there is no selected resolution, and locked resolution. available resolutions: ");
            reveal_strlit("[");
            reveal_strlit("]");
            assert(entry_heights(e).take(n as int) =~= entry_heights(e));
            assert(msg@ =~= locked_message(entry_heights(e)));
        }
        return Err(AnimeDownloadError::Plain(msg));
    }
    let mut best: usize = 0;
    let mut best_distance: u64 = 0;
    let mut best_variant: Option<&Variant> = None;
    let mut j: usize = 0;
    while j < n
        invariant
            n == e.len(),
            n > 0,
            variant_map_entries(map) == e,
            j <= n,
            j == 0 ==> best_variant is None,
            j > 0 ==> {
                &&& best < j
                &&& best_variant matches Some(bv) && bv@ == e[best as int].1
                &&& best_distance == height_distance(e[best as int].0, target)
                &&& forall|q: int| 0 <= q < j ==> height_distance(e[best as int].0, target)
                    <= height_distance(#[trigger] e[q].0, target)
                &&& forall|q: int| 0 <= q < best ==> height_distance(#[trigger] e[q].0, target)
                    > height_distance(e[best as int].0, target)
            },
        decreases n - j,
    {
        match variant_map_get_index(&map, j) {
            Some((h, v)) => {
                let d = if *h >= target { *h - target } else { target - *h };
                if j == 0 || d < best_distance {
                    best = j;
                    best_distance = d;
                    best_variant = Some(v);
                }
            },
            None => {},
        }
        j = j + 1;
    }
    match best_variant {
        Some(v) => {
            assert(is_closest(e, target, best as int));
            proof {
                lemma_closest_exists(e, target);
                lemma_closest_unique(e, target, best as int, closest_index(e, target));
            }
            Ok(v.duplicate())
        },
        None => Err(AnimeDownloadError::Plain(String::from_str("master playlist has no variant"))),
    }
}

/// The key URIs of `segments`, each once, in the order they first appear.
pub open spec fn key_uris_of(ss: Seq<(Seq<char>, Option<Seq<char>>)>) -> Seq<Seq<char>> {
    distinct_in_order(present_keys(ss))
}

/// The key URIs that segments give, in order, repeats included.
pub open spec fn present_keys(ss: Seq<(Seq<char>, Option<Seq<char>>)>) -> Seq<Seq<char>>
    decreases ss.len(),
{
    if ss.len() == 0 {
        Seq::empty()
    } else {
        match ss.last().1 {
            Some(k) => present_keys(ss.drop_last()).push(k),
            None => present_keys(ss.drop_last()),
        }
    }
}

/// The keys that segments give are exactly those that some segment gives.
proof fn lemma_present_keys(ss: Seq<(Seq<char>, Option<Seq<char>>)>)
    ensures
        forall|k: Seq<char>| present_keys(ss).contains(k) <==> exists|i: int| 0 <= i < ss.len() && (#[trigger] ss[i]).1 == Some(k),
    decreases ss.len(),
{
    if ss.len() > 0 {
        let prev = ss.drop_last();
        lemma_present_keys(prev);
        assert forall|k: Seq<char>| present_keys(ss).contains(k) <==> exists|i: int| 0 <= i < ss.len() && (#[trigger] ss[i]).1 == Some(k) by {
            if present_keys(ss).contains(k) {
                if present_keys(prev).contains(k) {
                    let i = choose|i: int| 0 <= i < prev.len() && (#[trigger] prev[i]).1 == Some(k);
                    assert(ss[i] == prev[i]);
                } else {
                    let j = choose|j: int| 0 <= j < present_keys(ss).len() && present_keys(ss)[j] == k;
                    assert(ss[ss.len() - 1].1 == Some(k));
                }
            }
            if exists|i: int| 0 <= i < ss.len() && (#[trigger] ss[i]).1 == Some(k) {
                let i = choose|i: int| 0 <= i < ss.len() && (#[trigger] ss[i]).1 == Some(k);
                if i < ss.len() - 1 {
                    assert(prev[i] == ss[i]);
                    let j = choose|j: int| 0 <= j < present_keys(prev).len() && present_keys(prev)[j] == k;
                    assert(present_keys(ss)[j] == k);
                } else {
                    assert(present_keys(ss) == present_keys(prev).push(k));
                    assert(present_keys(ss)[present_keys(prev).len() as int] == k);
                }
            }
        }
    }
}

/// Each key file is fetched once: the key list has no repeats, and holds
/// exactly the keys that some segment names.
pub proof fn lemma_key_uris_once(ss: Seq<(Seq<char>, Option<Seq<char>>)>)
    ensures
        key_uris_of(ss).no_duplicates(),
        forall|k: Seq<char>| key_uris_of(ss).contains(k) <==> exists|i: int| 0 <= i < ss.len() && (#[trigger] ss[i]).1 == Some(k),
{
    lemma_present_keys(ss);
    crate::index_map::lemma_distinct_in_order(present_keys(ss));
    assert forall|k: Seq<char>| key_uris_of(ss).contains(k) <==> exists|i: int| 0 <= i < ss.len() && (#[trigger] ss[i]).1 == Some(k) by {
        assert(key_uris_of(ss).contains(k) <==> present_keys(ss).contains(k));
    }
}

/// The items of a set of key URIs, in insertion order.
pub uninterp spec fn key_set_items(s: IndexSet<String>) -> Seq<Seq<char>>;

/// `IndexSet::new`: an empty set.
#[verifier::external_body]
fn key_set_new() -> (s: IndexSet<String>)
    ensures
        key_set_items(s) == Seq::<Seq<char>>::empty(),
{
    IndexSet::new()
}

/// `IndexSet::insert`: an item already present leaves the set unchanged, a new
/// one goes last.
#[verifier::external_body]
fn key_set_insert(s: &mut IndexSet<String>, item: String)
    ensures
        key_set_items(*final(s)) == if key_set_items(*old(s)).contains(item@) {
            key_set_items(*old(s))
        } else {
            key_set_items(*old(s)).push(item@)
        },
{
    s.insert(item);
}

/// `IndexSet::get_index`: the item at position `index`, if any.
#[verifier::external_body]
fn key_set_get_index(s: &IndexSet<String>, index: usize) -> (r: Option<&String>)
    ensures
        match r {
            Some(k) => index < key_set_items(*s).len() && key_set_items(*s)[index as int] == k@,
            None => index >= key_set_items(*s).len(),
        },
{
    s.get_index(index)
}

/// `IndexSet::len`: the number of items.
#[verifier::external_body]
fn key_set_len(s: &IndexSet<String>) -> (r: usize)
    ensures
        r == key_set_items(*s).len(),
{
    s.len()
}

/// The key files that `segments` need, each once, in order of first use.
pub fn key_uris(segments: &Vec<Segment>) -> (r: Vec<String>)
    ensures
        r.deep_view() == key_uris_of(segments_view(segments@)),
{
    let ghost sv = segments_view(segments@);
    let mut set = key_set_new();
    let mut i: usize = 0;
    assert(sv.take(0) =~= Seq::<(Seq<char>, Option<Seq<char>>)>::empty());
    while i < segments.len()
        invariant
            sv == segments_view(segments@),
            i <= segments@.len(),
            key_set_items(set) == distinct_in_order(present_keys(sv.take(i as int))),
        decreases segments@.len() - i,
    {
        let ghost prefix = sv.take(i + 1);
        assert(prefix.drop_last() =~= sv.take(i as int));
        match &segments[i].key_uri {
            Some(k) => {
                assert(present_keys(prefix) == present_keys(sv.take(i as int)).push(k@));
                assert(present_keys(prefix).drop_last() =~= present_keys(sv.take(i as int)));
                key_set_insert(&mut set, k.clone());
            },
            None => {
                assert(present_keys(prefix) == present_keys(sv.take(i as int)));
            },
        }
        i = i + 1;
    }
    assert(sv.take(segments@.len() as int) =~= sv);
    let n = key_set_len(&set);
    let mut out: Vec<String> = Vec::new();
    let mut j: usize = 0;
    while j < n
        invariant
            n == key_set_items(set).len(),
            j <= n,
            out.deep_view() == key_set_items(set).take(j as int),
        decreases n - j,
    {
        let ghost old_out = out.deep_view();
        match key_set_get_index(&set, j) {
            Some(k) => {
                let item = k.clone();
                out.push(item);
                assert(out.deep_view() =~= old_out.push(k@));
            },
            None => {},
        }
        assert(key_set_items(set).take(j + 1) =~= key_set_items(set).take(j as int).push(key_set_items(set)[j as int]));
        j = j + 1;
    }
    assert(key_set_items(set).take(n as int) =~= key_set_items(set));
    out
}

} // verus!
