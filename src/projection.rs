//! Shaping an Invidious video object under a field mask: which keys it
//! keeps, which defaults it gains, and in what order its keys come.

use vstd::prelude::*;
use crate::json::{
    object_keys, null_keys, not_key, without, with_key, new_object, object_has, object_key_list,
    object_remove, object_insert_null, object_insert_array, object_insert_int,
    object_insert_object, object_transfer,
};
use crate::settings::AppSettings;
use crate::streams::view_opt;

verus! {

/// The names of a field mask.
pub open spec fn mask_of(fields: Seq<String>) -> Seq<Seq<char>> {
    fields.map_values(|s: String| s@)
}

/// `x` is in `s` filtered by `p` iff it is in `s` and satisfies `p`.
pub proof fn lemma_filter_contains_iff(s: Seq<Seq<char>>, p: spec_fn(Seq<char>) -> bool, x: Seq<char>)
    ensures
        s.filter(p).contains(x) <==> s.contains(x) && p(x),
{
    if s.filter(p).contains(x) {
        s.lemma_filter_contains_rev(p, x);
        let i = choose|i: int| 0 <= i < s.filter(p).len() && s.filter(p)[i] == x;
        s.lemma_filter_pred(p, i);
    }
    if s.contains(x) && p(x) {
        let i = choose|i: int| 0 <= i < s.len() && s[i] == x;
        s.lemma_filter_contains(p, i);
    }
}

pub proof fn lemma_without_contains(s: Seq<Seq<char>>, k: Seq<char>, x: Seq<char>)
    ensures
        without(s, k).contains(x) <==> s.contains(x) && x != k,
{
    lemma_filter_contains_iff(s, not_key(k), x);
}

pub proof fn lemma_with_key_contains(s: Seq<Seq<char>>, k: Seq<char>, x: Seq<char>)
    ensures
        with_key(s, k).contains(x) <==> s.contains(x) || x == k,
{
    if !s.contains(k) {
        if s.push(k).contains(x) && x != k {
            let i = choose|i: int| 0 <= i < s.push(k).len() && s.push(k)[i] == x;
            assert(s[i] == x);
        }
        if s.contains(x) {
            let i = choose|i: int| 0 <= i < s.len() && s[i] == x;
            assert(s.push(k)[i] == x);
        }
        if x == k {
            assert(s.push(k)[s.len() as int] == x);
        }
    }
}

/// Does the object hold every field of the mask?
pub fn has_all_fields(m: &serde_json::Map<String, serde_json::Value>, fields: &Vec<String>) -> (r:
    bool)
    ensures
        r == forall|i: int| 0 <= i < fields.len() ==> object_keys(*m).contains(#[trigger] fields@[i]@),
{
    let mut i: usize = 0;
    while i < fields.len()
        invariant
            i <= fields.len(),
            forall|k: int| 0 <= k < i ==> object_keys(*m).contains(#[trigger] fields@[k]@),
        decreases fields.len() - i,
    {
        if !object_has(m, fields[i].as_str()) {
            return false;
        }
        i = i + 1;
    }
    true
}

/// Is `f` one of the mask's names?
pub fn mask_contains(fields: &Vec<String>, f: &str) -> (r: bool)
    ensures
        r == mask_of(fields@).contains(f@),
{
    let mut i: usize = 0;
    while i < fields.len()
        invariant
            i <= fields.len(),
            forall|k: int| 0 <= k < i ==> (#[trigger] fields@[k])@ != f@,
        decreases fields.len() - i,
    {
        if crate::streams::str_eq(fields[i].as_str(), f) {
            assert(mask_of(fields@)[i as int] == f@);
            return true;
        }
        i = i + 1;
    }
    proof {
        if mask_of(fields@).contains(f@) {
            let k = choose|k: int| 0 <= k < mask_of(fields@).len() && mask_of(fields@)[k] == f@;
            assert(fields@[k]@ == f@);
        }
    }
    false
}

pub open spec fn in_mask(mask: Seq<Seq<char>>) -> spec_fn(Seq<char>) -> bool {
    |k: Seq<char>| mask.contains(k)
}

pub open spec fn not_in_mask(mask: Seq<Seq<char>>) -> spec_fn(Seq<char>) -> bool {
    |k: Seq<char>| !mask.contains(k)
}

/// Keeps only the keys named in the mask, in their order.
pub fn keep_only_fields(m: serde_json::Map<String, serde_json::Value>, fields: &Vec<String>) -> (r:
    serde_json::Map<String, serde_json::Value>)
    ensures
        object_keys(r) == object_keys(m).filter(in_mask(mask_of(fields@))),
        null_keys(r).subset_of(null_keys(m)),
{
    let ghost mask = mask_of(fields@);
    let ghost p = in_mask(mask);
    let ghost orig = object_keys(m);
    let keys = object_key_list(&m);
    let mut src = m;
    let mut out = new_object();
    let mut j: usize = 0;
    while j < keys.len()
        invariant
            mask == mask_of(fields@),
            p == in_mask(mask),
            keys@.map_values(|s: String| s@) == orig,
            orig.no_duplicates(),
            j <= keys.len(),
            object_keys(out) == orig.subrange(0, j as int).filter(p),
            forall|x: Seq<char>|
                #![trigger object_keys(src).contains(x)]
                object_keys(src).contains(x) <==> orig.contains(x) && !orig.subrange(
                    0,
                    j as int,
                ).contains(x),
            null_keys(out).subset_of(null_keys(m)),
            null_keys(src).subset_of(null_keys(m)),
        decreases keys.len() - j,
    {
        let k = &keys[j];
        let ghost kv = k@;
        assert(orig[j as int] == kv);
        assert(orig.subrange(0, j + 1).drop_last() =~= orig.subrange(0, j as int));
        assert(orig.subrange(0, j + 1).last() == kv);
        proof {
            reveal(Seq::filter);
        }
        proof {
            assert(!orig.subrange(0, j as int).contains(kv)) by {
                if orig.subrange(0, j as int).contains(kv) {
                    let p0 = orig.subrange(0, j as int);
                    let i = choose|i: int| 0 <= i < j && p0[i] == kv;
                    assert(orig[i] == orig[j as int]);
                }
            }
            assert(orig.contains(kv));
            lemma_filter_contains_iff(orig.subrange(0, j as int), p, kv);
        }
        let ghost before_src = object_keys(src);
        if mask_contains(fields, k.as_str()) {
            object_transfer(&mut src, &mut out, k.as_str());
            assert(object_keys(out) =~= orig.subrange(0, j + 1).filter(p));
        } else {
            assert(object_keys(out) =~= orig.subrange(0, j + 1).filter(p));
            object_remove(&mut src, k.as_str());
        }
        proof {
            assert forall|x: Seq<char>| #![trigger object_keys(src).contains(x)]
                object_keys(src).contains(x) <==> orig.contains(x) && !orig.subrange(
                    0,
                    j + 1,
                ).contains(x) by {
                lemma_without_contains(before_src, kv, x);
                if orig.subrange(0, j + 1).contains(x) && x != kv {
                    let p1 = orig.subrange(0, j + 1);
                    let i = choose|i: int| 0 <= i < j + 1 && p1[i] == x;
                    assert(orig.subrange(0, j as int)[i] == x);
                }
                if orig.subrange(0, j as int).contains(x) {
                    let p0 = orig.subrange(0, j as int);
                    let i = choose|i: int| 0 <= i < j && p0[i] == x;
                    assert(orig.subrange(0, j + 1)[i] == x);
                }
                if x == kv {
                    assert(orig.subrange(0, j + 1)[j as int] == x);
                }
            }
        }
        j = j + 1;
    }
    assert(orig.subrange(0, keys.len() as int) =~= orig);
    out
}

/// The keys after the synthesised defaults are added.
pub open spec fn default_keys(keys: Seq<Seq<char>>) -> Seq<Seq<char>> {
    with_key(
        with_key(
            with_key(with_key(with_key(keys, "captions"@), "videoThumbnails"@), "keywords"@),
            "rating"@,
        ),
        "dislikeCount"@,
    )
}

/// Adds the defaults that a video object always carries: `captions` (empty),
/// and, where missing, `videoThumbnails`, `keywords` (empty), `rating` and
/// `dislikeCount` (zero).
pub fn add_defaults(
    m: &mut serde_json::Map<String, serde_json::Value>,
    thumbnails: Vec<serde_json::Value>,
)
    ensures
        object_keys(*final(m)) == default_keys(object_keys(*old(m))),
        null_keys(*final(m)).subset_of(null_keys(*old(m))),
{
    object_insert_array(m, "captions", Vec::new());
    if !object_has(m, "videoThumbnails") {
        object_insert_array(m, "videoThumbnails", thumbnails);
    }
    if !object_has(m, "keywords") {
        object_insert_array(m, "keywords", Vec::new());
    }
    if !object_has(m, "rating") {
        object_insert_int(m, "rating", 0);
    }
    if !object_has(m, "dislikeCount") {
        object_insert_int(m, "dislikeCount", 0);
    }
}

/// The keys after every name of the mask is added.
pub open spec fn fill_keys(keys: Seq<Seq<char>>, mask: Seq<Seq<char>>) -> Seq<Seq<char>>
    decreases mask.len(),
{
    if mask.len() == 0 {
        keys
    } else {
        with_key(fill_keys(keys, mask.drop_last()), mask.last())
    }
}

/// Adds `null` under every name of the mask that the object lacks.
pub fn add_in_missing_fields(m: &mut serde_json::Map<String, serde_json::Value>, fields: &Vec<String>)
    ensures
        object_keys(*final(m)) == fill_keys(object_keys(*old(m)), mask_of(fields@)),
        forall|k: Seq<char>|
            #[trigger] null_keys(*final(m)).contains(k) ==> null_keys(*old(m)).contains(k)
                || !object_keys(*old(m)).contains(k),
{
    let ghost orig = object_keys(*m);
    let ghost orig_nulls = null_keys(*m);
    let ghost mask = mask_of(fields@);
    let mut i: usize = 0;
    while i < fields.len()
        invariant
            mask == mask_of(fields@),
            i <= fields.len(),
            object_keys(*m) == fill_keys(orig, mask.subrange(0, i as int)),
            forall|x: Seq<char>| orig.contains(x) ==> object_keys(*m).contains(x),
            forall|k: Seq<char>|
                #[trigger] null_keys(*m).contains(k) ==> orig_nulls.contains(k) || !orig.contains(
                    k,
                ),
        decreases fields.len() - i,
    {
        assert(mask.subrange(0, i + 1).drop_last() =~= mask.subrange(0, i as int));
        assert(mask.subrange(0, i + 1).last() == fields@[i as int]@);
        let ghost before = object_keys(*m);
        if !object_has(m, fields[i].as_str()) {
            object_insert_null(m, fields[i].as_str());
        }
        proof {
            assert forall|x: Seq<char>| orig.contains(x) implies object_keys(*m).contains(x) by {
                lemma_with_key_contains(before, fields@[i as int]@, x);
            }
        }
        i = i + 1;
    }
    assert(mask.subrange(0, fields.len() as int) =~= mask);
}

/// The names of the mask that `keys` holds, in mask order, each once.
pub open spec fn mask_present(keys: Seq<Seq<char>>, mask: Seq<Seq<char>>) -> Seq<Seq<char>>
    decreases mask.len(),
{
    if mask.len() == 0 {
        Seq::empty()
    } else {
        let prev = mask_present(keys, mask.drop_last());
        let f = mask.last();
        if keys.contains(f) && !prev.contains(f) {
            prev.push(f)
        } else {
            prev
        }
    }
}

/// The keys re-emitted in mask order: first the mask's names that are
/// present, then the other keys in their order.
pub open spec fn sorted_keys(keys: Seq<Seq<char>>, mask: Seq<Seq<char>>) -> Seq<Seq<char>> {
    mask_present(keys, mask) + keys.filter(not_in_mask(mask))
}

pub proof fn lemma_mask_present_contains(keys: Seq<Seq<char>>, mask: Seq<Seq<char>>, x: Seq<char>)
    ensures
        mask_present(keys, mask).contains(x) <==> keys.contains(x) && mask.contains(x),
    decreases mask.len(),
{
    if mask.len() > 0 {
        let prev = mask_present(keys, mask.drop_last());
        let f = mask.last();
        lemma_mask_present_contains(keys, mask.drop_last(), x);
        lemma_with_key_contains(prev, f, x);
        assert(mask =~= mask.drop_last().push(f));
        if mask.contains(x) && x != f {
            let i = choose|i: int| 0 <= i < mask.len() && mask[i] == x;
            assert(mask.drop_last()[i] == x);
        }
        if mask.drop_last().contains(x) {
            let i = choose|i: int| 0 <= i < mask.drop_last().len() && mask.drop_last()[i] == x;
            assert(mask[i] == x);
        }
        if x == f {
            assert(mask[mask.len() - 1] == x);
        }
        if keys.contains(f) && !prev.contains(f) {
            assert(mask_present(keys, mask) == with_key(prev, f));
        } else {
            if keys.contains(f) && x == f {
                assert(prev.contains(f));
            }
        }
    }
}

/// The mask's names that are present come in mask order: position by
/// position they match a strictly increasing run of mask positions.
pub proof fn lemma_mask_present_in_order(keys: Seq<Seq<char>>, mask: Seq<Seq<char>>)
    ensures
        exists|idx: Seq<int>|
            #![trigger idx.len()]
            idx.len() == mask_present(keys, mask).len() && (forall|i: int|
                0 <= i < idx.len() ==> 0 <= #[trigger] idx[i] < mask.len() && mask[idx[i]]
                    == mask_present(keys, mask)[i]) && (forall|i: int, j: int|
                0 <= i < j < idx.len() ==> #[trigger] idx[i] < #[trigger] idx[j]),
    decreases mask.len(),
{
    if mask.len() == 0 {
        let idx = Seq::<int>::empty();
        assert(idx.len() == mask_present(keys, mask).len());
    } else {
        lemma_mask_present_in_order(keys, mask.drop_last());
        let prev = mask_present(keys, mask.drop_last());
        let idx0 = choose|idx: Seq<int>|
            #![trigger idx.len()]
            idx.len() == prev.len() && (forall|i: int|
                0 <= i < idx.len() ==> 0 <= #[trigger] idx[i] < mask.drop_last().len()
                    && mask.drop_last()[idx[i]] == prev[i]) && (forall|i: int, j: int|
                0 <= i < j < idx.len() ==> #[trigger] idx[i] < #[trigger] idx[j]);
        let f = mask.last();
        if keys.contains(f) && !prev.contains(f) {
            let idx = idx0.push(mask.len() - 1);
            assert(idx.len() == mask_present(keys, mask).len());
            assert forall|i: int| 0 <= i < idx.len() implies 0 <= #[trigger] idx[i] < mask.len()
                && mask[idx[i]] == mask_present(keys, mask)[i] by {
                if i < idx0.len() {
                    assert(mask.drop_last()[idx0[i]] == mask[idx0[i]]);
                }
            }
        } else {
            assert(idx0.len() == mask_present(keys, mask).len());
            assert forall|i: int| 0 <= i < idx0.len() implies 0 <= #[trigger] idx0[i] < mask.len()
                && mask[idx0[i]] == mask_present(keys, mask)[i] by {
                assert(mask.drop_last()[idx0[i]] == mask[idx0[i]]);
            }
        }
    }
}

/// Re-emits the object's keys in mask order (see `sorted_keys`).
pub fn sort_to_inv_schema(m: serde_json::Map<String, serde_json::Value>, fields: &Vec<String>) -> (r:
    serde_json::Map<String, serde_json::Value>)
    ensures
        object_keys(r) == sorted_keys(object_keys(m), mask_of(fields@)),
        null_keys(r).subset_of(null_keys(m)),
{
    let ghost mask = mask_of(fields@);
    let ghost orig = object_keys(m);
    let keys = object_key_list(&m);
    let mut src = m;
    let mut out = new_object();
    let mut i: usize = 0;
    while i < fields.len()
        invariant
            mask == mask_of(fields@),
            keys@.map_values(|s: String| s@) == orig,
            orig.no_duplicates(),
            i <= fields.len(),
            object_keys(out) == mask_present(orig, mask.subrange(0, i as int)),
            forall|x: Seq<char>|
                #![trigger object_keys(src).contains(x)]
                object_keys(src).contains(x) <==> orig.contains(x) && !mask.subrange(
                    0,
                    i as int,
                ).contains(x),
            null_keys(out).subset_of(null_keys(m)),
            null_keys(src).subset_of(null_keys(m)),
        decreases fields.len() - i,
    {
        let ghost f = fields@[i as int]@;
        let ghost prev = mask.subrange(0, i as int);
        assert(mask.subrange(0, i + 1).drop_last() =~= prev);
        assert(mask.subrange(0, i + 1).last() == f);
        let ghost before_src = object_keys(src);
        proof {
            lemma_mask_present_contains(orig, prev, f);
        }
        if object_has(&src, fields[i].as_str()) {
            object_transfer(&mut src, &mut out, fields[i].as_str());
        }
        proof {
            assert(object_keys(out) =~= mask_present(orig, mask.subrange(0, i + 1)));
            assert forall|x: Seq<char>| #![trigger object_keys(src).contains(x)]
                object_keys(src).contains(x) <==> orig.contains(x) && !mask.subrange(
                    0,
                    i + 1,
                ).contains(x) by {
                lemma_without_contains(before_src, f, x);
                if mask.subrange(0, i + 1).contains(x) && x != f {
                    let m1 = mask.subrange(0, i + 1);
                    let a = choose|a: int| 0 <= a < i + 1 && m1[a] == x;
                    assert(prev[a] == x);
                }
                if prev.contains(x) {
                    let a = choose|a: int| 0 <= a < i && prev[a] == x;
                    assert(mask.subrange(0, i + 1)[a] == x);
                }
                if x == f {
                    assert(mask.subrange(0, i + 1)[i as int] == x);
                }
            }
        }
        i = i + 1;
    }
    assert(mask.subrange(0, fields.len() as int) =~= mask);
    let ghost present = mask_present(orig, mask);
    let ghost q = not_in_mask(mask);
    let mut j: usize = 0;
    while j < keys.len()
        invariant
            mask == mask_of(fields@),
            q == not_in_mask(mask),
            present == mask_present(orig, mask),
            keys@.map_values(|s: String| s@) == orig,
            orig.no_duplicates(),
            j <= keys.len(),
            object_keys(out) == present + orig.subrange(0, j as int).filter(q),
            forall|x: Seq<char>|
                #![trigger object_keys(src).contains(x)]
                object_keys(src).contains(x) <==> orig.contains(x) && !mask.contains(x)
                    && !orig.subrange(0, j as int).contains(x),
            null_keys(out).subset_of(null_keys(m)),
            null_keys(src).subset_of(null_keys(m)),
        decreases keys.len() - j,
    {
        let k = &keys[j];
        let ghost kv = k@;
        assert(orig[j as int] == kv);
        assert(orig.subrange(0, j + 1).drop_last() =~= orig.subrange(0, j as int));
        assert(orig.subrange(0, j + 1).last() == kv);
        proof {
            reveal(Seq::filter);
        }
        let ghost before_src = object_keys(src);
        proof {
            assert(!orig.subrange(0, j as int).contains(kv)) by {
                if orig.subrange(0, j as int).contains(kv) {
                    let p0 = orig.subrange(0, j as int);
                    let a = choose|a: int| 0 <= a < j && p0[a] == kv;
                    assert(orig[a] == orig[j as int]);
                }
            }
            assert(orig.contains(kv));
        }
        if !mask_contains(fields, k.as_str()) {
            proof {
                lemma_mask_present_contains(orig, mask, kv);
                lemma_filter_contains_iff(orig.subrange(0, j as int), q, kv);
                assert(!(present + orig.subrange(0, j as int).filter(q)).contains(kv)) by {
                    let s = present + orig.subrange(0, j as int).filter(q);
                    if s.contains(kv) {
                        let a = choose|a: int| 0 <= a < s.len() && s[a] == kv;
                        if a < present.len() {
                            assert(present[a] == kv);
                        } else {
                            assert(orig.subrange(0, j as int).filter(q)[a - present.len()] == kv);
                        }
                    }
                }
            }
            object_transfer(&mut src, &mut out, k.as_str());
            assert(object_keys(out) =~= present + orig.subrange(0, j + 1).filter(q));
        } else {
            assert(object_keys(out) =~= present + orig.subrange(0, j + 1).filter(q));
        }
        proof {
            assert forall|x: Seq<char>| #![trigger object_keys(src).contains(x)]
                object_keys(src).contains(x) <==> orig.contains(x) && !mask.contains(x)
                    && !orig.subrange(0, j + 1).contains(x) by {
                lemma_without_contains(before_src, kv, x);
                if orig.subrange(0, j + 1).contains(x) && x != kv {
                    let p1 = orig.subrange(0, j + 1);
                    let a = choose|a: int| 0 <= a < j + 1 && p1[a] == x;
                    assert(orig.subrange(0, j as int)[a] == x);
                }
                if orig.subrange(0, j as int).contains(x) {
                    let p0 = orig.subrange(0, j as int);
                    let a = choose|a: int| 0 <= a < j && p0[a] == x;
                    assert(orig.subrange(0, j + 1)[a] == x);
                }
                if x == kv {
                    assert(orig.subrange(0, j + 1)[j as int] == x);
                }
            }
        }
        j = j + 1;
    }
    assert(orig.subrange(0, keys.len() as int) =~= orig);
    out
}

pub proof fn lemma_add_contains(a: Seq<Seq<char>>, b: Seq<Seq<char>>, x: Seq<char>)
    ensures
        (a + b).contains(x) <==> a.contains(x) || b.contains(x),
{
    if (a + b).contains(x) {
        let i = choose|i: int| 0 <= i < (a + b).len() && (a + b)[i] == x;
        if i < a.len() {
            assert(a[i] == x);
        } else {
            assert(b[i - a.len()] == x);
        }
    }
    if a.contains(x) {
        let i = choose|i: int| 0 <= i < a.len() && a[i] == x;
        assert((a + b)[i] == x);
    }
    if b.contains(x) {
        let i = choose|i: int| 0 <= i < b.len() && b[i] == x;
        assert((a + b)[i + a.len()] == x);
    }
}

pub proof fn lemma_fill_contains(keys: Seq<Seq<char>>, mask: Seq<Seq<char>>, x: Seq<char>)
    ensures
        fill_keys(keys, mask).contains(x) <==> keys.contains(x) || mask.contains(x),
    decreases mask.len(),
{
    if mask.len() > 0 {
        lemma_fill_contains(keys, mask.drop_last(), x);
        lemma_with_key_contains(fill_keys(keys, mask.drop_last()), mask.last(), x);
        assert(mask =~= mask.drop_last().push(mask.last()));
        if mask.contains(x) && x != mask.last() {
            let i = choose|i: int| 0 <= i < mask.len() && mask[i] == x;
            assert(mask.drop_last()[i] == x);
        }
        if mask.drop_last().contains(x) {
            let i = choose|i: int| 0 <= i < mask.drop_last().len() && mask.drop_last()[i] == x;
            assert(mask[i] == x);
        }
        if x == mask.last() {
            assert(mask[mask.len() - 1] == x);
        }
    }
}

pub proof fn lemma_sorted_contains(keys: Seq<Seq<char>>, mask: Seq<Seq<char>>, x: Seq<char>)
    ensures
        sorted_keys(keys, mask).contains(x) <==> keys.contains(x),
{
    lemma_add_contains(mask_present(keys, mask), keys.filter(not_in_mask(mask)), x);
    lemma_mask_present_contains(keys, mask, x);
    lemma_filter_contains_iff(keys, not_in_mask(mask), x);
}

/// A name that every video object carries.
pub open spec fn is_default_name(x: Seq<char>) -> bool {
    x == "captions"@ || x == "videoThumbnails"@ || x == "keywords"@ || x == "rating"@ || x
        == "dislikeCount"@
}

pub proof fn lemma_default_contains(keys: Seq<Seq<char>>, x: Seq<char>)
    ensures
        default_keys(keys).contains(x) <==> keys.contains(x) || is_default_name(x),
{
    let k1 = with_key(keys, "captions"@);
    let k2 = with_key(k1, "videoThumbnails"@);
    let k3 = with_key(k2, "keywords"@);
    let k4 = with_key(k3, "rating"@);
    lemma_with_key_contains(keys, "captions"@, x);
    lemma_with_key_contains(k1, "videoThumbnails"@, x);
    lemma_with_key_contains(k2, "keywords"@, x);
    lemma_with_key_contains(k3, "rating"@, x);
    lemma_with_key_contains(k4, "dislikeCount"@, x);
}

/// The keys of a projected video object, stage by stage: keep the masked
/// keys, add the defaults, drop `hlsUrl`, fill in the mask (when null keys
/// are kept), re-order (when sorting), then add `comments` and `innertube`.
pub open spec fn projected_keys(
    keys: Seq<Seq<char>>,
    mask: Seq<Seq<char>>,
    retain_nulls: bool,
    sort: bool,
    comments: bool,
    innertube: bool,
) -> Seq<Seq<char>> {
    let k1 = keys.filter(in_mask(mask));
    let k2 = default_keys(k1);
    let k3 = without(k2, "hlsUrl"@);
    let k4 = if retain_nulls {
        fill_keys(k3, mask)
    } else {
        k3
    };
    let k5 = if sort {
        sorted_keys(k4, mask)
    } else {
        k4
    };
    let k6 = if comments {
        with_key(k5, "comments"@)
    } else {
        k5
    };
    if innertube {
        with_key(k6, "innertube"@)
    } else {
        k6
    }
}

/// Projects a video object onto the field mask `fields`, with the
/// defaults, the null policy and the key order that `settings` selects.
/// `thumbnails` becomes `videoThumbnails` where that is missing, `comments`
/// the comment links, and `innertube` the raw upstream payloads.
pub fn project_video(
    m: serde_json::Map<String, serde_json::Value>,
    fields: &Vec<String>,
    settings: &AppSettings,
    thumbnails: Vec<serde_json::Value>,
    comments: Option<Vec<serde_json::Value>>,
    innertube: serde_json::Map<String, serde_json::Value>,
) -> (r: serde_json::Map<String, serde_json::Value>)
    ensures
        object_keys(r) == projected_keys(
            object_keys(m),
            mask_of(fields@),
            settings.retain_null_keys,
            settings.sort_to_inv_schema,
            comments is Some,
            settings.return_innertube_response,
        ),
        !settings.retain_null_keys ==> null_keys(r).subset_of(null_keys(m)),
{
    let mut j = keep_only_fields(m, fields);
    add_defaults(&mut j, thumbnails);
    object_remove(&mut j, "hlsUrl");
    if settings.retain_null_keys {
        add_in_missing_fields(&mut j, fields);
    }
    if settings.sort_to_inv_schema {
        j = sort_to_inv_schema(j, fields);
    }
    match comments {
        Some(c) => object_insert_array(&mut j, "comments", c),
        None => {},
    }
    if settings.return_innertube_response {
        object_insert_object(&mut j, "innertube", innertube);
    }
    j
}

/// With null keys kept, the projected object holds exactly the masked
/// names, the defaults every video carries, and the comment links and raw
/// payloads where asked for.
pub proof fn lemma_projected_key_set(
    keys: Seq<Seq<char>>,
    mask: Seq<Seq<char>>,
    sort: bool,
    comments: bool,
    innertube: bool,
    x: Seq<char>,
)
    ensures
        projected_keys(keys, mask, true, sort, comments, innertube).contains(x) <==> mask.contains(x)
            || is_default_name(x) || (comments && x == "comments"@) || (innertube && x
            == "innertube"@),
{
    let k1 = keys.filter(in_mask(mask));
    let k2 = default_keys(k1);
    let k3 = without(k2, "hlsUrl"@);
    let k4 = fill_keys(k3, mask);
    let k5 = if sort {
        sorted_keys(k4, mask)
    } else {
        k4
    };
    let k6 = if comments {
        with_key(k5, "comments"@)
    } else {
        k5
    };
    lemma_filter_contains_iff(keys, in_mask(mask), x);
    lemma_default_contains(k1, x);
    lemma_without_contains(k2, "hlsUrl"@, x);
    lemma_fill_contains(k3, mask, x);
    lemma_sorted_contains(k4, mask, x);
    assert(!is_default_name("hlsUrl"@)) by {
        reveal_strlit("hlsUrl");
        reveal_strlit("captions");
        reveal_strlit("videoThumbnails");
        reveal_strlit("keywords");
        reveal_strlit("rating");
        reveal_strlit("dislikeCount");
        assert("hlsUrl"@.len() != "captions"@.len());
        assert("hlsUrl"@.len() != "videoThumbnails"@.len());
        assert("hlsUrl"@.len() != "keywords"@.len());
        assert("hlsUrl"@[0] != "rating"@[0]);
        assert("hlsUrl"@.len() != "dislikeCount"@.len());
    }
    lemma_with_key_contains(k5, "comments"@, x);
    lemma_with_key_contains(k6, "innertube"@, x);
}

/// With null keys kept and the default mask, every name of the mask is a
/// key of the result.
pub proof fn lemma_default_mask_complete(
    keys: Seq<Seq<char>>,
    sort: bool,
    comments: bool,
    innertube: bool,
    i: int,
)
    requires
        0 <= i < default_mask().len(),
    ensures
        projected_keys(keys, default_mask(), true, sort, comments, innertube).contains(
            default_mask()[i],
        ),
{
    assert(default_mask().contains(default_mask()[i]));
    lemma_projected_key_set(keys, default_mask(), sort, comments, innertube, default_mask()[i]);
}

/// With sorting on, the result starts with the masked names in mask order
/// (each matched to a strictly later mask position than the one before),
/// and no masked name comes after them.
pub proof fn lemma_projected_mask_order(
    keys: Seq<Seq<char>>,
    mask: Seq<Seq<char>>,
    retain_nulls: bool,
    comments: bool,
    innertube: bool,
)
    requires
        !mask.contains("comments"@),
        !mask.contains("innertube"@),
    ensures
        ({
            let r = projected_keys(keys, mask, retain_nulls, true, comments, innertube);
            exists|idx: Seq<int>|
                #![trigger idx.len()]
                idx.len() <= r.len() && (forall|i: int|
                    0 <= i < idx.len() ==> 0 <= #[trigger] idx[i] < mask.len() && mask[idx[i]]
                        == r[i]) && (forall|i: int, j: int|
                    0 <= i < j < idx.len() ==> #[trigger] idx[i] < #[trigger] idx[j]) && (forall|
                    i: int,
                | idx.len() <= i < r.len() ==> !mask.contains(#[trigger] r[i]))
        }),
{
    let k1 = keys.filter(in_mask(mask));
    let k2 = default_keys(k1);
    let k3 = without(k2, "hlsUrl"@);
    let k4 = if retain_nulls {
        fill_keys(k3, mask)
    } else {
        k3
    };
    let present = mask_present(k4, mask);
    let rest = k4.filter(not_in_mask(mask));
    let k5 = present + rest;
    let k6 = if comments {
        with_key(k5, "comments"@)
    } else {
        k5
    };
    let r = if innertube {
        with_key(k6, "innertube"@)
    } else {
        k6
    };
    lemma_mask_present_in_order(k4, mask);
    let idx = choose|idx: Seq<int>|
        #![trigger idx.len()]
        idx.len() == present.len() && (forall|i: int|
            0 <= i < idx.len() ==> 0 <= #[trigger] idx[i] < mask.len() && mask[idx[i]]
                == present[i]) && (forall|i: int, j: int|
            0 <= i < j < idx.len() ==> #[trigger] idx[i] < #[trigger] idx[j]);
    let n = present.len() as int;
    assert(r.len() >= k5.len());
    assert forall|i: int| 0 <= i < n implies 0 <= #[trigger] idx[i] < mask.len() && mask[idx[i]]
        == r[i] by {
        assert(k5[i] == present[i]);
        assert(k6[i] == k5[i]);
        assert(r[i] == k6[i]);
    }
    assert forall|i: int| n <= i < r.len() implies !mask.contains(#[trigger] r[i]) by {
        if i < k5.len() {
            assert(k5[i] == rest[i - n]);
            k4.lemma_filter_pred(not_in_mask(mask), i - n);
            assert(k6[i] == k5[i]);
            assert(r[i] == k6[i]);
        } else if i < k6.len() {
            assert(k6[i] == "comments"@);
            assert(r[i] == k6[i]);
        } else {
            assert(r[i] == "innertube"@);
        }
    }
}

/// The default field mask: the public Invidious video schema.
pub open spec fn default_mask() -> Seq<Seq<char>> {
    seq![
        "type"@, "title"@, "videoId"@, "videoThumbnails"@, "storyboards"@, "description"@,
        "descriptionHtml"@, "published"@, "publishedText"@, "keywords"@, "viewCount"@,
        "likeCount"@, "dislikeCount"@, "paid"@, "premium"@, "isFamilyFriendly"@,
        "allowedRegions"@, "genre"@, "genreUrl"@, "author"@, "authorId"@, "authorUrl"@,
        "authorThumbnails"@, "subCountText"@, "lengthSeconds"@, "allowRatings"@, "rating"@,
        "isListed"@, "liveNow"@, "isUpcoming"@, "hlsUrl"@, "dashUrl"@, "adaptiveFormats"@,
        "formatStreams"@, "captions"@, "recommendedVideos"@, "musicTracks"@,
    ]
}

/// The default field mask.
pub fn default_fields() -> (r: Vec<String>)
    ensures
        mask_of(r@) == default_mask(),
{
    let names = [
        "type", "title", "videoId", "videoThumbnails", "storyboards", "description",
        "descriptionHtml", "published", "publishedText", "keywords", "viewCount",
        "likeCount", "dislikeCount", "paid", "premium", "isFamilyFriendly",
        "allowedRegions", "genre", "genreUrl", "author", "authorId", "authorUrl",
        "authorThumbnails", "subCountText", "lengthSeconds", "allowRatings", "rating",
        "isListed", "liveNow", "isUpcoming", "hlsUrl", "dashUrl", "adaptiveFormats",
        "formatStreams", "captions", "recommendedVideos", "musicTracks",
    ];
    let ghost want = default_mask();
    assert(names@.len() == want.len());
    assert(forall|i: int| 0 <= i < want.len() ==> (#[trigger] names@[i])@ == want[i]);
    let mut r: Vec<String> = Vec::new();
    let mut i: usize = 0;
    while i < names.len()
        invariant
            names@.len() == want.len(),
            forall|k: int| 0 <= k < want.len() ==> (#[trigger] names@[k])@ == want[k],
            i <= names.len(),
            r.len() == i,
            mask_of(r@) == want.subrange(0, i as int),
        decreases names.len() - i,
    {
        let name = names[i];
        assert(name@ == want[i as int]);
        let ghost before = r@;
        r.push(String::from_str(name));
        assert(r@ == before.push(r@[i as int]));
        assert(mask_of(r@) =~= mask_of(before).push(want[i as int]));
        assert(mask_of(r@) =~= want.subrange(0, i + 1));
        i = i + 1;
    }
    assert(want.subrange(0, names.len() as int) =~= want);
    r
}


/// `s` cut at every comma (a text without commas is one piece).
pub open spec fn comma_split(s: Seq<char>) -> Seq<Seq<char>>
    decreases s.len(),
{
    if s.len() == 0 {
        seq![Seq::<char>::empty()]
    } else {
        let rest = comma_split(s.drop_last());
        if s.last() == ',' {
            rest.push(Seq::<char>::empty())
        } else {
            rest.update(rest.len() - 1, rest.last().push(s.last()))
        }
    }
}

pub proof fn lemma_comma_split_nonempty(s: Seq<char>)
    ensures
        comma_split(s).len() >= 1,
    decreases s.len(),
{
    if s.len() > 0 {
        lemma_comma_split_nonempty(s.drop_last());
    }
}

/// The field names of a `fields=a,b,c` parameter.
pub fn split_fields(s: &str) -> (r: Vec<String>)
    ensures
        mask_of(r@) == comma_split(s@),
{
    let chars = crate::text::chars_of(s);
    let n = chars.len();
    let mut r: Vec<String> = Vec::new();
    let mut start: usize = 0;
    let mut i: usize = 0;
    proof {
        let e = s@.subrange(0, 0);
        assert(e =~= Seq::<char>::empty());
        assert(comma_split(e) == seq![Seq::<char>::empty()]);
        assert(mask_of(r@) =~= Seq::<Seq<char>>::empty());
        assert(mask_of(r@).push(e) =~= seq![Seq::<char>::empty()]);
    }
    while i < n
        invariant
            n == chars.len(),
            chars@ == s@,
            start <= i <= n,
            mask_of(r@).push(s@.subrange(start as int, i as int)) == comma_split(
                s@.subrange(0, i as int),
            ),
        decreases n - i,
    {
        let ghost prefix = s@.subrange(0, i + 1);
        assert(prefix.drop_last() =~= s@.subrange(0, i as int));
        assert(prefix.last() == chars@[i as int]);
        proof {
            lemma_comma_split_nonempty(s@.subrange(0, i as int));
        }
        if chars[i] == ',' {
            let ghost before = r@;
            r.push(String::from_str(s.substring_char(start, i)));
            assert(mask_of(r@) =~= mask_of(before).push(s@.subrange(start as int, i as int)));
            start = i + 1;
            assert(s@.subrange(start as int, i + 1) =~= Seq::<char>::empty());
        } else {
            assert(s@.subrange(start as int, i + 1) =~= s@.subrange(start as int, i as int).push(
                chars@[i as int],
            ));
            assert(mask_of(r@).push(s@.subrange(start as int, i + 1)) =~= comma_split(prefix));
        }
        i = i + 1;
    }
    let ghost before = r@;
    r.push(String::from_str(s.substring_char(start, n)));
    assert(mask_of(r@) =~= mask_of(before).push(s@.subrange(start as int, n as int)));
    assert(s@.subrange(0, n as int) =~= s@);
    r
}

/// The field mask of a request: the `fields` parameter, else the default.
pub fn fields_from_query(fields: Option<&str>) -> (r: Vec<String>)
    ensures
        mask_of(r@) == match fields {
            Some(f) => comma_split(f@),
            None => default_mask(),
        },
{
    match fields {
        Some(f) => split_fields(f),
        None => default_fields(),
    }
}

/// The width part of a `WxH` size: the text before the first `x`.
pub open spec fn width_text(size: Seq<char>) -> Seq<char> {
    match crate::text::find_first(size, "x"@) {
        Some(i) => size.subrange(0, i),
        None => size,
    }
}

/// The width a stream's size gives, where it parses.
pub open spec fn size_width(size: Option<Seq<char>>) -> Option<int> {
    match size {
        Some(s) => crate::outside::i32_text_value(width_text(s)),
        None => None,
    }
}

/// The largest width among the sizes that parse, or 680 where none does.
pub open spec fn max_width(sizes: Seq<Option<Seq<char>>>) -> int
    decreases sizes.len(),
{
    if sizes.len() == 0 {
        680
    } else {
        let rest = max_width(sizes.drop_last());
        let rest_parses = exists|i: int|
            0 <= i < sizes.len() - 1 && (#[trigger] size_width(sizes[i])) is Some;
        match size_width(sizes.last()) {
            Some(w) => if !rest_parses || w > rest {
                w
            } else {
                rest
            },
            None => rest,
        }
    }
}

pub open spec fn sizes_view(sizes: Seq<Option<String>>) -> Seq<Option<Seq<char>>> {
    sizes.map_values(|s: Option<String>| match s {
        Some(t) => Some(t@),
        None => None,
    })
}

/// The width of a stream size, where it parses.
pub fn parse_size_width(size: Option<&String>) -> (r: Option<i32>)
    ensures
        match r {
            Some(w) => size_width(view_opt(size)) == Some(w as int),
            None => size_width(view_opt(size)) is None,
        },
{
    match size {
        Some(s) => {
            let t = s.as_str();
            let head = match crate::text::find_str(t, "x") {
                Some(i) => {
                    proof {
                        crate::text::lemma_find_from(t@, "x"@, 0);
                    }
                    t.substring_char(0, i)
                },
                None => t,
            };
            crate::outside::parse_i32(head)
        },
        None => None,
    }
}

/// The width up to which thumbnails are generated: the largest stream
/// width that parses, 680 where none does.
pub fn max_thumbnail_width(sizes: &Vec<Option<String>>) -> (r: i32)
    ensures
        r == max_width(sizes_view(sizes@)),
{
    let ghost sv = sizes_view(sizes@);
    let mut best: i32 = 680;
    let mut found = false;
    let mut i: usize = 0;
    while i < sizes.len()
        invariant
            sv == sizes_view(sizes@),
            i <= sizes.len(),
            best == max_width(sv.subrange(0, i as int)),
            found == exists|k: int| 0 <= k < i && (#[trigger] size_width(sv[k])) is Some,
        decreases sizes.len() - i,
    {
        let ghost pre = sv.subrange(0, i + 1);
        assert(pre.drop_last() =~= sv.subrange(0, i as int));
        let entry: Option<&String> = match &sizes[i] {
            Some(s) => Some(s),
            None => None,
        };
        assert(view_opt(entry) == sv[i as int]);
        assert(pre.last() == sv[i as int]);
        assert((exists|k: int| 0 <= k < pre.len() - 1 && (#[trigger] size_width(pre[k])) is Some)
            == found) by {
            if found {
                let k = choose|k: int| 0 <= k < i && (#[trigger] size_width(sv[k])) is Some;
                assert(pre[k] == sv[k]);
            }
            if exists|k: int| 0 <= k < pre.len() - 1 && (#[trigger] size_width(pre[k])) is Some {
                let k = choose|k: int| 0 <= k < pre.len() - 1 && (#[trigger] size_width(pre[k])) is Some;
                assert(pre[k] == sv[k]);
            }
        }
        match parse_size_width(entry) {
            Some(w) => {
                if !found || w > best {
                    best = w;
                }
                found = true;
            },
            None => {},
        }
        assert(found == exists|k: int| 0 <= k < i + 1 && (#[trigger] size_width(sv[k])) is Some) by {
            if size_width(sv[i as int]) is Some {
                assert(0 <= i < i + 1);
            }
        }
        i = i + 1;
    }
    assert(sv.subrange(0, sizes.len() as int) =~= sv);
    best
}

/// A comment continuation link of the video route.
pub struct CommentUrl {
    pub title: String,
    pub url: String,
    pub token: String,
}

/// `/api/v1/comments/{videoId}?continuation={token}`
pub open spec fn comment_url_spec(video_id: Seq<char>, token: Seq<char>) -> Seq<char> {
    "/api/v1/comments/"@ + video_id + "?continuation="@ + token
}

impl CommentUrl {
    /// The link for the comment continuation `token` titled `title`.
    pub fn new(video_id: &str, title: &str, token: &str) -> (r: CommentUrl)
        ensures
            r.title@ == title@,
            r.url@ == comment_url_spec(video_id@, token@),
            r.token@ == token@,
    {
        let mut url = String::from_str("/api/v1/comments/");
        url.append(video_id);
        url.append("?continuation=");
        url.append(token);
        CommentUrl { title: String::from_str(title), url, token: String::from_str(token) }
    }
}


/// The stream lists that thumbnail widths are read from: `formatStreams`
/// and `adaptiveFormats`, each where the mask names it and the object has it.
pub fn width_source_keys(m: &serde_json::Map<String, serde_json::Value>, fields: &Vec<String>) -> (r:
    Vec<String>)
    ensures
        mask_of(r@) == (if mask_of(fields@).contains("formatStreams"@) && object_keys(*m).contains(
            "formatStreams"@,
        ) {
            seq!["formatStreams"@]
        } else {
            Seq::empty()
        }) + (if mask_of(fields@).contains("adaptiveFormats"@) && object_keys(*m).contains(
            "adaptiveFormats"@,
        ) {
            seq!["adaptiveFormats"@]
        } else {
            Seq::empty()
        }),
{
    let mut r: Vec<String> = Vec::new();
    if mask_contains(fields, "formatStreams") && object_has(m, "formatStreams") {
        r.push(String::from_str("formatStreams"));
    }
    let ghost mid = r@;
    if mask_contains(fields, "adaptiveFormats") && object_has(m, "adaptiveFormats") {
        r.push(String::from_str("adaptiveFormats"));
    }
    assert(mask_of(r@) =~= (if mask_of(fields@).contains("formatStreams"@) && object_keys(*m).contains(
            "formatStreams"@,
        ) {
            seq!["formatStreams"@]
        } else {
            Seq::empty()
        }) + (if mask_of(fields@).contains("adaptiveFormats"@) && object_keys(*m).contains(
            "adaptiveFormats"@,
        ) {
            seq!["adaptiveFormats"@]
        } else {
            Seq::empty()
        }));
    r
}

} // verus!
