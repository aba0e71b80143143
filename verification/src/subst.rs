//! The substitution engine: literal, non-overlapping, left-to-right
//! replacement of every theme key by its value, applied key by key
//! across a file's contents.

use vstd::prelude::*;

verus! {

/// True when `key` occurs in `text` starting at position `i`.
pub open spec fn match_at(text: Seq<u8>, key: Seq<u8>, i: int) -> bool {
    0 <= i && i + key.len() <= text.len() && text.subrange(i, i + key.len() as int) == key
}

/// True when `key` occurs somewhere in `text`. An empty key occurs in
/// every text.
pub open spec fn occurs(text: Seq<u8>, key: Seq<u8>) -> bool {
    exists|i: int| match_at(text, key, i)
}

/// The result of replacing every occurrence of `key` in `text` by
/// `value`, scanning left to right and never rescanning the value just
/// inserted. An empty key matches before every position and at the very
/// end, so it interleaves `value` with the text's bytes.
pub open spec fn replaced(text: Seq<u8>, key: Seq<u8>, value: Seq<u8>) -> Seq<u8>
    decreases text.len(),
{
    if text.len() == 0 {
        if key.len() == 0 {
            value
        } else {
            text
        }
    } else if key.len() == 0 {
        value + seq![text[0]] + replaced(text.skip(1), key, value)
    } else if match_at(text, key, 0) {
        value + replaced(text.skip(key.len() as int), key, value)
    } else {
        seq![text[0]] + replaced(text.skip(1), key, value)
    }
}

/// The key/value pairs of a theme, as byte sequences.
pub open spec fn pairs_view(pairs: Seq<(Vec<u8>, Vec<u8>)>) -> Seq<(Seq<u8>, Seq<u8>)> {
    pairs.map_values(|p: (Vec<u8>, Vec<u8>)| (p.0@, p.1@))
}

/// The result of applying the pairs in order: each pair rewrites the
/// output of the pairs before it, so a value inserted by an earlier key
/// is seen by every later key's pass.
pub open spec fn applied(text: Seq<u8>, pairs: Seq<(Seq<u8>, Seq<u8>)>) -> Seq<u8>
    decreases pairs.len(),
{
    if pairs.len() == 0 {
        text
    } else {
        applied(replaced(text, pairs[0].0, pairs[0].1), pairs.skip(1))
    }
}

/// A key that occurs nowhere in the text is not replaced: the pass
/// leaves the text unchanged.
pub proof fn lemma_replace_absent(text: Seq<u8>, key: Seq<u8>, value: Seq<u8>)
    requires
        !occurs(text, key),
    ensures
        replaced(text, key, value) == text,
    decreases text.len(),
{
    assert(key.len() > 0) by {
        if key.len() == 0 {
            assert(text.subrange(0, 0) =~= key);
            assert(match_at(text, key, 0));
        }
    }
    if text.len() > 0 {
        assert(!match_at(text, key, 0));
        assert forall|i: int| !match_at(text.skip(1), key, i) by {
            if match_at(text.skip(1), key, i) {
                assert(text.subrange(i + 1, i + 1 + key.len()) =~= text.skip(1).subrange(
                    i,
                    i + key.len() as int,
                ));
                assert(match_at(text, key, i + 1));
            }
        }
        lemma_replace_absent(text.skip(1), key, value);
        assert(seq![text[0]] + text.skip(1) =~= text);
    }
}

/// A theme none of whose keys occurs in the text leaves the text
/// unchanged.
pub proof fn lemma_apply_absent(text: Seq<u8>, pairs: Seq<(Seq<u8>, Seq<u8>)>)
    requires
        forall|j: int| 0 <= j < pairs.len() ==> !occurs(text, #[trigger] pairs[j].0),
    ensures
        applied(text, pairs) == text,
    decreases pairs.len(),
{
    if pairs.len() > 0 {
        lemma_replace_absent(text, pairs[0].0, pairs[0].1);
        assert(forall|j: int|
            0 <= j < pairs.skip(1).len() ==> #[trigger] pairs.skip(1)[j] == pairs[j + 1]);
        lemma_apply_absent(text, pairs.skip(1));
    }
}

/// Applying a theme is idempotent once no key occurs in the result of
/// the first application: a second run over that result changes nothing.
/// (When some key does occur in the first run's output — for instance
/// because a value reintroduces a key, or a replacement boundary forms a
/// new occurrence — a second run may keep rewriting.)
pub proof fn lemma_apply_idempotent(text: Seq<u8>, pairs: Seq<(Seq<u8>, Seq<u8>)>)
    requires
        forall|j: int|
            0 <= j < pairs.len() ==> !occurs(applied(text, pairs), #[trigger] pairs[j].0),
    ensures
        applied(applied(text, pairs), pairs) == applied(text, pairs),
{
    lemma_apply_absent(applied(text, pairs), pairs);
}

/// Appends every byte of `v` to `out`.
fn push_all(out: &mut Vec<u8>, v: &Vec<u8>)
    ensures
        final(out)@ == old(out)@ + v@,
{
    let mut j: usize = 0;
    while j < v.len()
        invariant
            j <= v@.len(),
            out@ == old(out)@ + v@.take(j as int),
        decreases v@.len() - j,
    {
        let b = v[j];
        out.push(b);
        proof {
            assert(old(out)@ + v@.take(j as int) + seq![v@[j as int]] =~= old(out)@ + v@.take(
                j + 1,
            ));
        }
        j = j + 1;
    }
    proof {
        assert(v@.take(v@.len() as int) =~= v@);
    }
}

/// Whether `key` occurs in `text` at position `i`.
fn is_match_at(text: &Vec<u8>, key: &Vec<u8>, i: usize) -> (r: bool)
    requires
        i + key@.len() <= text@.len(),
    ensures
        r == match_at(text@, key@, i as int),
{
    let n = text.len();
    let mut j: usize = 0;
    while j < key.len()
        invariant
            i + key@.len() <= text@.len(),
            n == text@.len(),
            j <= key@.len(),
            forall|t: int| 0 <= t < j ==> text@[i + t] == key@[t],
        decreases key@.len() - j,
    {
        if text[i + j] != key[j] {
            proof {
                assert(!match_at(text@, key@, i as int)) by {
                    if match_at(text@, key@, i as int) {
                        assert(text@.subrange(i as int, i + key@.len() as int)[j as int] == text@[i
                            + j]);
                    }
                }
            }
            return false;
        }
        j = j + 1;
    }
    proof {
        assert(text@.subrange(i as int, i + key@.len() as int) =~= key@);
    }
    true
}

/// Replaces every non-overlapping occurrence of `key` in `text` by
/// `value`, scanning left to right; the bytes a replacement inserts are
/// not rescanned for the same key.
pub fn replace_all(text: &Vec<u8>, key: &Vec<u8>, value: &Vec<u8>) -> (out: Vec<u8>)
    ensures
        out@ == replaced(text@, key@, value@),
{
    let mut out: Vec<u8> = Vec::new();
    proof {
        assert(text@.skip(0) =~= text@);
    }
    if key.len() == 0 {
        let mut i: usize = 0;
        while i < text.len()
            invariant
                i <= text@.len(),
                key@.len() == 0,
                replaced(text@, key@, value@) == out@ + replaced(
                    text@.skip(i as int),
                    key@,
                    value@,
                ),
            decreases text@.len() - i,
        {
            let ghost prev = out@;
            push_all(&mut out, value);
            let b = text[i];
            out.push(b);
            proof {
                let s = text@.skip(i as int);
                assert(s[0] == text@[i as int]);
                assert(s.skip(1) =~= text@.skip(i + 1));
                assert(prev + (value@ + seq![s[0]] + replaced(s.skip(1), key@, value@)) =~= (prev
                    + value@ + seq![text@[i as int]]) + replaced(text@.skip(i + 1), key@, value@));
            }
            i = i + 1;
        }
        push_all(&mut out, value);
        proof {
            assert(text@.skip(text@.len() as int) =~= Seq::<u8>::empty());
        }
        out
    } else {
        let mut i: usize = 0;
        while i < text.len()
            invariant
                i <= text@.len(),
                key@.len() > 0,
                replaced(text@, key@, value@) == out@ + replaced(
                    text@.skip(i as int),
                    key@,
                    value@,
                ),
            decreases text@.len() - i,
        {
            let ghost s = text@.skip(i as int);
            if text.len() - i >= key.len() && is_match_at(text, key, i) {
                let ghost prev = out@;
                push_all(&mut out, value);
                proof {
                    assert(s.subrange(0, key@.len() as int) =~= text@.subrange(
                        i as int,
                        i + key@.len(),
                    ));
                    assert(match_at(s, key@, 0));
                    assert(s.skip(key@.len() as int) =~= text@.skip(i + key@.len()));
                    assert(prev + (value@ + replaced(s.skip(key@.len() as int), key@, value@)) =~= (
                    prev + value@) + replaced(text@.skip(i + key@.len()), key@, value@));
                }
                i = i + key.len();
            } else {
                let ghost prev = out@;
                let b = text[i];
                out.push(b);
                proof {
                    assert(!match_at(s, key@, 0)) by {
                        if match_at(s, key@, 0) {
                            assert(s.subrange(0, key@.len() as int) =~= text@.subrange(
                                i as int,
                                i + key@.len(),
                            ));
                            assert(match_at(text@, key@, i as int));
                        }
                    }
                    assert(s[0] == text@[i as int]);
                    assert(s.skip(1) =~= text@.skip(i + 1));
                    assert(prev + (seq![s[0]] + replaced(s.skip(1), key@, value@)) =~= (prev + seq![
                        text@[i as int],
                    ]) + replaced(text@.skip(i + 1), key@, value@));
                }
                i = i + 1;
            }
        }
        proof {
            assert(text@.skip(text@.len() as int) =~= Seq::<u8>::empty());
        }
        out
    }
}

/// Copies the bytes of `v` into a fresh vector.
fn copy_bytes(v: &Vec<u8>) -> (out: Vec<u8>)
    ensures
        out@ == v@,
{
    let mut out: Vec<u8> = Vec::new();
    push_all(&mut out, v);
    proof {
        assert(Seq::<u8>::empty() + v@ =~= v@);
    }
    out
}

/// Applies every pair to `text`, in the order the pairs stand in: the
/// first pair rewrites the text, the second rewrites that result, and so
/// on, so a value inserted by an earlier pair is seen by every later
/// pair's pass.
pub fn apply_pairs(text: &Vec<u8>, pairs: &Vec<(Vec<u8>, Vec<u8>)>) -> (out: Vec<u8>)
    ensures
        out@ == applied(text@, pairs_view(pairs@)),
{
    let ghost pv = pairs_view(pairs@);
    let mut cur = copy_bytes(text);
    let mut k: usize = 0;
    proof {
        assert(pv.skip(0) =~= pv);
    }
    while k < pairs.len()
        invariant
            k <= pairs@.len(),
            pv == pairs_view(pairs@),
            applied(text@, pv) == applied(cur@, pv.skip(k as int)),
        decreases pairs@.len() - k,
    {
        let next = replace_all(&cur, &pairs[k].0, &pairs[k].1);
        proof {
            assert(pv.skip(k as int)[0] == pv[k as int]);
            assert(pv.skip(k as int).skip(1) =~= pv.skip(k + 1));
        }
        cur = next;
        k = k + 1;
    }
    proof {
        assert(pv.skip(pv.len() as int) =~= Seq::<(Seq<u8>, Seq<u8>)>::empty());
    }
    cur
}

} // verus!
