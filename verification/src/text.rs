//! Plain textual placeholder substitution: every occurrence of a key,
//! scanned left to right, is replaced by an opaque value. There is no
//! escaping and no templating engine.

use vstd::prelude::*;
use vstd::string::StrSliceExecFns;

verus! {

/// `key` occurs in `s` starting at position `i`.
pub open spec fn occurs_at(s: Seq<char>, key: Seq<char>, i: int) -> bool {
    0 <= i && i + key.len() <= s.len() && s.subrange(i, i + key.len()) == key
}

/// `key` occurs somewhere in `s`.
pub open spec fn occurs(s: Seq<char>, key: Seq<char>) -> bool {
    exists|i: int| occurs_at(s, key, i)
}

/// `s` with every occurrence of `key`, scanned left to right, replaced by
/// `value`. An empty key replaces nothing.
pub open spec fn replace_all(s: Seq<char>, key: Seq<char>, value: Seq<char>) -> Seq<char>
    decreases s.len(),
{
    if key.len() == 0 || s.len() < key.len() {
        s
    } else if s.subrange(0, key.len() as int) == key {
        value + replace_all(s.skip(key.len() as int), key, value)
    } else {
        seq![s[0]] + replace_all(s.skip(1), key, value)
    }
}

/// The characters of a string slice, one by one.
pub fn chars_of(s: &str) -> (v: Vec<char>)
    ensures
        v@ == s@,
{
    let n: usize = s.unicode_len();
    let mut v: Vec<char> = Vec::new();
    let mut i: usize = 0;
    while i < n
        invariant
            n == s@.len(),
            i <= n,
            v@ == s@.take(i as int),
        decreases n - i,
    {
        let c: char = s.get_char(i);
        v.push(c);
        proof {
            assert(s@.take(i as int).push(c) =~= s@.take(i + 1));
        }
        i += 1;
    }
    proof {
        assert(s@.take(n as int) =~= s@);
    }
    v
}

/// Whether `key` occurs in `s` at position `i`.
pub fn match_at(s: &Vec<char>, key: &Vec<char>, i: usize) -> (r: bool)
    requires
        i <= s@.len(),
    ensures
        r == occurs_at(s@, key@, i as int),
{
    if s.len() - i < key.len() {
        return false;
    }
    let mut j: usize = 0;
    while j < key.len()
        invariant
            i + key@.len() <= s@.len(),
            s@.len() <= usize::MAX,
            j <= key@.len(),
            forall|k: int| 0 <= k < j ==> s@[i + k] == key@[k],
        decreases key@.len() - j,
    {
        if s[i + j] != key[j] {
            proof {
                if occurs_at(s@, key@, i as int) {
                    assert(s@.subrange(i as int, i + key@.len())[j as int] == key@[j as int]);
                }
            }
            return false;
        }
        j += 1;
    }
    proof {
        assert(s@.subrange(i as int, i + key@.len()) =~= key@);
    }
    true
}

/// Append every element of `src` to `dst`.
pub fn push_all(dst: &mut Vec<char>, src: &Vec<char>)
    ensures
        final(dst)@ == old(dst)@ + src@,
{
    let mut k: usize = 0;
    while k < src.len()
        invariant
            k <= src@.len(),
            dst@ == old(dst)@ + src@.take(k as int),
        decreases src@.len() - k,
    {
        let c: char = src[k];
        dst.push(c);
        proof {
            assert((old(dst)@ + src@.take(k as int)).push(c) =~= old(dst)@ + src@.take(
                k + 1,
            ));
        }
        k += 1;
    }
    proof {
        assert(old(dst)@ + src@.take(src@.len() as int) =~= old(dst)@ + src@);
    }
}

/// Whether two character vectors hold the same text.
pub fn chars_eq(a: &Vec<char>, b: &Vec<char>) -> (r: bool)
    ensures
        r == (a@ == b@),
{
    if a.len() != b.len() {
        return false;
    }
    let mut k: usize = 0;
    while k < a.len()
        invariant
            a@.len() == b@.len(),
            k <= a@.len(),
            forall|j: int| 0 <= j < k ==> a@[j] == b@[j],
        decreases a@.len() - k,
    {
        if a[k] != b[k] {
            return false;
        }
        k += 1;
    }
    proof {
        assert(a@ =~= b@);
    }
    true
}

/// A copy of a character vector.
pub fn clone_chars(v: &Vec<char>) -> (r: Vec<char>)
    ensures
        r@ == v@,
{
    let mut r: Vec<char> = Vec::new();
    push_all(&mut r, v);
    proof {
        assert(Seq::<char>::empty() + v@ =~= v@);
    }
    r
}

/// `s` with every occurrence of `key` replaced by `value`: the executable
/// counterpart of `replace_all`.
pub fn substitute(s: &Vec<char>, key: &Vec<char>, value: &Vec<char>) -> (r: Vec<char>)
    ensures
        r@ == replace_all(s@, key@, value@),
{
    let mut out: Vec<char> = Vec::new();
    if key.len() == 0 {
        push_all(&mut out, s);
        return out;
    }
    let mut i: usize = 0;
    proof {
        assert(s@.skip(0) =~= s@);
        assert(Seq::<char>::empty() + replace_all(s@, key@, value@) =~= replace_all(
            s@,
            key@,
            value@,
        ));
    }
    while i < s.len()
        invariant
            key@.len() > 0,
            i <= s@.len(),
            replace_all(s@, key@, value@) == out@ + replace_all(
                s@.skip(i as int),
                key@,
                value@,
            ),
        decreases s@.len() - i,
    {
        if match_at(s, key, i) {
            proof {
                let tail = s@.skip(i as int);
                assert(tail.subrange(0, key@.len() as int) =~= s@.subrange(
                    i as int,
                    i + key@.len(),
                ));
                assert(tail.skip(key@.len() as int) =~= s@.skip(i + key@.len()));
            }
            let ghost out0 = out@;
            push_all(&mut out, value);
            proof {
                assert(out0 + (value@ + replace_all(
                    s@.skip(i + key@.len()),
                    key@,
                    value@,
                )) =~= out@ + replace_all(s@.skip(i + key@.len()), key@, value@));
            }
            i += key.len();
        } else {
            let c: char = s[i];
            let ghost out0 = out@;
            out.push(c);
            proof {
                let tail = s@.skip(i as int);
                assert(tail[0] == s@[i as int]);
                assert(tail.skip(1) =~= s@.skip(i + 1));
                if tail.len() >= key@.len() {
                    assert(tail.subrange(0, key@.len() as int) =~= s@.subrange(
                        i as int,
                        i + key@.len(),
                    ));
                    assert(replace_all(tail, key@, value@) == seq![tail[0]] + replace_all(
                        tail.skip(1),
                        key@,
                        value@,
                    ));
                    assert(out0 + replace_all(tail, key@, value@) =~= out@ + replace_all(
                        s@.skip(i + 1),
                        key@,
                        value@,
                    ));
                } else {
                    assert(replace_all(tail, key@, value@) == tail);
                    assert(tail.len() - 1 < key@.len());
                    assert(replace_all(s@.skip(i + 1), key@, value@) == s@.skip(i + 1));
                    assert(out0 + tail =~= out@ + s@.skip(i + 1));
                }
            }
            i += 1;
        }
    }
    proof {
        assert(s@.skip(s@.len() as int) =~= Seq::<char>::empty());
        assert(out@ + Seq::<char>::empty() =~= out@);
    }
    out
}

/// Replacement leaves a text without any occurrence of the key verbatim;
/// in particular unrecognized placeholders are never altered.
pub proof fn lemma_replace_all_no_occurrence(s: Seq<char>, key: Seq<char>, value: Seq<char>)
    requires
        !occurs(s, key),
    ensures
        replace_all(s, key, value) == s,
    decreases s.len(),
{
    if key.len() == 0 {
    } else if s.len() < key.len() {
    } else {
        assert(!occurs_at(s, key, 0));
        assert(s.subrange(0, key.len() as int) != key);
        assert forall|i: int| !occurs_at(s.skip(1), key, i) by {
            if occurs_at(s.skip(1), key, i) {
                assert(s.skip(1).subrange(i, i + key.len()) =~= s.subrange(
                    i + 1,
                    i + 1 + key.len(),
                ));
                assert(occurs_at(s, key, i + 1));
            }
        }
        lemma_replace_all_no_occurrence(s.skip(1), key, value);
        assert(seq![s[0]] + s.skip(1) =~= s);
    }
}

/// Replacing in `a + key + b`, when the leftmost occurrence of the key is
/// the explicit one at position `a.len()`, rewrites exactly that occurrence
/// and then continues in `b`: the prefix `a` is kept verbatim.
pub proof fn lemma_replace_all_boundary(
    a: Seq<char>,
    key: Seq<char>,
    b: Seq<char>,
    value: Seq<char>,
)
    requires
        key.len() > 0,
        forall|i: int| 0 <= i < a.len() ==> !occurs_at(a + key + b, key, i),
    ensures
        replace_all(a + key + b, key, value) == a + value + replace_all(b, key, value),
    decreases a.len(),
{
    let s = a + key + b;
    if a.len() == 0 {
        assert(s.subrange(0, key.len() as int) =~= key);
        assert(s.skip(key.len() as int) =~= b);
        assert(replace_all(s, key, value) == value + replace_all(b, key, value));
        assert(a + value + replace_all(b, key, value) =~= value + replace_all(b, key, value));
    } else {
        assert(!occurs_at(s, key, 0));
        assert(s.len() >= key.len());
        assert(s.subrange(0, key.len() as int) != key);
        assert(s.skip(1) =~= a.skip(1) + key + b);
        assert forall|i: int| 0 <= i < a.skip(1).len() implies !occurs_at(
            a.skip(1) + key + b,
            key,
            i,
        ) by {
            if occurs_at(a.skip(1) + key + b, key, i) {
                assert((a.skip(1) + key + b).subrange(i, i + key.len()) =~= s.subrange(
                    i + 1,
                    i + 1 + key.len(),
                ));
                assert(occurs_at(s, key, i + 1));
            }
        }
        lemma_replace_all_boundary(a.skip(1), key, b, value);
        assert(replace_all(s, key, value) == seq![s[0]] + (a.skip(1) + value + replace_all(
            b,
            key,
            value,
        )));
        assert(seq![s[0]] + (a.skip(1) + value + replace_all(b, key, value)) =~= a + value
            + replace_all(b, key, value));
    }
}

/// A text holding exactly one occurrence of the key — `a + key + b` with no
/// occurrence starting inside `a` and none in `b` — has that occurrence
/// replaced by the value and nothing else altered.
pub proof fn lemma_replace_all_single_occurrence(
    a: Seq<char>,
    key: Seq<char>,
    b: Seq<char>,
    value: Seq<char>,
)
    requires
        key.len() > 0,
        forall|i: int| 0 <= i < a.len() ==> !occurs_at(a + key + b, key, i),
        !occurs(b, key),
    ensures
        replace_all(a + key + b, key, value) == a + value + b,
{
    lemma_replace_all_boundary(a, key, b, value);
    lemma_replace_all_no_occurrence(b, key, value);
}

} // verus!
