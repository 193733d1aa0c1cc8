//! Byte-sequence utilities with no knowledge of HTTP.

use vstd::prelude::*;

verus! {

/// Length of the longest prefix of `s` whose bytes all satisfy `p`.
pub open spec fn leading(s: Seq<u8>, p: spec_fn(u8) -> bool) -> nat
    decreases s.len(),
{
    if s.len() > 0 && p(s[0]) {
        1 + leading(s.drop_first(), p)
    } else {
        0
    }
}

/// Length of the longest suffix of `s` whose bytes all satisfy `p`.
pub open spec fn trailing(s: Seq<u8>, p: spec_fn(u8) -> bool) -> nat
    decreases s.len(),
{
    if s.len() > 0 && p(s.last()) {
        1 + trailing(s.drop_last(), p)
    } else {
        0
    }
}

/// `s` without its leading run of bytes that satisfy `p`, and then without
/// the trailing run of what is left.
pub open spec fn trimmed(s: Seq<u8>, p: spec_fn(u8) -> bool) -> Seq<u8> {
    let rest = s.skip(leading(s, p) as int);
    rest.take(rest.len() - trailing(rest, p))
}

/// `f` computes the predicate `p`: whatever it answers for a byte is `p` of
/// that byte.
pub open spec fn computes<F: Fn(u8) -> bool>(f: F, p: spec_fn(u8) -> bool) -> bool {
    forall|b: u8, r: bool| call_ensures(f, (b,), r) ==> r == p(b)
}

/// The leading run is the prefix that ends at the first byte failing `p`.
pub proof fn lemma_leading(s: Seq<u8>, p: spec_fn(u8) -> bool, n: int)
    requires
        0 <= n <= s.len(),
        forall|k: int| 0 <= k < n ==> p(#[trigger] s[k]),
        n < s.len() ==> !p(s[n]),
    ensures
        leading(s, p) == n,
    decreases s.len(),
{
    if n > 0 {
        let t = s.drop_first();
        assert forall|k: int| 0 <= k < n - 1 implies p(#[trigger] t[k]) by {
            assert(t[k] == s[k + 1]);
        }
        lemma_leading(t, p, n - 1);
    }
}

/// The trailing run is the suffix that starts after the last byte failing
/// `p`.
pub proof fn lemma_trailing(s: Seq<u8>, p: spec_fn(u8) -> bool, n: int)
    requires
        0 <= n <= s.len(),
        forall|k: int| s.len() - n <= k < s.len() ==> p(#[trigger] s[k]),
        n < s.len() ==> !p(s[s.len() - n - 1]),
    ensures
        trailing(s, p) == n,
    decreases s.len(),
{
    if n > 0 {
        let t = s.drop_last();
        assert forall|k: int| t.len() - (n - 1) <= k < t.len() implies p(#[trigger] t[k]) by {
            assert(t[k] == s[k]);
        }
        lemma_trailing(t, p, n - 1);
    }
}

/// The runs that `leading` and `trailing` count hold only bytes satisfying
/// `p`, and each run stops at a byte that fails it or at the end.
pub proof fn lemma_runs(s: Seq<u8>, p: spec_fn(u8) -> bool)
    ensures
        leading(s, p) <= s.len(),
        trailing(s, p) <= s.len(),
        forall|k: int| 0 <= k < leading(s, p) ==> p(#[trigger] s[k]),
        forall|k: int| s.len() - trailing(s, p) <= k < s.len() ==> p(#[trigger] s[k]),
        leading(s, p) < s.len() ==> !p(s[leading(s, p) as int]),
        trailing(s, p) < s.len() ==> !p(s[s.len() - trailing(s, p) - 1]),
    decreases s.len(),
{
    if s.len() > 0 {
        if p(s[0]) {
            let t = s.drop_first();
            lemma_runs(t, p);
            assert forall|k: int| 0 <= k < leading(s, p) implies p(#[trigger] s[k]) by {
                if k > 0 {
                    assert(s[k] == t[k - 1]);
                }
            }
            if leading(s, p) < s.len() {
                assert(s[leading(s, p) as int] == t[leading(t, p) as int]);
            }
        }
        if p(s.last()) {
            let t = s.drop_last();
            lemma_runs(t, p);
            assert forall|k: int| s.len() - trailing(s, p) <= k < s.len() implies p(
                #[trigger] s[k],
            ) by {
                if k < s.len() - 1 {
                    assert(s[k] == t[k]);
                }
            }
            if trailing(s, p) < s.len() {
                assert(s[s.len() - trailing(s, p) - 1] == t[t.len() - trailing(t, p) - 1]);
            }
        }
    }
}

/// Trimming keeps one contiguous range `[start, end)` of the input. Every
/// byte outside it satisfies `p`, so no byte that fails `p` is ever removed,
/// and the range is empty or begins and ends with a byte that fails `p`.
pub proof fn lemma_trimmed_range(s: Seq<u8>, p: spec_fn(u8) -> bool) -> (range: (int, int))
    ensures
        0 <= range.0 <= range.1 <= s.len(),
        trimmed(s, p) == s.subrange(range.0, range.1),
        forall|k: int| 0 <= k < range.0 ==> p(#[trigger] s[k]),
        forall|k: int| range.1 <= k < s.len() ==> p(#[trigger] s[k]),
        forall|k: int| 0 <= k < s.len() && !p(#[trigger] s[k]) ==> range.0 <= k < range.1,
        range.0 < range.1 ==> !p(s[range.0]) && !p(s[range.1 - 1]),
{
    lemma_runs(s, p);
    let start = leading(s, p) as int;
    let rest = s.skip(start);
    lemma_runs(rest, p);
    let end = s.len() - trailing(rest, p);
    assert(rest.take(rest.len() - trailing(rest, p)) =~= s.subrange(start, end));
    assert forall|k: int| end <= k < s.len() implies p(#[trigger] s[k]) by {
        assert(s[k] == rest[k - start]);
    }
    if start < end {
        assert(rest[rest.len() - trailing(rest, p) - 1] == s[end - 1]);
    }
    (start, end)
}

/// A range of `s` whose outside satisfies `p`, and which is empty or begins
/// and ends with a byte failing `p`, is what trimming keeps.
pub proof fn lemma_range_is_trimmed(s: Seq<u8>, p: spec_fn(u8) -> bool, start: int, end: int)
    requires
        0 <= start <= end <= s.len(),
        forall|k: int| 0 <= k < start ==> p(#[trigger] s[k]),
        forall|k: int| end <= k < s.len() ==> p(#[trigger] s[k]),
        start < end ==> !p(s[start]) && !p(s[end - 1]),
        start == end ==> start == s.len(),
    ensures
        trimmed(s, p) == s.subrange(start, end),
{
    lemma_leading(s, p, start);
    let rest = s.skip(start);
    assert forall|k: int| rest.len() - (s.len() - end) <= k < rest.len() implies p(
        #[trigger] rest[k],
    ) by {
        assert(rest[k] == s[k + start]);
    }
    if start < end {
        assert(rest[rest.len() - (s.len() - end) - 1] == s[end - 1]);
    }
    lemma_trailing(rest, p, s.len() - end);
    assert(rest.take(rest.len() - trailing(rest, p)) =~= s.subrange(start, end));
}

/// Trimming is idempotent: trimming what was trimmed changes nothing.
pub proof fn lemma_trim_idempotent(s: Seq<u8>, p: spec_fn(u8) -> bool)
    ensures
        trimmed(trimmed(s, p), p) == trimmed(s, p),
{
    let (start, end) = lemma_trimmed_range(s, p);
    let t = trimmed(s, p);
    if start < end {
        assert(t[0] == s[start]);
        assert(t[t.len() - 1] == s[end - 1]);
    }
    lemma_range_is_trimmed(t, p, 0, t.len() as int);
    assert(t.subrange(0, t.len() as int) =~= t);
}

/// A sequence in which every byte satisfies `p` trims to nothing.
pub proof fn lemma_trim_all_matching(s: Seq<u8>, p: spec_fn(u8) -> bool)
    requires
        forall|k: int| 0 <= k < s.len() ==> p(#[trigger] s[k]),
    ensures
        trimmed(s, p) == Seq::<u8>::empty(),
{
    lemma_range_is_trimmed(s, p, s.len() as int, s.len() as int);
    assert(s.subrange(s.len() as int, s.len() as int) =~= Seq::<u8>::empty());
}

/// A sequence whose first and last bytes fail `p` is left as it is; so is
/// the empty sequence.
pub proof fn lemma_trim_unchanged(s: Seq<u8>, p: spec_fn(u8) -> bool)
    requires
        s.len() > 0 ==> !p(s[0]) && !p(s.last()),
    ensures
        trimmed(s, p) == s,
{
    lemma_range_is_trimmed(s, p, 0, s.len() as int);
    assert(s.subrange(0, s.len() as int) =~= s);
}

/// Removes from the front and the back of `bytes` every byte for which `f`
/// answers `true`, up to the first and the last byte for which it does not.
/// What stays is moved to the front in one pass and the vector is cut once.
pub fn trim_bytes<F: Fn(u8) -> bool>(bytes: &mut Vec<u8>, f: F)
    requires
        forall|b: u8| call_requires(f, (b,)),
    ensures
        forall|p: spec_fn(u8) -> bool|
            computes(f, p) ==> final(bytes)@ == #[trigger] trimmed(old(bytes)@, p),
{
    let len = bytes.len();
    let mut start: usize = 0;
    while start < len
        invariant
            len == bytes.len(),
            bytes@ == old(bytes)@,
            start <= len,
            forall|b: u8| call_requires(f, (b,)),
            forall|k: int| 0 <= k < start ==> call_ensures(f, (#[trigger] bytes@[k],), true),
        ensures
            start <= len,
            start < len ==> call_ensures(f, (bytes@[start as int],), false),
        decreases len - start,
    {
        if !f(bytes[start]) {
            break;
        }
        start += 1;
    }
    let mut end: usize = len;
    while end > start
        invariant
            len == bytes.len(),
            bytes@ == old(bytes)@,
            start <= end <= len,
            forall|b: u8| call_requires(f, (b,)),
            forall|k: int| end <= k < len ==> call_ensures(f, (#[trigger] bytes@[k],), true),
        ensures
            start <= end <= len,
            start < end ==> call_ensures(f, (bytes@[end - 1],), false),
        decreases end,
    {
        if !f(bytes[end - 1]) {
            break;
        }
        end -= 1;
    }
    let kept = end - start;
    if start > 0 {
        let mut k: usize = 0;
        while k < kept
            invariant
                len == bytes.len(),
                kept == end - start,
                start <= end <= len,
                k <= kept,
                forall|j: int| 0 <= j < k ==> bytes@[j] == old(bytes)@[j + start],
                forall|j: int| k <= j < len ==> bytes@[j] == old(bytes)@[j],
            decreases kept - k,
        {
            let b = bytes[k + start];
            bytes.set(k, b);
            k += 1;
        }
    }
    bytes.truncate(kept);
    proof {
        let s = old(bytes)@;
        assert(bytes@ =~= s.subrange(start as int, end as int));
        assert forall|p: spec_fn(u8) -> bool| computes(f, p) implies bytes@ == #[trigger] trimmed(
            s,
            p,
        ) by {
            lemma_range_is_trimmed(s, p, start as int, end as int);
        }
    }
}

/// For bytes the deep view is the view.
pub proof fn lemma_bytes_view(bytes: Vec<u8>)
    ensures
        bytes.deep_view() == bytes@,
{
    assert(bytes.deep_view() =~= bytes@);
}

/// A copy of the bytes.
pub fn copy_bytes(bytes: &Vec<u8>) -> (copy: Vec<u8>)
    ensures
        copy@ == bytes@,
        copy.deep_view() == bytes@,
        bytes.deep_view() == bytes@,
{
    let mut copy: Vec<u8> = Vec::new();
    let mut i: usize = 0;
    while i < bytes.len()
        invariant
            i <= bytes.len(),
            copy@ == bytes@.take(i as int),
        decreases bytes.len() - i,
    {
        copy.push(bytes[i]);
        assert(bytes@.take(i as int + 1) =~= bytes@.take(i as int).push(bytes@[i as int]));
        i += 1;
    }
    assert(bytes@.take(bytes.len() as int) =~= bytes@);
    proof {
        lemma_bytes_view(copy);
        lemma_bytes_view(*bytes);
    }
    copy
}

/// The place at or after `from` of the first entry with the key, or the
/// number of entries where none has it.
pub open spec fn key_index(entries: Seq<(Seq<char>, Seq<char>)>, from: int, key: Seq<char>) -> int
    decreases entries.len() - from,
{
    if 0 <= from < entries.len() && entries[from].0 != key {
        key_index(entries, from + 1, key)
    } else {
        from
    }
}

/// The entries after `key` is given `value`: the entry that holds the key
/// keeps its place and takes the value; without such an entry a new one
/// goes to the end.
pub open spec fn with_entry(
    entries: Seq<(Seq<char>, Seq<char>)>,
    key: Seq<char>,
    value: Seq<char>,
) -> Seq<(Seq<char>, Seq<char>)> {
    let at = key_index(entries, 0, key);
    if at < entries.len() {
        entries.update(at, (key, value))
    } else {
        entries.push((key, value))
    }
}

} // verus!
