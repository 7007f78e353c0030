//! Byte-sequence utilities shared by the router and the extractors:
//! ASCII text as `Vec<u8>`, decimal numbers, and separator-based splitting.

use vstd::prelude::*;
use vstd::string::StringSliceAdditionalSpecFns;

verus! {

/// Bytes of an ASCII-ish string literal, for building fixed texts.
pub fn byte_str(s: &str) -> (r: Vec<u8>)
    ensures
        r@ == s.spec_bytes(),
{
    vstd::slice::slice_to_vec(s.as_bytes())
}

/// Byte-wise equality of two byte slices.
pub fn eq_bytes(a: &[u8], b: &[u8]) -> (r: bool)
    ensures
        r == (a@ == b@),
{
    if a.len() != b.len() {
        assert(a@ != b@) by {
            assert(a@.len() != b@.len());
        }
        return false;
    }
    let mut i: usize = 0;
    while i < a.len()
        invariant
            i <= a@.len(),
            a@.len() == b@.len(),
            forall|j: int| 0 <= j < i ==> a@[j] == b@[j],
        decreases a@.len() - i,
    {
        if a[i] != b[i] {
            return false;
        }
        i = i + 1;
    }
    proof {
        assert(a@ =~= b@);
    }
    true
}

// ---------------------------------------------------------------------------
// Decimal digits
// ---------------------------------------------------------------------------

pub open spec fn is_digit(b: u8) -> bool {
    48 <= b <= 57
}

pub open spec fn all_digits(s: Seq<u8>) -> bool {
    forall|i: int| 0 <= i < s.len() ==> is_digit(#[trigger] s[i])
}

/// Value of a digit string read in base 10.
pub open spec fn dec_value(s: Seq<u8>) -> int
    decreases s.len(),
{
    if s.len() == 0 {
        0
    } else {
        dec_value(s.drop_last()) * 10 + s.last() - 48
    }
}

/// What parsing an unsigned decimal number returns: the value, exactly
/// when the text is a non-empty, all-digit string whose value fits.
pub open spec fn parse_u32_spec(s: Seq<u8>) -> Option<u32> {
    if s.len() > 0 && all_digits(s) && dec_value(s) <= u32::MAX {
        Option::Some(dec_value(s) as u32)
    } else {
        Option::None
    }
}

proof fn lemma_dec_value_nonneg(s: Seq<u8>)
    requires
        all_digits(s),
    ensures
        dec_value(s) >= 0,
    decreases s.len(),
{
    if s.len() > 0 {
        assert(all_digits(s.drop_last())) by {
            assert(forall|i: int|
                0 <= i < s.drop_last().len() ==> s.drop_last()[i] == s[i]);
        }
        lemma_dec_value_nonneg(s.drop_last());
    }
}

/// Reading more digits can only grow the value.
proof fn lemma_dec_value_prefix_le(s: Seq<u8>, i: int)
    requires
        all_digits(s),
        0 <= i <= s.len(),
    ensures
        dec_value(s.subrange(0, i)) <= dec_value(s),
    decreases s.len() - i,
{
    if i < s.len() {
        assert(s.subrange(0, i + 1).drop_last() =~= s.subrange(0, i));
        assert(s.subrange(0, i + 1).last() == s[i]);
        assert(all_digits(s.subrange(0, i))) by {
            assert(forall|j: int|
                0 <= j < i ==> s.subrange(0, i)[j] == s[j]);
        }
        lemma_dec_value_nonneg(s.subrange(0, i));
        assert(dec_value(s.subrange(0, i + 1))
            == dec_value(s.subrange(0, i)) * 10 + s[i] - 48);
        lemma_dec_value_prefix_le(s, i + 1);
    } else {
        assert(s.subrange(0, i) =~= s);
    }
}

/// Parse a non-empty decimal digit string into a `u32`.
pub fn parse_u32(s: &[u8]) -> (r: Option<u32>)
    ensures
        r == parse_u32_spec(s@),
{
    if s.len() == 0 {
        return Option::None;
    }
    let mut acc: u32 = 0;
    let mut i: usize = 0;
    while i < s.len()
        invariant
            0 < s@.len(),
            i <= s@.len(),
            all_digits(s@.subrange(0, i as int)),
            acc == dec_value(s@.subrange(0, i as int)),
        decreases s@.len() - i,
    {
        let b = *vstd::slice::slice_index_get(s, i);
        if b < 48 || b > 57 {
            assert(!is_digit(s@[i as int]));
            return Option::None;
        }
        let d: u32 = (b - 48) as u32;
        let wide: u64 = acc as u64 * 10 + d as u64;
        proof {
            assert(s@.subrange(0, i as int + 1).drop_last() =~= s@.subrange(0, i as int));
            assert(s@.subrange(0, i as int + 1).last() == s@[i as int]);
            assert(all_digits(s@.subrange(0, i as int + 1))) by {
                assert(forall|j: int|
                    0 <= j < i as int ==> s@.subrange(0, i as int + 1)[j] == s@.subrange(0, i as int)[j]);
            }
            assert(dec_value(s@.subrange(0, i as int + 1)) == wide);
        }
        if wide > u32::MAX as u64 {
            proof {
                if all_digits(s@) {
                    lemma_dec_value_prefix_le(s@, i as int + 1);
                }
            }
            return Option::None;
        }
        acc = wide as u32;
        i = i + 1;
    }
    proof {
        assert(s@.subrange(0, s@.len() as int) =~= s@);
    }
    Option::Some(acc)
}

/// The decimal digit string of a non-negative number, most significant
/// digit first.
pub open spec fn dec_digits_of(n: int) -> Seq<u8>
    decreases n,
{
    if n < 0 {
        Seq::empty()
    } else if n < 10 {
        seq![(n + 48) as u8]
    } else {
        dec_digits_of(n / 10).push((n % 10 + 48) as u8)
    }
}

/// Decimal text of `n`, most significant digit first, no leading zero.
pub fn u32_to_dec(n: u32) -> (r: Vec<u8>)
    ensures
        r@ == dec_digits_of(n as int),
        r@.len() >= 1,
        all_digits(r@),
        dec_value(r@) == n,
        r@.len() > 1 ==> r@[0] != 48,
    decreases n,
{
    if n < 10 {
        let mut v: Vec<u8> = Vec::new();
        v.push((n as u8) + 48);
        proof {
            assert(v@.drop_last() =~= Seq::<u8>::empty());
            assert(dec_value(Seq::<u8>::empty()) == 0);
            assert(v@.last() == (n as u8) + 48);
            assert(dec_value(v@) == n);
            assert(v@ =~= dec_digits_of(n as int));
        }
        v
    } else {
        let mut v = u32_to_dec(n / 10);
        let ghost prefix = v@;
        let d: u8 = ((n % 10) as u8) + 48;
        v.push(d);
        proof {
            assert(v@.drop_last() =~= prefix);
            assert(v@.last() == d);
            assert(dec_value(v@) == dec_value(prefix) * 10 + n % 10);
            assert(n / 10 >= 1);
            if prefix.len() == 1 {
                assert(prefix.drop_last() =~= Seq::<u8>::empty());
                assert(dec_value(Seq::<u8>::empty()) == 0);
                assert(prefix.last() == prefix[0]);
                assert(dec_value(prefix) == prefix[0] - 48);
                assert(prefix[0] != 48);
            }
            assert(forall|j: int| 0 <= j < v@.len() ==> is_digit(#[trigger] v@[j]));
            assert(v@ =~= dec_digits_of(n as int));
        }
        v
    }
}

/// Append `src` to `dst`.
pub fn append_bytes(dst: &mut Vec<u8>, src: &[u8])
    ensures
        final(dst)@ == old(dst)@ + src@,
{
    let ghost base = old(dst)@;
    let mut i: usize = 0;
    proof {
        assert(dst@ =~= base + src@.subrange(0, 0));
    }
    while i < src.len()
        invariant
            i <= src@.len(),
            dst@ =~= base + src@.subrange(0, i as int),
        decreases src@.len() - i,
    {
        dst.push(*vstd::slice::slice_index_get(src, i));
        proof {
            assert(dst@ =~= base + src@.subrange(0, i as int + 1));
        }
        i = i + 1;
    }
    proof {
        assert(src@.subrange(0, src@.len() as int) =~= src@);
    }
}

// ---------------------------------------------------------------------------
// Splitting on a separator byte
// ---------------------------------------------------------------------------

/// The parts of `s` between occurrences of `sep`: always at least one
/// part; an empty `s` gives one empty part.
pub open spec fn split_spec(s: Seq<u8>, sep: u8) -> Seq<Seq<u8>>
    decreases s.len(),
{
    if s.len() == 0 {
        seq![Seq::<u8>::empty()]
    } else if s.last() == sep {
        split_spec(s.drop_last(), sep).push(Seq::<u8>::empty())
    } else {
        let p = split_spec(s.drop_last(), sep);
        p.update(p.len() - 1, p.last().push(s.last()))
    }
}

/// The views of a sequence of byte vectors.
pub open spec fn views_of(v: Seq<Vec<u8>>) -> Seq<Seq<u8>> {
    Seq::new(v.len(), |i: int| v[i]@)
}

proof fn lemma_split_spec_len(s: Seq<u8>, sep: u8)
    ensures
        split_spec(s, sep).len() >= 1,
    decreases s.len(),
{
    if s.len() > 0 {
        lemma_split_spec_len(s.drop_last(), sep);
    }
}

/// Split `s[start..]` at every occurrence of `sep`.
pub fn split_from(s: &[u8], start: usize, sep: u8) -> (r: Vec<Vec<u8>>)
    requires
        start <= s@.len(),
    ensures
        views_of(r@) == split_spec(s@.subrange(start as int, s@.len() as int), sep),
        r@.len() >= 1,
{
    let mut parts: Vec<Vec<u8>> = Vec::new();
    let mut cur: Vec<u8> = Vec::new();
    let mut i: usize = start;
    while i < s.len()
        invariant
            start <= i <= s@.len(),
            views_of(parts@).push(cur@) =~= split_spec(s@.subrange(start as int, i as int), sep),
        decreases s@.len() - i,
    {
        let b = *vstd::slice::slice_index_get(s, i);
        let ghost pre = s@.subrange(start as int, i as int);
        let ghost post = s@.subrange(start as int, i as int + 1);
        proof {
            assert(post.drop_last() =~= pre);
            assert(post.last() == s@[i as int]);
            lemma_split_spec_len(pre, sep);
        }
        if b == sep {
            parts.push(cur);
            cur = Vec::new();
            proof {
                assert(views_of(parts@).push(cur@)
                    =~= split_spec(pre, sep).push(Seq::<u8>::empty()));
                assert(split_spec(post, sep)
                    == split_spec(pre, sep).push(Seq::<u8>::empty()));
            }
        } else {
            let ghost cur_old = cur@;
            cur.push(b);
            proof {
                let p = split_spec(pre, sep);
                assert(split_spec(post, sep) == p.update(p.len() - 1, p.last().push(b)));
                assert(p =~= views_of(parts@).push(cur_old));
                assert(p.last() == cur_old);
                assert(views_of(parts@).push(cur@)
                    =~= p.update(p.len() - 1, cur_old.push(b)));
            }
        }
        i = i + 1;
    }
    parts.push(cur);
    proof {
        let ghost whole = s@.subrange(start as int, s@.len() as int);
        assert(views_of(parts@) =~= split_spec(whole, sep)) by {
            assert(views_of(parts@.drop_last()).push(cur@)
                =~= split_spec(whole, sep));
            assert(views_of(parts@.drop_last()).push(cur@) =~= views_of(parts@));
        }
        lemma_split_spec_len(whole, sep);
        assert(views_of(parts@).len() == parts@.len());
    }
    parts
}

// ---------------------------------------------------------------------------
// Association lists of captured (key, value) pairs
// ---------------------------------------------------------------------------

/// First value bound to `key`, scanning left to right.
pub open spec fn assoc_spec(pairs: Seq<(Seq<u8>, Seq<u8>)>, key: Seq<u8>) -> Option<Seq<u8>>
    decreases pairs.len(),
{
    if pairs.len() == 0 {
        Option::None
    } else if pairs[0].0 == key {
        Option::Some(pairs[0].1)
    } else {
        assoc_spec(pairs.drop_first(), key)
    }
}

/// The views of a vector of byte-vector pairs.
pub open spec fn pair_views(v: Seq<(Vec<u8>, Vec<u8>)>) -> Seq<(Seq<u8>, Seq<u8>)> {
    Seq::new(v.len(), |i: int| (v[i].0@, v[i].1@))
}

/// Look `key` up among captured pairs; the first binding wins.
pub fn assoc_lookup(pairs: &Vec<(Vec<u8>, Vec<u8>)>, key: &[u8]) -> (r: Option<Vec<u8>>)
    ensures
        match r {
            Option::Some(v) => assoc_spec(pair_views(pairs@), key@) == Option::Some(v@),
            Option::None => assoc_spec(pair_views(pairs@), key@) == Option::<Seq<u8>>::None,
        },
{
    let mut i: usize = 0;
    proof {
        assert(pair_views(pairs@).skip(0) =~= pair_views(pairs@));
    }
    while i < pairs.len()
        invariant
            i <= pairs@.len(),
            assoc_spec(pair_views(pairs@), key@)
                == assoc_spec(pair_views(pairs@).skip(i as int), key@),
        decreases pairs@.len() - i,
    {
        let ghost rest = pair_views(pairs@).skip(i as int);
        proof {
            assert(rest.len() > 0);
            assert(rest[0] == (pairs@[i as int].0@, pairs@[i as int].1@));
            assert(rest.drop_first() =~= pair_views(pairs@).skip(i as int + 1));
        }
        if eq_bytes(pairs[i].0.as_slice(), key) {
            return Option::Some(pairs[i].1.clone());
        }
        i = i + 1;
    }
    proof {
        assert(pair_views(pairs@).skip(pairs@.len() as int).len() == 0);
    }
    Option::None
}

} // verus!
