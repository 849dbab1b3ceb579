//! Character-level helpers shared by the protocol parsers: splitting on a
//! separator, digit classification and positional number values.
use vstd::prelude::*;

verus! {

/// The pieces of `s` between occurrences of `sep`, as `str::split` yields
/// them: `n` separators give `n + 1` pieces, some of which may be empty.
pub open spec fn split(s: Seq<char>, sep: char) -> Seq<Seq<char>>
    decreases s.len(),
{
    if s.len() == 0 {
        seq![Seq::empty()]
    } else {
        let p = split(s.drop_last(), sep);
        if s.last() == sep {
            p.push(Seq::empty())
        } else {
            p.update(p.len() - 1, p.last().push(s.last()))
        }
    }
}

pub proof fn lemma_split_nonempty(s: Seq<char>, sep: char)
    ensures
        split(s, sep).len() >= 1,
    decreases s.len(),
{
    if s.len() > 0 {
        lemma_split_nonempty(s.drop_last(), sep);
    }
}

pub open spec fn is_dec_digit(c: char) -> bool {
    '0' <= c && c <= '9'
}

pub open spec fn is_hex_digit(c: char) -> bool {
    ('0' <= c && c <= '9') || ('a' <= c && c <= 'f') || ('A' <= c && c <= 'F')
}

/// Value of a hexadecimal (and so also of a decimal) digit.
pub open spec fn digit_value(c: char) -> nat {
    if '0' <= c && c <= '9' {
        (c as nat - '0' as nat) as nat
    } else if 'a' <= c && c <= 'f' {
        (c as nat - 'a' as nat + 10) as nat
    } else {
        (c as nat - 'A' as nat + 10) as nat
    }
}

/// The number written by the digits `s` in base `radix`, most significant first.
pub open spec fn value_in(s: Seq<char>, radix: nat) -> nat
    decreases s.len(),
{
    if s.len() == 0 {
        0
    } else {
        value_in(s.drop_last(), radix) * radix + digit_value(s.last())
    }
}

/// The decimal digits of `s`, in order, with every other character dropped.
pub open spec fn dec_digits_of(s: Seq<char>) -> Seq<char>
    decreases s.len(),
{
    if s.len() == 0 {
        s
    } else if is_dec_digit(s.last()) {
        dec_digits_of(s.drop_last()).push(s.last())
    } else {
        dec_digits_of(s.drop_last())
    }
}

/// A longer run of digits never has a smaller value.
pub proof fn lemma_value_prefix_le(s: Seq<char>, k: int, radix: nat)
    requires
        0 <= k <= s.len(),
        radix >= 1,
    ensures
        value_in(s.subrange(0, k), radix) <= value_in(s, radix),
    decreases s.len() - k,
{
    if k < s.len() {
        lemma_value_prefix_le(s, k + 1, radix);
        let t = s.subrange(0, k + 1);
        assert(t.drop_last() =~= s.subrange(0, k));
        assert(value_in(t, radix) == value_in(s.subrange(0, k), radix) * radix + digit_value(t.last()));
        assert(value_in(s.subrange(0, k), radix) * radix >= value_in(s.subrange(0, k), radix))
            by (nonlinear_arith)
            requires radix >= 1;
    } else {
        assert(s.subrange(0, k) =~= s);
    }
}

/// The ranges `[start, end)` of the pieces of `s` split on `sep`.
pub fn split_ranges(s: &str, sep: char) -> (r: Vec<(usize, usize)>)
    ensures
        r@.len() == split(s@, sep).len(),
        forall|j: int|
            #![trigger r@[j]]
            0 <= j < r@.len() ==> {
                &&& r@[j].0 <= r@[j].1 <= s@.len()
                &&& s@.subrange(r@[j].0 as int, r@[j].1 as int) == split(s@, sep)[j]
            },
{
    let n = s.unicode_len();
    let mut done: Vec<(usize, usize)> = Vec::new();
    let mut start: usize = 0;
    let mut i: usize = 0;
    assert(s@.subrange(0, 0) =~= Seq::<char>::empty());
    while i < n
        invariant
            n == s@.len(),
            0 <= start <= i <= n,
            split(s@.subrange(0, i as int), sep).len() == done@.len() + 1,
            forall|j: int|
                #![trigger done@[j]]
                0 <= j < done@.len() ==> {
                    &&& done@[j].0 <= done@[j].1 <= i
                    &&& s@.subrange(done@[j].0 as int, done@[j].1 as int) == split(
                        s@.subrange(0, i as int),
                        sep,
                    )[j]
                },
            s@.subrange(start as int, i as int) == split(s@.subrange(0, i as int), sep).last(),
        decreases n - i,
    {
        let c = s.get_char(i);
        let ghost pre = s@.subrange(0, i as int);
        let ghost post = s@.subrange(0, i + 1);
        assert(post.drop_last() =~= pre);
        assert(post.last() == c);
        let ghost p = split(pre, sep);
        if c == sep {
            assert(split(post, sep) == p.push(Seq::empty()));
            let ghost st = start;
            done.push((start, i));
            start = i + 1;
            proof {
                assert(s@.subrange(start as int, i + 1) =~= Seq::<char>::empty());
                assert forall|j: int| #![trigger done@[j]] 0 <= j < done@.len() implies done@[j].0 <= done@[j].1
                    <= i + 1 && s@.subrange(done@[j].0 as int, done@[j].1 as int) == split(
                    post,
                    sep,
                )[j] by {
                    if j < done@.len() - 1 {
                        assert(split(post, sep)[j] == p[j]);
                    } else {
                        assert(done@[j] == (st, i));
                        assert(split(post, sep)[j] == p.last());
                    }
                }
            }
        } else {
            assert(split(post, sep) == p.update(p.len() - 1, p.last().push(c)));
            proof {
                assert(s@.subrange(start as int, i + 1) =~= s@.subrange(start as int, i as int).push(c));
                assert forall|j: int| #![trigger done@[j]] 0 <= j < done@.len() implies done@[j].0 <= done@[j].1
                    <= i + 1 && s@.subrange(done@[j].0 as int, done@[j].1 as int) == split(
                    post,
                    sep,
                )[j] by {
                    assert(split(post, sep)[j] == p[j]);
                }
            }
        }
        i = i + 1;
        assert(s@.subrange(0, i as int) == post);
    }
    done.push((start, n));
    assert(s@.subrange(0, n as int) =~= s@);
    done
}

/// The value of the decimal digits in `s[from..to]`, with other characters
/// skipped; `None` when there is no digit or the value exceeds `limit`.
pub fn dec_value_within(s: &str, from: usize, to: usize, limit: u64) -> (r: Option<u64>)
    requires
        from <= to <= s@.len(),
        limit <= 1844674407370955160,
    ensures
        ({
            let d = dec_digits_of(s@.subrange(from as int, to as int));
            match r {
                Some(v) => d.len() > 0 && v as nat == value_in(d, 10) && v <= limit,
                None => d.len() == 0 || value_in(d, 10) > limit,
            }
        }),
{
    let mut acc: u64 = 0;
    let mut seen = false;
    let mut k: usize = from;
    assert(s@.subrange(from as int, from as int) =~= Seq::<char>::empty());
    while k < to
        invariant
            from <= k <= to <= s@.len(),
            limit <= 1844674407370955160,
            acc <= limit,
            acc as nat == value_in(dec_digits_of(s@.subrange(from as int, k as int)), 10),
            seen == (dec_digits_of(s@.subrange(from as int, k as int)).len() > 0),
        decreases to - k,
    {
        let c = s.get_char(k);
        let ghost pre = s@.subrange(from as int, k as int);
        let ghost post = s@.subrange(from as int, k + 1);
        assert(post.drop_last() =~= pre);
        assert(post.last() == c);
        if '0' <= c && c <= '9' {
            let d = (c as u32 - '0' as u32) as u64;
            assert(dec_digits_of(post) == dec_digits_of(pre).push(c));
            assert(dec_digits_of(post).drop_last() =~= dec_digits_of(pre));
            acc = acc * 10 + d;
            seen = true;
            if acc > limit {
                proof {
                    let whole = s@.subrange(from as int, to as int);
                    assert(whole.subrange(0, k + 1 - from) =~= post);
                    lemma_dec_digits_prefix(whole, k + 1 - from);
                }
                return None;
            }
        }
        k = k + 1;
    }
    if seen {
        Some(acc)
    } else {
        None
    }
}

/// The digits of a prefix are a prefix of the digits, and weigh no more.
pub proof fn lemma_dec_digits_prefix(s: Seq<char>, k: int)
    requires
        0 <= k <= s.len(),
    ensures
        value_in(dec_digits_of(s.subrange(0, k)), 10) <= value_in(dec_digits_of(s), 10),
        dec_digits_of(s.subrange(0, k)).len() <= dec_digits_of(s).len(),
    decreases s.len() - k,
{
    if k < s.len() {
        lemma_dec_digits_prefix(s, k + 1);
        let t = s.subrange(0, k + 1);
        assert(t.drop_last() =~= s.subrange(0, k));
        let a = dec_digits_of(s.subrange(0, k));
        if is_dec_digit(t.last()) {
            assert(dec_digits_of(t).drop_last() =~= a);
            assert(value_in(a, 10) * 10 >= value_in(a, 10)) by (nonlinear_arith);
        }
    } else {
        assert(s.subrange(0, k) =~= s);
    }
}

} // verus!
