//! Title identifiers: parsing their hexadecimal form, their byte encodings,
//! and the descriptor that authorises a title's runtime module.
use vstd::prelude::*;
use vstd::arithmetic::power::pow;
use crate::error::Error;
use crate::text::{is_hex_digit, value_in, lemma_value_prefix_le};

verus! {

/// Offset of the 8-byte title-identifier field in a descriptor.
pub const NPDM_TITLE_ID_OFFSET: usize = 0x340;

/// Length of the title-identifier field.
pub const TITLE_ID_LEN: usize = 8;

/// The digits of a title identifier: an optional leading `+` is allowed.
pub open spec fn tid_digits(s: Seq<char>) -> Seq<char> {
    if s.len() > 1 && s[0] == '+' { s.drop_first() } else { s }
}

/// A non-empty run of hexadecimal digits whose value fits in 64 bits.
pub open spec fn tid_valid(s: Seq<char>) -> bool {
    let d = tid_digits(s);
    &&& d.len() > 0
    &&& forall|i: int| 0 <= i < d.len() ==> is_hex_digit(#[trigger] d[i])
    &&& value_in(d, 16) <= u64::MAX
}

pub open spec fn tid_value(s: Seq<char>) -> nat {
    value_in(tid_digits(s), 16)
}

/// The `n` bytes of `v` from the least significant up (the higher part of
/// `v` that does not fit is dropped).
pub open spec fn le_bytes(v: nat, n: nat) -> Seq<u8>
    decreases n,
{
    if n == 0 {
        Seq::empty()
    } else {
        seq![(v % 256) as u8] + le_bytes(v / 256, (n - 1) as nat)
    }
}

/// The same bytes, most significant first.
pub open spec fn be_bytes(v: nat, n: nat) -> Seq<u8> {
    le_bytes(v, n).reverse()
}

/// The number that little-endian bytes encode.
pub open spec fn le_value(b: Seq<u8>) -> nat
    decreases b.len(),
{
    if b.len() == 0 {
        0
    } else {
        b[0] as nat + 256 * le_value(b.drop_first())
    }
}

pub proof fn lemma_le_bytes_len(v: nat, n: nat)
    ensures
        le_bytes(v, n).len() == n,
    decreases n,
{
    if n > 0 {
        lemma_le_bytes_len(v / 256, (n - 1) as nat);
    }
}

/// Reading back the little-endian encoding of a number that fits gives the
/// number.
pub proof fn lemma_le_round_trip(v: nat, n: nat)
    requires
        v < pow(256, n),
    ensures
        le_value(le_bytes(v, n)) == v,
    decreases n,
{
    if n == 0 {
        assert(pow(256, 0) == 1) by {
            reveal(pow);
        }
    } else {
        let q = v / 256;
        assert(le_bytes(v, n)[0] == (v % 256) as u8);
        assert(pow(256, n) == 256 * pow(256, (n - 1) as nat)) by {
            reveal(pow);
        }
        assert(v == 256 * q + v % 256) by (nonlinear_arith)
            requires
                q == v / 256,
        ;
        assert(q < pow(256, (n - 1) as nat)) by (nonlinear_arith)
            requires
                v < 256 * pow(256, (n - 1) as nat),
                v == 256 * q + v % 256,
                v % 256 >= 0,
        ;
        lemma_le_round_trip(q, (n - 1) as nat);
        assert(le_bytes(v, n).drop_first() =~= le_bytes(q, (n - 1) as nat));
    }
}

/// Re-reading the title-identifier field of a descriptor that
/// `generate_npdm` produced, as a little-endian number, gives back the value
/// of the hexadecimal title identifier it was made for.
pub proof fn lemma_npdm_title_reads_back(tid: Seq<char>, npdm: Seq<u8>)
    requires
        tid_valid(tid),
        npdm.len() >= 0x348,
        npdm.subrange(0x340, 0x348) == le_bytes(tid_value(tid), 8),
    ensures
        le_value(npdm.subrange(0x340, 0x348)) == tid_value(tid),
{
    assert(pow(256, 8) == 0x1_0000_0000_0000_0000) by {
        reveal_with_fuel(pow, 9);
    }
    lemma_le_round_trip(tid_value(tid), 8);
}

/// Parses a title identifier written in hexadecimal.
pub fn parse_tid(tid: &str) -> (r: Option<u64>)
    ensures
        match r {
            Some(v) => tid_valid(tid@) && v as nat == tid_value(tid@),
            None => !tid_valid(tid@),
        },
{
    let n = tid.unicode_len();
    let start: usize = if n > 1 && tid.get_char(0) == '+' { 1 } else { 0 };
    let ghost d = tid_digits(tid@);
    assert(d =~= tid@.subrange(start as int, n as int));
    if start == n {
        return None;
    }
    let mut acc: u64 = 0;
    let mut i: usize = start;
    assert(d.subrange(0, 0) =~= Seq::<char>::empty());
    while i < n
        invariant
            start <= i <= n,
            n == tid@.len(),
            d == tid@.subrange(start as int, n as int),
            d == tid_digits(tid@),
            forall|k: int| 0 <= k < i - start ==> is_hex_digit(#[trigger] d[k]),
            acc as nat == value_in(d.subrange(0, i - start), 16),
        decreases n - i,
    {
        let c = tid.get_char(i);
        let ghost pre = d.subrange(0, i - start);
        let ghost post = d.subrange(0, i - start + 1);
        assert(post.drop_last() =~= pre);
        assert(post.last() == c);
        let dv: u64 = if '0' <= c && c <= '9' {
            (c as u32 - '0' as u32) as u64
        } else if 'a' <= c && c <= 'f' {
            (c as u32 - 'a' as u32 + 10) as u64
        } else if 'A' <= c && c <= 'F' {
            (c as u32 - 'A' as u32 + 10) as u64
        } else {
            assert(d[i - start] == c);
            assert(!is_hex_digit(d[i - start]));
            assert(!tid_valid(tid@));
            return None;
        };
        if acc > 0x0fff_ffff_ffff_ffff {
            proof {
                assert(value_in(post, 16) == acc as nat * 16 + dv as nat);
                assert(acc as nat * 16 > u64::MAX) by (nonlinear_arith)
                    requires
                        acc > 0x0fff_ffff_ffff_ffff,
                ;
                lemma_value_prefix_le(d, i - start + 1, 16);
                assert(value_in(d, 16) > u64::MAX);
                assert(tid_digits(tid@) == d);
                assert(!tid_valid(tid@));
            }
            return None;
        }
        acc = acc * 16 + dv;
        i = i + 1;
    }
    assert(d.subrange(0, n - start) =~= d);
    Some(acc)
}

/// The eight bytes of `v`, least significant first.
pub fn le_bytes_of(v: u64) -> (r: Vec<u8>)
    ensures
        r@ == le_bytes(v as nat, 8),
{
    let mut out: Vec<u8> = Vec::new();
    let mut x: u64 = v;
    let mut k: usize = 0;
    assert(out@ + le_bytes(x as nat, 8) =~= le_bytes(v as nat, 8));
    while k < 8
        invariant
            k <= 8,
            out@ + le_bytes(x as nat, (8 - k) as nat) == le_bytes(v as nat, 8),
        decreases 8 - k,
    {
        let ghost rest = le_bytes(x as nat, (8 - k) as nat);
        assert(rest == seq![(x as nat % 256) as u8] + le_bytes(x as nat / 256, (8 - k - 1) as nat));
        out.push((x % 256) as u8);
        x = x / 256;
        assert(out@ + le_bytes(x as nat, (8 - (k + 1)) as nat) =~= le_bytes(v as nat, 8));
        k = k + 1;
    }
    assert(out@ =~= out@ + le_bytes(x as nat, 0));
    out
}

/// The eight bytes of `v`, most significant first.
pub fn be_bytes_of(v: u64) -> (r: Vec<u8>)
    ensures
        r@ == be_bytes(v as nat, 8),
{
    let le = le_bytes_of(v);
    proof {
        lemma_le_bytes_len(v as nat, 8);
    }
    let mut out: Vec<u8> = Vec::new();
    let mut k: usize = 0;
    while k < 8
        invariant
            k <= 8,
            le@ == le_bytes(v as nat, 8),
            le@.len() == 8,
            out@ == le@.reverse().subrange(0, k as int),
        decreases 8 - k,
    {
        out.push(le[7 - k]);
        k = k + 1;
        assert(out@ =~= le@.reverse().subrange(0, k as int));
    }
    assert(le@.reverse().subrange(0, 8) =~= le@.reverse());
    out
}

/// The descriptor for a title: `template` with its title-identifier field
/// replaced by the little-endian encoding of `tid`, every other byte kept.
pub fn generate_npdm(template: &[u8], tid: &str) -> (r: Result<Vec<u8>, Error>)
    requires
        template@.len() >= NPDM_TITLE_ID_OFFSET + TITLE_ID_LEN,
    ensures
        match r {
            Ok(b) => {
                &&& tid_valid(tid@)
                &&& b@.len() == template@.len()
                &&& b@.subrange(0x340, 0x348) == le_bytes(tid_value(tid@), 8)
                &&& forall|i: int| 0 <= i < b@.len() && !(0x340 <= i < 0x348) ==> #[trigger] b@[i] == template@[i]
            },
            Err(e) => !tid_valid(tid@) && e == Error::BadTitleId,
        },
{
    let v = match parse_tid(tid) {
        Some(v) => v,
        None => return Err(Error::BadTitleId),
    };
    let field = le_bytes_of(v);
    proof {
        lemma_le_bytes_len(v as nat, 8);
    }
    let mut out: Vec<u8> = Vec::new();
    let mut i: usize = 0;
    while i < template.len()
        invariant
            i <= template@.len(),
            template@.len() >= 0x348,
            field@.len() == 8,
            out@.len() == i,
            forall|k: int| 0 <= k < i && !(0x340 <= k < 0x348) ==> #[trigger] out@[k] == template@[k],
            forall|k: int| 0x340 <= k < i && k < 0x348 ==> #[trigger] out@[k] == field@[k - 0x340],
        decreases template@.len() - i,
    {
        if NPDM_TITLE_ID_OFFSET <= i && i < NPDM_TITLE_ID_OFFSET + TITLE_ID_LEN {
            out.push(field[i - NPDM_TITLE_ID_OFFSET]);
        } else {
            out.push(template[i]);
        }
        i = i + 1;
    }
    assert(out@.subrange(0x340, 0x348) =~= field@);
    Ok(out)
}

/// The restart signal for a title: its identifier in eight big-endian bytes
/// (zero when the identifier does not parse).
pub fn restart_payload(tid: &str) -> (r: Vec<u8>)
    ensures
        r@ == be_bytes(if tid_valid(tid@) { tid_value(tid@) } else { 0 }, 8),
{
    let v = match parse_tid(tid) {
        Some(v) => v,
        None => 0,
    };
    be_bytes_of(v)
}

} // verus!
