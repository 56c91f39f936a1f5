//! The fork identifier that a peer advertises in its record, and its
//! canonical recursive-length-prefix wire form: a two-item list holding the
//! four-byte fork hash and the block-or-time number of the next fork.

use vstd::prelude::*;

verus! {

use crate::errors::RecordDecodeError;

/// Identifies a specific protocol-fork configuration of a chain. Two fork
/// identifiers are equal iff both fields match exactly.
#[derive(Clone, Copy, PartialEq, Eq, Structural, Debug, Hash)]
pub struct ForkId {
    /// The four-byte fork hash, held big-endian in one integer.
    pub hash: u32,
    /// Block or time number of the next scheduled fork, zero for none.
    pub next: u64,
}

/// Minimal big-endian bytes of `n`: empty for zero, no leading zero byte.
pub open spec fn spec_be_bytes_u64(n: u64) -> Seq<u8>
    decreases n,
{
    if n == 0 {
        Seq::empty()
    } else {
        spec_be_bytes_u64(n / 256) + seq![(n % 256) as u8]
    }
}

/// The unsigned value that big-endian bytes stand for.
pub open spec fn spec_be_val(s: Seq<u8>) -> nat
    decreases s.len(),
{
    if s.len() == 0 {
        0
    } else {
        (spec_be_val(s.drop_last()) * 256 + s.last()) as nat
    }
}

/// Canonical wire form of an unsigned integer: one marker byte for zero, the
/// bare byte for small values, a length prefix and the minimal big-endian
/// bytes otherwise.
pub open spec fn spec_rlp_u64(n: u64) -> Seq<u8> {
    if n == 0 {
        seq![0x80u8]
    } else if n <= 0x7f {
        seq![n as u8]
    } else {
        seq![(0x80 + spec_be_bytes_u64(n).len()) as u8] + spec_be_bytes_u64(n)
    }
}

/// The four bytes of the fork hash, most significant first.
pub open spec fn spec_hash_bytes(h: u32) -> Seq<u8> {
    seq![
        ((h >> 24) & 0xff) as u8,
        ((h >> 16) & 0xff) as u8,
        ((h >> 8) & 0xff) as u8,
        (h & 0xff) as u8,
    ]
}

/// The fork hash that four bytes stand for, most significant first.
pub open spec fn spec_hash_val(b0: u8, b1: u8, b2: u8, b3: u8) -> u32 {
    ((b0 as u32) << 24) | ((b1 as u32) << 16) | ((b2 as u32) << 8) | (b3 as u32)
}

/// Canonical wire form of a fork identifier: a short list header, the
/// four-byte hash as a length-prefixed string, then the next-fork number.
pub open spec fn spec_encode_fork_id(f: ForkId) -> Seq<u8> {
    seq![(0xc5 + spec_rlp_u64(f.next).len()) as u8, 0x84u8] + spec_hash_bytes(f.hash)
        + spec_rlp_u64(f.next)
}

/// Parses bytes that must hold exactly one canonically encoded unsigned
/// integer, with nothing before or after it.
pub open spec fn spec_parse_rlp_u64(s: Seq<u8>) -> Option<u64> {
    if s.len() == 0 {
        Option::None
    } else if s[0] == 0x80 {
        if s.len() == 1 {
            Option::Some(0u64)
        } else {
            Option::None
        }
    } else if s[0] < 0x80 {
        if s.len() == 1 {
            Option::Some(s[0] as u64)
        } else {
            Option::None
        }
    } else if s[0] <= 0x88 {
        if s.len() != 1 + (s[0] - 0x80) {
            Option::None
        } else if s[1] == 0 {
            Option::None
        } else if s[0] == 0x81 && s[1] <= 0x7f {
            Option::None
        } else {
            Option::Some(spec_be_val(s.skip(1)) as u64)
        }
    } else {
        Option::None
    }
}

/// Parses the prefix of `b` as a canonically encoded fork identifier; bytes
/// past the encoded list do not matter.
pub open spec fn spec_decode_fork_id(b: Seq<u8>) -> Option<ForkId> {
    if b.len() < 7 {
        Option::None
    } else if !(0xc6 <= b[0] && b[0] <= 0xce) {
        Option::None
    } else if b.len() < 1 + (b[0] - 0xc0) {
        Option::None
    } else if b[1] != 0x84 {
        Option::None
    } else {
        match spec_parse_rlp_u64(b.subrange(6, 1 + (b[0] - 0xc0) as int)) {
            Option::None => Option::None,
            Option::Some(n) => Option::Some(
                ForkId { hash: spec_hash_val(b[2], b[3], b[4], b[5]), next: n },
            ),
        }
    }
}

/// 256 to the power `k`.
pub open spec fn spec_pow256(k: nat) -> int
    decreases k,
{
    if k == 0 {
        1
    } else {
        256 * spec_pow256((k - 1) as nat)
    }
}

proof fn lemma_pow256_pos(k: nat)
    ensures
        spec_pow256(k) >= 1,
    decreases k,
{
    if k > 0 {
        lemma_pow256_pos((k - 1) as nat);
    }
}

proof fn lemma_pow256_values()
    ensures
        spec_pow256(0) == 1,
        spec_pow256(1) == 256,
        spec_pow256(2) == 0x10000,
        spec_pow256(3) == 0x1000000,
        spec_pow256(4) == 0x100000000,
        spec_pow256(5) == 0x10000000000,
        spec_pow256(6) == 0x1000000000000,
        spec_pow256(7) == 0x100000000000000,
        spec_pow256(8) == 0x10000000000000000,
{
    assert(spec_pow256(0) == 1);
    assert(spec_pow256(1) == 256 * spec_pow256(0));
    assert(spec_pow256(2) == 256 * spec_pow256(1));
    assert(spec_pow256(3) == 256 * spec_pow256(2));
    assert(spec_pow256(4) == 256 * spec_pow256(3));
    assert(spec_pow256(5) == 256 * spec_pow256(4));
    assert(spec_pow256(6) == 256 * spec_pow256(5));
    assert(spec_pow256(7) == 256 * spec_pow256(6));
    assert(spec_pow256(8) == 256 * spec_pow256(7));
}

proof fn lemma_div256_bound(n: u64, p: int)
    requires
        n < 256 * p,
        p > 0,
    ensures
        n / 256 < p,
{
    vstd::arithmetic::div_mod::lemma_fundamental_div_mod(n as int, 256);
}

proof fn lemma_be_bytes_u64_len_k(n: u64, k: nat)
    requires
        n < spec_pow256(k),
    ensures
        spec_be_bytes_u64(n).len() <= k,
    decreases n,
{
    if n == 0 {
    } else {
        assert(k >= 1) by {
            if k == 0 {
                assert(spec_pow256(0) == 1);
            }
        }
        lemma_div256_bound(n, spec_pow256((k - 1) as nat));
        lemma_be_bytes_u64_len_k(n / 256, (k - 1) as nat);
    }
}

/// What the minimal big-endian bytes of `n` satisfy: at most eight of them,
/// none exactly when `n` is zero, no leading zero, and they stand for `n`.
pub proof fn lemma_be_bytes_u64_props(n: u64)
    ensures
        spec_be_bytes_u64(n).len() <= 8,
        (spec_be_bytes_u64(n).len() == 0) == (n == 0),
        n > 0 ==> spec_be_bytes_u64(n)[0] != 0,
        spec_be_val(spec_be_bytes_u64(n)) == n,
    decreases n,
{
    lemma_pow256_values();
    lemma_be_bytes_u64_len_k(n, 8);
    if n == 0 {
    } else {
        lemma_be_bytes_u64_props(n / 256);
        vstd::arithmetic::div_mod::lemma_fundamental_div_mod(n as int, 256);
        let tail = spec_be_bytes_u64(n / 256);
        let whole = spec_be_bytes_u64(n);
        assert(whole == tail + seq![(n % 256) as u8]);
        assert(whole.drop_last() =~= tail);
        assert(whole.last() == (n % 256) as u8);
        if n / 256 == 0 {
            assert(whole.len() == 1);
            assert(whole[0] == (n % 256) as u8);
            assert(n % 256 != 0);
        } else {
            assert(whole[0] == tail[0]);
        }
        assert(spec_be_val(whole) == spec_be_val(tail) * 256 + (n % 256));
    }
}

/// Parsing the canonical wire form of `n` yields `n` again.
pub proof fn lemma_rlp_u64_roundtrip(n: u64)
    ensures
        1 <= spec_rlp_u64(n).len() <= 9,
        spec_parse_rlp_u64(spec_rlp_u64(n)) == Option::Some(n),
{
    lemma_be_bytes_u64_props(n);
    let s = spec_rlp_u64(n);
    if n == 0 {
    } else if n <= 0x7f {
    } else {
        let be = spec_be_bytes_u64(n);
        let l = be.len();
        assert(1 <= l <= 8);
        assert(s[0] == (0x80 + l) as u8);
        assert(s.len() == 1 + l);
        assert(s.skip(1) =~= be);
        assert(s[1] == be[0]);
        if l == 1 {
            assert(be.drop_last() =~= Seq::<u8>::empty());
            assert(spec_be_val(Seq::<u8>::empty()) == 0);
            assert(be.last() == be[0]);
            assert(spec_be_val(be) == be[0]);
            assert(be[0] > 0x7f);
        }
        assert(spec_parse_rlp_u64(s) == Option::Some(n));
    }
}

/// Decoding the canonical wire form of `f`, with anything at all appended,
/// yields `f` again.
pub proof fn lemma_fork_id_roundtrip(f: ForkId, rest: Seq<u8>)
    ensures
        7 <= spec_encode_fork_id(f).len() <= 15,
        spec_decode_fork_id(spec_encode_fork_id(f) + rest) == Option::Some(f),
{
    lemma_rlp_u64_roundtrip(f.next);
    let e = spec_encode_fork_id(f);
    let rlp = spec_rlp_u64(f.next);
    let b = e + rest;
    assert(e.len() == 6 + rlp.len());
    assert(b[0] == (0xc5 + rlp.len()) as u8);
    assert(0xc6 <= b[0] && b[0] <= 0xce);
    assert(b[0] - 0xc0 == 5 + rlp.len());
    assert(b[1] == 0x84);
    let h = f.hash;
    assert(((h >> 24) & 0xff) <= 0xff && ((h >> 16) & 0xff) <= 0xff && ((h >> 8) & 0xff) <= 0xff
        && (h & 0xff) <= 0xff) by (bit_vector);
    assert(b[2] == ((h >> 24) & 0xff) as u8);
    assert(b[3] == ((h >> 16) & 0xff) as u8);
    assert(b[4] == ((h >> 8) & 0xff) as u8);
    assert(b[5] == (h & 0xff) as u8);
    assert((((h >> 24) & 0xff) << 24) | (((h >> 16) & 0xff) << 16) | (((h >> 8) & 0xff) << 8) | (h
        & 0xff) == h) by (bit_vector);
    assert(b[2] as u32 == (h >> 24) & 0xff);
    assert(b[3] as u32 == (h >> 16) & 0xff);
    assert(b[4] as u32 == (h >> 8) & 0xff);
    assert(b[5] as u32 == h & 0xff);
    assert(spec_hash_val(b[2], b[3], b[4], b[5]) == h);
    assert(b.subrange(6, 1 + (b[0] - 0xc0) as int) =~= rlp);
    assert(spec_parse_rlp_u64(b.subrange(6, 1 + (b[0] - 0xc0) as int)) == Option::Some(f.next));
}

fn be_bytes_u64(n: u64) -> (r: Vec<u8>)
    ensures
        r@ == spec_be_bytes_u64(n),
    decreases n,
{
    if n == 0 {
        Vec::new()
    } else {
        proof {
            vstd::arithmetic::div_mod::lemma_fundamental_div_mod(n as int, 256);
        }
        let mut v = be_bytes_u64(n / 256);
        v.push((n % 256) as u8);
        proof {
            assert(v@ =~= spec_be_bytes_u64(n));
        }
        v
    }
}

fn rlp_u64_bytes(n: u64) -> (r: Vec<u8>)
    ensures
        r@ == spec_rlp_u64(n),
{
    if n == 0 {
        let mut v: Vec<u8> = Vec::new();
        v.push(0x80);
        proof {
            assert(v@ =~= spec_rlp_u64(n));
        }
        v
    } else if n <= 0x7f {
        let mut v: Vec<u8> = Vec::new();
        v.push(n as u8);
        proof {
            assert(v@ =~= spec_rlp_u64(n));
        }
        v
    } else {
        proof {
            lemma_be_bytes_u64_props(n);
        }
        let mut be = be_bytes_u64(n);
        let mut out: Vec<u8> = Vec::new();
        out.push(0x80 + be.len() as u8);
        out.append(&mut be);
        proof {
            assert(out@ =~= spec_rlp_u64(n));
        }
        out
    }
}

/// Encodes a fork identifier into its canonical wire form.
pub fn encode_fork_id(f: &ForkId) -> (r: Vec<u8>)
    ensures
        r@ == spec_encode_fork_id(*f),
{
    proof {
        lemma_rlp_u64_roundtrip(f.next);
    }
    let mut next_rlp = rlp_u64_bytes(f.next);
    let mut out: Vec<u8> = Vec::new();
    out.push(0xc5 + next_rlp.len() as u8);
    out.push(0x84);
    out.push(((f.hash >> 24) & 0xff) as u8);
    out.push(((f.hash >> 16) & 0xff) as u8);
    out.push(((f.hash >> 8) & 0xff) as u8);
    out.push((f.hash & 0xff) as u8);
    out.append(&mut next_rlp);
    proof {
        assert(out@ =~= spec_encode_fork_id(*f));
    }
    out
}

fn parse_rlp_u64_at(b: &[u8], start: usize, end: usize) -> (r: Option<u64>)
    requires
        start <= end <= b@.len(),
    ensures
        r == spec_parse_rlp_u64(b@.subrange(start as int, end as int)),
{
    let ghost s = b@.subrange(start as int, end as int);
    let len = end - start;
    if len == 0 {
        return Option::None;
    }
    let b0 = b[start];
    assert(b0 == s[0]);
    if b0 == 0x80 {
        if len == 1 {
            Option::Some(0)
        } else {
            Option::None
        }
    } else if b0 < 0x80 {
        if len == 1 {
            Option::Some(b0 as u64)
        } else {
            Option::None
        }
    } else if b0 <= 0x88 {
        let l = (b0 - 0x80) as usize;
        if len != 1 + l {
            return Option::None;
        }
        assert(s[1] == b@[start + 1]);
        if b[start + 1] == 0 {
            return Option::None;
        }
        if l == 1 && b[start + 1] <= 0x7f {
            return Option::None;
        }
        proof {
            lemma_pow256_values();
        }
        let mut val: u64 = 0;
        let mut j: usize = 0;
        while j < l
            invariant
                j <= l,
                l <= 8,
                start + 1 + l == end <= b@.len(),
                s == b@.subrange(start as int, end as int),
                s.len() == 1 + l,
                val == spec_be_val(s.subrange(1, 1 + j as int)),
                val < spec_pow256(j as nat),
            decreases l - j,
        {
            proof {
                lemma_pow256_values();
                assert(s.subrange(1, 1 + (j + 1) as int) =~= s.subrange(1, 1 + j as int).push(
                    s[1 + j as int],
                ));
                assert(s.subrange(1, 1 + (j + 1) as int).drop_last() =~= s.subrange(
                    1,
                    1 + j as int,
                ));
                assert(s.subrange(1, 1 + (j + 1) as int).last() == s[1 + j as int]);
                assert(s[1 + j as int] == b@[start + 1 + j]);
                assert(spec_pow256((j + 1) as nat) == 256 * spec_pow256(j as nat));
                assert(spec_pow256(j as nat) <= spec_pow256(7)) by {
                    lemma_pow256_le(j as nat, 7);
                }
            }
            val = val * 256 + (b[start + 1 + j] as u64);
            j += 1;
        }
        proof {
            assert(s.subrange(1, 1 + l as int) =~= s.skip(1));
        }
        Option::Some(val)
    } else {
        Option::None
    }
}

proof fn lemma_pow256_le(a: nat, b: nat)
    requires
        a <= b,
    ensures
        spec_pow256(a) <= spec_pow256(b),
    decreases b,
{
    lemma_pow256_pos(a);
    if a < b {
        lemma_pow256_le(a, (b - 1) as nat);
        lemma_pow256_pos((b - 1) as nat);
    }
}

/// Decodes the prefix of `bytes` as a canonically encoded fork identifier;
/// anything past the encoded list is ignored, as a caller that reads a record
/// entry sees only that the entry starts with a fork identifier.
pub fn decode_fork_id(bytes: &[u8]) -> (r: Result<ForkId, RecordDecodeError>)
    ensures
        r == (match spec_decode_fork_id(bytes@) {
            Option::Some(f) => Result::<ForkId, RecordDecodeError>::Ok(f),
            Option::None => Result::<ForkId, RecordDecodeError>::Err(RecordDecodeError),
        }),
{
    if bytes.len() < 7 {
        return Result::Err(RecordDecodeError);
    }
    let header = bytes[0];
    if !(0xc6 <= header && header <= 0xce) {
        return Result::Err(RecordDecodeError);
    }
    let payload = (header - 0xc0) as usize;
    if bytes.len() < 1 + payload {
        return Result::Err(RecordDecodeError);
    }
    if bytes[1] != 0x84 {
        return Result::Err(RecordDecodeError);
    }
    let hash = ((bytes[2] as u32) << 24) | ((bytes[3] as u32) << 16) | ((bytes[4] as u32) << 8) | (
    bytes[5] as u32);
    match parse_rlp_u64_at(bytes, 6, 1 + payload) {
        Option::Some(n) => Result::Ok(ForkId { hash, next: n }),
        Option::None => Result::Err(RecordDecodeError),
    }
}

} // verus!
