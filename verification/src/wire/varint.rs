//! Base-128 variable-length integers, least significant group first.

use vstd::prelude::*;

verus! {

/// The longest encoding of a 64-bit value.
pub const MAX_VARINT_LEN: usize = 10;

/// The encoding of `n`: seven bits per byte, lowest first, the top bit of a byte set
/// on all but the last.
pub open spec fn varint(n: nat) -> Seq<u8>
    decreases n,
{
    if n < 128 {
        seq![n as u8]
    } else {
        seq![(n % 128 + 128) as u8] + varint(n / 128)
    }
}

/// Reads an encoded integer from the front of `b`, looking at no more than `max_len`
/// bytes. Gives the value and the number of bytes it took.
pub open spec fn parse_varint(b: Seq<u8>, max_len: nat) -> Option<(nat, nat)>
    decreases max_len,
{
    if max_len == 0 || b.len() == 0 {
        None
    } else if b[0] < 128 {
        Some((b[0] as nat, 1))
    } else {
        match parse_varint(b.drop_first(), (max_len - 1) as nat) {
            Some((v, n)) => Some(((b[0] - 128) as nat + 128 * v, n + 1)),
            None => None,
        }
    }
}

/// Reads a 64-bit integer from the front of `b`: at most ten bytes, and the value has
/// to fit.
pub open spec fn parse_u64(b: Seq<u8>) -> Option<(u64, nat)> {
    match parse_varint(b, 10) {
        Some((v, n)) => if v <= u64::MAX {
            Some((v as u64, n))
        } else {
            None
        },
        None => None,
    }
}

/// An encoding is never empty, and a parse takes at least one byte and no more than
/// there are.
pub proof fn lemma_parse_varint_len(b: Seq<u8>, max_len: nat)
    ensures
        match parse_varint(b, max_len) {
            Some((v, n)) => 1 <= n <= max_len && n <= b.len(),
            None => true,
        },
    decreases max_len,
{
    if max_len > 0 && b.len() > 0 && b[0] >= 128 {
        lemma_parse_varint_len(b.drop_first(), (max_len - 1) as nat);
    }
}

/// `128` to the power `k`.
pub open spec fn pow128(k: nat) -> nat
    decreases k,
{
    if k == 0 {
        1
    } else {
        128 * pow128((k - 1) as nat)
    }
}

/// The encoding of a value below `128^k` has at most `k` bytes.
pub proof fn lemma_varint_len_bound(n: nat, k: nat)
    requires
        k >= 1,
        n < pow128(k),
    ensures
        1 <= varint(n).len() <= k,
    decreases n,
{
    if n >= 128 {
        assert(pow128(1) == 128) by {
            reveal_with_fuel(pow128, 2);
        }
        assert(k >= 2);
        assert(n / 128 < pow128((k - 1) as nat));
        lemma_varint_len_bound(n / 128, (k - 1) as nat);
    }
}

/// A 32-bit value takes at most five bytes and a 64-bit value at most ten.
pub proof fn lemma_varint_len(n: nat)
    ensures
        1 <= varint(n).len(),
        n <= u32::MAX ==> varint(n).len() <= 5,
        n <= u64::MAX ==> varint(n).len() <= 10,
{
    assert(pow128(5) == 34359738368 && pow128(10) == 1180591620717411303424) by {
        reveal_with_fuel(pow128, 11);
    }
    if n <= u32::MAX {
        lemma_varint_len_bound(n, 5);
    }
    if n <= u64::MAX {
        lemma_varint_len_bound(n, 10);
    }
}

/// Parsing what was encoded gives the value back and stops where the encoding ends.
pub proof fn lemma_parse_varint_roundtrip(n: nat, rest: Seq<u8>, max_len: nat)
    requires
        varint(n).len() <= max_len,
    ensures
        parse_varint(varint(n) + rest, max_len) == Some((n, varint(n).len())),
    decreases n,
{
    let b = varint(n) + rest;
    if n < 128 {
        assert(b[0] == n as u8);
    } else {
        let tail = varint(n / 128);
        assert(b[0] == (n % 128 + 128) as u8);
        assert(b.drop_first() =~= tail + rest);
        lemma_parse_varint_roundtrip(n / 128, rest, (max_len - 1) as nat);
        assert((n % 128) + 128 * (n / 128) == n);
    }
}

/// Parsing an encoded 64-bit value gives it back.
pub proof fn lemma_parse_u64_roundtrip(n: u64, rest: Seq<u8>)
    ensures
        parse_u64(varint(n as nat) + rest) == Some((n, varint(n as nat).len())),
{
    lemma_varint_len(n as nat);
    lemma_parse_varint_roundtrip(n as nat, rest, 10);
}

/// Appends the encoding of `n` to `out`.
pub fn write_varint(out: &mut Vec<u8>, n: u64)
    ensures
        final(out)@ == old(out)@ + varint(n as nat),
{
    let mut rest: u64 = n;
    let ghost mut written: Seq<u8> = Seq::empty();
    proof {
        assert(old(out)@ + written =~= old(out)@);
        assert(written + varint(rest as nat) =~= varint(n as nat));
    }
    while rest >= 128
        invariant
            out@ == old(out)@ + written,
            written + varint(rest as nat) == varint(n as nat),
        decreases rest,
    {
        let byte: u8 = ((rest % 128) + 128) as u8;
        out.push(byte);
        proof {
            let before = written;
            written = written.push(byte);
            assert(out@ =~= old(out)@ + written);
            assert(varint(rest as nat) =~= seq![byte] + varint((rest / 128) as nat));
            assert(written + varint((rest / 128) as nat) =~= before + varint(rest as nat));
        }
        rest = rest / 128;
    }
    out.push(rest as u8);
    proof {
        assert(varint(rest as nat) =~= seq![rest as u8]);
        assert(out@ =~= old(out)@ + (written + varint(rest as nat)));
    }
}

fn read_varint_bounded(bytes: &[u8], pos: usize, max_len: usize) -> (r: Option<(u64, usize)>)
    requires
        pos <= bytes@.len(),
    ensures
        match parse_varint(bytes@.skip(pos as int), max_len as nat) {
            Some((v, n)) => if v <= u64::MAX {
                match r {
                    Some((value, end)) => value == v && end == pos + n && pos + n <= bytes@.len(),
                    None => false,
                }
            } else {
                r is None
            },
            None => r is None,
        },
    decreases max_len,
{
    if max_len == 0 || pos >= bytes.len() {
        return None;
    }
    let first: u8 = bytes[pos];
    proof {
        assert(bytes@.skip(pos as int)[0] == first);
        assert(bytes@.skip(pos as int).drop_first() =~= bytes@.skip(pos as int + 1));
        lemma_parse_varint_len(bytes@.skip(pos as int + 1), (max_len - 1) as nat);
    }
    if first < 128 {
        return Some((first as u64, pos + 1));
    }
    match read_varint_bounded(bytes, pos + 1, max_len - 1) {
        Some((high, end)) => {
            let low: u64 = (first - 128) as u64;
            if high > (u64::MAX - low) / 128 {
                None
            } else {
                Some((low + 128 * high, end))
            }
        },
        None => None,
    }
}

/// Reads a 64-bit integer that starts at `pos`. Gives the value and the position
/// after it.
pub fn read_varint(bytes: &[u8], pos: usize) -> (r: Option<(u64, usize)>)
    requires
        pos <= bytes@.len(),
    ensures
        match parse_u64(bytes@.skip(pos as int)) {
            Some((v, n)) => match r {
                Some((value, end)) => value == v && end == pos + n && pos + n <= bytes@.len(),
                None => false,
            },
            None => r is None,
        },
{
    read_varint_bounded(bytes, pos, MAX_VARINT_LEN)
}

} // verus!
