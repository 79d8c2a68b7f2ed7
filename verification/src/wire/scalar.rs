//! How single values of the protocol's field types are laid out as fields: a field
//! holding its type's default value is left out.

use crate::wire::fields::{
    fields_bytes, write_bytes_field, write_fixed64_field, write_varint_field, WireField, WireValue,
    MAX_FIELD_NUMBER,
};
use crate::wire::varint::{
    lemma_parse_u64_roundtrip, lemma_parse_varint_len, lemma_varint_len, parse_u64, read_varint, varint,
    write_varint,
};
use vstd::prelude::*;
use vstd::string::*;
use vstd::utf8::{decode_utf8, encode_utf8, valid_utf8};

verus! {

/// A signed 32-bit value as the 64-bit integer that travels: negative values are
/// sign-extended.
pub open spec fn int32_to_wire(v: i32) -> u64 {
    if v >= 0 {
        v as u64
    } else {
        (v + 0x1_0000_0000_0000_0000) as u64
    }
}

/// The signed 32-bit value that a travelling integer stands for: its low 32 bits.
pub open spec fn wire_to_int32(w: u64) -> i32 {
    let low = w % 0x1_0000_0000;
    if low < 0x8000_0000 {
        low as i32
    } else {
        (low - 0x1_0000_0000) as i32
    }
}

/// The unsigned 32-bit value that a travelling integer stands for: its low 32 bits.
pub open spec fn wire_to_uint32(w: u64) -> u32 {
    (w % 0x1_0000_0000) as u32
}

/// A signed value survives the trip.
pub proof fn lemma_int32_wire_roundtrip(v: i32)
    ensures
        wire_to_int32(int32_to_wire(v)) == v,
{
}

/// The text that the bytes `b` spell, if they are UTF-8.
pub open spec fn text_of(b: Seq<u8>) -> Option<Seq<char>> {
    if valid_utf8(b) {
        Some(decode_utf8(b))
    } else {
        None
    }
}

/// The values `vs` packed into one run of bytes.
pub open spec fn packed_int32(vs: Seq<i32>) -> Seq<u8>
    decreases vs.len(),
{
    if vs.len() == 0 {
        Seq::empty()
    } else {
        varint(int32_to_wire(vs.first()) as nat) + packed_int32(vs.drop_first())
    }
}

/// The values packed into `b`.
pub open spec fn parse_packed_int32(b: Seq<u8>) -> Option<Seq<i32>>
    decreases b.len(),
{
    if b.len() == 0 {
        Some(Seq::empty())
    } else {
        match parse_u64(b) {
            Some((w, n)) => if 1 <= n <= b.len() {
                match parse_packed_int32(b.skip(n as int)) {
                    Some(rest) => Some(seq![wire_to_int32(w)] + rest),
                    None => None,
                }
            } else {
                None
            },
            None => None,
        }
    }
}

/// Unpacking what was packed gives the values back.
pub proof fn lemma_packed_int32_roundtrip(vs: Seq<i32>)
    ensures
        parse_packed_int32(packed_int32(vs)) == Some(vs),
    decreases vs.len(),
{
    if vs.len() > 0 {
        let w = int32_to_wire(vs.first());
        let rest = packed_int32(vs.drop_first());
        let b = packed_int32(vs);
        lemma_parse_u64_roundtrip(w, rest);
        lemma_varint_len(w as nat);
        assert(b.skip(varint(w as nat).len() as int) =~= rest);
        lemma_packed_int32_roundtrip(vs.drop_first());
        lemma_int32_wire_roundtrip(vs.first());
        assert(seq![vs.first()] + vs.drop_first() =~= vs);
    } else {
        assert(vs =~= Seq::<i32>::empty());
    }
}

/// An unsigned integer as a field: left out when zero.
pub open spec fn uint_piece(number: u32, v: u64) -> Seq<WireField> {
    if v == 0 {
        Seq::empty()
    } else {
        seq![WireField { number, value: WireValue::Varint(v) }]
    }
}

/// A signed integer as a field: left out when zero.
pub open spec fn int32_piece(number: u32, v: i32) -> Seq<WireField> {
    uint_piece(number, int32_to_wire(v))
}

/// A truth value as a field: left out when false.
pub open spec fn bool_piece(number: u32, b: bool) -> Seq<WireField> {
    uint_piece(number, if b { 1 } else { 0 })
}

/// Eight raw bytes as a field: left out when all are zero.
pub open spec fn fixed64_piece(number: u32, v: u64) -> Seq<WireField> {
    if v == 0 {
        Seq::empty()
    } else {
        seq![WireField { number, value: WireValue::Fixed64(v) }]
    }
}

/// A run of bytes as a field: left out when empty.
pub open spec fn bytes_piece(number: u32, b: Seq<u8>) -> Seq<WireField> {
    if b.len() == 0 {
        Seq::empty()
    } else {
        seq![WireField { number, value: WireValue::Bytes(b) }]
    }
}

/// A text as a field: left out when empty.
pub open spec fn text_piece(number: u32, s: Seq<char>) -> Seq<WireField> {
    bytes_piece(number, encode_utf8(s))
}

/// A list of signed integers as one packed field: left out when empty.
pub open spec fn packed_piece(number: u32, vs: Seq<i32>) -> Seq<WireField> {
    bytes_piece(number, packed_int32(vs))
}

/// An embedded message as a field: written even when the message is empty.
pub open spec fn message_piece(number: u32, body: Seq<u8>) -> Seq<WireField> {
    seq![WireField { number, value: WireValue::Bytes(body) }]
}

/// The bytes of a single field.
pub proof fn lemma_fields_bytes_single(f: WireField)
    ensures
        fields_bytes(seq![f]) == f.bytes(),
{
    assert(seq![f].drop_first() =~= Seq::<WireField>::empty());
    assert(f.bytes() + fields_bytes(Seq::<WireField>::empty()) =~= f.bytes());
}

pub fn i32_to_wire(v: i32) -> (w: u64)
    ensures
        w == int32_to_wire(v),
{
    if v >= 0 {
        v as u64
    } else {
        let magnitude: u64 = (-(v as i64)) as u64;
        u64::MAX - magnitude + 1
    }
}

pub fn wire_to_i32(w: u64) -> (v: i32)
    ensures
        v == wire_to_int32(w),
{
    let low: u64 = w % 0x1_0000_0000;
    if low < 0x8000_0000 {
        low as i32
    } else {
        (low as i64 - 0x1_0000_0000) as i32
    }
}

pub fn wire_to_u32(w: u64) -> (v: u32)
    ensures
        v == wire_to_uint32(w),
{
    (w % 0x1_0000_0000) as u32
}

/// Checks that `bytes` are UTF-8 with `std::str::from_utf8` and copies them into a
/// `String`. Trusted: the call succeeds exactly on well-formed UTF-8, and the text
/// it gives is the one the bytes encode.
#[verifier::external_body]
pub(crate) fn utf8_to_string(bytes: &[u8]) -> (r: Option<String>)
    ensures
        match text_of(bytes@) {
            Some(s) => r is Some && r->0@ == s,
            None => r is None,
        },
{
    match std::str::from_utf8(bytes) {
        Ok(s) => Some(s.to_string()),
        Err(_) => None,
    }
}

/// Appends an unsigned integer field, unless the value is zero.
pub fn put_uint(out: &mut Vec<u8>, number: u32, v: u64)
    requires
        1 <= number <= MAX_FIELD_NUMBER,
    ensures
        final(out)@ == old(out)@ + fields_bytes(uint_piece(number, v)),
{
    if v != 0 {
        write_varint_field(out, number, v);
        proof {
            lemma_fields_bytes_single(WireField { number, value: WireValue::Varint(v) });
        }
    } else {
        proof {
            assert(out@ =~= old(out)@ + fields_bytes(uint_piece(number, v)));
        }
    }
}

/// Appends a signed integer field, unless the value is zero.
pub fn put_int32(out: &mut Vec<u8>, number: u32, v: i32)
    requires
        1 <= number <= MAX_FIELD_NUMBER,
    ensures
        final(out)@ == old(out)@ + fields_bytes(int32_piece(number, v)),
{
    put_uint(out, number, i32_to_wire(v));
}

/// Appends a truth value field, unless the value is false.
pub fn put_bool(out: &mut Vec<u8>, number: u32, b: bool)
    requires
        1 <= number <= MAX_FIELD_NUMBER,
    ensures
        final(out)@ == old(out)@ + fields_bytes(bool_piece(number, b)),
{
    put_uint(out, number, if b { 1 } else { 0 });
}

/// Appends an eight-byte field, unless the value is zero.
pub fn put_fixed64(out: &mut Vec<u8>, number: u32, v: u64)
    requires
        1 <= number <= MAX_FIELD_NUMBER,
    ensures
        final(out)@ == old(out)@ + fields_bytes(fixed64_piece(number, v)),
{
    if v != 0 {
        write_fixed64_field(out, number, v);
        proof {
            lemma_fields_bytes_single(WireField { number, value: WireValue::Fixed64(v) });
        }
    } else {
        proof {
            assert(out@ =~= old(out)@ + fields_bytes(fixed64_piece(number, v)));
        }
    }
}

/// Appends a field of bytes, unless there are none.
pub fn put_bytes(out: &mut Vec<u8>, number: u32, body: &[u8])
    requires
        1 <= number <= MAX_FIELD_NUMBER,
    ensures
        final(out)@ == old(out)@ + fields_bytes(bytes_piece(number, body@)),
{
    if body.len() != 0 {
        write_bytes_field(out, number, body);
        proof {
            lemma_fields_bytes_single(WireField { number, value: WireValue::Bytes(body@) });
        }
    } else {
        proof {
            assert(out@ =~= old(out)@ + fields_bytes(bytes_piece(number, body@)));
        }
    }
}

/// Appends a text field, unless the text is empty.
pub fn put_text(out: &mut Vec<u8>, number: u32, s: &str)
    requires
        1 <= number <= MAX_FIELD_NUMBER,
    ensures
        final(out)@ == old(out)@ + fields_bytes(text_piece(number, s@)),
{
    put_bytes(out, number, s.as_bytes());
}

/// Packs `vs` into a run of bytes.
pub fn pack_int32(vs: &Vec<i32>) -> (buf: Vec<u8>)
    ensures
        buf@ == packed_int32(vs@),
{
    let mut buf: Vec<u8> = Vec::new();
    let n: usize = vs.len();
    let mut i: usize = 0;
    proof {
        assert(vs@.skip(0) =~= vs@);
        assert(buf@ + packed_int32(vs@) =~= packed_int32(vs@));
    }
    while i < n
        invariant
            n == vs@.len(),
            i <= n,
            buf@ + packed_int32(vs@.skip(i as int)) == packed_int32(vs@),
        decreases n - i,
    {
        let ghost before = buf@;
        let ghost here = vs@.skip(i as int);
        write_varint(&mut buf, i32_to_wire(vs[i]));
        proof {
            assert(here.first() == vs@[i as int]);
            assert(here.drop_first() =~= vs@.skip(i as int + 1));
            assert(buf@ + packed_int32(vs@.skip(i as int + 1)) =~= before + packed_int32(here));
        }
        i += 1;
    }
    proof {
        assert(vs@.skip(n as int) =~= Seq::<i32>::empty());
        assert(buf@ + Seq::<u8>::empty() =~= buf@);
    }
    buf
}

/// Appends a packed field of signed integers, unless the list is empty.
pub fn put_packed(out: &mut Vec<u8>, number: u32, vs: &Vec<i32>)
    requires
        1 <= number <= MAX_FIELD_NUMBER,
    ensures
        final(out)@ == old(out)@ + fields_bytes(packed_piece(number, vs@)),
{
    let buf = pack_int32(vs);
    put_bytes(out, number, buf.as_slice());
}

/// Appends an embedded message whose bytes are `body`.
pub fn put_message(out: &mut Vec<u8>, number: u32, body: &[u8])
    requires
        1 <= number <= MAX_FIELD_NUMBER,
    ensures
        final(out)@ == old(out)@ + fields_bytes(message_piece(number, body@)),
{
    write_bytes_field(out, number, body);
    proof {
        lemma_fields_bytes_single(WireField { number, value: WireValue::Bytes(body@) });
    }
}

/// Appends to `into` the values packed in `bytes`. Gives `false`, with `into` in an
/// unspecified state, where the bytes are not a run of integers.
pub fn unpack_int32(into: &mut Vec<i32>, bytes: &[u8]) -> (ok: bool)
    ensures
        match parse_packed_int32(bytes@) {
            Some(vs) => ok && final(into)@ == old(into)@ + vs,
            None => !ok,
        },
{
    let mut pos: usize = 0;
    proof {
        assert(bytes@.skip(0) =~= bytes@);
    }
    while pos < bytes.len()
        invariant
            pos <= bytes@.len(),
            match parse_packed_int32(bytes@.skip(pos as int)) {
                Some(rest) => parse_packed_int32(bytes@) is Some && old(into)@ + parse_packed_int32(bytes@)->0
                    == into@ + rest,
                None => parse_packed_int32(bytes@) is None,
            },
        decreases bytes@.len() - pos,
    {
        let ghost here = bytes@.skip(pos as int);
        proof {
            lemma_parse_varint_len(here, 10);
        }
        match read_varint(bytes, pos) {
            Some((w, end)) => {
                let ghost before = into@;
                proof {
                    assert(here.skip(end - pos) =~= bytes@.skip(end as int));
                }
                into.push(wire_to_i32(w));
                proof {
                    match parse_packed_int32(bytes@.skip(end as int)) {
                        Some(rest) => {
                            assert(before + (seq![wire_to_int32(w)] + rest) =~= into@ + rest);
                        },
                        None => {},
                    }
                }
                pos = end;
            },
            None => {
                return false;
            },
        }
    }
    proof {
        assert(bytes@.skip(pos as int) =~= Seq::<u8>::empty());
        assert(into@ + Seq::<i32>::empty() =~= into@);
    }
    true
}

/// Whether every field of `fs` can be written.
pub open spec fn all_well_formed(fs: Seq<WireField>) -> bool {
    forall|i: int| 0 <= i < fs.len() ==> (#[trigger] fs[i]).well_formed()
}

/// Two runs of writable fields make a run of writable fields.
pub proof fn lemma_all_well_formed_concat(a: Seq<WireField>, b: Seq<WireField>)
    requires
        all_well_formed(a),
        all_well_formed(b),
    ensures
        all_well_formed(a + b),
{
    assert forall|i: int| 0 <= i < (a + b).len() implies (#[trigger] (a + b)[i]).well_formed() by {
        if i < a.len() {
            assert((a + b)[i] == a[i]);
        } else {
            assert((a + b)[i] == b[i - a.len()]);
        }
    }
}

/// A text survives being written as UTF-8 and read back, and only the empty text has
/// no bytes.
pub proof fn lemma_text_roundtrip(s: Seq<char>)
    ensures
        text_of(encode_utf8(s)) == Some(s),
        encode_utf8(s).len() == 0 ==> s == Seq::<char>::empty(),
{
    broadcast use {vstd::utf8::encode_utf8_decode_utf8, vstd::utf8::encode_utf8_valid_utf8};

    assert(valid_utf8(encode_utf8(s)));
    assert(decode_utf8(encode_utf8(s)) == s);
    if encode_utf8(s).len() == 0 {
        assert(decode_utf8(encode_utf8(s)) =~= Seq::<char>::empty());
    }
}

/// Only the empty list packs into no bytes.
pub proof fn lemma_packed_int32_empty(vs: Seq<i32>)
    ensures
        packed_int32(vs).len() == 0 ==> vs == Seq::<i32>::empty(),
{
    if vs.len() > 0 {
        lemma_varint_len(int32_to_wire(vs.first()) as nat);
    } else {
        assert(vs =~= Seq::<i32>::empty());
    }
}

} // verus!
