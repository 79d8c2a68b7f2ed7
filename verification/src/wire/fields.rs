//! Tagged fields: the layer of the wire format that knows numbers and wire types but
//! not what a field means.

use crate::wire::varint::{
    lemma_parse_u64_roundtrip, lemma_parse_varint_len, lemma_varint_len, parse_u64, read_varint, varint,
    write_varint,
};
use vstd::bytes::*;
use vstd::prelude::*;
use vstd::slice::*;

verus! {

/// The largest field number the format allows.
pub const MAX_FIELD_NUMBER: u32 = 0x1FFF_FFFF;

/// The value of a field as it travels: a variable-length integer, eight bytes, a run
/// of bytes with its length in front, or four bytes.
pub enum WireValue {
    Varint(u64),
    Fixed64(u64),
    Bytes(Seq<u8>),
    Fixed32(u32),
}

/// A field as it travels: its number and its value.
pub struct WireField {
    pub number: u32,
    pub value: WireValue,
}

impl WireValue {
    /// The three-bit code that tells a reader how long the value is.
    pub open spec fn wire_type(self) -> nat {
        match self {
            WireValue::Varint(_) => 0,
            WireValue::Fixed64(_) => 1,
            WireValue::Bytes(_) => 2,
            WireValue::Fixed32(_) => 5,
        }
    }

    /// The bytes of the value.
    pub open spec fn bytes(self) -> Seq<u8> {
        match self {
            WireValue::Varint(v) => varint(v as nat),
            WireValue::Fixed64(v) => spec_u64_to_le_bytes(v),
            WireValue::Bytes(b) => varint(b.len()) + b,
            WireValue::Fixed32(v) => spec_u32_to_le_bytes(v),
        }
    }
}

impl WireField {
    /// The key that precedes the value: field number and wire type in one integer.
    pub open spec fn key(self) -> nat {
        self.number as nat * 8 + self.value.wire_type()
    }

    /// The bytes of the field: key, then value.
    pub open spec fn bytes(self) -> Seq<u8> {
        varint(self.key()) + self.value.bytes()
    }

    /// Whether the field can be written: its number is in range and its length fits
    /// the length prefix.
    pub open spec fn well_formed(self) -> bool {
        &&& 1 <= self.number <= MAX_FIELD_NUMBER
        &&& match self.value {
            WireValue::Bytes(b) => b.len() <= u64::MAX,
            _ => true,
        }
    }
}

/// The bytes of the fields `fs`, one after the other.
pub open spec fn fields_bytes(fs: Seq<WireField>) -> Seq<u8>
    decreases fs.len(),
{
    if fs.len() == 0 {
        Seq::empty()
    } else {
        fs.first().bytes() + fields_bytes(fs.drop_first())
    }
}

/// Reads the value of a field of wire type `wire_type` from the front of `b`. Gives
/// the value and the number of bytes it took. Groups are not supported.
pub open spec fn parse_value(wire_type: nat, b: Seq<u8>) -> Option<(WireValue, nat)> {
    if wire_type == 0 {
        match parse_u64(b) {
            Some((v, n)) => Some((WireValue::Varint(v), n)),
            None => None,
        }
    } else if wire_type == 1 {
        if b.len() >= 8 {
            Some((WireValue::Fixed64(spec_u64_from_le_bytes(b.subrange(0, 8))), 8))
        } else {
            None
        }
    } else if wire_type == 2 {
        match parse_u64(b) {
            Some((len, n)) => if n + len <= b.len() {
                Some((WireValue::Bytes(b.subrange(n as int, n + len)), (n + len) as nat))
            } else {
                None
            },
            None => None,
        }
    } else if wire_type == 5 {
        if b.len() >= 4 {
            Some((WireValue::Fixed32(spec_u32_from_le_bytes(b.subrange(0, 4))), 4))
        } else {
            None
        }
    } else {
        None
    }
}

/// Reads one field from the front of `b`. Gives the field and the number of bytes it
/// took. A key that does not fit 32 bits or names field zero is refused.
pub open spec fn parse_field(b: Seq<u8>) -> Option<(WireField, nat)> {
    match parse_u64(b) {
        Some((key, n)) => if key > u32::MAX || key / 8 == 0 {
            None
        } else {
            match parse_value((key % 8) as nat, b.skip(n as int)) {
                Some((value, m)) => Some((WireField { number: (key / 8) as u32, value }, n + m)),
                None => None,
            }
        },
        None => None,
    }
}

/// Reads `b` as a run of fields, to its end.
pub open spec fn parse_fields(b: Seq<u8>) -> Option<Seq<WireField>>
    decreases b.len(),
{
    if b.len() == 0 {
        Some(Seq::empty())
    } else {
        match parse_field(b) {
            Some((f, n)) => if 1 <= n <= b.len() {
                match parse_fields(b.skip(n as int)) {
                    Some(rest) => Some(seq![f] + rest),
                    None => None,
                }
            } else {
                None
            },
            None => None,
        }
    }
}

/// A parsed field took at least two bytes and no more than there were.
pub proof fn lemma_parse_field_len(b: Seq<u8>)
    ensures
        match parse_field(b) {
            Some((f, n)) => 2 <= n <= b.len() && f.well_formed(),
            None => true,
        },
{
    lemma_parse_varint_len(b, 10);
    match parse_u64(b) {
        Some((key, n)) => {
            lemma_parse_varint_len(b.skip(n as int), 10);
        },
        None => {},
    }
}

/// Reading a written value gives it back and stops where it ends.
pub proof fn lemma_parse_value_roundtrip(v: WireValue, rest: Seq<u8>)
    requires
        v is Bytes ==> v->Bytes_0.len() <= u64::MAX,
    ensures
        parse_value(v.wire_type(), v.bytes() + rest) == Some((v, v.bytes().len())),
{
    let b = v.bytes() + rest;
    match v {
        WireValue::Varint(x) => {
            lemma_parse_u64_roundtrip(x, rest);
        },
        WireValue::Fixed64(x) => {
            lemma_auto_spec_u64_to_from_le_bytes();
            assert(b.subrange(0, 8) =~= spec_u64_to_le_bytes(x));
        },
        WireValue::Bytes(body) => {
            let len = body.len() as u64;
            lemma_parse_u64_roundtrip(len, body + rest);
            assert(varint(len as nat) + (body + rest) =~= b);
            let n = varint(len as nat).len();
            assert(b.subrange(n as int, n + len) =~= body);
        },
        WireValue::Fixed32(x) => {
            lemma_auto_spec_u32_to_from_le_bytes();
            assert(b.subrange(0, 4) =~= spec_u32_to_le_bytes(x));
        },
    }
}

/// Reading a written field gives it back and stops where it ends.
pub proof fn lemma_parse_field_roundtrip(f: WireField, rest: Seq<u8>)
    requires
        f.well_formed(),
    ensures
        parse_field(f.bytes() + rest) == Some((f, f.bytes().len())),
{
    let key = f.key();
    assert(key <= u32::MAX);
    assert(key / 8 == f.number && key % 8 == f.value.wire_type());
    lemma_parse_u64_roundtrip(key as u64, f.value.bytes() + rest);
    assert(varint(key) + (f.value.bytes() + rest) =~= f.bytes() + rest);
    let n = varint(key).len();
    assert((f.bytes() + rest).skip(n as int) =~= f.value.bytes() + rest);
    lemma_parse_value_roundtrip(f.value, rest);
}

/// Reading a written run of fields gives the fields back.
pub proof fn lemma_parse_fields_roundtrip(fs: Seq<WireField>)
    requires
        forall|i: int| 0 <= i < fs.len() ==> (#[trigger] fs[i]).well_formed(),
    ensures
        parse_fields(fields_bytes(fs)) == Some(fs),
    decreases fs.len(),
{
    if fs.len() > 0 {
        let f = fs.first();
        let rest = fields_bytes(fs.drop_first());
        let b = fields_bytes(fs);
        lemma_parse_field_roundtrip(f, rest);
        lemma_varint_len(f.key());
        lemma_parse_field_len(b);
        assert(b.skip(f.bytes().len() as int) =~= rest);
        assert forall|i: int| 0 <= i < fs.drop_first().len() implies (#[trigger] fs.drop_first()[i]).well_formed() by {
            assert(fs.drop_first()[i] == fs[i + 1]);
        }
        lemma_parse_fields_roundtrip(fs.drop_first());
        assert(seq![f] + fs.drop_first() =~= fs);
    } else {
        assert(fs =~= Seq::<WireField>::empty());
    }
}

/// Writing two runs of fields one after the other writes their concatenation.
pub proof fn lemma_fields_bytes_concat(a: Seq<WireField>, b: Seq<WireField>)
    ensures
        fields_bytes(a + b) == fields_bytes(a) + fields_bytes(b),
    decreases a.len(),
{
    if a.len() == 0 {
        assert(a + b =~= b);
        assert(fields_bytes(a) + fields_bytes(b) =~= fields_bytes(b));
    } else {
        assert((a + b).first() == a.first());
        assert((a + b).drop_first() =~= a.drop_first() + b);
        lemma_fields_bytes_concat(a.drop_first(), b);
        assert(a.first().bytes() + (fields_bytes(a.drop_first()) + fields_bytes(b)) =~= (a.first().bytes()
            + fields_bytes(a.drop_first())) + fields_bytes(b));
    }
}

/// The value of a field read from a buffer; a run of bytes borrows from the buffer.
#[derive(Debug)]
pub enum Value<'a> {
    Varint(u64),
    Fixed64(u64),
    Bytes(&'a [u8]),
    Fixed32(u32),
}

/// A field read from a buffer.
#[derive(Debug)]
pub struct Field<'a> {
    pub number: u32,
    pub value: Value<'a>,
}

impl<'a> View for Value<'a> {
    type V = WireValue;

    open spec fn view(&self) -> WireValue {
        match self {
            Value::Varint(v) => WireValue::Varint(*v),
            Value::Fixed64(v) => WireValue::Fixed64(*v),
            Value::Bytes(b) => WireValue::Bytes(b@),
            Value::Fixed32(v) => WireValue::Fixed32(*v),
        }
    }
}

impl<'a> View for Field<'a> {
    type V = WireField;

    open spec fn view(&self) -> WireField {
        WireField { number: self.number, value: self.value@ }
    }
}

/// The views of the given fields.
pub open spec fn field_views<'a>(fs: Seq<Field<'a>>) -> Seq<WireField> {
    fs.map_values(|f: Field<'a>| f@)
}

fn read_value<'a>(bytes: &'a [u8], pos: usize, wire_type: u64) -> (r: Option<(Value<'a>, usize)>)
    requires
        pos <= bytes@.len(),
    ensures
        match parse_value(wire_type as nat, bytes@.skip(pos as int)) {
            Some((v, n)) => match r {
                Some((value, end)) => value@ == v && end == pos + n && pos + n <= bytes@.len(),
                None => false,
            },
            None => r is None,
        },
{
    let ghost b = bytes@.skip(pos as int);
    if wire_type == 0 {
        match read_varint(bytes, pos) {
            Some((v, end)) => Some((Value::Varint(v), end)),
            None => None,
        }
    } else if wire_type == 1 {
        if bytes.len() - pos >= 8 {
            let raw = slice_subrange(bytes, pos, pos + 8);
            proof {
                assert(raw@ =~= b.subrange(0, 8));
            }
            Some((Value::Fixed64(u64_from_le_bytes(raw)), pos + 8))
        } else {
            None
        }
    } else if wire_type == 2 {
        match read_varint(bytes, pos) {
            Some((len, start)) => {
                if len > (bytes.len() - start) as u64 {
                    None
                } else {
                    let end: usize = start + len as usize;
                    let body = slice_subrange(bytes, start, end);
                    proof {
                        assert(body@ =~= b.subrange(start - pos, start - pos + len));
                    }
                    Some((Value::Bytes(body), end))
                }
            },
            None => None,
        }
    } else if wire_type == 5 {
        if bytes.len() - pos >= 4 {
            let raw = slice_subrange(bytes, pos, pos + 4);
            proof {
                assert(raw@ =~= b.subrange(0, 4));
            }
            Some((Value::Fixed32(u32_from_le_bytes(raw)), pos + 4))
        } else {
            None
        }
    } else {
        None
    }
}

/// Reads the field that starts at `pos`. Gives the field and the position after it.
pub fn read_field<'a>(bytes: &'a [u8], pos: usize) -> (r: Option<(Field<'a>, usize)>)
    requires
        pos <= bytes@.len(),
    ensures
        match parse_field(bytes@.skip(pos as int)) {
            Some((f, n)) => match r {
                Some((field, end)) => field@ == f && end == pos + n && pos + n <= bytes@.len(),
                None => false,
            },
            None => r is None,
        },
{
    match read_varint(bytes, pos) {
        Some((key, start)) => {
            if key > 0xFFFF_FFFF || key / 8 == 0 {
                return None;
            }
            proof {
                assert(bytes@.skip(pos as int).skip(start - pos) =~= bytes@.skip(start as int));
            }
            match read_value(bytes, start, key % 8) {
                Some((value, end)) => Some((Field { number: (key / 8) as u32, value }, end)),
                None => None,
            }
        },
        None => None,
    }
}

/// Reads the whole buffer as a run of fields.
pub fn read_fields<'a>(bytes: &'a [u8]) -> (r: Option<Vec<Field<'a>>>)
    ensures
        match parse_fields(bytes@) {
            Some(fs) => r is Some && field_views(r->0@) == fs,
            None => r is None,
        },
{
    let mut out: Vec<Field<'a>> = Vec::new();
    let mut pos: usize = 0;
    proof {
        assert(bytes@.skip(0) =~= bytes@);
        assert(field_views(out@) =~= Seq::<WireField>::empty());
    }
    while pos < bytes.len()
        invariant
            pos <= bytes@.len(),
            parse_fields(bytes@) == match parse_fields(bytes@.skip(pos as int)) {
                Some(rest) => Some(field_views(out@) + rest),
                None => None,
            },
        decreases bytes@.len() - pos,
    {
        let ghost here = bytes@.skip(pos as int);
        proof {
            lemma_parse_field_len(here);
        }
        match read_field(bytes, pos) {
            Some((f, end)) => {
                let ghost before = field_views(out@);
                proof {
                    assert(here.skip(end - pos) =~= bytes@.skip(end as int));
                }
                out.push(f);
                proof {
                    assert(field_views(out@) =~= before.push(f@));
                    match parse_fields(bytes@.skip(end as int)) {
                        Some(rest) => {
                            assert(before + (seq![f@] + rest) =~= field_views(out@) + rest);
                        },
                        None => {},
                    }
                }
                pos = end;
            },
            None => {
                return None;
            },
        }
    }
    proof {
        assert(bytes@.skip(pos as int) =~= Seq::<u8>::empty());
        assert(field_views(out@) + Seq::<WireField>::empty() =~= field_views(out@));
    }
    Some(out)
}

fn write_key(out: &mut Vec<u8>, number: u32, wire_type: u8)
    requires
        1 <= number <= MAX_FIELD_NUMBER,
        wire_type < 8,
    ensures
        final(out)@ == old(out)@ + varint(number as nat * 8 + wire_type as nat),
{
    write_varint(out, number as u64 * 8 + wire_type as u64);
}

/// Appends field `number` with a variable-length integer value.
pub fn write_varint_field(out: &mut Vec<u8>, number: u32, v: u64)
    requires
        1 <= number <= MAX_FIELD_NUMBER,
    ensures
        final(out)@ == old(out)@ + (WireField { number, value: WireValue::Varint(v) }).bytes(),
{
    write_key(out, number, 0);
    write_varint(out, v);
    proof {
        let f = WireField { number, value: WireValue::Varint(v) };
        assert(out@ =~= old(out)@ + f.bytes());
    }
}

/// Appends field `number` with an eight-byte value.
pub fn write_fixed64_field(out: &mut Vec<u8>, number: u32, v: u64)
    requires
        1 <= number <= MAX_FIELD_NUMBER,
    ensures
        final(out)@ == old(out)@ + (WireField { number, value: WireValue::Fixed64(v) }).bytes(),
{
    write_key(out, number, 1);
    let raw = u64_to_le_bytes(v);
    out.extend_from_slice(raw.as_slice());
    proof {
        let f = WireField { number, value: WireValue::Fixed64(v) };
        assert(out@ =~= old(out)@ + f.bytes());
    }
}

/// Appends field `number` with the bytes `body`, their length in front.
pub fn write_bytes_field(out: &mut Vec<u8>, number: u32, body: &[u8])
    requires
        1 <= number <= MAX_FIELD_NUMBER,
    ensures
        final(out)@ == old(out)@ + (WireField { number, value: WireValue::Bytes(body@) }).bytes(),
{
    write_key(out, number, 2);
    write_varint(out, body.len() as u64);
    out.extend_from_slice(body);
    proof {
        let f = WireField { number, value: WireValue::Bytes(body@) };
        assert(out@ =~= old(out)@ + f.bytes());
    }
}

/// A buffer that holds the fields `done` after `start`, once the fields `more` are
/// appended, holds the fields `done + more` after `start`.
pub proof fn lemma_fields_appended(
    start: Seq<u8>,
    done: Seq<WireField>,
    more: Seq<WireField>,
    before: Seq<u8>,
    after: Seq<u8>,
)
    requires
        before == start + fields_bytes(done),
        after == before + fields_bytes(more),
    ensures
        after == start + fields_bytes(done + more),
{
    lemma_fields_bytes_concat(done, more);
    assert(after =~= start + (fields_bytes(done) + fields_bytes(more)));
}

} // verus!
