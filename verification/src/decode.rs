use vstd::prelude::*;
use vstd::slice::slice_subrange;
use vstd::utf8::decode_utf8;
use vstd::utf8::valid_utf8;

use crate::value::ExifRational;
use crate::value::ExifSRational;
use crate::value::ExifValue;
use crate::value::ExifValueView;

verus! {

/// The endianness governing every multi-byte read of one decoded image:
/// Motorola order is big-endian, Intel order little-endian.
#[derive(Clone, Copy, PartialEq, Eq, Structural, Debug)]
pub enum ByteOrder {
    Motorola,
    Intel,
}

pub const FORMAT_BYTE: u16 = 1;

pub const FORMAT_ASCII: u16 = 2;

pub const FORMAT_SHORT: u16 = 3;

pub const FORMAT_LONG: u16 = 4;

pub const FORMAT_RATIONAL: u16 = 5;

pub const FORMAT_SBYTE: u16 = 6;

pub const FORMAT_UNDEFINED: u16 = 7;

pub const FORMAT_SSHORT: u16 = 8;

pub const FORMAT_SLONG: u16 = 9;

pub const FORMAT_SRATIONAL: u16 = 10;

pub const FORMAT_FLOAT: u16 = 11;

pub const FORMAT_DOUBLE: u16 = 12;

/// How many raw bytes a value of the given format occupies, and so how many
/// an entry's data span must hold before it can be decoded. Formats read one
/// byte at most — including every unrecognized code — need only a non-empty
/// span.
pub open spec fn spec_format_len(format: u16) -> int {
    if format == FORMAT_SHORT || format == FORMAT_SSHORT {
        2
    } else if format == FORMAT_LONG || format == FORMAT_SLONG {
        4
    } else if format == FORMAT_RATIONAL || format == FORMAT_SRATIONAL {
        8
    } else {
        1
    }
}

/// The unsigned 16-bit integer held by the first two bytes of `b` under the
/// given byte order.
pub open spec fn spec_u16(b: Seq<u8>, order: ByteOrder) -> u16
    recommends
        b.len() >= 2,
{
    match order {
        ByteOrder::Intel => (b[0] + 256 * b[1]) as u16,
        ByteOrder::Motorola => (b[1] + 256 * b[0]) as u16,
    }
}

/// The unsigned 32-bit integer held by the first four bytes of `b` under the
/// given byte order.
pub open spec fn spec_u32(b: Seq<u8>, order: ByteOrder) -> u32
    recommends
        b.len() >= 4,
{
    match order {
        ByteOrder::Intel => (b[0] + 256 * b[1] + 65536 * b[2] + 16777216 * b[3]) as u32,
        ByteOrder::Motorola => (b[3] + 256 * b[2] + 65536 * b[1] + 16777216 * b[0]) as u32,
    }
}

/// The unsigned rational held by the first eight bytes of `b`: a numerator
/// followed by a denominator, each an unsigned 32-bit integer under the given
/// byte order.
pub open spec fn spec_rational(b: Seq<u8>, order: ByteOrder) -> ExifRational
    recommends
        b.len() >= 8,
{
    ExifRational {
        num: spec_u32(b.subrange(0, 4), order),
        den: spec_u32(b.subrange(4, 8), order),
    }
}

/// The signed rational held by the first eight bytes of `b`: the same layout
/// as [`spec_rational`], each half reinterpreted as two's complement.
pub open spec fn spec_srational(b: Seq<u8>, order: ByteOrder) -> ExifSRational
    recommends
        b.len() >= 8,
{
    ExifSRational {
        num: spec_u32(b.subrange(0, 4), order) as i32,
        den: spec_u32(b.subrange(4, 8), order) as i32,
    }
}

/// The bytes of a text value: everything before the first NUL, or the whole
/// span when no NUL terminates it.
pub open spec fn text_prefix(b: Seq<u8>) -> Seq<u8>
    decreases b.len(),
{
    if b.len() == 0 {
        b
    } else if b[0] == 0 {
        Seq::empty()
    } else {
        seq![b[0]] + text_prefix(b.drop_first())
    }
}

/// The characters of a text value: its bytes up to the first NUL decoded as
/// UTF-8, or the placeholder text when they are not valid UTF-8 — a malformed
/// text never fails a decode.
pub open spec fn spec_text(b: Seq<u8>) -> Seq<char> {
    if valid_utf8(text_prefix(b)) {
        decode_utf8(text_prefix(b))
    } else {
        "bad ASCII"@
    }
}

/// The value one entry decodes to: `Error` whenever the raw data is absent or
/// empty, whatever the format; otherwise the variant the format code selects,
/// with every code outside the recognized range — and the recognized but
/// undecoded undefined, float and double formats — going to `Undefined`.
pub open spec fn spec_decode(format: u16, data: Option<Seq<u8>>, order: ByteOrder) -> ExifValueView {
    match data {
        None => ExifValueView::Error,
        Some(b) => if b.len() == 0 {
            ExifValueView::Error
        } else if format == FORMAT_BYTE {
            ExifValueView::Byte(b[0])
        } else if format == FORMAT_ASCII {
            ExifValueView::Text(spec_text(b))
        } else if format == FORMAT_SHORT {
            ExifValueView::Short(spec_u16(b, order))
        } else if format == FORMAT_LONG {
            ExifValueView::Long(spec_u32(b, order))
        } else if format == FORMAT_RATIONAL {
            ExifValueView::Ratio(spec_rational(b, order))
        } else if format == FORMAT_SBYTE {
            ExifValueView::SByte(b[0] as i8)
        } else if format == FORMAT_SSHORT {
            ExifValueView::SShort(spec_u16(b, order) as i16)
        } else if format == FORMAT_SLONG {
            ExifValueView::SLong(spec_u32(b, order) as i32)
        } else if format == FORMAT_SRATIONAL {
            ExifValueView::SRatio(spec_srational(b, order))
        } else {
            ExifValueView::Undefined
        },
    }
}

/// The byte spans an entry may carry, seen mathematically: either absent or a
/// byte sequence.
pub open spec fn opt_data_view(data: Option<Vec<u8>>) -> Option<Seq<u8>> {
    match data {
        Some(b) => Some(b@),
        None => None,
    }
}

/// Decodes the first two bytes of `b` as an unsigned 16-bit integer under the
/// given byte order.
pub fn decode_u16(b: &[u8], order: ByteOrder) -> (r: u16)
    requires
        b@.len() >= 2,
    ensures
        r == spec_u16(b@, order),
{
    match order {
        ByteOrder::Intel => b[0] as u16 + 256 * (b[1] as u16),
        ByteOrder::Motorola => b[1] as u16 + 256 * (b[0] as u16),
    }
}

/// Decodes the first four bytes of `b` as an unsigned 32-bit integer under the
/// given byte order.
pub fn decode_u32(b: &[u8], order: ByteOrder) -> (r: u32)
    requires
        b@.len() >= 4,
    ensures
        r == spec_u32(b@, order),
{
    match order {
        ByteOrder::Intel => b[0] as u32 + 256 * (b[1] as u32) + 65536 * (b[2] as u32) + 16777216
            * (b[3] as u32),
        ByteOrder::Motorola => b[3] as u32 + 256 * (b[2] as u32) + 65536 * (b[1] as u32) + 16777216
            * (b[0] as u32),
    }
}

/// Decodes the first two bytes of `b` as a signed 16-bit integer: the unsigned
/// read under the given byte order, reinterpreted as two's complement.
pub fn decode_i16(b: &[u8], order: ByteOrder) -> (r: i16)
    requires
        b@.len() >= 2,
    ensures
        r == spec_u16(b@, order) as i16,
{
    #[verifier::truncate] (decode_u16(b, order) as i16)
}

/// Decodes the first four bytes of `b` as a signed 32-bit integer: the
/// unsigned read under the given byte order, reinterpreted as two's
/// complement.
pub fn decode_i32(b: &[u8], order: ByteOrder) -> (r: i32)
    requires
        b@.len() >= 4,
    ensures
        r == spec_u32(b@, order) as i32,
{
    #[verifier::truncate] (decode_u32(b, order) as i32)
}

/// Decodes the first eight bytes of `b` as an unsigned rational: numerator
/// then denominator, taken exactly as read.
pub fn decode_rational(b: &[u8], order: ByteOrder) -> (r: ExifRational)
    requires
        b@.len() >= 8,
    ensures
        r == spec_rational(b@, order),
{
    let num = decode_u32(slice_subrange(b, 0, 4), order);
    let den = decode_u32(slice_subrange(b, 4, 8), order);
    ExifRational { num, den }
}

/// Decodes the first eight bytes of `b` as a signed rational: numerator then
/// denominator, each reinterpreted as two's complement.
pub fn decode_srational(b: &[u8], order: ByteOrder) -> (r: ExifSRational)
    requires
        b@.len() >= 8,
    ensures
        r == spec_srational(b@, order),
{
    let num = decode_i32(slice_subrange(b, 0, 4), order);
    let den = decode_i32(slice_subrange(b, 4, 8), order);
    ExifSRational { num, den }
}

/// Relies on core::str::from_utf8: it succeeds exactly on valid UTF-8 input,
/// and the characters of its result are the UTF-8 decoding of the bytes.
#[verifier::external_body]
fn bytes_to_text(v: &[u8]) -> (r: Option<String>)
    ensures
        r is Some <==> valid_utf8(v@),
        (r matches Some(s) ==> s@ == decode_utf8(v@)),
{
    match core::str::from_utf8(v) {
        Ok(s) => Some(s.to_owned()),
        Err(_) => None,
    }
}

/// A span whose first `i` bytes hold no NUL, and whose byte at `i` — when any
/// remain — is one, has exactly those first `i` bytes as its text prefix.
proof fn lemma_text_prefix(b: Seq<u8>, i: int)
    requires
        0 <= i <= b.len(),
        forall|j: int| 0 <= j < i ==> b[j] != 0,
        i < b.len() ==> b[i] == 0,
    ensures
        text_prefix(b) =~= b.subrange(0, i),
    decreases b.len(),
{
    if b.len() == 0 {
    } else if b[0] == 0 {
        assert(i == 0);
    } else {
        assert(i >= 1);
        lemma_text_prefix(b.drop_first(), i - 1);
        assert(text_prefix(b) =~= seq![b[0]] + b.drop_first().subrange(0, i - 1));
    }
}

/// Decodes the text variant: the bytes before the first NUL as UTF-8, or the
/// placeholder text when they do not form valid UTF-8.
fn decode_text(d: &Vec<u8>) -> (r: ExifValue)
    ensures
        r@ == ExifValueView::Text(spec_text(d@)),
{
    let mut prefix: Vec<u8> = Vec::new();
    let mut i: usize = 0;
    while i < d.len() && d[i] != 0
        invariant
            i <= d@.len(),
            prefix@ =~= d@.subrange(0, i as int),
            forall|j: int| 0 <= j < i ==> d@[j] != 0,
        decreases d@.len() - i,
    {
        prefix.push(d[i]);
        i += 1;
    }
    proof {
        lemma_text_prefix(d@, i as int);
    }
    match bytes_to_text(prefix.as_slice()) {
        Some(s) => ExifValue::Text(s),
        None => ExifValue::Text("bad ASCII".to_owned()),
    }
}

/// Decodes one raw entry into a typed value: the heart of the decoder.
///
/// Absent or empty data yields `Error` before any format is considered; a
/// recognized format then selects its variant, honoring the byte order for
/// every multi-byte read; any other code — and the undecoded undefined, float
/// and double formats — yields `Undefined`. No input in range ever fails: a
/// malformed tag degrades to a sentinel value and never aborts a decode.
pub fn to_exif_value(format: u16, data: &Option<Vec<u8>>, byte_order: ByteOrder) -> (r: ExifValue)
    requires
        (match *data {
            Some(b) => b@.len() > 0 ==> b@.len() >= spec_format_len(format),
            None => true,
        }),
    ensures
        r@ == spec_decode(format, opt_data_view(*data), byte_order),
{
    let d: &Vec<u8> = match data {
        Some(b) => b,
        None => {
            return ExifValue::Error;
        },
    };
    if d.len() == 0 {
        return ExifValue::Error;
    }
    if format == FORMAT_BYTE {
        ExifValue::Byte(d[0])
    } else if format == FORMAT_ASCII {
        decode_text(d)
    } else if format == FORMAT_SHORT {
        ExifValue::Short(decode_u16(d.as_slice(), byte_order))
    } else if format == FORMAT_LONG {
        ExifValue::Long(decode_u32(d.as_slice(), byte_order))
    } else if format == FORMAT_RATIONAL {
        ExifValue::Ratio(decode_rational(d.as_slice(), byte_order))
    } else if format == FORMAT_SBYTE {
        ExifValue::SByte(#[verifier::truncate] (d[0] as i8))
    } else if format == FORMAT_SSHORT {
        ExifValue::SShort(decode_i16(d.as_slice(), byte_order))
    } else if format == FORMAT_SLONG {
        ExifValue::SLong(decode_i32(d.as_slice(), byte_order))
    } else if format == FORMAT_SRATIONAL {
        ExifValue::SRatio(decode_srational(d.as_slice(), byte_order))
    } else {
        ExifValue::Undefined
    }
}

/// Law: a well-formed entry of the short format decodes to the two-byte
/// unsigned integer its data holds under the governing byte order.
pub proof fn lemma_decode_short(b: Seq<u8>, order: ByteOrder)
    requires
        b.len() >= 2,
    ensures
        spec_decode(FORMAT_SHORT, Some(b), order) == ExifValueView::Short(spec_u16(b, order)),
        order == ByteOrder::Intel ==> spec_u16(b, order) == b[0] + 256 * b[1],
        order == ByteOrder::Motorola ==> spec_u16(b, order) == b[1] + 256 * b[0],
{
}

/// Law: an entry whose raw data is absent — or present but empty — decodes to
/// the error sentinel, whatever its format code says.
pub proof fn lemma_decode_missing_data(format: u16, order: ByteOrder)
    ensures
        spec_decode(format, None, order) == ExifValueView::Error,
        spec_decode(format, Some(Seq::empty()), order) == ExifValueView::Error,
{
}

/// Law: a format code outside the twelve recognized values decodes to
/// `Undefined`, never to an error, whenever data is present for it.
pub proof fn lemma_decode_unknown_format(format: u16, b: Seq<u8>, order: ByteOrder)
    requires
        format < FORMAT_BYTE || format > FORMAT_DOUBLE,
        b.len() > 0,
    ensures
        spec_decode(format, Some(b), order) == ExifValueView::Undefined,
{
}

} // verus!
