use vstd::prelude::*;

verus! {

/// An unsigned rational exactly as it sits in the tag data: a numerator and a
/// denominator, never reduced and never validated — a zero denominator is
/// preserved, not rejected.
#[derive(Clone, Copy, PartialEq, Eq, Structural, Debug)]
pub struct ExifRational {
    pub num: u32,
    pub den: u32,
}

/// A signed rational, stored like [`ExifRational`]: unreduced and unvalidated.
#[derive(Clone, Copy, PartialEq, Eq, Structural, Debug)]
pub struct ExifSRational {
    pub num: i32,
    pub den: i32,
}

/// One decoded tag value. Exactly one variant is populated, and which one is
/// determined solely by the entry's declared format code, never by inspecting
/// the bytes.
///
/// `Undefined` stands for a format the source declares but does not decode to
/// a concrete value; `Error` is the sentinel for an entry whose raw data was
/// absent at decode time. The two floating-point variants hold the raw
/// IEEE-754 bit patterns.
#[derive(Debug)]
pub enum ExifValue {
    Byte(u8),
    Text(String),
    Short(u16),
    Long(u32),
    Ratio(ExifRational),
    SByte(i8),
    Undefined,
    SShort(i16),
    SLong(i32),
    SRatio(ExifSRational),
    Float(u32),
    Double(u64),
    Error,
}

/// The mathematical shape of a tag value: the same variants as [`ExifValue`],
/// with text as a sequence of characters.
pub enum ExifValueView {
    Byte(u8),
    Text(Seq<char>),
    Short(u16),
    Long(u32),
    Ratio(ExifRational),
    SByte(i8),
    Undefined,
    SShort(i16),
    SLong(i32),
    SRatio(ExifSRational),
    Float(u32),
    Double(u64),
    Error,
}

impl View for ExifValue {
    type V = ExifValueView;

    open spec fn view(&self) -> ExifValueView {
        match self {
            ExifValue::Byte(v) => ExifValueView::Byte(*v),
            ExifValue::Text(s) => ExifValueView::Text(s@),
            ExifValue::Short(v) => ExifValueView::Short(*v),
            ExifValue::Long(v) => ExifValueView::Long(*v),
            ExifValue::Ratio(q) => ExifValueView::Ratio(*q),
            ExifValue::SByte(v) => ExifValueView::SByte(*v),
            ExifValue::Undefined => ExifValueView::Undefined,
            ExifValue::SShort(v) => ExifValueView::SShort(*v),
            ExifValue::SLong(v) => ExifValueView::SLong(*v),
            ExifValue::SRatio(q) => ExifValueView::SRatio(*q),
            ExifValue::Float(bits) => ExifValueView::Float(*bits),
            ExifValue::Double(bits) => ExifValueView::Double(*bits),
            ExifValue::Error => ExifValueView::Error,
        }
    }
}

impl ExifValue {
    /// The unsigned 8-bit payload, when this value is the byte variant.
    pub fn as_u8(&self) -> (r: Option<u8>)
        ensures
            r == (match self@ {
                ExifValueView::Byte(v) => Some(v),
                _ => None::<u8>,
            }),
    {
        match self {
            ExifValue::Byte(v) => Some(*v),
            _ => None,
        }
    }

    /// The decoded text, when this value is the text variant.
    pub fn as_text<'a>(&'a self) -> (r: Option<&'a str>)
        ensures
            (match self@ {
                ExifValueView::Text(t) => r matches Some(s) && s@ == t,
                _ => r is None,
            }),
    {
        match self {
            ExifValue::Text(s) => Some(s.as_str()),
            _ => None,
        }
    }

    /// The unsigned 16-bit payload, when this value is the short variant.
    pub fn as_short(&self) -> (r: Option<u16>)
        ensures
            r == (match self@ {
                ExifValueView::Short(v) => Some(v),
                _ => None::<u16>,
            }),
    {
        match self {
            ExifValue::Short(v) => Some(*v),
            _ => None,
        }
    }

    /// The unsigned 32-bit payload, when this value is the long variant.
    pub fn as_long(&self) -> (r: Option<u32>)
        ensures
            r == (match self@ {
                ExifValueView::Long(v) => Some(v),
                _ => None::<u32>,
            }),
    {
        match self {
            ExifValue::Long(v) => Some(*v),
            _ => None,
        }
    }

    /// The unsigned rational payload, when this value is the rational variant.
    pub fn as_ratio(&self) -> (r: Option<ExifRational>)
        ensures
            r == (match self@ {
                ExifValueView::Ratio(q) => Some(q),
                _ => None::<ExifRational>,
            }),
    {
        match self {
            ExifValue::Ratio(q) => Some(*q),
            _ => None,
        }
    }

    /// Whether this value is the undefined variant: a format the source
    /// declares but intentionally leaves undecoded.
    pub fn is_undefined(&self) -> (r: bool)
        ensures
            r == (self@ is Undefined),
    {
        match self {
            ExifValue::Undefined => true,
            _ => false,
        }
    }

    /// The signed 16-bit payload, when this value is the signed-short variant.
    pub fn as_sshort(&self) -> (r: Option<i16>)
        ensures
            r == (match self@ {
                ExifValueView::SShort(v) => Some(v),
                _ => None::<i16>,
            }),
    {
        match self {
            ExifValue::SShort(v) => Some(*v),
            _ => None,
        }
    }

    /// The signed 32-bit payload, when this value is the signed-long variant.
    pub fn as_slong(&self) -> (r: Option<i32>)
        ensures
            r == (match self@ {
                ExifValueView::SLong(v) => Some(v),
                _ => None::<i32>,
            }),
    {
        match self {
            ExifValue::SLong(v) => Some(*v),
            _ => None,
        }
    }

    /// The signed rational payload, when this value is the signed-rational
    /// variant.
    pub fn as_sratio(&self) -> (r: Option<ExifSRational>)
        ensures
            r == (match self@ {
                ExifValueView::SRatio(q) => Some(q),
                _ => None::<ExifSRational>,
            }),
    {
        match self {
            ExifValue::SRatio(q) => Some(*q),
            _ => None,
        }
    }

    /// The IEEE-754 single-precision bit pattern, when this value is the float
    /// variant.
    pub fn as_float_bits(&self) -> (r: Option<u32>)
        ensures
            r == (match self@ {
                ExifValueView::Float(bits) => Some(bits),
                _ => None::<u32>,
            }),
    {
        match self {
            ExifValue::Float(bits) => Some(*bits),
            _ => None,
        }
    }

    /// The IEEE-754 double-precision bit pattern, when this value is the
    /// double variant.
    pub fn as_double_bits(&self) -> (r: Option<u64>)
        ensures
            r == (match self@ {
                ExifValueView::Double(bits) => Some(bits),
                _ => None::<u64>,
            }),
    {
        match self {
            ExifValue::Double(bits) => Some(*bits),
            _ => None,
        }
    }
}

} // verus!
