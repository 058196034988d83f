use vstd::prelude::*;

use crate::table::ExifEntries;
use crate::value::ExifRational;
use crate::value::ExifValueView;

verus! {

/// What a finished table holds for a name: the value, or nothing when the
/// name is absent.
pub open spec fn spec_lookup(m: Map<Seq<char>, ExifValueView>, k: Seq<char>) -> Option<
    ExifValueView,
> {
    if m.contains_key(k) {
        Some(m[k])
    } else {
        None
    }
}

/// The convenience accessors over a finished table. Each one is read-only and
/// best-effort: a missing tag, like a tag holding a variant of the wrong
/// shape, is answered with nothing, never with an error.
impl ExifEntries {
    /// ISO sensitivity: the "ISOSpeedRatings" tag, required to be the short
    /// variant, widened to 32 bits.
    pub fn iso(&self) -> (r: Option<u32>)
        requires
            self.wf(),
        ensures
            r == (match spec_lookup(self@, "ISOSpeedRatings"@) {
                Some(ExifValueView::Short(v)) => Some(v as u32),
                _ => None::<u32>,
            }),
    {
        match self.get(&"ISOSpeedRatings".to_owned()) {
            Some(v) => match v.as_short() {
                Some(s) => Some(s as u32),
                None => None,
            },
            None => None,
        }
    }

    /// Focal length: the "FocalLength" tag, required to be the rational
    /// variant, truncated toward zero to a 16-bit integer. A zero denominator
    /// is out of range here: this accessor, deliberately, does not guard
    /// against it.
    pub fn focal_length(&self) -> (r: Option<u16>)
        requires
            self.wf(),
            (match spec_lookup(self@, "FocalLength"@) {
                Some(ExifValueView::Ratio(q)) => q.den != 0,
                _ => true,
            }),
        ensures
            r == (match spec_lookup(self@, "FocalLength"@) {
                Some(ExifValueView::Ratio(q)) => Some((q.num / q.den) as u16),
                _ => None::<u16>,
            }),
    {
        match self.get(&"FocalLength".to_owned()) {
            Some(v) => match v.as_ratio() {
                Some(q) => Some(#[verifier::truncate] ((q.num / q.den) as u16)),
                None => None,
            },
            None => None,
        }
    }

    /// Focal length in 35mm-film terms: the "FocalLengthIn35mmFilm" tag,
    /// required to be the short variant, taken as is.
    pub fn focal_length_35mm(&self) -> (r: Option<u16>)
        requires
            self.wf(),
        ensures
            r == (match spec_lookup(self@, "FocalLengthIn35mmFilm"@) {
                Some(ExifValueView::Short(v)) => Some(v),
                _ => None::<u16>,
            }),
    {
        match self.get(&"FocalLengthIn35mmFilm".to_owned()) {
            Some(v) => v.as_short(),
            None => None,
        }
    }

    /// Aperture: the "FNumber" tag, required to be the rational variant, and
    /// answered only when its denominator is not zero — the one rational
    /// accessor that does guard. The f-number itself is the numerator over
    /// the denominator; the ratio is returned exactly, for the caller to
    /// divide in whatever precision it wants.
    pub fn aperture(&self) -> (r: Option<ExifRational>)
        requires
            self.wf(),
        ensures
            r == (match spec_lookup(self@, "FNumber"@) {
                Some(ExifValueView::Ratio(q)) => if q.den != 0 {
                    Some(q)
                } else {
                    None::<ExifRational>
                },
                _ => None::<ExifRational>,
            }),
    {
        match self.get(&"FNumber".to_owned()) {
            Some(v) => match v.as_ratio() {
                Some(q) => if q.den != 0 {
                    Some(q)
                } else {
                    None
                },
                None => None,
            },
            None => None,
        }
    }

    /// Shutter speed: the "ExposureTime" tag, required to be the rational
    /// variant. A whole ratio — denominator one — answers its numerator; any
    /// other answers the negated denominator, encoding "one over so many
    /// seconds" as a negative count. A denominator above the signed 32-bit
    /// range is out of range here, deliberately unguarded.
    pub fn shutter_speed(&self) -> (r: Option<i32>)
        requires
            self.wf(),
            (match spec_lookup(self@, "ExposureTime"@) {
                Some(ExifValueView::Ratio(q)) => q.den <= 0x7fff_ffff,
                _ => true,
            }),
        ensures
            r == (match spec_lookup(self@, "ExposureTime"@) {
                Some(ExifValueView::Ratio(q)) => if q.den == 1 {
                    Some(q.num as i32)
                } else {
                    Some((0 - q.den) as i32)
                },
                _ => None::<i32>,
            }),
    {
        match self.get(&"ExposureTime".to_owned()) {
            Some(v) => match v.as_ratio() {
                Some(q) => if q.den == 1 {
                    Some(#[verifier::truncate] (q.num as i32))
                } else {
                    let d = q.den as i32;
                    Some(0 - d)
                },
                None => None,
            },
            None => None,
        }
    }

    /// Camera model: the "Model" tag, required to be the text variant,
    /// borrowed from the table.
    pub fn camera_model<'a>(&'a self) -> (r: Option<&'a str>)
        requires
            self.wf(),
        ensures
            (match spec_lookup(self@, "Model"@) {
                Some(ExifValueView::Text(t)) => r matches Some(s) && s@ == t,
                _ => r is None,
            }),
    {
        match self.get(&"Model".to_owned()) {
            Some(v) => v.as_text(),
            None => None,
        }
    }
}

} // verus!
