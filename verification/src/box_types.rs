//! Shared data model: per-box provenance, the 3-byte flag register, and the
//! closed set of generic values through which decoded fields are exposed.

use vstd::prelude::*;
use crate::box_reader::BoxReader;
use crate::error::BoxParsingError;

verus! {

/// Provenance of one box: where it starts, how many bytes it spans, its
/// type code, and the provenance of the enclosing box, if any.
///
/// `size` is the resolved span in bytes (a wire size field of `0`, meaning
/// "extends to the end of the level", and the 64-bit extended size form are
/// both resolved before construction); `offset + size` is the position one
/// past the box's last byte.
pub struct BoxInfo {
    /// Absolute position of the first byte of the box header.
    pub offset: u64,
    /// Resolved total size of the box in bytes, header included.
    pub size: u64,
    /// The 4-character type code, decoded as UTF-8.
    pub short_name: String,
    /// The 16-byte extended type, present exactly for `uuid` boxes.
    pub extended_type: Option<[u8; 16]>,
    /// Provenance of the enclosing box; absent at the top level.
    pub parent: Option<Box<BoxInfo>>,
}

impl Clone for BoxInfo {
    fn clone(&self) -> (res: Self)
        ensures
            res == *self,
        decreases *self,
    {
        BoxInfo {
            offset: self.offset,
            size: self.size,
            short_name: self.short_name.clone(),
            extended_type: self.extended_type,
            parent: match &self.parent {
                Some(p) => Some(Box::new((**p).clone())),
                None => None,
            },
        }
    }
}

/// The 24-bit value held by a 3-byte flag register, as read big-endian.
pub open spec fn flags_value(b0: u8, b1: u8, b2: u8) -> u32 {
    (b0 as u32) << 16 | (b1 as u32) << 8 | (b2 as u32)
}

/// A 3-byte bit-flag register following the version byte of a full box.
#[derive(Copy, Clone, Debug, PartialEq)]
pub struct Flags(pub u32);

impl Flags {
    pub fn new(data: [u8; 3]) -> (r: Self)
        ensures
            r.0 == flags_value(data[0], data[1], data[2]),
    {
        Flags((data[0] as u32) << 16 | (data[1] as u32) << 8 | (data[2] as u32))
    }

    /// Reads the register as three consecutive bytes.
    pub fn read(reader: &mut BoxReader) -> (r: Result<Self, BoxParsingError>)
        ensures
            final(reader).bytes() == old(reader).bytes(),
            r is Ok <==> old(reader).posn() + 3 <= old(reader).bytes().len(),
            match r {
                Ok(f) => {
                    &&& final(reader).posn() == old(reader).posn() + 3
                    &&& f.0 == flags_value(
                        old(reader).bytes()[old(reader).posn()],
                        old(reader).bytes()[old(reader).posn() + 1],
                        old(reader).bytes()[old(reader).posn() + 2],
                    )
                },
                Err(e) => {
                    &&& final(reader).posn() == old(reader).posn()
                    &&& e matches BoxParsingError::IOError { pos } && pos == old(reader).posn()
                },
            },
    {
        if reader.remaining() < 3 {
            return Err(BoxParsingError::IOError { pos: reader.get_pos() });
        }
        let b0 = match reader.read_u8() {
            Ok(b) => b,
            Err(e) => {
                proof {
                    assert(false);
                }
                return Err(e);
            },
        };
        let b1 = match reader.read_u8() {
            Ok(b) => b,
            Err(e) => {
                proof {
                    assert(false);
                }
                return Err(e);
            },
        };
        let b2 = match reader.read_u8() {
            Ok(b) => b,
            Err(e) => {
                proof {
                    assert(false);
                }
                return Err(e);
            },
        };
        Ok(Flags::new([b0, b1, b2]))
    }

    /// Whether any bit selected by `flag` is set in the register.
    pub fn has_flag(&self, flag: u32) -> (r: bool)
        ensures
            r == (self.0 & flag > 0),
    {
        self.0 & flag > 0
    }
}

impl From<Flags> for u32 {
    fn from(val: Flags) -> (r: u32) {
        val.0
    }
}

impl vstd::std_specs::convert::FromSpecImpl<Flags> for u32 {
    open spec fn obeys_from_spec() -> bool {
        true
    }

    open spec fn from_spec(val: Flags) -> Self {
        val.0
    }
}

impl From<Flags> for [u8; 3] {
    fn from(val: Flags) -> (r: [u8; 3]) {
        [((val.0 >> 16) & 0xFF) as u8, ((val.0 >> 8) & 0xFF) as u8, (val.0 & 0xFF) as u8]
    }
}

impl vstd::std_specs::convert::FromSpecImpl<Flags> for [u8; 3] {
    open spec fn obeys_from_spec() -> bool {
        true
    }

    open spec fn from_spec(val: Flags) -> Self {
        [((val.0 >> 16) & 0xFF) as u8, ((val.0 >> 8) & 0xFF) as u8, (val.0 & 0xFF) as u8]
    }
}

/// Decoded payload of one box: a closed set of cases, one per registered
/// type code. A box whose type code is not registered gets no payload.
pub enum BoxData {
    Free(crate::free::Free),
    Ftyp(crate::ftyp::Ftyp),
    Hdlr(crate::hdlr::Hdlr),
    Mdat(crate::mdat::Mdat),
    Mfhd(crate::mfhd::Mfhd),
    Moof(crate::moof::Moof),
    Moov(crate::moov::Moov),
    Mvhd(crate::mvhd::Mvhd),
    Pdin(crate::pdin::Pdin),
    Saio(crate::saio::Saio),
    Saiz(crate::saiz::Saiz),
    Styp(crate::styp::Styp),
    Subs(crate::subs::Subs),
    Tfdt(crate::tfdt::Tfdt),
    Tfhd(crate::tfhd::Tfhd),
    Traf(crate::traf::Traf),
    Trun(crate::trun::Trun),
}

/// One parsed box: its provenance, and its decoded payload when the type
/// code is registered.
pub type IsoBoxData = (BoxInfo, Option<BoxData>);

/// Closed classification of decoded field values.
///
/// The ISOBMFF specification uses many concrete field types; `BoxValue`
/// folds them into a fixed set so that callers can inspect any box's
/// fields uniformly. Fixed-point numbers keep both integer components;
/// the format defines no floating-point values.
#[derive(Debug, PartialEq)]
pub enum BoxValue {
    UInt8(u8),
    UInt16(u16),
    UInt32(u32),
    UInt64(u64),
    Int32(i32),
    Int64(i64),
    Flags(Flags),
    Bool(bool),
    UInt8Arr(Vec<u8>),
    UInt32Arr(Vec<u32>),
    UInt64Arr(Vec<u64>),
    Matrix3_3([u32; 9]),
    Utf8(String),
    Utf8Arr(Vec<String>),
    FixedPoint8([u8; 2]),
    FixedPoint16([u16; 2]),
    /// An ordered sequence of records, each an ordered list of named values.
    Collection(Vec<Vec<(&'static str, BoxValue)>>),
}

} // verus!
