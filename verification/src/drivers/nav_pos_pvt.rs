//! The u-blox navigation position/velocity/time message: field layout of
//! the 92-byte little-endian payload, its verified decoder, and the
//! conversion of the raw 1e-7-degree coordinates into the firmware's
//! fixed-point coordinate types.

use vstd::prelude::*;
use crate::datastructures::coordinate;
use crate::datastructures::measurement::trunc_div;
use vstd::arithmetic::div_mod::{lemma_div_is_ordered, lemma_div_pos_is_pos};

verus! {

/// The little-endian 16-bit word at `off`.
pub open spec fn le_u16(b: Seq<u8>, off: int) -> u16 {
    (b[off] + b[off + 1] * 0x100) as u16
}

/// The little-endian 32-bit word at `off`.
pub open spec fn le_u32(b: Seq<u8>, off: int) -> u32 {
    (b[off] + b[off + 1] * 0x100 + b[off + 2] * 0x10000 + b[off + 3] * 0x1000000) as u32
}

/// The little-endian 32-bit word at `off`, reinterpreted as signed.
pub open spec fn le_i32(b: Seq<u8>, off: int) -> i32 {
    le_u32(b, off) as i32
}

/// The little-endian 16-bit word at `off`, reinterpreted as signed.
pub open spec fn le_i16(b: Seq<u8>, off: int) -> i16 {
    le_u16(b, off) as i16
}

fn read_u16(b: &[u8], off: usize) -> (r: u16)
    requires
        off + 2 <= b@.len(),
    ensures
        r == le_u16(b@, off as int),
{
    b[off] as u16 + (b[off + 1] as u16) * 0x100
}

fn read_u32(b: &[u8], off: usize) -> (r: u32)
    requires
        off + 4 <= b@.len(),
    ensures
        r == le_u32(b@, off as int),
{
    b[off] as u32 + (b[off + 1] as u32) * 0x100 + (b[off + 2] as u32) * 0x10000 + (b[off
        + 3] as u32) * 0x1000000
}

fn read_i32(b: &[u8], off: usize) -> (r: i32)
    requires
        off + 4 <= b@.len(),
    ensures
        r == le_i32(b@, off as int),
{
    let w = read_u32(b, off);
    #[verifier::truncate] (w as i32)
}

fn read_i16(b: &[u8], off: usize) -> (r: i16)
    requires
        off + 2 <= b@.len(),
    ensures
        r == le_i16(b@, off as int),
{
    let w = read_u16(b, off);
    #[verifier::truncate] (w as i16)
}

/// Validity flags of the message's date and time fields.
#[derive(Debug, Copy, Clone, Default, PartialEq, Eq, Structural)]
pub struct Valid(pub u8);

impl Valid {
    pub fn valid_date(self) -> (r: bool)
        ensures
            r == (self.0 & (1u8 << 0) > 0),
    {
        self.0 & (1u8 << 0) > 0
    }

    pub fn valid_time(self) -> (r: bool)
        ensures
            r == (self.0 & (1u8 << 1) > 0),
    {
        self.0 & (1u8 << 1) > 0
    }

    pub fn full_resolved(self) -> (r: bool)
        ensures
            r == (self.0 & (1u8 << 2) > 0),
    {
        self.0 & (1u8 << 2) > 0
    }

    pub fn valid_magnetic(self) -> (r: bool)
        ensures
            r == (self.0 & (1u8 << 2) > 0),
    {
        self.0 & (1u8 << 2) > 0
    }
}

/// Kind of position fix the receiver reports.
#[derive(Debug, Copy, Clone, PartialEq, Eq, Structural)]
pub enum FixType {
    NoFix,
    DeadReckoningOnly,
    TwoDemension,
    ThreeDemension,
    GNSSPlusDeadReckoningCombined,
    TimeOnlyFix,
}

impl Default for FixType {
    fn default() -> (r: Self)
        ensures
            r == FixType::NoFix,
    {
        Self::NoFix
    }
}

/// The fix type encoded by one message byte; values past the defined range
/// collapse to no fix.
pub open spec fn fix_type_of(v: u8) -> FixType {
    if v == 1 {
        FixType::DeadReckoningOnly
    } else if v == 2 {
        FixType::TwoDemension
    } else if v == 3 {
        FixType::ThreeDemension
    } else if v == 4 {
        FixType::GNSSPlusDeadReckoningCombined
    } else if v == 5 {
        FixType::TimeOnlyFix
    } else {
        FixType::NoFix
    }
}

fn fix_type_from(v: u8) -> (r: FixType)
    ensures
        r == fix_type_of(v),
{
    match v {
        1 => FixType::DeadReckoningOnly,
        2 => FixType::TwoDemension,
        3 => FixType::ThreeDemension,
        4 => FixType::GNSSPlusDeadReckoningCombined,
        5 => FixType::TimeOnlyFix,
        _ => FixType::NoFix,
    }
}

/// First flag byte: fix status.
#[derive(Debug, Copy, Clone, Default, PartialEq, Eq, Structural)]
pub struct Flags1(pub u8);

impl Flags1 {
    pub fn gnss_fix_ok(self) -> (r: bool)
        ensures
            r == (self.0 & (1u8 << 0) > 0),
    {
        self.0 & (1u8 << 0) > 0
    }

    pub fn heading_of_vehicle_valid(self) -> (r: bool)
        ensures
            r == (self.0 & (1u8 << 5) > 0),
    {
        self.0 & (1u8 << 5) > 0
    }
}

/// Second flag byte: confirmation status of date and time.
#[derive(Debug, Copy, Clone, Default, PartialEq, Eq, Structural)]
pub struct Flags2(pub u8);

impl Flags2 {
    pub fn confirmed_available(self) -> (r: bool)
        ensures
            r == (self.0 & (1u8 << 5) > 0),
    {
        self.0 & (1u8 << 5) > 0
    }

    pub fn confirmed_date(self) -> (r: bool)
        ensures
            r == (self.0 & (1u8 << 6) > 0),
    {
        self.0 & (1u8 << 6) > 0
    }

    pub fn confirmed_time(self) -> (r: bool)
        ensures
            r == (self.0 & (1u8 << 7) > 0),
    {
        self.0 & (1u8 << 7) > 0
    }
}

/// Third flag byte: position validity.
#[derive(Debug, Copy, Clone, Default, PartialEq, Eq, Structural)]
pub struct Flags3(pub u8);

impl Flags3 {
    pub fn invalid_lon_lat_height_msl(self) -> (r: bool)
        ensures
            r == (self.0 & (1u8 << 0) > 0),
    {
        self.0 & (1u8 << 0) > 0
    }
}

/// Raw longitude as the receiver sends it, in 1e-7 degrees.
#[derive(Debug, Copy, Clone, Default, PartialEq, Eq, Structural)]
pub struct Longitude(pub i32);

/// Raw latitude as the receiver sends it, in 1e-7 degrees.
#[derive(Debug, Copy, Clone, Default, PartialEq, Eq, Structural)]
pub struct Latitude(pub i32);

/// A raw 1e-7-degree angle in the firmware's 1/1280 arc-second unit:
/// multiply by 3600 · 128 and divide by a million, truncating toward zero.
pub open spec fn raw_angle_units(v: int) -> int {
    trunc_div(v * 3600 * 128, 1000000)
}

fn convert_raw_angle(v: i32) -> (r: i32)
    ensures
        r == raw_angle_units(v as int),
{
    let t: i64 = (v as i64) * 3600 * 128;
    proof {
        let ti = t as int;
        if ti >= 0 {
            lemma_div_pos_is_pos(ti, 1000000);
            lemma_div_is_ordered(ti, 989560464998400, 1000000);
        } else {
            lemma_div_pos_is_pos(-ti, 1000000);
            lemma_div_is_ordered(-ti, 989560464998400, 1000000);
        }
    }
    (t / 1000000) as i32
}

impl From<Longitude> for coordinate::Longitude {
    fn from(l: Longitude) -> (r: coordinate::Longitude) {
        coordinate::Longitude(convert_raw_angle(l.0))
    }
}

impl vstd::std_specs::convert::FromSpecImpl<Longitude> for coordinate::Longitude {
    open spec fn obeys_from_spec() -> bool {
        true
    }

    open spec fn from_spec(l: Longitude) -> coordinate::Longitude {
        coordinate::Longitude(raw_angle_units(l.0 as int) as i32)
    }
}

impl From<Latitude> for coordinate::Latitude {
    fn from(l: Latitude) -> (r: coordinate::Latitude) {
        coordinate::Latitude(convert_raw_angle(l.0))
    }
}

impl vstd::std_specs::convert::FromSpecImpl<Latitude> for coordinate::Latitude {
    open spec fn obeys_from_spec() -> bool {
        true
    }

    open spec fn from_spec(l: Latitude) -> coordinate::Latitude {
        coordinate::Latitude(raw_angle_units(l.0 as int) as i32)
    }
}

/// Length of the message payload in bytes.
pub const NAV_PVT_SIZE: usize = 92;

/// The navigation position/velocity/time solution.
#[derive(Debug, Default, PartialEq, Eq, Structural)]
pub struct NavPositionVelocityTime {
    pub itow: u32,
    pub year: u16,
    pub month: u8,
    pub day: u8,
    pub hour: u8,
    pub minute: u8,
    pub second: u8,
    pub valid: Valid,
    pub time_accuracy_estimate: u32,  // ns
    pub nano: i32,  // -1e9 .. 1e9
    pub fix_type: FixType,
    pub flags1: Flags1,
    pub flags2: Flags2,
    pub num_satellites: u8,
    pub longitude: Longitude,  // 1e-7 degree
    pub latitude: Latitude,  // 1e-7 degree
    pub height: i32,  // height above ellipsoid, unit mm
    pub height_above_msl: i32,  // unit mm
    pub horizental_accuracy: u32,  // unit mm
    pub vertical_accuracy: u32,  // unit mm
    pub velocity_north: i32,  // unit mm/s
    pub velocity_east: i32,  // unit mm/s
    pub velocity_down: i32,  // unit mm/s
    pub ground_speed: i32,  // unit mm/s
    pub heading_of_motion: i32,  // 1e-5 unit degree
    pub speed_accuracy: u32,  // unit mm/s
    pub heading_accuracy: u32,  // 1e-5 unit degree
    pub position_dop: u16,  // unit 0.01
    pub flags3: Flags3,
    pub heading_of_vehicle: i32,  // 1e-5 degree
    pub magnetic_declination: i16,  // 1e-2 degree
    pub magnetic_accuracy: u16,  // 1e-2 degree
}

/// The message decoded from a 92-byte little-endian payload.
pub open spec fn nav_pvt_of(b: Seq<u8>) -> NavPositionVelocityTime {
    NavPositionVelocityTime {
        itow: le_u32(b, 0),
        year: le_u16(b, 4),
        month: b[6],
        day: b[7],
        hour: b[8],
        minute: b[9],
        second: b[10],
        valid: Valid(b[11]),
        time_accuracy_estimate: le_u32(b, 12),
        nano: le_i32(b, 16),
        fix_type: fix_type_of(b[20]),
        flags1: Flags1(b[21]),
        flags2: Flags2(b[22]),
        num_satellites: b[23],
        longitude: Longitude(le_i32(b, 24)),
        latitude: Latitude(le_i32(b, 28)),
        height: le_i32(b, 32),
        height_above_msl: le_i32(b, 36),
        horizental_accuracy: le_u32(b, 40),
        vertical_accuracy: le_u32(b, 44),
        velocity_north: le_i32(b, 48),
        velocity_east: le_i32(b, 52),
        velocity_down: le_i32(b, 56),
        ground_speed: le_i32(b, 60),
        heading_of_motion: le_i32(b, 64),
        speed_accuracy: le_u32(b, 68),
        heading_accuracy: le_u32(b, 72),
        position_dop: le_u16(b, 76),
        flags3: Flags3(b[78]),
        heading_of_vehicle: le_i32(b, 84),
        magnetic_declination: le_i16(b, 88),
        magnetic_accuracy: le_u16(b, 90),
    }
}

impl NavPositionVelocityTime {
    /// Decode a payload; anything shorter than the fixed message length is
    /// rejected.
    pub fn from_bytes(bytes: &[u8]) -> (r: Option<Self>)
        ensures
            bytes@.len() >= NAV_PVT_SIZE ==> r == Some(nav_pvt_of(bytes@)),
            bytes@.len() < NAV_PVT_SIZE ==> r is None,
    {
        if bytes.len() < NAV_PVT_SIZE {
            return None;
        }
        Some(
            Self {
                itow: read_u32(bytes, 0),
                year: read_u16(bytes, 4),
                month: bytes[6],
                day: bytes[7],
                hour: bytes[8],
                minute: bytes[9],
                second: bytes[10],
                valid: Valid(bytes[11]),
                time_accuracy_estimate: read_u32(bytes, 12),
                nano: read_i32(bytes, 16),
                fix_type: fix_type_from(bytes[20]),
                flags1: Flags1(bytes[21]),
                flags2: Flags2(bytes[22]),
                num_satellites: bytes[23],
                longitude: Longitude(read_i32(bytes, 24)),
                latitude: Latitude(read_i32(bytes, 28)),
                height: read_i32(bytes, 32),
                height_above_msl: read_i32(bytes, 36),
                horizental_accuracy: read_u32(bytes, 40),
                vertical_accuracy: read_u32(bytes, 44),
                velocity_north: read_i32(bytes, 48),
                velocity_east: read_i32(bytes, 52),
                velocity_down: read_i32(bytes, 56),
                ground_speed: read_i32(bytes, 60),
                heading_of_motion: read_i32(bytes, 64),
                speed_accuracy: read_u32(bytes, 68),
                heading_accuracy: read_u32(bytes, 72),
                position_dop: read_u16(bytes, 76),
                flags3: Flags3(bytes[78]),
                heading_of_vehicle: read_i32(bytes, 84),
                magnetic_declination: read_i16(bytes, 88),
                magnetic_accuracy: read_u16(bytes, 90),
            },
        )
    }
}

} // verus!
