//! On-screen display configuration: video standard, field of view, aspect
//! ratio, and the drawing offset.

use vstd::prelude::*;
use vstd::string::StringSliceAdditionalSpecFns;
use crate::text::bytes_eq;

verus! {

/// A display aspect ratio, width to height.
#[derive(Copy, Clone, Debug, PartialEq, Eq, Structural)]
pub struct AspectRatio(pub u8, pub u8);

impl Default for AspectRatio {
    fn default() -> (r: Self)
        ensures
            r == AspectRatio(16u8, 9u8),
    {
        Self(16, 9)
    }
}

/// Analog video standard of the display chip.
#[derive(Copy, Clone, Debug, PartialEq, Eq, Structural)]
pub enum Standard {
    PAL,
    NTSC,
}

impl Default for Standard {
    fn default() -> (r: Self)
        ensures
            r == Standard::PAL,
    {
        Self::PAL
    }
}

impl From<&str> for Standard {
    /// `NTSC` selects NTSC; anything else falls back to PAL.
    fn from(string: &str) -> (r: Standard) {
        if bytes_eq(string.as_bytes(), "NTSC".as_bytes()) {
            Standard::NTSC
        } else {
            Standard::PAL
        }
    }
}

impl vstd::std_specs::convert::FromSpecImpl<&str> for Standard {
    open spec fn obeys_from_spec() -> bool {
        true
    }

    open spec fn from_spec(string: &str) -> Standard {
        if string.spec_bytes() == "NTSC".spec_bytes() {
            Standard::NTSC
        } else {
            Standard::PAL
        }
    }
}

impl Standard {
    pub fn as_str(self) -> (r: &'static str)
        ensures
            r@ == (match self {
                Standard::PAL => "PAL"@,
                Standard::NTSC => "NTSC"@,
            }),
    {
        match self {
            Self::PAL => "PAL",
            Self::NTSC => "NTSC",
        }
    }
}

/// Where on the screen the drawing area starts.
#[derive(Copy, Clone, Debug, PartialEq, Eq, Structural)]
pub struct Offset {
    pub horizental: i8,
    pub vertical: i8,
}

impl Default for Offset {
    fn default() -> (r: Self)
        ensures
            r == (Offset { horizental: 0, vertical: 0 }),
    {
        Self { horizental: 0, vertical: 0 }
    }
}

/// The whole on-screen display configuration.
#[derive(Copy, Clone, Debug, PartialEq, Eq, Structural)]
pub struct OSD {
    pub fov: u8,
    pub aspect_ratio: AspectRatio,
    pub standard: Standard,
    pub offset: Offset,
}

impl Default for OSD {
    fn default() -> (r: Self)
        ensures
            r == (OSD {
                fov: 120u8,
                aspect_ratio: AspectRatio(16u8, 9u8),
                standard: Standard::PAL,
                offset: Offset { horizental: 0, vertical: 0 },
            }),
    {
        Self {
            fov: 120,
            aspect_ratio: AspectRatio(16, 9),
            standard: Standard::default(),
            offset: Offset::default(),
        }
    }
}

} // verus!
