//! Sensor measurement types: raw three-axis samples, their calibration
//! arithmetic, acceleration magnitude, barometric pressure, and the
//! heading-or-course selector used by the navigation consumers.

use vstd::prelude::*;

verus! {

pub type Temperature = i16;

pub type Heading = u16;

pub type Course = u16;

/// Quotient of Rust's truncating integer division.
pub open spec fn trunc_div(a: int, b: int) -> int {
    if b >= 0 {
        if a >= 0 {
            a / b
        } else {
            -((-a) / b)
        }
    } else {
        if a >= 0 {
            -(a / (-b))
        } else {
            (-a) / (-b)
        }
    }
}

/// An altitude in centimeters.
#[derive(Copy, Clone, Debug, PartialEq, Eq, Structural)]
pub struct Altitude(pub i32);

/// Either a magnetic heading or, where no magnetometer reading is valid, a
/// ground course.  The two are carried over one `u16`: headings occupy
/// `0..=360` and a course `c` travels as `u16::MAX - c`.
#[derive(Copy, Clone)]
pub enum HeadingOrCourse {
    Heading(Heading),
    Course(Course),
}

impl HeadingOrCourse {
    /// The carried angle, whichever kind it is.
    pub fn or_course(self) -> (r: u16)
        ensures
            r == (match self {
                HeadingOrCourse::Heading(h) => h,
                HeadingOrCourse::Course(c) => c,
            }),
    {
        match self {
            Self::Heading(h) => h,
            Self::Course(c) => c,
        }
    }
}

impl Default for HeadingOrCourse {
    fn default() -> (r: Self)
        ensures
            r == HeadingOrCourse::Course(0u16),
    {
        Self::Course(0)
    }
}

impl From<HeadingOrCourse> for u16 {
    fn from(value: HeadingOrCourse) -> (r: u16) {
        match value {
            HeadingOrCourse::Heading(h) => h,
            HeadingOrCourse::Course(c) => u16::MAX - c,
        }
    }
}

impl vstd::std_specs::convert::FromSpecImpl<HeadingOrCourse> for u16 {
    open spec fn obeys_from_spec() -> bool {
        true
    }

    open spec fn from_spec(value: HeadingOrCourse) -> u16 {
        match value {
            HeadingOrCourse::Heading(h) => h,
            HeadingOrCourse::Course(c) => (u16::MAX - c) as u16,
        }
    }
}

impl From<u16> for HeadingOrCourse {
    fn from(value: u16) -> (r: HeadingOrCourse) {
        if value <= 360 {
            Self::Heading(value)
        } else {
            Self::Course(u16::MAX - value)
        }
    }
}

impl vstd::std_specs::convert::FromSpecImpl<u16> for HeadingOrCourse {
    open spec fn obeys_from_spec() -> bool {
        true
    }

    open spec fn from_spec(value: u16) -> HeadingOrCourse {
        if value <= 360 {
            HeadingOrCourse::Heading(value)
        } else {
            HeadingOrCourse::Course((u16::MAX - value) as u16)
        }
    }
}

/// One raw sample of a three-axis sensor.
#[derive(Copy, Clone, Debug, PartialEq, Eq, Structural)]
pub struct Axes {
    pub x: i32,
    pub y: i32,
    pub z: i32,
}

impl Default for Axes {
    fn default() -> (r: Self)
        ensures
            r == (Axes { x: 0, y: 0, z: 0 }),
    {
        Axes { x: 0, y: 0, z: 0 }
    }
}

/// Component-wise sum stays within `i32`.
pub open spec fn axes_add_ok(a: Axes, b: Axes) -> bool {
    &&& i32::MIN <= a.x + b.x <= i32::MAX
    &&& i32::MIN <= a.y + b.y <= i32::MAX
    &&& i32::MIN <= a.z + b.z <= i32::MAX
}

/// Component-wise difference stays within `i32`.
pub open spec fn axes_sub_ok(a: Axes, b: Axes) -> bool {
    &&& i32::MIN <= a.x - b.x <= i32::MAX
    &&& i32::MIN <= a.y - b.y <= i32::MAX
    &&& i32::MIN <= a.z - b.z <= i32::MAX
}

/// Component-wise product stays within `i32`.
pub open spec fn axes_mul_ok(a: Axes, b: Axes) -> bool {
    &&& i32::MIN <= a.x * b.x <= i32::MAX
    &&& i32::MIN <= a.y * b.y <= i32::MAX
    &&& i32::MIN <= a.z * b.z <= i32::MAX
}

pub open spec fn axes_add(a: Axes, b: Axes) -> Axes {
    Axes { x: (a.x + b.x) as i32, y: (a.y + b.y) as i32, z: (a.z + b.z) as i32 }
}

pub open spec fn axes_sub(a: Axes, b: Axes) -> Axes {
    Axes { x: (a.x - b.x) as i32, y: (a.y - b.y) as i32, z: (a.z - b.z) as i32 }
}

pub open spec fn axes_mul(a: Axes, b: Axes) -> Axes {
    Axes { x: (a.x * b.x) as i32, y: (a.y * b.y) as i32, z: (a.z * b.z) as i32 }
}

pub open spec fn axes_div(a: Axes, d: int) -> Axes {
    Axes {
        x: trunc_div(a.x as int, d) as i32,
        y: trunc_div(a.y as int, d) as i32,
        z: trunc_div(a.z as int, d) as i32,
    }
}

/// Component-wise division neither divides by zero nor overflows: the one
/// overflowing quotient is the most negative value divided by minus one.
pub open spec fn axes_div_ok(a: Axes, d: int) -> bool {
    d != 0 && (d == -1 ==> a.x != i32::MIN && a.y != i32::MIN && a.z != i32::MIN)
}

impl core::ops::Add for Axes {
    type Output = Axes;

    fn add(self, other: Axes) -> Self {
        Self { x: self.x + other.x, y: self.y + other.y, z: self.z + other.z }
    }
}

impl vstd::std_specs::ops::AddSpecImpl for Axes {
    open spec fn obeys_add_spec() -> bool {
        true
    }

    open spec fn add_req(self, other: Axes) -> bool {
        axes_add_ok(self, other)
    }

    open spec fn add_spec(self, other: Axes) -> Axes {
        axes_add(self, other)
    }
}

impl core::ops::Sub<Axes> for Axes {
    type Output = Axes;

    fn sub(self, other: Axes) -> Self {
        Self { x: self.x - other.x, y: self.y - other.y, z: self.z - other.z }
    }
}

impl vstd::std_specs::ops::SubSpecImpl<Axes> for Axes {
    open spec fn obeys_sub_spec() -> bool {
        true
    }

    open spec fn sub_req(self, other: Axes) -> bool {
        axes_sub_ok(self, other)
    }

    open spec fn sub_spec(self, other: Axes) -> Axes {
        axes_sub(self, other)
    }
}

impl core::ops::Mul<Axes> for Axes {
    type Output = Axes;

    fn mul(self, other: Axes) -> Self {
        Self { x: self.x * other.x, y: self.y * other.y, z: self.z * other.z }
    }
}

impl vstd::std_specs::ops::MulSpecImpl<Axes> for Axes {
    open spec fn obeys_mul_spec() -> bool {
        true
    }

    open spec fn mul_req(self, other: Axes) -> bool {
        axes_mul_ok(self, other)
    }

    open spec fn mul_spec(self, other: Axes) -> Axes {
        axes_mul(self, other)
    }
}

/// One component of a truncating division; the divisor is nonzero and the
/// one overflowing quotient is excluded.
fn div_component(a: i32, d: i32) -> (r: i32)
    requires
        d != 0,
        !(d == -1 && a == i32::MIN),
    ensures
        r == trunc_div(a as int, d as int) as i32,
{
    if d > 0 {
        a / d
    } else {
        let dd = -(d as i64);
        let q = (a as i64) / dd;
        proof {
            let ai = a as int;
            let di = d as int;
            if a >= 0 {
                vstd::arithmetic::div_mod::lemma_div_pos_is_pos(ai, -di);
                vstd::arithmetic::div_mod::lemma_div_nonincreasing(ai, -di);
            } else {
                vstd::arithmetic::div_mod::lemma_div_pos_is_pos(-ai, -di);
                vstd::arithmetic::div_mod::lemma_div_nonincreasing(-ai, -di);
                if -di >= 2 {
                    vstd::arithmetic::div_mod::lemma_div_decreases(-ai, -di);
                }
            }
        }
        (-q) as i32
    }
}

impl core::ops::Div<i32> for Axes {
    type Output = Axes;

    fn div(self, div: i32) -> Self {
        Self {
            x: div_component(self.x, div),
            y: div_component(self.y, div),
            z: div_component(self.z, div),
        }
    }
}

impl vstd::std_specs::ops::DivSpecImpl<i32> for Axes {
    open spec fn obeys_div_spec() -> bool {
        true
    }

    open spec fn div_req(self, div: i32) -> bool {
        axes_div_ok(self, div as int)
    }

    open spec fn div_spec(self, div: i32) -> Axes {
        axes_div(self, div as int)
    }
}

/// Comparison used for per-component range tracking: a sample is reported
/// greater as soon as any component exceeds the other's, and less otherwise;
/// no two samples are ever reported equal.
impl PartialOrd for Axes {
    fn partial_cmp(&self, other: &Self) -> Option<core::cmp::Ordering> {
        if self.x > other.x || self.y > other.y || self.z > other.z {
            Some(core::cmp::Ordering::Greater)
        } else {
            Some(core::cmp::Ordering::Less)
        }
    }
}

impl vstd::std_specs::cmp::PartialOrdSpecImpl for Axes {
    open spec fn obeys_partial_cmp_spec() -> bool {
        true
    }

    open spec fn partial_cmp_spec(&self, other: &Self) -> Option<core::cmp::Ordering> {
        if self.x > other.x || self.y > other.y || self.z > other.z {
            Some(core::cmp::Ordering::Greater)
        } else {
            Some(core::cmp::Ordering::Less)
        }
    }
}

/// A raw sample together with the sensor's sensitivity: `axes / sensitive`
/// is the sample in physical units.
#[derive(Copy, Clone, Debug, PartialEq, Eq, Structural)]
pub struct Measurement {
    pub axes: Axes,
    pub sensitive: i32,
}

impl Measurement {
    /// The sample with a zero-offset calibration subtracted.
    pub fn calibrated(self, axes: &Axes) -> (r: Self)
        requires
            axes_sub_ok(self.axes, *axes),
        ensures
            r == (Measurement { axes: axes_sub(self.axes, *axes), sensitive: self.sensitive }),
    {
        Self { axes: self.axes - *axes, sensitive: self.sensitive }
    }
}

impl PartialOrd for Measurement {
    fn partial_cmp(&self, other: &Self) -> Option<core::cmp::Ordering> {
        self.axes.partial_cmp(&other.axes)
    }
}

impl vstd::std_specs::cmp::PartialOrdSpecImpl for Measurement {
    open spec fn obeys_partial_cmp_spec() -> bool {
        true
    }

    open spec fn partial_cmp_spec(&self, other: &Self) -> Option<core::cmp::Ordering> {
        if self.axes.x > other.axes.x || self.axes.y > other.axes.y || self.axes.z
            > other.axes.z {
            Some(core::cmp::Ordering::Greater)
        } else {
            Some(core::cmp::Ordering::Less)
        }
    }
}

impl Default for Measurement {
    fn default() -> (r: Self)
        ensures
            r == (Measurement { axes: Axes { x: 0, y: 0, z: 0 }, sensitive: 1 }),
    {
        Self { axes: Axes { x: 0, y: 0, z: 0 }, sensitive: 1 }
    }
}

pub type Gyro = Measurement;

/// Relies on `integer_sqrt::IntegerSquareRoot` for `u64`: the result is the
/// integer square root, the unique `r` with `r * r <= n < (r + 1) * (r + 1)`.
#[verifier::external_body]
fn integer_sqrt_u64(n: u64) -> (r: u64)
    ensures
        r * r <= n < (r + 1) * (r + 1),
{
    integer_sqrt::IntegerSquareRoot::integer_sqrt(&n)
}

/// The integer square root of a non-negative number.
pub open spec fn sqrt_spec(n: int) -> int {
    choose|r: int| 0 <= r && #[trigger] (r * r) <= n < (r + 1) * (r + 1)
}

/// The integer square root exists and is unique, so `sqrt_spec` denotes it.
pub proof fn lemma_sqrt_spec(n: int, r: int)
    requires
        0 <= r,
        r * r <= n,
        n < (r + 1) * (r + 1),
    ensures
        sqrt_spec(n) == r,
{
    assert(exists|s: int| 0 <= s && #[trigger] (s * s) <= n < (s + 1) * (s + 1)) by {
        assert(0 <= r && r * r <= n < (r + 1) * (r + 1));
    }
    let s = sqrt_spec(n);
    assert(s == r) by (nonlinear_arith)
        requires
            0 <= r,
            0 <= s,
            r * r <= n < (r + 1) * (r + 1),
            s * s <= n < (s + 1) * (s + 1),
    ;
}

/// Acceleration magnitude as tenths of standard gravity, truncated to `u8`
/// the way the telemetry word carries it.
pub open spec fn g_force_spec(m: Measurement) -> u8 {
    let ss = m.axes.x * m.axes.x + m.axes.y * m.axes.y + m.axes.z * m.axes.z;
    if ss > 0 {
        trunc_div(sqrt_spec(ss) * 10, m.sensitive as int) as u8
    } else {
        0
    }
}

/// A three-axis accelerometer sample.
#[derive(Debug, Copy, Clone)]
pub struct Acceleration(pub Measurement);

impl Default for Acceleration {
    fn default() -> (r: Self)
        ensures
            r == Acceleration(Measurement { axes: Axes { x: 0, y: 0, z: 0 }, sensitive: 1 }),
    {
        Self(Measurement { axes: Axes { x: 0, y: 0, z: 0 }, sensitive: 1 })
    }
}

impl Acceleration {
    /// The sample with zero offset and per-axis gain applied: subtract the
    /// zero bias, scale by the gain, and renormalize by the sensitivity.
    pub fn calibrated(self, zero: &Axes, gain: &Axes) -> (r: Self)
        requires
            axes_sub_ok(self.0.axes, *zero),
            axes_mul_ok(axes_sub(self.0.axes, *zero), *gain),
            axes_div_ok(axes_mul(axes_sub(self.0.axes, *zero), *gain), self.0.sensitive as int),
        ensures
            r == Acceleration(
                Measurement {
                    axes: axes_div(
                        axes_mul(axes_sub(self.0.axes, *zero), *gain),
                        self.0.sensitive as int,
                    ),
                    sensitive: self.0.sensitive,
                },
            ),
    {
        let axes = (self.0.axes - *zero) * *gain / self.0.sensitive;
        Self(Measurement { axes, sensitive: self.0.sensitive })
    }

    /// Magnitude of the sample in tenths of standard gravity.
    pub fn g_force(&self) -> (r: u8)
        requires
            self.0.sensitive != 0,
        ensures
            r == g_force_spec(self.0),
    {
        let axes = self.0.axes;
        let (x, y, z) = (axes.x as i64, axes.y as i64, axes.z as i64);
        proof {
            assert(0 <= x * x <= 0x4000000000000000 && 0 <= y * y <= 0x4000000000000000 && 0 <= z
                * z <= 0x4000000000000000) by (nonlinear_arith)
                requires
                    -0x80000000 <= x <= 0x7fffffff,
                    -0x80000000 <= y <= 0x7fffffff,
                    -0x80000000 <= z <= 0x7fffffff,
            ;
        }
        let square_sum = ((x * x) as u64) + ((y * y) as u64) + ((z * z) as u64);
        if square_sum > 0 {
            let g_force = integer_sqrt_u64(square_sum);
            proof {
                assert(g_force < 0x100000000u64) by (nonlinear_arith)
                    requires
                        g_force * g_force <= square_sum,
                ;
                lemma_sqrt_spec(square_sum as int, g_force as int);
            }
            let scaled: i64 = if self.0.sensitive > 0 {
                ((g_force as i64) * 10) / (self.0.sensitive as i64)
            } else {
                -(((g_force as i64) * 10) / (-(self.0.sensitive as i64)))
            };
            #[verifier::truncate] (scaled as u8)
        } else {
            0
        }
    }
}

/// Barometric pressure in pascal.
#[derive(Copy, Clone)]
pub struct Pressure(pub u32);

impl Default for Pressure {
    fn default() -> (r: Self)
        ensures
            r == Pressure(0u32),
    {
        Self(0)
    }
}

impl From<Pressure> for Altitude {
    /// Barometric altitude from pressure by the linear low-altitude
    /// approximation: 8.2 centimeters per pascal below standard pressure.
    fn from(p: Pressure) -> (r: Altitude) {
        let v: i64 = (101325i64 - p.0 as i64) * 82 / 10;
        proof {
            assert(v == trunc_div((101325 - p.0 as int) * 82, 10));
        }
        Altitude(#[verifier::truncate] (v as i32))
    }
}

impl vstd::std_specs::convert::FromSpecImpl<Pressure> for Altitude {
    open spec fn obeys_from_spec() -> bool {
        true
    }

    open spec fn from_spec(p: Pressure) -> Altitude {
        Altitude(trunc_div((101325 - p.0 as int) * 82, 10) as i32)
    }
}

} // verus!
