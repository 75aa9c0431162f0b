//! Inertial measurement unit configuration: accelerometer calibration and
//! the gains of the attitude filter.

use vstd::prelude::*;
use crate::datastructures::decimal::IntegerDecimal;
use crate::datastructures::measurement::Axes;

verus! {

/// Accelerometer calibration: per-axis zero bias and gain, and the
/// sensitivity of the part.
#[derive(Copy, Clone, Debug, PartialEq, Eq, Structural)]
pub struct Accelerometer {
    pub bias: Axes,
    pub gain: Axes,
    pub sensitive: IntegerDecimal,
}

impl Default for Accelerometer {
    fn default() -> (r: Self)
        ensures
            r == (Accelerometer {
                bias: Axes { x: 0, y: 0, z: 0 },
                gain: Axes { x: 0, y: 0, z: 0 },
                sensitive: IntegerDecimal { value: 0, decimal_length: 0 },
            }),
    {
        Self {
            bias: Axes { x: 0, y: 0, z: 0 },
            gain: Axes { x: 0, y: 0, z: 0 },
            sensitive: IntegerDecimal::new(0, 0),
        }
    }
}

/// Gains of the complementary attitude filter.
#[derive(Copy, Clone, Debug, PartialEq, Eq, Structural)]
pub struct Mahony {
    pub kp: IntegerDecimal,
    pub ki: IntegerDecimal,
}

impl Default for Mahony {
    /// The stock gains: a proportional term of 0.25 and an integral term
    /// of 0.005.
    fn default() -> (r: Self)
        ensures
            r == (Mahony {
                kp: IntegerDecimal { value: 25, decimal_length: 2 },
                ki: IntegerDecimal { value: 5, decimal_length: 3 },
            }),
    {
        Self { kp: IntegerDecimal::new(25, 2), ki: IntegerDecimal::new(5, 3) }
    }
}

/// The whole inertial configuration.
#[derive(Copy, Clone, Debug, PartialEq, Eq, Structural)]
pub struct IMU {
    pub accelerometer: Accelerometer,
    pub mahony: Mahony,
}

impl Default for IMU {
    fn default() -> (r: Self)
        ensures
            r == (IMU {
                accelerometer: Accelerometer {
                    bias: Axes { x: 0, y: 0, z: 0 },
                    gain: Axes { x: 0, y: 0, z: 0 },
                    sensitive: IntegerDecimal { value: 0, decimal_length: 0 },
                },
                mahony: Mahony {
                    kp: IntegerDecimal { value: 25, decimal_length: 2 },
                    ki: IntegerDecimal { value: 5, decimal_length: 3 },
                },
            }),
    {
        Self { accelerometer: Accelerometer::default(), mahony: Mahony::default() }
    }
}

} // verus!
