//! Actuator output configuration: which physical output drives which motor
//! or servo, and the per-output settings the console can change.

use vstd::prelude::*;
use vstd::slice::slice_subrange;
use vstd::string::StringSliceAdditionalSpecFns;
use crate::config::setter::{SetError, Setter};
use crate::text::{
    bytes_eq, dec_digits, digits_val, format_u32, is_digit_seq, parse_i32_bytes, parse_u32_bytes,
    signed_val,
};

verus! {

broadcast use vstd::array::axiom_spec_array_update;

/// How many outputs a board can expose.
pub const MAX_OUTPUT_CONFIG: usize = 6;

/// A physical output connector.  Index zero stands for "not assigned".
#[derive(Copy, Clone, Debug, PartialEq, Eq, Structural)]
pub enum Identifier {
    PWM(u8),
}

/// The identifier a name denotes: `PWM` followed by a decimal index; any
/// other shape, or an index that does not fit a byte, reads as the
/// unassigned output `PWM0`.
pub open spec fn identifier_of(s: Seq<u8>) -> Identifier {
    if s.len() >= 3 && s.subrange(0, 3) == "PWM".spec_bytes() {
        let rest = s.subrange(3, s.len() as int);
        if is_digit_seq(rest) && digits_val(rest) <= 255 {
            Identifier::PWM(digits_val(rest) as u8)
        } else {
            Identifier::PWM(0)
        }
    } else {
        Identifier::PWM(0)
    }
}

impl From<&str> for Identifier {
    fn from(name: &str) -> (r: Identifier)
        ensures
            r == identifier_of(name.spec_bytes()),
    {
        let bytes = name.as_bytes();
        if bytes.len() >= 3 && bytes_eq(slice_subrange(bytes, 0, 3), "PWM".as_bytes()) {
            match parse_u32_bytes(slice_subrange(bytes, 3, bytes.len())) {
                Some(v) => if v <= 255 {
                    Identifier::PWM(v as u8)
                } else {
                    Identifier::PWM(0)
                },
                None => Identifier::PWM(0),
            }
        } else {
            Identifier::PWM(0)
        }
    }
}

impl vstd::std_specs::convert::FromSpecImpl<&str> for Identifier {
    open spec fn obeys_from_spec() -> bool {
        true
    }

    open spec fn from_spec(name: &str) -> Identifier {
        identifier_of(name.spec_bytes())
    }
}

impl From<Identifier> for bool {
    /// Whether the identifier names a real connector.
    fn from(id: Identifier) -> (r: bool)
        ensures
            r == (id->0 > 0),
    {
        match id {
            Identifier::PWM(index) => index > 0,
        }
    }
}

impl vstd::std_specs::convert::FromSpecImpl<Identifier> for bool {
    open spec fn obeys_from_spec() -> bool {
        true
    }

    open spec fn from_spec(id: Identifier) -> bool {
        id->0 > 0
    }
}

impl Identifier {
    /// Rendering such as `PWM3`.
    pub fn to_string(&self) -> (r: String)
        ensures
            r@ == "PWM"@ + dec_digits(self->0 as nat),
    {
        let Identifier::PWM(index) = *self;
        let mut s = String::from_str("PWM");
        s.append(format_u32(index as u32).as_str());
        proof {
            assert(s@ =~= "PWM"@ + dec_digits(index as nat));
        }
        s
    }
}

/// Signal protocol of a motor output.
#[derive(Copy, Clone, Debug, PartialEq, Eq, Structural)]
pub enum Protocol {
    PWM,
}

/// A motor output: its protocol, index and refresh rate.
#[derive(Copy, Clone, Debug, PartialEq, Eq, Structural)]
pub struct Motor {
    pub protocol: Protocol,
    pub index: u8,
    pub rate: u16,
}

impl Motor {
    pub fn new(protocol: Protocol, index: u8, rate: u16) -> (r: Self)
        ensures
            r == (Motor { protocol, index, rate }),
    {
        Self { protocol, index, rate }
    }
}

impl Default for Motor {
    fn default() -> (r: Self)
        ensures
            r == (Motor { protocol: Protocol::PWM, index: 0u8, rate: 400u16 }),
    {
        Self { protocol: Protocol::PWM, index: 0, rate: 400 }
    }
}

/// The control surface a servo output drives.
#[derive(Copy, Clone, Debug, PartialEq, Eq, Structural)]
pub enum ServoType {
    AileronLeft,
    AileronRight,
    Elevator,
    Rudder,
}

impl ServoType {
    pub fn as_str(self) -> (r: &'static str)
        ensures
            r@ == (match self {
                ServoType::AileronLeft => "aileron-left"@,
                ServoType::AileronRight => "aileron-right"@,
                ServoType::Elevator => "elevator"@,
                ServoType::Rudder => "rudder"@,
            }),
    {
        match self {
            Self::AileronLeft => "aileron-left",
            Self::AileronRight => "aileron-right",
            Self::Elevator => "elevator",
            Self::Rudder => "rudder",
        }
    }
}

/// A servo output: which surface it drives, its center trim, and whether
/// its direction is reversed.
#[derive(Copy, Clone, Debug, PartialEq, Eq, Structural)]
pub struct Servo {
    pub servo_type: ServoType,
    pub center_angle: i8,
    pub reversed: bool,
}

impl Servo {
    pub fn new(servo_type: ServoType, center_angle: i8, reversed: bool) -> (r: Self)
        ensures
            r == (Servo { servo_type, center_angle, reversed }),
    {
        Self { servo_type, center_angle, reversed }
    }

    /// A servo of the given kind with neutral trim.
    pub fn of(servo_type: ServoType) -> (r: Self)
        ensures
            r == (Servo { servo_type, center_angle: 0i8, reversed: false }),
    {
        Self { servo_type, center_angle: 0, reversed: false }
    }
}

/// What one output connector drives.
#[derive(Copy, Clone, Debug, PartialEq, Eq, Structural)]
pub enum Output {
    Motor(Motor),
    Servo(Servo),
    Unassigned,
}

impl Output {
    /// The refresh rate of the signal: a motor's configured rate, and the
    /// standard fifty hertz for everything else.
    pub fn rate(self) -> (r: u16)
        ensures
            r == (match self {
                Output::Motor(motor) => motor.rate,
                _ => 50u16,
            }),
    {
        match self {
            Self::Motor(motor) => motor.rate,
            _ => 50,
        }
    }
}

impl Setter for Output {
    open spec fn set_spec(self, path: Seq<Seq<u8>>, value: Option<Seq<u8>>) -> (
        Self,
        Result<(), SetError>,
    ) {
        match value {
            None => (self, Err(SetError::ExpectValue)),
            Some(v) => {
                if path.len() == 0 {
                    (self, Err(SetError::MalformedPath))
                } else if path[0] == "type".spec_bytes() {
                    if v == "motor".spec_bytes() {
                        (Output::Motor(Motor { protocol: Protocol::PWM, index: 0, rate: 400 }), Ok(
                            (),
                        ))
                    } else if v == "aileron-left".spec_bytes() {
                        (
                            Output::Servo(
                                Servo {
                                    servo_type: ServoType::AileronLeft,
                                    center_angle: 0,
                                    reversed: false,
                                },
                            ),
                            Ok(()),
                        )
                    } else if v == "aileron-right".spec_bytes() {
                        (
                            Output::Servo(
                                Servo {
                                    servo_type: ServoType::AileronRight,
                                    center_angle: 0,
                                    reversed: false,
                                },
                            ),
                            Ok(()),
                        )
                    } else if v == "elevator".spec_bytes() {
                        (
                            Output::Servo(
                                Servo {
                                    servo_type: ServoType::Elevator,
                                    center_angle: 0,
                                    reversed: false,
                                },
                            ),
                            Ok(()),
                        )
                    } else if v == "rudder".spec_bytes() {
                        (
                            Output::Servo(
                                Servo {
                                    servo_type: ServoType::Rudder,
                                    center_angle: 0,
                                    reversed: false,
                                },
                            ),
                            Ok(()),
                        )
                    } else {
                        (self, Err(SetError::UnexpectedValue))
                    }
                } else if path[0] == "center-angle".spec_bytes() {
                    match signed_val(v) {
                        Some(angle) => if -128 <= angle <= 127 {
                            if angle < -90 || angle > 90 {
                                (self, Err(SetError::UnexpectedValue))
                            } else {
                                match self {
                                    Output::Servo(servo) => (
                                        Output::Servo(
                                            Servo { center_angle: angle as i8, ..servo },
                                        ),
                                        Ok(()),
                                    ),
                                    _ => (self, Err(SetError::MalformedPath)),
                                }
                            }
                        } else {
                            (self, Err(SetError::UnexpectedValue))
                        },
                        None => (self, Err(SetError::UnexpectedValue)),
                    }
                } else if path[0] == "reversed".spec_bytes() {
                    match self {
                        Output::Servo(servo) => (
                            Output::Servo(
                                Servo { reversed: v == "true".spec_bytes(), ..servo },
                            ),
                            Ok(()),
                        ),
                        _ => (self, Err(SetError::MalformedPath)),
                    }
                } else {
                    (self, Err(SetError::MalformedPath))
                }
            },
        }
    }

    fn set(&mut self, path: &[&str], value: Option<&str>) -> Result<(), SetError> {
        self.apply(path, value)
    }
}

impl Output {
    /// Apply one console update to this output.
    fn apply(&mut self, path: &[&str], value: Option<&str>) -> (r: Result<(), SetError>)
        ensures
            *final(self) == old(self).set_spec(
                path@.map_values(|p: &str| p.spec_bytes()),
                match value {
                    Some(v) => Some(v.spec_bytes()),
                    None => None,
                },
            ).0,
            r == old(self).set_spec(
                path@.map_values(|p: &str| p.spec_bytes()),
                match value {
                    Some(v) => Some(v.spec_bytes()),
                    None => None,
                },
            ).1,
    {
        let val = match value {
            Some(v) => v,
            None => {
                return Err(SetError::ExpectValue);
            },
        };
        if path.len() == 0 {
            return Err(SetError::MalformedPath);
        }
        let key = path[0].as_bytes();
        let v = val.as_bytes();
        if bytes_eq(key, "type".as_bytes()) {
            if bytes_eq(v, "motor".as_bytes()) {
                *self = Self::Motor(Motor::default());
            } else if bytes_eq(v, "aileron-left".as_bytes()) {
                *self = Self::Servo(Servo::of(ServoType::AileronLeft));
            } else if bytes_eq(v, "aileron-right".as_bytes()) {
                *self = Self::Servo(Servo::of(ServoType::AileronRight));
            } else if bytes_eq(v, "elevator".as_bytes()) {
                *self = Self::Servo(Servo::of(ServoType::Elevator));
            } else if bytes_eq(v, "rudder".as_bytes()) {
                *self = Self::Servo(Servo::of(ServoType::Rudder));
            } else {
                return Err(SetError::UnexpectedValue);
            }
            Ok(())
        } else if bytes_eq(key, "center-angle".as_bytes()) {
            let angle = match parse_i32_bytes(v) {
                Some(angle) => angle,
                None => {
                    return Err(SetError::UnexpectedValue);
                },
            };
            if angle < -128 || angle > 127 {
                return Err(SetError::UnexpectedValue);
            }
            if angle < -90 || angle > 90 {
                return Err(SetError::UnexpectedValue);
            }
            match *self {
                Self::Servo(servo) => {
                    *self = Self::Servo(Servo { center_angle: angle as i8, ..servo });
                    Ok(())
                },
                _ => Err(SetError::MalformedPath),
            }
        } else if bytes_eq(key, "reversed".as_bytes()) {
            match *self {
                Self::Servo(servo) => {
                    *self = Self::Servo(
                        Servo { reversed: bytes_eq(v, "true".as_bytes()), ..servo },
                    );
                    Ok(())
                },
                _ => Err(SetError::MalformedPath),
            }
        } else {
            Err(SetError::MalformedPath)
        }
    }
}

/// The board's output table: each slot pairs a connector identifier with
/// what it drives.
#[derive(Copy, Clone)]
pub struct Outputs(pub [(Identifier, Output); 6]);

impl Default for Outputs {
    fn default() -> (r: Self)
        ensures
            r.0@.len() == 6,
            forall|i: int| 0 <= i < 6 ==> r.0@[i] == (Identifier::PWM(0u8), Output::Unassigned),
    {
        Outputs([(Identifier::PWM(0), Output::Unassigned); 6])
    }
}

/// The first configured entry for `id`, scanning from `from`.
pub open spec fn output_lookup(entries: Seq<(Identifier, Output)>, id: Identifier, from: int) -> Option<
    Output,
>
    decreases entries.len() - from,
{
    if from < 0 || from >= entries.len() {
        None
    } else if entries[from].0 == id {
        Some(entries[from].1)
    } else {
        output_lookup(entries, id, from + 1)
    }
}

/// How many entries from `from` on name a real connector.
pub open spec fn output_count(entries: Seq<(Identifier, Output)>, from: int) -> nat
    decreases entries.len() - from,
{
    if from < 0 || from >= entries.len() {
        0
    } else {
        (if entries[from].0->0 > 0 {
            1nat
        } else {
            0nat
        }) + output_count(entries, from + 1)
    }
}

impl Outputs {
    /// The output configured under `name`, if the name denotes a real
    /// connector that has an entry.
    pub fn get(&self, name: &str) -> (r: Option<Output>)
        ensures
            r == (if identifier_of(name.spec_bytes())->0 > 0 {
                output_lookup(self.0@, identifier_of(name.spec_bytes()), 0)
            } else {
                Option::<Output>::None
            }),
    {
        let identifier = Identifier::from(name);
        let valid: bool = bool::from(identifier);
        if valid {
            let mut i: usize = 0;
            while i < 6
                invariant
                    i <= 6,
                    self.0@.len() == 6,
                    valid,
                    identifier == identifier_of(name.spec_bytes()),
                    identifier_of(name.spec_bytes())->0 > 0,
                    output_lookup(self.0@, identifier, 0) == output_lookup(
                        self.0@,
                        identifier,
                        i as int,
                    ),
                decreases 6 - i,
            {
                let (id, config) = self.0[i];
                if id == identifier {
                    return Some(config);
                }
                i = i + 1;
            }
            None
        } else {
            None
        }
    }

    /// How many outputs are assigned.
    pub fn len(&self) -> (r: usize)
        ensures
            r == output_count(self.0@, 0),
    {
        let mut count: usize = 0;
        let mut i: usize = 0;
        while i < 6
            invariant
                i <= 6,
                count <= i,
                self.0@.len() == 6,
                count + output_count(self.0@, i as int) == output_count(self.0@, 0),
            decreases 6 - i,
        {
            let (id, _) = self.0[i];
            let valid: bool = bool::from(id);
            if valid {
                count = count + 1;
            }
            i = i + 1;
        }
        count
    }
}

impl Setter for Outputs {
    open spec fn set_spec(self, path: Seq<Seq<u8>>, value: Option<Seq<u8>>) -> (
        Self,
        Result<(), SetError>,
    ) {
        if path.len() == 0 {
            (self, Err(SetError::MalformedPath))
        } else {
            let id = path[0];
            if id.len() >= 3 && id.subrange(0, 3) == "PWM".spec_bytes() {
                let rest = id.subrange(3, id.len() as int);
                if is_digit_seq(rest) && 1 <= digits_val(rest) && digits_val(rest)
                    <= MAX_OUTPUT_CONFIG {
                    let index = (digits_val(rest) - 1) as int;
                    let t = self.0@[index].1.set_spec(path.drop_first(), value);
                    (
                        Outputs(
                            vstd::array::spec_array_update(
                                self.0,
                                index,
                                (self.0@[index].0, t.0),
                            ),
                        ),
                        t.1,
                    )
                } else {
                    (self, Err(SetError::MalformedPath))
                }
            } else {
                (self, Err(SetError::MalformedPath))
            }
        }
    }

    fn set(&mut self, path: &[&str], value: Option<&str>) -> Result<(), SetError> {
        self.apply(path, value)
    }
}

impl Outputs {
    /// Apply one console update to the table.
    fn apply(&mut self, path: &[&str], value: Option<&str>) -> (r: Result<(), SetError>)
        ensures
            *final(self) == old(self).set_spec(
                path@.map_values(|p: &str| p.spec_bytes()),
                match value {
                    Some(v) => Some(v.spec_bytes()),
                    None => None,
                },
            ).0,
            r == old(self).set_spec(
                path@.map_values(|p: &str| p.spec_bytes()),
                match value {
                    Some(v) => Some(v.spec_bytes()),
                    None => None,
                },
            ).1,
    {
        if path.len() == 0 {
            Err(SetError::MalformedPath)
        } else {
            let id = path[0].as_bytes();
            if !(id.len() >= 3 && bytes_eq(slice_subrange(id, 0, 3), "PWM".as_bytes())) {
                Err(SetError::MalformedPath)
            } else {
                let parsed = parse_u32_bytes(slice_subrange(id, 3, id.len()));
                match parsed {
                    Some(v) => if !(1 <= v && v <= 6) {
                        Err(SetError::MalformedPath)
                    } else {
                        let index = (v - 1) as usize;
                        let mut entry = self.0[index];
                        let r = entry.1.set(slice_subrange(path, 1, path.len()), value);
                        let mut arr = self.0;
                        arr[index] = entry;
                        self.0 = arr;
                        proof {
                            assert(self.0 =~= vstd::array::spec_array_update(
                                old(self).0,
                                index as int,
                                (old(self).0@[index as int].0, entry.1),
                            ));
                        }
                        r
                    },
                    None => Err(SetError::MalformedPath),
                }
            }
        }
    }
}


} // verus!
