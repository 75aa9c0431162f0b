use pro_flight::config::aircraft::{Aircraft, Configuration};
use pro_flight::config::battery::Battery;
use pro_flight::config::imu::{Mahony, IMU};
use pro_flight::config::osd::{AspectRatio, Offset, Standard, OSD};
use pro_flight::config::output::{
    Identifier, Motor, Output, Outputs, Protocol, Servo, ServoType,
};
use pro_flight::config::setter::{SetError, Setter};
use pro_flight::datastructures::decimal::IntegerDecimal;

#[test]
fn aircraft_set_configuration() {
    let mut aircraft = Aircraft::default();
    assert_eq!(aircraft.set(&["configuration"], Some("airplane")), Ok(()));
    assert!(matches!(aircraft.configuration, Configuration::Airplane));
    assert_eq!(aircraft.set(&["configuration"], None), Err(SetError::ExpectValue));
    assert_eq!(aircraft.set(&["wings"], Some("two")), Err(SetError::MalformedPath));
    assert_eq!(Configuration::Airplane.as_str(), "airplane");
}

#[test]
fn battery_defaults_and_set() {
    let mut battery = Battery::default();
    assert_eq!(battery.cells, 0);
    assert_eq!(battery.min_cell_voltage, IntegerDecimal::new(33, 1));
    assert_eq!(battery.set(&["cells"], Some("4")), Ok(()));
    assert_eq!(battery.cells, 4);
    assert_eq!(battery.set(&["cells"], Some("300")), Err(SetError::UnexpectedValue));
    assert_eq!(battery.set(&["cells"], Some("x")), Err(SetError::UnexpectedValue));
    assert_eq!(battery.set(&["min-cell-voltage"], Some("3.0")), Ok(()));
    assert_eq!(battery.min_cell_voltage, IntegerDecimal::new(30, 1));
    assert_eq!(battery.set(&["cells"], None), Err(SetError::ExpectValue));
    assert_eq!(battery.set(&[], Some("1")), Err(SetError::MalformedPath));
}

#[test]
fn decimal_parsing() {
    assert_eq!(IntegerDecimal::from("3.3"), IntegerDecimal::new(33, 1));
    assert_eq!(IntegerDecimal::from("0.005"), IntegerDecimal::new(5, 3));
    assert_eq!(IntegerDecimal::from("-1.5"), IntegerDecimal::new(-15, 1));
    assert_eq!(IntegerDecimal::from("16.0"), IntegerDecimal::new(160, 1));
    assert_eq!(IntegerDecimal::from("25"), IntegerDecimal::new(25, 0));
    assert_eq!(IntegerDecimal::from("-25"), IntegerDecimal::new(-25, 0));
    assert_eq!(IntegerDecimal::from("volts"), IntegerDecimal::new(0, 0));
    assert_eq!(IntegerDecimal::from(""), IntegerDecimal::new(0, 0));
    assert_eq!(IntegerDecimal::from("1.0000000000"), IntegerDecimal::new(0, 0));
}

#[test]
fn imu_defaults() {
    let imu = IMU::default();
    assert_eq!(imu.mahony, Mahony { kp: IntegerDecimal::new(25, 2), ki: IntegerDecimal::new(5, 3) });
    assert_eq!(imu.accelerometer.sensitive, IntegerDecimal::new(0, 0));
}

#[test]
fn osd_defaults() {
    let osd = OSD::default();
    assert_eq!(osd.fov, 120);
    assert_eq!(osd.aspect_ratio, AspectRatio(16, 9));
    assert_eq!(osd.standard, Standard::PAL);
    assert_eq!(osd.offset, Offset { horizental: 0, vertical: 0 });
    assert_eq!(Standard::from("NTSC"), Standard::NTSC);
    assert_eq!(Standard::from("pal"), Standard::PAL);
    assert_eq!(Standard::NTSC.as_str(), "NTSC");
}

#[test]
fn identifier_parsing_and_rendering() {
    assert_eq!(Identifier::from("PWM3"), Identifier::PWM(3));
    assert_eq!(Identifier::from("PWM"), Identifier::PWM(0));
    assert_eq!(Identifier::from("LED2"), Identifier::PWM(0));
    assert_eq!(Identifier::from("PWM999"), Identifier::PWM(0));
    assert!(bool::from(Identifier::PWM(1)));
    assert!(!bool::from(Identifier::PWM(0)));
    assert_eq!(Identifier::PWM(3).to_string(), "PWM3");
}

#[test]
fn output_rate_and_type_changes() {
    let motor = Output::Motor(Motor::new(Protocol::PWM, 0, 400));
    assert_eq!(motor.rate(), 400);
    let servo = Output::Servo(Servo::of(ServoType::Elevator));
    assert_eq!(servo.rate(), 50);

    let mut output = Output::Unassigned;
    assert_eq!(output.set(&["type"], Some("motor")), Ok(()));
    assert_eq!(output, Output::Motor(Motor::default()));
    assert_eq!(output.set(&["type"], Some("rudder")), Ok(()));
    assert_eq!(output, Output::Servo(Servo::of(ServoType::Rudder)));
    assert_eq!(output.set(&["type"], Some("wheel")), Err(SetError::UnexpectedValue));
}

#[test]
fn servo_trim_bounds() {
    let mut output = Output::Servo(Servo::of(ServoType::AileronLeft));
    assert_eq!(output.set(&["center-angle"], Some("15")), Ok(()));
    assert_eq!(output, Output::Servo(Servo::new(ServoType::AileronLeft, 15, false)));
    assert_eq!(output.set(&["center-angle"], Some("-90")), Ok(()));
    assert_eq!(output.set(&["center-angle"], Some("91")), Err(SetError::UnexpectedValue));
    assert_eq!(output.set(&["center-angle"], Some("-91")), Err(SetError::UnexpectedValue));
    assert_eq!(output.set(&["center-angle"], Some("up")), Err(SetError::UnexpectedValue));
    assert_eq!(output.set(&["reversed"], Some("true")), Ok(()));
    assert_eq!(output, Output::Servo(Servo::new(ServoType::AileronLeft, -90, true)));
    let mut motor = Output::Motor(Motor::default());
    assert_eq!(motor.set(&["center-angle"], Some("10")), Err(SetError::MalformedPath));
    assert_eq!(motor.set(&["reversed"], Some("true")), Err(SetError::MalformedPath));
    assert_eq!(motor.set(&["type"], None), Err(SetError::ExpectValue));
}

#[test]
fn outputs_table() {
    let mut outputs = Outputs::default();
    assert_eq!(outputs.len(), 0);
    assert_eq!(outputs.get("PWM1"), None);

    outputs.0[0] = (Identifier::PWM(1), Output::Motor(Motor::default()));
    outputs.0[1] = (Identifier::PWM(3), Output::Servo(Servo::of(ServoType::Rudder)));
    assert_eq!(outputs.len(), 2);
    assert_eq!(outputs.get("PWM1"), Some(Output::Motor(Motor::default())));
    assert_eq!(outputs.get("PWM3"), Some(Output::Servo(Servo::of(ServoType::Rudder))));
    assert_eq!(outputs.get("PWM2"), None);
    assert_eq!(outputs.get("PWM0"), None);

    assert_eq!(outputs.set(&["PWM1", "type"], Some("elevator")), Ok(()));
    assert_eq!(outputs.get("PWM1"), Some(Output::Servo(Servo::of(ServoType::Elevator))));
    assert_eq!(outputs.set(&["PWM7", "type"], Some("motor")), Err(SetError::MalformedPath));
    assert_eq!(outputs.set(&["PWM0", "type"], Some("motor")), Err(SetError::MalformedPath));
    assert_eq!(outputs.set(&["SERVO1", "type"], Some("motor")), Err(SetError::MalformedPath));
    assert_eq!(outputs.set(&[], Some("motor")), Err(SetError::MalformedPath));
}
