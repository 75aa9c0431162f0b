use core::str::FromStr;

use pro_flight::chips::stm32f4::{valid_memory_address, BaudrateControl};
use pro_flight::components::cli::{find_command, Command, CLI};
use pro_flight::components::memory;
use pro_flight::datastructures::measurement::{
    Acceleration, Altitude, Axes, HeadingOrCourse, Measurement, Pressure,
};
use pro_flight::datastructures::{GNSSFixed, Ratio};
use pro_flight::drivers::terminal::Terminal;
use pro_flight::sys::jiffies::Jiffies;
use pro_flight::text::{format_u32, format_u32_pad};

#[test]
fn axes_arithmetic() {
    let a = Axes { x: 10, y: 20, z: 30 };
    let b = Axes { x: 1, y: 2, z: 3 };
    assert_eq!(a + b, Axes { x: 11, y: 22, z: 33 });
    assert_eq!(a - b, Axes { x: 9, y: 18, z: 27 });
    assert_eq!(a * b, Axes { x: 10, y: 40, z: 90 });
    assert_eq!(a / 10, Axes { x: 1, y: 2, z: 3 });
    assert_eq!(Axes { x: -7, y: 7, z: -6 } / 2, Axes { x: -3, y: 3, z: -3 });
    assert_eq!(Axes { x: -7, y: 7, z: -6 } / -2, Axes { x: 3, y: -3, z: 3 });
    assert!(a > b);
    assert!(b < a);
}

#[test]
fn measurement_calibration() {
    let m = Measurement { axes: Axes { x: 100, y: 200, z: 300 }, sensitive: 10 };
    let calibrated = m.calibrated(&Axes { x: 10, y: 20, z: 30 });
    assert_eq!(calibrated.axes, Axes { x: 90, y: 180, z: 270 });
    assert_eq!(calibrated.sensitive, 10);
    assert_eq!(Measurement::default().sensitive, 1);
}

#[test]
fn acceleration_g_force() {
    // |(300, 400, 0)| = 500; at sensitivity 100 that is 5.0 g
    let a = Acceleration(Measurement { axes: Axes { x: 300, y: 400, z: 0 }, sensitive: 100 });
    assert_eq!(a.g_force(), 50);
    let rest = Acceleration(Measurement { axes: Axes { x: 0, y: 0, z: 0 }, sensitive: 100 });
    assert_eq!(rest.g_force(), 0);
    // a negative sensitivity divides toward zero and the word truncates
    let inverted = Acceleration(Measurement { axes: Axes { x: 300, y: 400, z: 0 }, sensitive: -100 });
    assert_eq!(inverted.g_force(), (-50i32) as u8);
}

#[test]
fn acceleration_calibrated() {
    let a = Acceleration(Measurement { axes: Axes { x: 110, y: 210, z: 310 }, sensitive: 10 });
    let zero = Axes { x: 10, y: 10, z: 10 };
    let gain = Axes { x: 1, y: 2, z: 1 };
    let c = a.calibrated(&zero, &gain);
    assert_eq!(c.0.axes, Axes { x: 10, y: 40, z: 30 });
    let n = Acceleration(Measurement { axes: Axes { x: 100, y: -100, z: 5 }, sensitive: -10 });
    let cn = n.calibrated(&Axes { x: 0, y: 0, z: 0 }, &Axes { x: 1, y: 1, z: 1 });
    assert_eq!(cn.0.axes, Axes { x: -10, y: 10, z: 0 });
}

#[test]
fn pressure_to_altitude() {
    // standard pressure reads as zero altitude; 8.2 cm per pascal below it
    assert_eq!(Altitude::from(Pressure(101325)), Altitude(0));
    assert_eq!(Altitude::from(Pressure(100325)), Altitude(8200));
    assert_eq!(Altitude::from(Pressure(102325)), Altitude(-8200));
}

#[test]
fn heading_or_course_round_trip() {
    assert_eq!(HeadingOrCourse::Heading(90).or_course(), 90);
    assert_eq!(HeadingOrCourse::Course(270).or_course(), 270);
    let carried: u16 = HeadingOrCourse::Course(270).into();
    assert_eq!(carried, u16::MAX - 270);
    assert!(matches!(HeadingOrCourse::from(carried), HeadingOrCourse::Course(270)));
    assert!(matches!(HeadingOrCourse::from(360u16), HeadingOrCourse::Heading(360)));
    assert!(matches!(HeadingOrCourse::default(), HeadingOrCourse::Course(0)));
}

#[test]
fn ratio_parsing_and_rendering() {
    assert_eq!(Ratio::from_str("16:9"), Ok(Ratio(16, 9)));
    assert_eq!(Ratio::from_str("10:11:12"), Ok(Ratio(10, 11)));
    assert_eq!(Ratio::from_str("16"), Err(()));
    assert_eq!(Ratio::from_str("300:1"), Err(()));
    assert_eq!(Ratio::from_str("a:1"), Err(()));
    assert_eq!(Ratio::default(), Ratio(1, 1));
    assert_eq!(Ratio(16, 9).to_string(), "16:9");
}

#[test]
fn gnss_fixed_conversions() {
    assert_eq!(u16::from(GNSSFixed(true)), 1);
    assert_eq!(u16::from(GNSSFixed(false)), 0);
    assert_eq!(GNSSFixed::from(7u16), GNSSFixed(true));
    assert_eq!(GNSSFixed::from(0u16), GNSSFixed(false));
    assert!(bool::from(GNSSFixed(true)));
}

#[test]
fn memory_map_bounds() {
    assert!(valid_memory_address(0x2000_0000));
    assert!(valid_memory_address(0x0800_0000));
    assert!(valid_memory_address(0xE000_E008));
    assert!(!valid_memory_address(0));
    assert!(!valid_memory_address(0x3000_0000));
}

#[test]
fn baudrate_prescaler_steps() {
    assert_eq!(BaudrateControl::new(84_000_000, 42_000_000).0, 0b000);
    assert_eq!(BaudrateControl::new(84_000_000, 21_000_000).0, 0b001);
    assert_eq!(BaudrateControl::new(84_000_000, 10_500_000).0, 0b010);
    assert_eq!(BaudrateControl::new(84_000_000, 1_000_000).0, 0b101);
    assert_eq!(BaudrateControl::new(84_000_000, 328_125).0, 0b111);
}

#[test]
fn memory_command_parsing() {
    assert_eq!(memory::read("20000000"), Some(0x2000_0000));
    assert_eq!(memory::readx("e000e008 trailing"), Some(0xE000_E008));
    assert_eq!(memory::read("bogus!"), None);
    assert_eq!(memory::read(""), None);
    assert_eq!(memory::dump("20000000 16"), Some((0x2000_0000, 16)));
    assert_eq!(memory::dump("20000000"), Some((0x2000_0000, 0)));
    assert_eq!(memory::dump("0 16"), None);
    assert_eq!(memory::writex("40000000 deadbeef"), Some((0x4000_0000, 0xDEAD_BEEF)));
    assert_eq!(memory::writex("40000000"), None);
    assert_eq!(memory::writex("40000000 nothex"), None);
}

#[test]
fn terminal_line_editing() {
    let mut terminal = Terminal::new();
    let (line, echo) = terminal.receive(b"ab");
    assert!(line.is_none());
    assert_eq!(echo, b"ab".to_vec());
    let (line, echo) = terminal.receive(b"c\x08\r");
    assert_eq!(line.unwrap(), b"ab".to_vec());
    assert_eq!(echo, b"c\x08 \x08\r\n".to_vec());
}

#[test]
fn terminal_kill_word_and_escape() {
    let mut terminal = Terminal::new();
    terminal.receive(b"one two");
    // kill-word erases back through the last space
    let (_, echo) = terminal.receive(&[0x17]);
    assert_eq!(echo, b"\x08 \x08\x08 \x08\x08 \x08".to_vec());
    // an escape byte swallows the next byte
    terminal.receive(&[0x1B, b'Z']);
    let (line, _) = terminal.receive(b"\r");
    assert_eq!(line.unwrap(), b"one".to_vec());
    // backspace on an empty buffer echoes nothing
    let mut fresh = Terminal::new();
    let (_, echo) = fresh.receive(&[0x08]);
    assert!(echo.is_empty());
}

#[test]
fn cli_command_lookup() {
    let commands = [
        Command::new("dump", "Dump memory address"),
        Command::new("read", "Read memory address"),
        Command::new("version", "Get version"),
    ];
    let cli = CLI::new(&commands);
    assert_eq!(cli.commands.len(), 3);
    assert_eq!(find_command(&commands, b"read 20000000"), Some(1));
    assert_eq!(find_command(&commands, b"version"), Some(2));
    assert_eq!(find_command(&commands, b"fly"), None);
    assert_eq!(find_command(&commands, b""), None);
}

#[test]
fn jiffies_clock() {
    let mut jiffies = Jiffies::init(200);
    for _ in 0..401 {
        jiffies.tick();
    }
    let (seconds, nanos) = jiffies.get();
    assert_eq!(seconds, 2);
    assert_eq!(nanos, 1 * 5 * 1_000_000);
}

#[test]
fn decimal_rendering_helpers() {
    assert_eq!(format_u32(0), "0");
    assert_eq!(format_u32(407), "407");
    assert_eq!(format_u32_pad(7, 3), "007");
    assert_eq!(format_u32_pad(4070, 3), "4070");
}
