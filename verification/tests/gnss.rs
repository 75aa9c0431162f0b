use pro_flight::datastructures::coordinate;
use pro_flight::drivers::nav_pos_pvt::{FixType, Latitude, Longitude, NavPositionVelocityTime};

fn sample_message() -> Vec<u8> {
    let mut message = vec![
        0x00, 0x00, 0x00, 0x00, 0xE0, 0x07, 0x0A, 0x15, 0x16, 0x0D, 0x0A, 0x04, 0x01, 0x00, 0x00,
        0x00, 0x01, 0x00, 0x00, 0x00, 0x03, 0x0C, 0xE0, 0x0B, 0x86, 0xBE, 0x2F, 0xFF, 0xAD, 0x1F,
        0x21, 0x20, 0xE0, 0xF2, 0x09, 0x00, 0xA0, 0x56, 0x09, 0x00, 0x01, 0x00, 0x00, 0x00, 0x01,
        0x00, 0x00, 0x00,
    ];
    message.resize(92, 0x00);
    message
}

#[test]
fn test_ubx_nav_pos_pvt() {
    let message = sample_message();
    assert_eq!(message.len(), 92);

    let nav_pos_pvt = NavPositionVelocityTime::from_bytes(&message).unwrap();
    assert_eq!(nav_pos_pvt.year, 2016);
    let longitude: coordinate::Longitude = nav_pos_pvt.longitude.into();
    assert_eq!("W001\u{b0}21.533", longitude.to_string());
    let latitude: coordinate::Latitude = nav_pos_pvt.latitude.into();
    assert_eq!("N53\u{b0}54.150", latitude.to_string());
}

#[test]
fn nav_pos_pvt_fields_decode() {
    let message = sample_message();
    let nav = NavPositionVelocityTime::from_bytes(&message).unwrap();
    assert_eq!(nav.month, 10);
    assert_eq!(nav.day, 21);
    assert_eq!(nav.hour, 22);
    assert_eq!(nav.minute, 13);
    assert_eq!(nav.second, 10);
    assert!(!nav.valid.valid_date());
    assert!(!nav.valid.valid_time());
    assert!(nav.valid.full_resolved());
    assert!(nav.valid.valid_magnetic());
    assert_eq!(nav.time_accuracy_estimate, 1);
    assert_eq!(nav.nano, 1);
    assert_eq!(nav.fix_type, FixType::ThreeDemension);
    assert!(!nav.flags1.gnss_fix_ok());
    assert_eq!(nav.num_satellites, 11);
    assert_eq!(nav.longitude, Longitude(-13648250));
    assert_eq!(nav.latitude, Latitude(539041709));
    assert_eq!(nav.height, 652000);
    assert_eq!(nav.height_above_msl, 612000);
}

#[test]
fn short_message_is_rejected() {
    let message = vec![0u8; 91];
    assert!(NavPositionVelocityTime::from_bytes(&message).is_none());
}

#[test]
fn coordinate_rendering() {
    assert_eq!(coordinate::Longitude(-6289113).to_string(), "W001\u{b0}21.533");
    assert_eq!(coordinate::Latitude(248390419).to_string(), "N53\u{b0}54.150");
    assert_eq!(coordinate::Longitude(0).to_string(), "E000\u{b0}00.000");
    assert_eq!(coordinate::Latitude(-4608000).to_string(), "S01\u{b0}00.000");
}

#[test]
fn raw_angles_convert_to_sub_second_units() {
    let longitude: coordinate::Longitude = Longitude(-13648250).into();
    assert_eq!(longitude, coordinate::Longitude(-6289113));
    let latitude: coordinate::Latitude = Latitude(539041709).into();
    assert_eq!(latitude, coordinate::Latitude(248390419));
}
