use pro_flight::components::event::Notify;
use pro_flight::datastructures::input::{InputConfig, InputType};
use pro_flight::drivers::sbus::{scale, to_axis, SbusReceiver};

const FRAME: [u8; 25] = [
    0x0F, 0xE0, 0x03, 0x1F, 0x58, 0xC0, 0x07, 0x16, 0xB0, 0x80, 0x05, 0x2C, 0x60, 0x01, 0x0B,
    0xF8, 0xC0, 0x07, 0x00, 0x00, 0x00, 0x00, 0x00, 0x03, 0x00,
];

fn input_config() -> Vec<InputConfig> {
    vec![
        InputConfig { input_type: InputType::Throttle, channel: 0, scale: 100 },
        InputConfig { input_type: InputType::Roll, channel: 1, scale: 100 },
        InputConfig { input_type: InputType::Pitch, channel: 2, scale: 100 },
        InputConfig { input_type: InputType::Yaw, channel: 3, scale: 50 },
    ]
}

#[test]
fn to_axis_maps_the_channel_range() {
    assert_eq!(to_axis(0x400), 0);
    assert_eq!(to_axis(0), -32768);
    assert_eq!(to_axis(2047), 32736);
}

#[test]
fn scale_saturates_to_i16() {
    assert_eq!(scale(0x400, 100), 0);
    assert_eq!(scale(0, 100), -32768);
    assert_eq!(scale(2047, 100), 32736);
    assert_eq!(scale(2047, 50), 16368);
    // a scale above one hundred percent drives the value into saturation
    assert_eq!(scale(2047, 200), i16::MAX);
    assert_eq!(scale(0, 200), i16::MIN);
}

#[test]
fn frame_in_ring_is_decoded_and_published() {
    // lay the frame into the first half of a DMA ring
    let mut ring = [0xFFu8; 64];
    ring[3..28].copy_from_slice(&FRAME);
    let mut receiver = SbusReceiver::new();
    let inputs = input_config();
    receiver.handle(&ring, true, &inputs);

    let input = receiver.input_reader().read(&receiver.control_input).unwrap();
    // the sample frame carries channels [992, 992, 352, 992, ...]
    assert_eq!(input.throttle, scale(992, 100));
    assert_eq!(input.roll, scale(992, 100));
    assert_eq!(input.pitch, scale(352, 100));
    assert_eq!(input.yaw, scale(992, 50));
    assert_eq!(receiver.rssi_reader().read(&receiver.rssi), Some(100));
    assert_eq!(receiver.counter, 1);
}

#[test]
fn ring_without_frame_publishes_nothing() {
    let ring = [0xFFu8; 64];
    let mut receiver = SbusReceiver::new();
    let inputs = input_config();
    receiver.handle(&ring, true, &inputs);
    receiver.handle(&ring, false, &inputs);
    assert_eq!(receiver.input_reader().read(&receiver.control_input), None);
    assert_eq!(receiver.rssi_reader().read(&receiver.rssi), None);
    assert_eq!(receiver.counter, 0);
}

#[test]
fn frame_split_across_the_ring_boundary() {
    // the frame wraps around the end of the ring, as a DMA ring leaves it
    let mut ring = [0xFFu8; 64];
    ring[54..64].copy_from_slice(&FRAME[..10]);
    ring[0..15].copy_from_slice(&FRAME[10..]);
    let mut receiver = SbusReceiver::new();
    let inputs = input_config();
    receiver.handle(&ring, true, &inputs);
    let input = receiver.input_reader().read(&receiver.control_input).unwrap();
    assert_eq!(input.throttle, scale(992, 100));
}

struct Flag(std::rc::Rc<std::cell::Cell<bool>>);

impl Notify for Flag {
    fn notify(&mut self) {
        self.0.set(true);
    }
}

#[test]
fn decoded_frame_fires_the_notify_trigger() {
    let fired = std::rc::Rc::new(std::cell::Cell::new(false));
    let mut ring = [0u8; 32];
    ring[0..25].copy_from_slice(&FRAME);
    let mut receiver = SbusReceiver::new();
    receiver.set_notify(Box::new(Flag(std::rc::Rc::clone(&fired))));
    let inputs = input_config();
    // the footer byte sits in the second half of the ring
    receiver.handle(&ring, false, &inputs);
    assert!(fired.get());
}

#[test]
fn channels_out_of_range_are_skipped() {
    let mut ring = [0u8; 32];
    ring[0..25].copy_from_slice(&FRAME);
    let mut receiver = SbusReceiver::new();
    let inputs = vec![InputConfig { input_type: InputType::Roll, channel: 16, scale: 100 }];
    receiver.handle(&ring, false, &inputs);
    let input = receiver.input_reader().read(&receiver.control_input).unwrap();
    assert_eq!(input.roll, 0);
}
