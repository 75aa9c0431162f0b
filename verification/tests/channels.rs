use pro_flight::datastructures::overwriting::{OverwritingData, OverwritingDataSource};
use pro_flight::datastructures::singular::{SingularData, SingularDataSource};

#[test]
fn test_ring_buffer() {
    let mut ring: OverwritingData<usize> = OverwritingData::sized(32);
    let mut reader = OverwritingDataSource::new(&ring);

    assert_eq!(reader.read(&ring), None);

    ring.write(10086);
    assert_eq!(reader.read(&ring), Some(10086));

    ring.write(10010);
    assert_eq!(reader.read(&ring), Some(10010));

    for i in 1..33 {
        ring.write(i);
    }

    assert_eq!(reader.read(&ring), Some(1));
    assert_eq!(reader.read(&ring), Some(2));
}

#[test]
fn test_ring_buffer_as_static() {
    let mut ring: OverwritingData<usize> = OverwritingData::sized(32);
    let reader = OverwritingDataSource::new(&ring);

    ring.set_sequence(usize::MAX);
    ring.write(10010);
    ring.write(10086);
    assert_eq!(reader.read_latest(&ring), 10086);
}

#[test]
fn no_loss_within_capacity() {
    // N <= C: a reader receives exactly the N values in write order.
    let mut ring: OverwritingData<u32> = OverwritingData::sized(4);
    let mut reader = OverwritingDataSource::new(&ring);
    ring.write(7);
    ring.write(8);
    ring.write(9);
    assert_eq!(reader.read(&ring), Some(7));
    assert_eq!(reader.read(&ring), Some(8));
    assert_eq!(reader.read(&ring), Some(9));
    assert_eq!(reader.read(&ring), None);
}

#[test]
fn overrun_keeps_last_capacity() {
    // Concrete scenario: capacity 32, write 1..=40, a reader starting at
    // zero gets 9 first, then 10, 11, ... up to 40, each exactly once.
    let mut ring: OverwritingData<u32> = OverwritingData::sized(32);
    let mut reader = OverwritingDataSource::new(&ring);
    for i in 1..=40 {
        ring.write(i);
    }
    assert_eq!(reader.read(&ring), Some(9));
    for expected in 10..=40 {
        assert_eq!(reader.read(&ring), Some(expected));
    }
    assert_eq!(reader.read(&ring), None);
}

#[test]
fn reader_from_new_sees_only_later_writes() {
    let mut ring: OverwritingData<u32> = OverwritingData::sized(8);
    ring.write(1);
    ring.write(2);
    let mut reader = OverwritingDataSource::new(&ring);
    assert_eq!(reader.read(&ring), None);
    ring.write(3);
    assert_eq!(reader.read(&ring), Some(3));
}

#[test]
fn zero_capacity_channel_ignores_writes() {
    let mut ring: OverwritingData<u32> = OverwritingData::new(Vec::new());
    let mut reader = OverwritingDataSource::new(&ring);
    ring.write(5);
    assert_eq!(reader.read(&ring), None);
}

#[test]
fn singular_returns_latest_regardless_of_reads() {
    // After writes v1, ..., vk any read returns vk exactly, however many
    // reads happened in between; before the first write there is nothing.
    let mut slot: SingularData<u16> = SingularData::default();
    let reader = SingularDataSource::new(&slot);
    assert_eq!(reader.read(&slot), None);
    slot.write(1);
    assert_eq!(reader.read(&slot), Some(1));
    assert_eq!(reader.read(&slot), Some(1));
    slot.write(2);
    slot.write(3);
    assert_eq!(reader.read(&slot), Some(3));
    assert_eq!(reader.read(&slot), Some(3));
}
