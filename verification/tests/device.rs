use cycle_examples::device::{device_test, device_test_sum, Device};

#[test]
fn reset_device_reads_zeroes() {
    let mut device = Device::reset();
    let count = device.received(8);
    assert_eq!(count, 8);
    for _ in 0..count {
        assert_eq!(device.data(), 0);
    }
}

#[test]
fn received_rewinds_the_cursor() {
    let mut device = Device::reset();
    device.received(3);
    device.data();
    device.data();
    device.data();
    // Reporting a new reception rewinds the cursor to the start.
    device.received(1);
    assert_eq!(device.data(), 0);
}

#[test]
fn drain_of_empty_report() {
    device_test(0);
    assert_eq!(device_test_sum(0), 0);
}

#[test]
fn drain_of_full_buffer() {
    device_test(8);
    assert_eq!(device_test_sum(8), 0);
}

#[test]
fn drain_of_partial_reports() {
    for n in 0..=8u8 {
        device_test(n);
        assert_eq!(device_test_sum(n), 0);
    }
}
