use dht20::{
    crc8, extract_raw_humidity, extract_raw_temperature, frame_check, humidity_milli_percent,
    pack_frame, temperature_milli_celsius, u8_to_decimal_buf, DelayMs, Dht20, Error, LogEntry,
    RecordingDelay, ScriptStep, ScriptedBus,
};

const ADDR: u8 = 0x38;

fn driver_with(script: Vec<ScriptStep>) -> Dht20<ScriptedBus, RecordingDelay> {
    Dht20::new(ScriptedBus::new(script), RecordingDelay::new())
}

fn ok_write() -> ScriptStep {
    ScriptStep::Reply(Vec::new())
}

#[test]
fn crc8_all_zero_payload() {
    // Independently computed: CRC-8 (poly 0x31, init 0xFF) of six zero bytes.
    assert_eq!(crc8(&[0, 0, 0, 0, 0, 0]), 0x6A);
}

#[test]
fn crc8_known_vectors() {
    assert_eq!(crc8(&[]), 0xFF);
    assert_eq!(crc8(&[0xBE, 0xEF]), 0x92);
    assert_eq!(crc8(&[0x1C, 0x12, 0x34, 0x5A, 0xBC, 0xDE]), 0x43);
}

#[test]
fn frame_check_accepts_valid_frame() {
    let frame = pack_frame(0x1C, 0x12345, 0xABCDE);
    assert_eq!(frame.len(), 7);
    assert_eq!(&frame[..6], &[0x1C, 0x12, 0x34, 0x5A, 0xBC, 0xDE]);
    assert_eq!(frame[6], 0x43);
    assert!(frame_check(&frame));
}

#[test]
fn frame_check_rejects_every_single_bit_flip_of_crc() {
    let frame = pack_frame(0x1C, 0x12345, 0xABCDE);
    for bit in 0..8 {
        let mut bad = frame.clone();
        bad[6] ^= 1u8 << bit;
        assert!(!frame_check(&bad));
    }
}

#[test]
fn pack_then_extract_round_trips() {
    for &(h, t) in &[
        (0u32, 0u32),
        (0xFFFFF, 0xFFFFF),
        (0x12345, 0xABCDE),
        (0x80000, 0x00001),
    ] {
        let frame = pack_frame(0x1C, h, t);
        assert!(frame_check(&frame));
        assert_eq!(extract_raw_humidity(&frame), h);
        assert_eq!(extract_raw_temperature(&frame), t);
    }
}

#[test]
fn conversion_formula_endpoints() {
    assert_eq!(humidity_milli_percent(0), 0);
    // (2^20 - 1) * 100 / 2^20 is just under 100%.
    assert_eq!(humidity_milli_percent(0xFFFFF), 99_999);
    assert_eq!(temperature_milli_celsius(0), -50_000);
    // 2^19 is mid-scale: 100 - 50 degrees.
    assert_eq!(temperature_milli_celsius(1 << 19), 50_000);
}

#[test]
fn init_skips_reset_when_calibrated() {
    // Status byte with both calibration bits (mask 0x18) set.
    let mut dht = driver_with(vec![ScriptStep::Reply(vec![0x18])]);
    assert!(dht.init().is_ok());
    let (bus, delay) = dht.free();
    assert_eq!(
        bus.log,
        vec![LogEntry::WriteRead { addr: ADDR, cmd: vec![0x71], response: vec![0x18] }]
    );
    assert_eq!(delay.delays, vec![100]);
}

#[test]
fn init_runs_reset_sequence_when_uncalibrated() {
    let mut dht = driver_with(vec![
        ScriptStep::Reply(vec![0x00]),       // status: calibration bits clear
        ok_write(),                          // write [0x1B, 0, 0]
        ScriptStep::Reply(vec![1, 2, 3]),    // read back
        ok_write(),                          // write [0xB0 | 0x1B, 2, 3]
        ok_write(),
        ScriptStep::Reply(vec![4, 5, 6]),
        ok_write(),
        ok_write(),
        ScriptStep::Reply(vec![7, 8, 9]),
        ok_write(),
    ]);
    assert!(dht.init().is_ok());
    let (bus, delay) = dht.free();
    assert_eq!(
        bus.log,
        vec![
            LogEntry::WriteRead { addr: ADDR, cmd: vec![0x71], response: vec![0x00] },
            LogEntry::Write { addr: ADDR, data: vec![0x1B, 0x00, 0x00] },
            LogEntry::Read { addr: ADDR, data: vec![1, 2, 3] },
            LogEntry::Write { addr: ADDR, data: vec![0xB0 | 0x1B, 2, 3] },
            LogEntry::Write { addr: ADDR, data: vec![0x1C, 0x00, 0x00] },
            LogEntry::Read { addr: ADDR, data: vec![4, 5, 6] },
            LogEntry::Write { addr: ADDR, data: vec![0xB0 | 0x1C, 5, 6] },
            LogEntry::Write { addr: ADDR, data: vec![0x1E, 0x00, 0x00] },
            LogEntry::Read { addr: ADDR, data: vec![7, 8, 9] },
            LogEntry::Write { addr: ADDR, data: vec![0xB0 | 0x1E, 8, 9] },
        ]
    );
    assert_eq!(delay.delays, vec![100, 5, 10, 5, 10, 5, 10, 10]);
}

#[test]
fn init_propagates_status_read_failure() {
    let mut dht = driver_with(vec![ScriptStep::Fail]);
    assert!(matches!(dht.init(), Err(Error::I2c(_))));
    let (bus, delay) = dht.free();
    assert!(bus.log.is_empty());
    assert_eq!(delay.delays, vec![100]);
}

#[test]
fn init_short_circuits_on_reset_read_back_failure() {
    let mut dht = driver_with(vec![
        ScriptStep::Reply(vec![0x00]), // uncalibrated status
        ok_write(),                    // write [0x1B, 0, 0]
        ScriptStep::Fail,              // read back fails
    ]);
    assert!(matches!(dht.init(), Err(Error::I2c(_))));
    let (bus, delay) = dht.free();
    assert_eq!(
        bus.log,
        vec![
            LogEntry::WriteRead { addr: ADDR, cmd: vec![0x71], response: vec![0x00] },
            LogEntry::Write { addr: ADDR, data: vec![0x1B, 0x00, 0x00] },
        ]
    );
    // No write-back and no second reset was attempted after the failure.
    assert_eq!(delay.delays, vec![100, 5]);
}

#[test]
fn read_returns_raw_fields_of_valid_frame() {
    let frame = pack_frame(0x1C, 0x12345, 0xABCDE);
    let mut dht = driver_with(vec![
        ok_write(),                          // trigger command
        ScriptStep::Reply(vec![0x1C]),       // status: not busy
        ScriptStep::Reply(frame.clone()),    // 7-byte frame
    ]);
    assert_eq!(dht.read().unwrap(), (0x12345, 0xABCDE));
    let (bus, delay) = dht.free();
    assert_eq!(
        bus.log,
        vec![
            LogEntry::Write { addr: ADDR, data: vec![0xAC, 0x33, 0x00] },
            LogEntry::WriteRead { addr: ADDR, cmd: vec![0x71], response: vec![0x1C] },
            LogEntry::Read { addr: ADDR, data: frame },
        ]
    );
    assert_eq!(delay.delays, vec![85]);
}

#[test]
fn read_polls_while_busy() {
    let frame = pack_frame(0x1C, 0, 0);
    let mut dht = driver_with(vec![
        ok_write(),
        ScriptStep::Reply(vec![0x80 | 0x1C]), // busy
        ScriptStep::Reply(vec![0x80 | 0x1C]), // still busy
        ScriptStep::Reply(vec![0x1C]),        // done
        ScriptStep::Reply(frame),
    ]);
    assert_eq!(dht.read().unwrap(), (0, 0));
    let (bus, delay) = dht.free();
    assert_eq!(bus.log.len(), 5);
    // 85 ms nominal wait, then a 2 ms pause after each busy poll.
    assert_eq!(delay.delays, vec![85, 2, 2]);
}

#[test]
fn read_falls_through_to_frame_read_at_poll_cap() {
    // A device that never clears its busy flag: after MAX_POLLS status
    // reads the driver stops polling and reads the frame anyway, and the
    // checksum decides.
    let frame = pack_frame(0x9C, 0x12345, 0xABCDE);
    let mut script = vec![ok_write()];
    for _ in 0..dht20::MAX_POLLS {
        script.push(ScriptStep::Reply(vec![0x80 | 0x1C]));
    }
    script.push(ScriptStep::Reply(frame));
    let mut dht = driver_with(script);
    assert_eq!(dht.read().unwrap(), (0x12345, 0xABCDE));
    let (bus, delay) = dht.free();
    assert_eq!(bus.log.len(), 1 + dht20::MAX_POLLS + 1);
    assert_eq!(delay.delays.len(), 1 + dht20::MAX_POLLS);
}

#[test]
fn read_rejects_corrupt_frame() {
    let mut frame = pack_frame(0x1C, 0x12345, 0xABCDE);
    frame[6] ^= 0x01;
    let mut dht = driver_with(vec![
        ok_write(),
        ScriptStep::Reply(vec![0x1C]),
        ScriptStep::Reply(frame),
    ]);
    assert!(matches!(dht.read(), Err(Error::CrcMismatch)));
}

#[test]
fn read_rejects_frame_with_corrupt_payload() {
    let mut frame = pack_frame(0x1C, 0x12345, 0xABCDE);
    frame[2] ^= 0x40;
    let mut dht = driver_with(vec![
        ok_write(),
        ScriptStep::Reply(vec![0x1C]),
        ScriptStep::Reply(frame),
    ]);
    assert!(matches!(dht.read(), Err(Error::CrcMismatch)));
}

#[test]
fn read_propagates_trigger_failure_without_polling() {
    let mut dht = driver_with(vec![ScriptStep::Fail]);
    assert!(matches!(dht.read(), Err(Error::I2c(_))));
    let (bus, delay) = dht.free();
    assert!(bus.log.is_empty());
    assert!(delay.delays.is_empty());
}

#[test]
fn read_propagates_poll_failure_without_reading_frame() {
    let mut dht = driver_with(vec![ok_write(), ScriptStep::Fail]);
    assert!(matches!(dht.read(), Err(Error::I2c(_))));
    let (bus, delay) = dht.free();
    assert_eq!(bus.log, vec![LogEntry::Write { addr: ADDR, data: vec![0xAC, 0x33, 0x00] }]);
    assert_eq!(delay.delays, vec![85]);
}

#[test]
fn read_propagates_frame_read_failure() {
    let mut dht = driver_with(vec![ok_write(), ScriptStep::Reply(vec![0x1C]), ScriptStep::Fail]);
    assert!(matches!(dht.read(), Err(Error::I2c(_))));
    let (bus, _) = dht.free();
    assert_eq!(bus.log.len(), 2);
}

#[test]
fn scripted_bus_fails_read_on_wrong_reply_length() {
    // The frame read asks for 7 bytes; a 3-byte reply cannot answer it.
    let mut dht = driver_with(vec![ok_write(), ScriptStep::Reply(vec![0x1C]), ScriptStep::Reply(vec![1, 2, 3])]);
    assert!(matches!(dht.read(), Err(Error::I2c(_))));
}

#[test]
fn delay_mut_lends_the_timer_back() {
    let mut dht = driver_with(Vec::new());
    dht.delay_mut().delay_ms(400);
    let (bus, delay) = dht.free();
    assert!(bus.log.is_empty());
    assert_eq!(delay.delays, vec![400]);
}

#[test]
fn decimal_rendering() {
    assert_eq!(u8_to_decimal_buf(0), b"0".to_vec());
    assert_eq!(u8_to_decimal_buf(7), b"7".to_vec());
    assert_eq!(u8_to_decimal_buf(10), b"10".to_vec());
    assert_eq!(u8_to_decimal_buf(42), b"42".to_vec());
    assert_eq!(u8_to_decimal_buf(99), b"99".to_vec());
    assert_eq!(u8_to_decimal_buf(100), b"100".to_vec());
}
