//! Driver core for a DHT20/AHT20-family humidity and temperature sensor on a
//! two-wire serial bus: CRC-8 validated frame parsing, 20-bit field
//! extraction, the calibration-reset sequence, and the trigger/poll/read
//! measurement protocol, each with a proved contract.

mod bus;
mod crc;
mod decimal;
mod driver;
mod frame;
mod scripted;

pub use bus::{BusOp, DelayMs, I2cBus};
pub use driver::{
    all_busy, busy, calibrated, init_err, init_ok, jh_reset_err, measure_crc_err, measure_err,
    measure_ok, poll_ops, poll_phase, poll_twos, reset_delays, reset_ops, status_op, trigger_op,
    twos, Dht20, Error, DHT20_ADDR, MAX_POLLS,
};
pub use crc::{crc8, crc8_over, crc8_round, crc8_rounds, crc8_update};
pub use decimal::{decimal_bytes, u8_to_decimal_buf};
pub use scripted::{entry_op, LogEntry, RecordingDelay, ScriptError, ScriptStep, ScriptedBus};
pub use frame::{
    extract_raw_humidity, extract_raw_temperature, frame_check, frame_crc_ok,
    humidity_milli_percent, pack_frame, raw_humidity_of, raw_temperature_of,
    temperature_milli_celsius, valid_frame,
};
