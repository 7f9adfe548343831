//! The sensor driver: initialization with the calibration-reset sequence,
//! and the trigger/poll/read measurement cycle. Every contract states, over
//! the bus and timer histories, exactly which transactions and delays a call
//! performs, and what a returned reading is in terms of the frame read.

use vstd::prelude::*;

use crate::bus::{BusOp, DelayMs, I2cBus};
use crate::frame::{
    extract_raw_humidity, extract_raw_temperature, frame_check, frame_crc_ok, raw_humidity_of,
    raw_temperature_of, valid_frame,
};

verus! {

/// The device's fixed 7-bit bus address; the driver never addresses
/// anything else.
pub const DHT20_ADDR: u8 = 0x38;

/// The cap on status polls in one measurement. The device clears its busy
/// flag within milliseconds of finishing a conversion, so at one poll every
/// 2 ms the cap is two minutes of polling; a device that stays busy that
/// long is not going to answer, and the measurement falls through to the
/// frame read, whose checksum then rejects the garbage.
pub const MAX_POLLS: usize = 60000;

/// What a driver operation fails with: a transport error propagated
/// verbatim, or a frame whose trailing byte did not match the CRC-8 of its
/// first six. The driver retries neither.
#[derive(Debug)]
pub enum Error<E> {
    /// A bus transaction did not complete.
    I2c(E),
    /// The measurement frame failed its checksum.
    CrcMismatch,
}

/// Driver for a DHT20/AHT20-family sensor: exclusive owner of a bus port
/// and a delay timer.
pub struct Dht20<I2C, D> {
    i2c: I2C,
    delay: D,
}

/// Status bit 7: a measurement is still in progress.
pub open spec fn busy(s: u8) -> bool {
    s & 0x80 != 0
}

/// Status bits 3 and 4: the calibration coefficients are loaded.
pub open spec fn calibrated(s: u8) -> bool {
    s & 0x18 == 0x18
}

/// The status-byte query: write the status register address, read one byte
/// back, here answered with `s`.
pub open spec fn status_op(s: u8) -> BusOp {
    BusOp::WriteRead { addr: DHT20_ADDR, cmd: seq![0x71u8], response: seq![s] }
}

/// The trigger-measurement command: opcode 0xAC with its two fixed
/// parameter bytes.
pub open spec fn trigger_op() -> BusOp {
    BusOp::Write { addr: DHT20_ADDR, data: seq![0xACu8, 0x33u8, 0x00u8] }
}

/// The three transactions of one calibration reset of register `reg` whose
/// read-back was `rb`: write zeroes to the register, read three bytes back,
/// then write the 0xB0 command nibble merged with the register address,
/// echoing the two low read-back bytes unchanged.
pub open spec fn reset_ops(reg: u8, rb: Seq<u8>) -> Seq<BusOp> {
    seq![
        BusOp::Write { addr: DHT20_ADDR, data: seq![reg, 0x00u8, 0x00u8] },
        BusOp::Read { addr: DHT20_ADDR, data: rb },
        BusOp::Write { addr: DHT20_ADDR, data: seq![0xB0u8 | reg, rb[1], rb[2]] },
    ]
}

/// The delays of one calibration reset: 5 ms after the zero write, 10 ms
/// after the read-back.
pub open spec fn reset_delays() -> Seq<u32> {
    seq![5u32, 10u32]
}

/// `n` repetitions of the 2 ms poll pause.
pub open spec fn twos(n: nat) -> Seq<u32> {
    Seq::new(n, |i: int| 2u32)
}

/// The status polls `polls`, as transactions.
pub open spec fn poll_ops(polls: Seq<u8>) -> Seq<BusOp> {
    Seq::new(polls.len(), |i: int| status_op(polls[i]))
}

/// Every status byte in `polls` has the busy bit set.
pub open spec fn all_busy(polls: Seq<u8>) -> bool {
    forall|i: int| 0 <= i < polls.len() ==> busy(#[trigger] polls[i])
}

/// A finished poll phase: at least one status read, every one but the last
/// answering busy, and the last either not busy or the poll cap reached.
pub open spec fn poll_phase(polls: Seq<u8>) -> bool {
    &&& 1 <= polls.len() <= MAX_POLLS
    &&& all_busy(polls.drop_last())
    &&& (!busy(polls.last()) || polls.len() == MAX_POLLS)
}

/// The 2 ms pauses of a finished poll phase: one after every busy poll.
pub open spec fn poll_twos(polls: Seq<u8>) -> Seq<u32> {
    if busy(polls.last()) {
        twos(polls.len())
    } else {
        twos((polls.len() - 1) as nat)
    }
}

/// How a calibration reset of `reg` that failed with a transport error left
/// the histories: it stopped at the failing transaction, performing nothing
/// after it.
pub open spec fn jh_reset_err(
    reg: u8,
    ops0: Seq<BusOp>,
    ops1: Seq<BusOp>,
    dl0: Seq<u32>,
    dl1: Seq<u32>,
) -> bool {
    ||| (ops1 == ops0 && dl1 == dl0)
    ||| (ops1 == ops0 + reset_ops(reg, Seq::<u8>::empty()).take(1) && dl1 == dl0.push(5u32))
    ||| (exists|rb: Seq<u8>| #![auto]
        rb.len() == 3 && ops1 == ops0 + reset_ops(reg, rb).take(2) && dl1 == dl0 + reset_delays())
}

/// How a successful `init` left the histories: the power-up delay and one
/// status query; when that answered uncalibrated, also the three
/// calibration resets of registers 0x1B, 0x1C and 0x1E in that order and
/// the closing 10 ms delay.
pub open spec fn init_ok(ops0: Seq<BusOp>, ops1: Seq<BusOp>, dl0: Seq<u32>, dl1: Seq<u32>) -> bool {
    exists|s: u8| #![auto]
        {
            ||| (calibrated(s) && ops1 == ops0.push(status_op(s)) && dl1 == dl0.push(100u32))
            ||| (!calibrated(s) && exists|r1: Seq<u8>, r2: Seq<u8>, r3: Seq<u8>| #![auto]
                r1.len() == 3 && r2.len() == 3 && r3.len() == 3
                    && ops1 == ops0.push(status_op(s)) + reset_ops(0x1B, r1) + reset_ops(0x1C, r2)
                    + reset_ops(0x1E, r3)
                    && dl1 == dl0.push(100u32) + reset_delays() + reset_delays() + reset_delays()
                    + seq![10u32])
        }
}

/// How an `init` that failed with a transport error left the histories: it
/// short-circuited at the failing step, performing nothing after it.
pub open spec fn init_err(ops0: Seq<BusOp>, ops1: Seq<BusOp>, dl0: Seq<u32>, dl1: Seq<u32>) -> bool {
    ||| (ops1 == ops0 && dl1 == dl0.push(100u32))
    ||| (exists|s: u8| #![auto]
        !calibrated(s) && {
            let opsb = ops0.push(status_op(s));
            let dlb = dl0.push(100u32);
            ||| jh_reset_err(0x1B, opsb, ops1, dlb, dl1)
            ||| (exists|r1: Seq<u8>| #![auto]
                r1.len() == 3 && jh_reset_err(
                    0x1C,
                    opsb + reset_ops(0x1B, r1),
                    ops1,
                    dlb + reset_delays(),
                    dl1,
                ))
            ||| (exists|r1: Seq<u8>, r2: Seq<u8>| #![auto]
                r1.len() == 3 && r2.len() == 3 && jh_reset_err(
                    0x1E,
                    opsb + reset_ops(0x1B, r1) + reset_ops(0x1C, r2),
                    ops1,
                    dlb + reset_delays() + reset_delays(),
                    dl1,
                ))
        })
}

/// How a successful measurement left the histories, and what it returned:
/// the trigger, the nominal wait, a finished poll phase, and the frame
/// read; the frame passed its checksum and the raw fields are its bit
/// extraction.
pub open spec fn measure_ok(
    ops0: Seq<BusOp>,
    ops1: Seq<BusOp>,
    dl0: Seq<u32>,
    dl1: Seq<u32>,
    h: u32,
    t: u32,
) -> bool {
    exists|polls: Seq<u8>, frame: Seq<u8>| #![auto]
        poll_phase(polls) && valid_frame(frame) && h == raw_humidity_of(frame) && t
            == raw_temperature_of(frame) && ops1 == ops0.push(trigger_op()) + poll_ops(polls)
            + seq![BusOp::Read { addr: DHT20_ADDR, data: frame }] && dl1 == dl0.push(85u32)
            + poll_twos(polls)
}

/// How a measurement that read a corrupt frame left the histories: the full
/// cycle ran, the frame's trailing byte did not match the CRC-8 of its
/// first six, and the frame was discarded.
pub open spec fn measure_crc_err(
    ops0: Seq<BusOp>,
    ops1: Seq<BusOp>,
    dl0: Seq<u32>,
    dl1: Seq<u32>,
) -> bool {
    exists|polls: Seq<u8>, frame: Seq<u8>| #![auto]
        poll_phase(polls) && frame.len() == 7 && !frame_crc_ok(frame) && ops1 == ops0.push(
            trigger_op(),
        ) + poll_ops(polls) + seq![BusOp::Read { addr: DHT20_ADDR, data: frame }] && dl1
            == dl0.push(85u32) + poll_twos(polls)
}

/// How a measurement that failed with a transport error left the
/// histories: it short-circuited at the failing step — trigger write,
/// some status poll, or the frame read — performing nothing after it.
pub open spec fn measure_err(
    ops0: Seq<BusOp>,
    ops1: Seq<BusOp>,
    dl0: Seq<u32>,
    dl1: Seq<u32>,
) -> bool {
    ||| (ops1 == ops0 && dl1 == dl0)
    ||| (exists|polls: Seq<u8>| #![auto]
        all_busy(polls) && polls.len() < MAX_POLLS && ops1 == ops0.push(trigger_op()) + poll_ops(
            polls,
        ) && dl1 == dl0.push(85u32) + twos(polls.len()))
    ||| (exists|polls: Seq<u8>| #![auto]
        poll_phase(polls) && ops1 == ops0.push(trigger_op()) + poll_ops(polls) && dl1 == dl0.push(
            85u32,
        ) + poll_twos(polls))
}

impl<I2C, D> Dht20<I2C, D> {
    /// The bus port the driver owns.
    pub closed spec fn bus(&self) -> I2C {
        self.i2c
    }

    /// The delay timer the driver owns.
    pub closed spec fn timer(&self) -> D {
        self.delay
    }
}

impl<I2C: I2cBus, D: DelayMs> Dht20<I2C, D> {
    /// Takes ownership of an already-configured bus port and timer.
    pub fn new(i2c: I2C, delay: D) -> (r: Self)
        ensures
            r.bus() == i2c,
            r.timer() == delay,
    {
        Dht20 { i2c, delay }
    }

    /// Queries the status byte.
    fn read_status(&mut self) -> (r: Result<u8, Error<I2C::BusError>>)
        ensures
            final(self).timer() == old(self).timer(),
            match r {
                Ok(s) => final(self).bus().ops() == old(self).bus().ops().push(status_op(s)),
                Err(e) => e is I2c && final(self).bus().ops() == old(self).bus().ops(),
            },
    {
        let mut cmd: Vec<u8> = Vec::new();
        cmd.push(0x71);
        match self.i2c.write_read(DHT20_ADDR, cmd.as_slice(), 1) {
            Ok(v) => {
                let s: u8 = v[0];
                proof {
                    assert(cmd@ =~= seq![0x71u8]);
                    assert(v@ =~= seq![s]);
                }
                Ok(s)
            },
            Err(e) => Err(Error::I2c(e)),
        }
    }

    /// One calibration reset ("JH reset") of internal register `reg`: write
    /// zeroes, wait 5 ms, read three bytes back, wait 10 ms, write back
    /// `0xB0 | reg` followed by the two low read-back bytes unchanged.
    fn jh_reset(&mut self, reg: u8) -> (r: Result<(), Error<I2C::BusError>>)
        ensures
            match r {
                Ok(()) => exists|rb: Seq<u8>| #![auto]
                    rb.len() == 3 && final(self).bus().ops() == old(self).bus().ops() + reset_ops(
                        reg,
                        rb,
                    ) && final(self).timer().log() == old(self).timer().log() + reset_delays(),
                Err(e) => e is I2c && jh_reset_err(
                    reg,
                    old(self).bus().ops(),
                    final(self).bus().ops(),
                    old(self).timer().log(),
                    final(self).timer().log(),
                ),
            },
    {
        let ghost ops0 = self.i2c.ops();
        let ghost dl0 = self.delay.log();
        let mut zero_cmd: Vec<u8> = Vec::new();
        zero_cmd.push(reg);
        zero_cmd.push(0x00);
        zero_cmd.push(0x00);
        proof {
            assert(zero_cmd@ =~= seq![reg, 0x00u8, 0x00u8]);
        }
        match self.i2c.write(DHT20_ADDR, zero_cmd.as_slice()) {
            Ok(()) => {},
            Err(e) => {
                return Err(Error::I2c(e));
            },
        }
        self.delay.delay_ms(5);
        let regs: Vec<u8> = match self.i2c.read(DHT20_ADDR, 3) {
            Ok(v) => v,
            Err(e) => {
                proof {
                    assert(self.i2c.ops() =~= ops0 + reset_ops(reg, Seq::<u8>::empty()).take(1));
                }
                return Err(Error::I2c(e));
            },
        };
        self.delay.delay_ms(10);
        let mut wb: Vec<u8> = Vec::new();
        wb.push(0xB0 | reg);
        wb.push(regs[1]);
        wb.push(regs[2]);
        proof {
            assert(wb@ =~= seq![0xB0u8 | reg, regs@[1], regs@[2]]);
        }
        match self.i2c.write(DHT20_ADDR, wb.as_slice()) {
            Ok(()) => {},
            Err(e) => {
                proof {
                    assert(self.i2c.ops() =~= ops0 + reset_ops(reg, regs@).take(2));
                    assert(self.delay.log() =~= dl0 + reset_delays());
                }
                return Err(Error::I2c(e));
            },
        }
        proof {
            assert(self.i2c.ops() =~= ops0 + reset_ops(reg, regs@));
            assert(self.delay.log() =~= dl0 + reset_delays());
        }
        Ok(())
    }

    /// Initializes a freshly powered device: wait 100 ms for the supply to
    /// settle, query the status byte, and when the calibration bits are not
    /// both set, run the calibration reset on registers 0x1B, 0x1C and 0x1E
    /// in that order and wait 10 ms more. When the bits are already set the
    /// reset sequence is skipped entirely. A transport error short-circuits
    /// the sequence and is propagated.
    pub fn init(&mut self) -> (r: Result<(), Error<I2C::BusError>>)
        ensures
            match r {
                Ok(()) => init_ok(
                    old(self).bus().ops(),
                    final(self).bus().ops(),
                    old(self).timer().log(),
                    final(self).timer().log(),
                ),
                Err(e) => e is I2c && init_err(
                    old(self).bus().ops(),
                    final(self).bus().ops(),
                    old(self).timer().log(),
                    final(self).timer().log(),
                ),
            },
    {
        let ghost ops0 = self.i2c.ops();
        let ghost dl0 = self.delay.log();
        self.delay.delay_ms(100);
        let status: u8 = match self.read_status() {
            Ok(s) => s,
            Err(e) => {
                return Err(e);
            },
        };
        if (status & 0x18) != 0x18 {
            let ghost opsb = self.i2c.ops();
            let ghost dlb = self.delay.log();
            match self.jh_reset(0x1B) {
                Ok(()) => {},
                Err(e) => {
                    proof {
                        assert(!calibrated(status));
                        assert(jh_reset_err(
                            0x1B,
                            ops0.push(status_op(status)),
                            self.i2c.ops(),
                            dl0.push(100u32),
                            self.delay.log(),
                        ));
                    }
                    return Err(e);
                },
            }
            let ghost ops1 = self.i2c.ops();
            let ghost dl1 = self.delay.log();
            match self.jh_reset(0x1C) {
                Ok(()) => {},
                Err(e) => {
                    proof {
                        let r1 = choose|rb: Seq<u8>| #![auto]
                            rb.len() == 3 && ops1 == opsb + reset_ops(0x1B, rb) && dl1 == dlb
                                + reset_delays();
                        assert(!calibrated(status));
                        assert(jh_reset_err(
                            0x1C,
                            ops0.push(status_op(status)) + reset_ops(0x1B, r1),
                            self.i2c.ops(),
                            dl0.push(100u32) + reset_delays(),
                            self.delay.log(),
                        ));
                    }
                    return Err(e);
                },
            }
            let ghost ops2 = self.i2c.ops();
            let ghost dl2 = self.delay.log();
            match self.jh_reset(0x1E) {
                Ok(()) => {},
                Err(e) => {
                    proof {
                        let r1 = choose|rb: Seq<u8>| #![auto]
                            rb.len() == 3 && ops1 == opsb + reset_ops(0x1B, rb) && dl1 == dlb
                                + reset_delays();
                        let r2 = choose|rb: Seq<u8>| #![auto]
                            rb.len() == 3 && ops2 == ops1 + reset_ops(0x1C, rb) && dl2 == dl1
                                + reset_delays();
                        assert(ops2 =~= ops0.push(status_op(status)) + reset_ops(0x1B, r1)
                            + reset_ops(0x1C, r2));
                        assert(dl2 =~= dl0.push(100u32) + reset_delays() + reset_delays());
                        assert(!calibrated(status));
                        assert(jh_reset_err(
                            0x1E,
                            ops0.push(status_op(status)) + reset_ops(0x1B, r1) + reset_ops(
                                0x1C,
                                r2,
                            ),
                            self.i2c.ops(),
                            dl0.push(100u32) + reset_delays() + reset_delays(),
                            self.delay.log(),
                        ));
                        assert(init_err(ops0, self.i2c.ops(), dl0, self.delay.log()));
                    }
                    return Err(e);
                },
            }
            let ghost ops3 = self.i2c.ops();
            let ghost dl3 = self.delay.log();
            self.delay.delay_ms(10);
            proof {
                let r1 = choose|rb: Seq<u8>| #![auto]
                    rb.len() == 3 && ops1 == opsb + reset_ops(0x1B, rb) && dl1 == dlb
                        + reset_delays();
                let r2 = choose|rb: Seq<u8>| #![auto]
                    rb.len() == 3 && ops2 == ops1 + reset_ops(0x1C, rb) && dl2 == dl1
                        + reset_delays();
                let r3 = choose|rb: Seq<u8>| #![auto]
                    rb.len() == 3 && ops3 == ops2 + reset_ops(0x1E, rb) && dl3 == dl2
                        + reset_delays();
                assert(self.i2c.ops() =~= ops0.push(status_op(status)) + reset_ops(0x1B, r1)
                    + reset_ops(0x1C, r2) + reset_ops(0x1E, r3));
                assert(self.delay.log() =~= dl0.push(100u32) + reset_delays() + reset_delays()
                    + reset_delays() + seq![10u32]);
                assert(!calibrated(status));
                assert(init_ok(ops0, self.i2c.ops(), dl0, self.delay.log()));
            }
        } else {
            proof {
                assert(calibrated(status));
                assert(init_ok(ops0, self.i2c.ops(), dl0, self.delay.log()));
            }
        }
        Ok(())
    }

    /// Polls the status byte until the busy bit clears, pausing 2 ms after
    /// each busy answer, up to `MAX_POLLS` polls. Returns the statuses that
    /// were read.
    fn wait_idle(&mut self) -> (res: (Result<(), Error<I2C::BusError>>, Ghost<Seq<u8>>))
        ensures
            match res.0 {
                Ok(()) => poll_phase(res.1@) && final(self).bus().ops() == old(self).bus().ops()
                    + poll_ops(res.1@) && final(self).timer().log() == old(self).timer().log()
                    + poll_twos(res.1@),
                Err(e) => e is I2c && all_busy(res.1@) && res.1@.len() < MAX_POLLS
                    && final(self).bus().ops() == old(self).bus().ops() + poll_ops(res.1@)
                    && final(self).timer().log() == old(self).timer().log() + twos(res.1@.len()),
            },
    {
        let ghost base_ops = self.i2c.ops();
        let ghost base_dl = self.delay.log();
        let ghost mut polls: Seq<u8> = Seq::<u8>::empty();
        let mut k: usize = 0;
        proof {
            assert(poll_ops(polls) =~= Seq::<BusOp>::empty());
            assert(self.i2c.ops() =~= base_ops + poll_ops(polls));
            assert(self.delay.log() =~= base_dl + twos(polls.len()));
        }
        while k < MAX_POLLS
            invariant
                k == polls.len(),
                k <= MAX_POLLS,
                all_busy(polls),
                base_ops == old(self).bus().ops(),
                base_dl == old(self).timer().log(),
                self.i2c.ops() == base_ops + poll_ops(polls),
                self.delay.log() == base_dl + twos(polls.len()),
            decreases MAX_POLLS - k,
        {
            let s: u8 = match self.read_status() {
                Ok(s) => s,
                Err(e) => {
                    return (Err(e), Ghost(polls));
                },
            };
            let ghost prev = polls;
            proof {
                polls = polls.push(s);
                assert(poll_ops(polls) =~= poll_ops(prev).push(status_op(s)));
                assert(self.i2c.ops() =~= base_ops + poll_ops(polls));
            }
            if (s & 0x80) == 0 {
                proof {
                    assert(polls.drop_last() =~= prev);
                    assert(poll_twos(polls) =~= twos(prev.len()));
                }
                return (Ok(()), Ghost(polls));
            }
            self.delay.delay_ms(2);
            proof {
                assert(twos(polls.len()) =~= twos(prev.len()).push(2u32));
                assert(self.delay.log() =~= base_dl + twos(polls.len()));
            }
            k = k + 1;
        }
        proof {
            assert(polls.drop_last() =~= polls.take(polls.len() - 1));
            assert(all_busy(polls.drop_last()));
            assert(busy(polls.last()));
            assert(poll_phase(polls));
            assert(poll_twos(polls) =~= twos(polls.len()));
        }
        (Ok(()), Ghost(polls))
    }

    /// One measurement: write the trigger command, wait the nominal 85 ms
    /// conversion time, poll the busy flag low, read the 7-byte frame,
    /// check its CRC, and extract the raw 20-bit humidity and temperature
    /// fields. A corrupt frame is discarded with `Error::CrcMismatch`; a
    /// transport error short-circuits the cycle. No retry either way.
    pub fn read(&mut self) -> (r: Result<(u32, u32), Error<I2C::BusError>>)
        ensures
            match r {
                Ok((h, t)) => h < 0x100000 && t < 0x100000 && measure_ok(
                    old(self).bus().ops(),
                    final(self).bus().ops(),
                    old(self).timer().log(),
                    final(self).timer().log(),
                    h,
                    t,
                ),
                Err(e) => {
                    ||| (e is CrcMismatch && measure_crc_err(
                        old(self).bus().ops(),
                        final(self).bus().ops(),
                        old(self).timer().log(),
                        final(self).timer().log(),
                    ))
                    ||| (e is I2c && measure_err(
                        old(self).bus().ops(),
                        final(self).bus().ops(),
                        old(self).timer().log(),
                        final(self).timer().log(),
                    ))
                },
            },
    {
        let ghost ops0 = self.i2c.ops();
        let ghost dl0 = self.delay.log();
        let mut trigger: Vec<u8> = Vec::new();
        trigger.push(0xAC);
        trigger.push(0x33);
        trigger.push(0x00);
        proof {
            assert(trigger@ =~= seq![0xACu8, 0x33u8, 0x00u8]);
        }
        match self.i2c.write(DHT20_ADDR, trigger.as_slice()) {
            Ok(()) => {},
            Err(e) => {
                return Err(Error::I2c(e));
            },
        }
        self.delay.delay_ms(85);
        let ghost opsb = self.i2c.ops();
        let ghost dlb = self.delay.log();
        let (wait, gpolls) = self.wait_idle();
        match wait {
            Ok(()) => {},
            Err(e) => {
                proof {
                    assert(self.i2c.ops() =~= ops0.push(trigger_op()) + poll_ops(gpolls@));
                    assert(self.delay.log() =~= dl0.push(85u32) + twos(gpolls@.len()));
                }
                return Err(e);
            },
        }
        let frame: Vec<u8> = match self.i2c.read(DHT20_ADDR, 7) {
            Ok(v) => v,
            Err(e) => {
                proof {
                    assert(self.i2c.ops() =~= ops0.push(trigger_op()) + poll_ops(gpolls@));
                    assert(self.delay.log() =~= dl0.push(85u32) + poll_twos(gpolls@));
                }
                return Err(Error::I2c(e));
            },
        };
        proof {
            assert(self.i2c.ops() =~= ops0.push(trigger_op()) + poll_ops(gpolls@) + seq![
                BusOp::Read { addr: DHT20_ADDR, data: frame@ },
            ]);
            assert(self.delay.log() =~= dl0.push(85u32) + poll_twos(gpolls@));
        }
        if !frame_check(frame.as_slice()) {
            return Err(Error::CrcMismatch);
        }
        let h: u32 = extract_raw_humidity(frame.as_slice());
        let t: u32 = extract_raw_temperature(frame.as_slice());
        Ok((h, t))
    }

    /// Lends the delay timer back to the caller, for its own pacing between
    /// driver calls.
    pub fn delay_mut(&mut self) -> (r: &mut D)
        ensures
            *r == old(self).timer(),
            final(self).bus() == old(self).bus(),
            final(self).timer() == *final(r),
    {
        &mut self.delay
    }

    /// Releases the bus port and timer.
    pub fn free(self) -> (r: (I2C, D))
        ensures
            r.0 == self.bus(),
            r.1 == self.timer(),
    {
        (self.i2c, self.delay)
    }
}

} // verus!
