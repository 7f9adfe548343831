//! Capabilities the driver is built over: a two-wire bus port and a
//! millisecond delay timer. Each carries a ghost history of what was asked
//! of it, so the driver's contracts can state the exact transactions and
//! delays a call performs.

use vstd::prelude::*;

verus! {

/// One completed bus transaction, as recorded in a bus's history: the device
/// address, the bytes written, and the bytes the device answered with.
pub enum BusOp {
    /// A write-only transaction.
    Write { addr: u8, data: Seq<u8> },
    /// A read-only transaction, with the bytes that came back.
    Read { addr: u8, data: Seq<u8> },
    /// A combined write-then-read transaction.
    WriteRead { addr: u8, cmd: Seq<u8>, response: Seq<u8> },
}

/// A byte-level bus port. A transaction either completes and is appended to
/// the history, or fails with a transport error and leaves the history
/// unchanged; nothing is promised about which of the two happens or about
/// the bytes a read answers with.
pub trait I2cBus: Sized {
    /// The transport's own error value, opaque to the driver.
    type BusError;

    /// The completed transactions, oldest first.
    spec fn ops(&self) -> Seq<BusOp>;

    /// Writes `data` to the device at `addr`.
    fn write(&mut self, addr: u8, data: &[u8]) -> (r: Result<(), Self::BusError>)
        ensures
            r is Ok ==> final(self).ops() == old(self).ops().push(
                BusOp::Write { addr, data: data@ },
            ),
            r is Err ==> final(self).ops() == old(self).ops(),
    ;

    /// Reads exactly `n` bytes from the device at `addr`.
    fn read(&mut self, addr: u8, n: usize) -> (r: Result<Vec<u8>, Self::BusError>)
        ensures
            (match r {
                Ok(v) => v@.len() == n && final(self).ops() == old(self).ops().push(
                    BusOp::Read { addr, data: v@ },
                ),
                Err(_) => final(self).ops() == old(self).ops(),
            }),
    ;

    /// Writes `cmd` to the device at `addr`, then reads exactly `n` bytes,
    /// as one transaction.
    fn write_read(&mut self, addr: u8, cmd: &[u8], n: usize) -> (r: Result<
        Vec<u8>,
        Self::BusError,
    >)
        ensures
            (match r {
                Ok(v) => v@.len() == n && final(self).ops() == old(self).ops().push(
                    BusOp::WriteRead { addr, cmd: cmd@, response: v@ },
                ),
                Err(_) => final(self).ops() == old(self).ops(),
            }),
    ;
}

/// A blocking millisecond delay timer; its history records every delay that
/// was asked for, in order.
pub trait DelayMs: Sized {
    /// The delays performed so far, in milliseconds, oldest first.
    spec fn log(&self) -> Seq<u32>;

    /// Blocks for `ms` milliseconds.
    fn delay_ms(&mut self, ms: u32)
        ensures
            final(self).log() == old(self).log().push(ms),
    ;
}

} // verus!
