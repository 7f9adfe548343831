//! In-memory implementations of the bus and timer capabilities: a bus that
//! answers from a prepared script and keeps an inspectable log of every
//! completed transaction, and a timer that records the delays asked of it.
//! They let a whole driver session run and be checked without a device.

use vstd::prelude::*;

use crate::bus::{BusOp, DelayMs, I2cBus};

verus! {

/// The error a scripted bus fails a transaction with.
#[derive(Clone, Copy, Debug, PartialEq, Eq)]
pub struct ScriptError;

/// What the scripted bus does with one transaction: complete it, answering
/// reads with the given bytes, or fail it with a transport error.
#[derive(Debug, PartialEq, Eq)]
pub enum ScriptStep {
    /// Complete the transaction; the bytes answer a read, and must be empty
    /// for a write-only transaction.
    Reply(Vec<u8>),
    /// Fail the transaction.
    Fail,
}

/// One completed transaction, as kept in the scripted bus's log.
#[derive(Debug, PartialEq, Eq)]
pub enum LogEntry {
    /// A write-only transaction.
    Write { addr: u8, data: Vec<u8> },
    /// A read-only transaction, with the bytes answered.
    Read { addr: u8, data: Vec<u8> },
    /// A combined write-then-read transaction.
    WriteRead { addr: u8, cmd: Vec<u8>, response: Vec<u8> },
}

/// The transaction a log entry records.
pub open spec fn entry_op(e: LogEntry) -> BusOp {
    match e {
        LogEntry::Write { addr, data } => BusOp::Write { addr, data: data@ },
        LogEntry::Read { addr, data } => BusOp::Read { addr, data: data@ },
        LogEntry::WriteRead { addr, cmd, response } => BusOp::WriteRead {
            addr,
            cmd: cmd@,
            response: response@,
        },
    }
}

/// A bus port that answers from a prepared script, one step per attempted
/// transaction, and logs each completed one. A read whose scripted reply has
/// the wrong length fails like a transport error, so the port never answers
/// a read with a byte count other than the one asked for.
pub struct ScriptedBus {
    /// The steps still to play, in reverse order (the next step is last).
    pending: Vec<ScriptStep>,
    /// The completed transactions, oldest first.
    pub log: Vec<LogEntry>,
}

impl ScriptedBus {
    /// A bus that will play `script` front to back, with an empty log.
    pub fn new(script: Vec<ScriptStep>) -> (r: ScriptedBus)
        ensures
            r.ops() == Seq::<BusOp>::empty(),
    {
        let mut script = script;
        let mut pending: Vec<ScriptStep> = Vec::new();
        while script.len() > 0
            decreases script.len(),
        {
            let step = script.pop().unwrap();
            pending.push(step);
        }
        let r = ScriptedBus { pending, log: Vec::new() };
        proof {
            assert(r.ops() =~= Seq::<BusOp>::empty());
        }
        r
    }

    /// Takes the next script step; an exhausted script fails the
    /// transaction. Consumes the script only, never the log.
    fn take_step(&mut self) -> (r: Result<Vec<u8>, ScriptError>)
        ensures
            final(self).log == old(self).log,
    {
        match self.pending.pop() {
            Some(ScriptStep::Reply(bytes)) => Ok(bytes),
            Some(ScriptStep::Fail) => Err(ScriptError),
            None => Err(ScriptError),
        }
    }

    /// Appends a completed transaction to the log.
    fn record(&mut self, entry: LogEntry)
        ensures
            final(self).ops() == old(self).ops().push(entry_op(entry)),
    {
        self.log.push(entry);
        proof {
            assert(final(self).ops() =~= old(self).ops().push(entry_op(entry)));
        }
    }
}

impl I2cBus for ScriptedBus {
    type BusError = ScriptError;

    closed spec fn ops(&self) -> Seq<BusOp> {
        self.log@.map_values(|e: LogEntry| entry_op(e))
    }

    fn write(&mut self, addr: u8, data: &[u8]) -> (r: Result<(), ScriptError>) {
        match self.take_step() {
            Ok(reply) => {
                if reply.len() != 0 {
                    return Err(ScriptError);
                }
                let owned: Vec<u8> = vstd::slice::slice_to_vec(data);
                self.record(LogEntry::Write { addr, data: owned });
                Ok(())
            },
            Err(e) => Err(e),
        }
    }

    fn read(&mut self, addr: u8, n: usize) -> (r: Result<Vec<u8>, ScriptError>) {
        match self.take_step() {
            Ok(reply) => {
                if reply.len() != n {
                    return Err(ScriptError);
                }
                let answered: Vec<u8> = vstd::slice::slice_to_vec(reply.as_slice());
                self.record(LogEntry::Read { addr, data: answered });
                Ok(reply)
            },
            Err(e) => Err(e),
        }
    }

    fn write_read(&mut self, addr: u8, cmd: &[u8], n: usize) -> (r: Result<
        Vec<u8>,
        ScriptError,
    >) {
        match self.take_step() {
            Ok(reply) => {
                if reply.len() != n {
                    return Err(ScriptError);
                }
                let command: Vec<u8> = vstd::slice::slice_to_vec(cmd);
                let answered: Vec<u8> = vstd::slice::slice_to_vec(reply.as_slice());
                self.record(LogEntry::WriteRead { addr, cmd: command, response: answered });
                Ok(reply)
            },
            Err(e) => Err(e),
        }
    }
}

/// A timer that completes at once and records every delay asked of it.
pub struct RecordingDelay {
    /// The delays asked for so far, in milliseconds, oldest first.
    pub delays: Vec<u32>,
}

impl RecordingDelay {
    /// A timer with an empty record.
    pub fn new() -> (r: RecordingDelay)
        ensures
            r.log() == Seq::<u32>::empty(),
    {
        RecordingDelay { delays: Vec::new() }
    }
}

impl DelayMs for RecordingDelay {
    open spec fn log(&self) -> Seq<u32> {
        self.delays@
    }

    fn delay_ms(&mut self, ms: u32) {
        self.delays.push(ms);
    }
}

} // verus!
