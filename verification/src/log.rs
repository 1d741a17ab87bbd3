//! What the kernel logger decides.

use vstd::prelude::*;

verus! {

/// The logger of the kernel.
pub struct TrustyKernelLogger;

/// The most verbose messages that are logged.
#[derive(Clone, Copy, Debug, PartialEq, Eq, Structural)]
pub enum LevelFilter {
    Off,
    Error,
    Warn,
    Info,
    Debug,
    Trace,
}

/// Whether `msg` has a zero byte.
pub open spec fn has_zero_byte(msg: Seq<u8>) -> bool {
    exists|i: int| 0 <= i < msg.len() && #[trigger] msg[i] == 0
}

impl TrustyKernelLogger {
    /// All messages that pass the level filter are logged.
    pub fn enabled(&self) -> (res: bool)
        ensures
            res,
    {
        true
    }

    /// Whether a message can be written: it must not have a zero byte, since the console may take
    /// that for the end of the message.
    pub fn can_write(msg: &[u8]) -> (res: bool)
        ensures
            res == !has_zero_byte(msg@),
    {
        let mut i: usize = 0;
        while i < msg.len()
            invariant
                i <= msg@.len(),
                forall|j: int| 0 <= j < i ==> msg@[j] != 0,
            decreases msg@.len() - i,
        {
            if msg[i] == 0 {
                assert(msg@[i as int] == 0);
                return false;
            }
            i = i + 1;
        }
        true
    }

    /// The level filter for a build-time log level. Levels below the expected ones log nothing, and
    /// levels above them log everything.
    pub fn max_level(log_level: i64) -> (filter: LevelFilter)
        ensures
            filter == if log_level <= 0 {
                LevelFilter::Off
            } else if log_level == 1 {
                LevelFilter::Error
            } else if log_level == 2 {
                LevelFilter::Warn
            } else if log_level == 3 {
                LevelFilter::Info
            } else if log_level == 4 {
                LevelFilter::Debug
            } else {
                LevelFilter::Trace
            },
    {
        if log_level < 0 {
            return LevelFilter::Off;
        }
        match log_level {
            0 => LevelFilter::Off,
            1 => LevelFilter::Error,
            2 => LevelFilter::Warn,
            3 => LevelFilter::Info,
            4 => LevelFilter::Debug,
            _ => LevelFilter::Trace,
        }
    }
}

} // verus!
