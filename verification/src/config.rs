//! The run configuration: one immutable record resolved from the command
//! line, holding the FIFO path, the time budget, the payload shape, the
//! inter-write delay, and the optional CPU core to pin to.

use vstd::prelude::*;

verus! {

/// Default run time, in whole seconds.
pub const DEFAULT_DURATION: u64 = 10;

/// Default number of bytes written per iteration.
pub const DEFAULT_COUNT: u64 = 1;

/// Default pause between writes, in microseconds.
pub const DEFAULT_DELAY: u64 = 1000;

/// Default fill value for every byte of the payload.
pub const DEFAULT_BYTE_VALUE: u8 = 0;

/// The run configuration, immutable after parsing.
#[derive(Debug, Clone)]
pub struct RunConfig {
    /// Filesystem path of the FIFO to write to.
    pub name: String,
    /// Total run time in whole seconds.
    pub duration: u64,
    /// Bytes written per iteration.
    pub count: u64,
    /// Pause between writes, in microseconds.
    pub delay: u64,
    /// Fill value for every byte of the payload.
    pub byte_value: u8,
    /// CPU core to pin the process to, if any.
    pub core: Option<usize>,
}

impl RunConfig {
    /// The payload must be representable as an in-memory buffer length.
    pub open spec fn wf(self) -> bool {
        self.count <= usize::MAX as u64
    }

    /// Builds a configuration from already-parsed values.
    pub fn new(
        name: String,
        duration: u64,
        count: u64,
        delay: u64,
        byte_value: u8,
        core: Option<usize>,
    ) -> (c: RunConfig)
        requires
            count <= usize::MAX as u64,
        ensures
            c.wf(),
            c.name == name,
            c.duration == duration,
            c.count == count,
            c.delay == delay,
            c.byte_value == byte_value,
            c.core == core,
    {
        RunConfig { name, duration, count, delay, byte_value, core }
    }
}

} // verus!
