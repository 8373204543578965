//! The independent watchdog: a key register that accepts a start command
//! and a feed (reload) command. If the periodic feed is starved, the
//! watchdog forces a hardware reset; it is the only recovery path out of a
//! stuck hardware-readiness wait.

use vstd::prelude::*;

use crate::memory_mapped_io::MemoryMappedIo;
use crate::memory_mapped_io::REGISTER_WORDS;
use crate::memory_mapped_io::store_barrier;

verus! {

/// Word offset of the key register.
pub const WATCHDOG_KEY: usize = 0;

/// Key value that starts the watchdog countdown.
pub const WATCHDOG_START_KEY: u16 = 0xCCCC;

/// Key value that reloads (feeds) the watchdog.
pub const WATCHDOG_FEED_KEY: u16 = 0xAAAA;

/// Handle over the independent watchdog's register block.
pub struct IndependentWatchdogConf {
    pub reg: MemoryMappedIo,
}

impl View for IndependentWatchdogConf {
    type V = Seq<u32>;

    open spec fn view(&self) -> Seq<u32> {
        self.reg@
    }
}

impl IndependentWatchdogConf {
    /// Creates the handle for the watchdog at `base`.
    pub fn new(base: u32) -> (r: IndependentWatchdogConf)
        ensures
            r.reg.base_spec() == base,
            r@.len() == REGISTER_WORDS,
            forall|i: int| 0 <= i < REGISTER_WORDS ==> r@[i] == 0u32,
    {
        IndependentWatchdogConf { reg: MemoryMappedIo::new(base) }
    }

    /// Writes `key` to the key register.
    pub fn set_key(&mut self, key: u16)
        ensures
            final(self)@ == old(self)@.update(WATCHDOG_KEY as int, key as u32),
            old(self)@.len() == REGISTER_WORDS,
            final(self).reg.base_spec() == old(self).reg.base_spec(),
    {
        self.reg.write(key as u32, WATCHDOG_KEY);
        store_barrier();
    }

    /// Starts the watchdog countdown.
    pub fn start_watchdog(&mut self)
        ensures
            final(self)@ == old(self)@.update(WATCHDOG_KEY as int, WATCHDOG_START_KEY as u32),
            old(self)@.len() == REGISTER_WORDS,
            final(self).reg.base_spec() == old(self).reg.base_spec(),
    {
        self.set_key(WATCHDOG_START_KEY);
    }

    /// Reloads the watchdog counter, postponing the reset.
    pub fn feed_watchdog(&mut self)
        ensures
            final(self)@ == old(self)@.update(WATCHDOG_KEY as int, WATCHDOG_FEED_KEY as u32),
            old(self)@.len() == REGISTER_WORDS,
            final(self).reg.base_spec() == old(self).reg.base_spec(),
    {
        self.set_key(WATCHDOG_FEED_KEY);
    }
}

} // verus!
