//! A basic timer: prescaler, auto-reload value, update-interrupt enable,
//! counter enable, and the status flag its interrupt handler clears.

use vstd::prelude::*;

use crate::memory_mapped_io::MemoryMappedIo;
use crate::memory_mapped_io::REGISTER_WORDS;
use crate::memory_mapped_io::set_bit_spec;
use crate::memory_mapped_io::store_barrier;

verus! {

/// Word offset of the control register (counter enable, bit 0).
pub const TIMER_CONTROL: usize = 0;

/// Word offset of the interrupt-enable register (update interrupt, bit 0).
pub const TIMER_INTERRUPT_ENABLE: usize = 3;

/// Word offset of the status register (update flag, cleared by writing 0).
pub const TIMER_STATUS: usize = 4;

/// Word offset of the prescaler register.
pub const TIMER_PRESCALER: usize = 10;

/// Word offset of the auto-reload register.
pub const TIMER_AUTO_RELOAD: usize = 11;

/// Handle over one basic timer's register block.
pub struct BasicTimerConf {
    pub reg: MemoryMappedIo,
}

impl View for BasicTimerConf {
    type V = Seq<u32>;

    open spec fn view(&self) -> Seq<u32> {
        self.reg@
    }
}

impl BasicTimerConf {
    /// Creates the handle for the timer at `base`.
    pub fn new(base: u32) -> (r: BasicTimerConf)
        ensures
            r.reg.base_spec() == base,
            r@.len() == REGISTER_WORDS,
            forall|i: int| 0 <= i < REGISTER_WORDS ==> r@[i] == 0u32,
    {
        BasicTimerConf { reg: MemoryMappedIo::new(base) }
    }

    /// Clears the update event flag by writing zero to the status register.
    pub fn clear_status_flag(&mut self)
        ensures
            final(self)@ == old(self)@.update(TIMER_STATUS as int, 0u32),
            old(self)@.len() == REGISTER_WORDS,
            final(self).reg.base_spec() == old(self).reg.base_spec(),
    {
        self.reg.write(0u32, TIMER_STATUS);
        store_barrier();
    }

    /// Programs the prescaler register.
    pub fn set_prescaler(&mut self, value: u32)
        ensures
            final(self)@ == old(self)@.update(TIMER_PRESCALER as int, value),
            old(self)@.len() == REGISTER_WORDS,
            final(self).reg.base_spec() == old(self).reg.base_spec(),
    {
        self.reg.write(value, TIMER_PRESCALER);
    }

    /// Programs the auto-reload register.
    pub fn set_auto_reload(&mut self, value: u32)
        ensures
            final(self)@ == old(self)@.update(TIMER_AUTO_RELOAD as int, value),
            old(self)@.len() == REGISTER_WORDS,
            final(self).reg.base_spec() == old(self).reg.base_spec(),
    {
        self.reg.write(value, TIMER_AUTO_RELOAD);
    }

    /// Enables the update interrupt, preserving the register's other bits.
    pub fn update_interrupt_enable(&mut self)
        ensures
            final(self)@ == set_bit_spec(old(self)@, 0, TIMER_INTERRUPT_ENABLE as int),
            old(self)@.len() == REGISTER_WORDS,
            final(self).reg.base_spec() == old(self).reg.base_spec(),
    {
        self.reg.set_bit(0, TIMER_INTERRUPT_ENABLE);
    }

    /// Starts the counter, preserving the control register's other bits.
    pub fn enable_timer(&mut self)
        ensures
            final(self)@ == set_bit_spec(old(self)@, 0, TIMER_CONTROL as int),
            old(self)@.len() == REGISTER_WORDS,
            final(self).reg.base_spec() == old(self).reg.base_spec(),
    {
        self.reg.set_bit(0, TIMER_CONTROL);
    }
}

} // verus!
