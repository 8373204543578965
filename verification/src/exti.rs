//! The external-interrupt line controller: unmasking a line, selecting a
//! rising-edge trigger, and acknowledging a pending line.

use vstd::prelude::*;

use crate::memory_mapped_io::MemoryMappedIo;
use crate::memory_mapped_io::REGISTER_WORDS;
use crate::memory_mapped_io::set_bit_spec;
use crate::memory_mapped_io::store_barrier;

verus! {

/// Word offset of the interrupt mask register.
pub const EXTI_INTERRUPT_MASK: usize = 0;

/// Word offset of the rising-trigger selection register.
pub const EXTI_RISING_TRIGGER: usize = 2;

/// Word offset of the pending register; writing a one to a line's bit
/// acknowledges that line.
pub const EXTI_PENDING: usize = 5;

/// Handle over the external-interrupt controller's register block.
pub struct ExtiConf {
    pub reg: MemoryMappedIo,
}

impl View for ExtiConf {
    type V = Seq<u32>;

    open spec fn view(&self) -> Seq<u32> {
        self.reg@
    }
}

impl ExtiConf {
    /// Creates the handle for the controller at `base`.
    pub fn new(base: u32) -> (r: ExtiConf)
        ensures
            r.reg.base_spec() == base,
            r@.len() == REGISTER_WORDS,
            forall|i: int| 0 <= i < REGISTER_WORDS ==> r@[i] == 0u32,
    {
        ExtiConf { reg: MemoryMappedIo::new(base) }
    }

    /// Unmasks interrupt line `interrupt_number`, preserving the other
    /// lines' mask bits.
    pub fn unmask_interrupt(&mut self, interrupt_number: u32)
        requires
            interrupt_number < 32,
        ensures
            final(self)@ == set_bit_spec(old(self)@, interrupt_number, EXTI_INTERRUPT_MASK as int),
            old(self)@.len() == REGISTER_WORDS,
            final(self).reg.base_spec() == old(self).reg.base_spec(),
    {
        self.reg.set_bit(interrupt_number, EXTI_INTERRUPT_MASK);
    }

    /// Selects the rising edge as a trigger for line `interrupt_number`.
    pub fn enable_rising_trigger(&mut self, interrupt_number: u32)
        requires
            interrupt_number < 32,
        ensures
            final(self)@ == set_bit_spec(old(self)@, interrupt_number, EXTI_RISING_TRIGGER as int),
            old(self)@.len() == REGISTER_WORDS,
            final(self).reg.base_spec() == old(self).reg.base_spec(),
    {
        self.reg.set_bit(interrupt_number, EXTI_RISING_TRIGGER);
    }

    /// Writes a one to line `interrupt_number`'s bit of the pending
    /// register, the acknowledge the hardware expects from the handler.
    pub fn clear_pending(&mut self, interrupt_number: u32)
        requires
            interrupt_number < 32,
        ensures
            final(self)@ == set_bit_spec(old(self)@, interrupt_number, EXTI_PENDING as int),
            old(self)@.len() == REGISTER_WORDS,
            final(self).reg.base_spec() == old(self).reg.base_spec(),
    {
        self.reg.set_bit(interrupt_number, EXTI_PENDING);
        store_barrier();
    }
}

} // verus!
