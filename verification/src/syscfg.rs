//! The system configuration controller: routing an external-interrupt line
//! to the GPIO port that drives it.

use vstd::prelude::*;

use crate::memory_mapped_io::MemoryMappedIo;
use crate::memory_mapped_io::REGISTER_WORDS;

verus! {

/// Word offset of the first external-interrupt configuration register;
/// each register holds four 4-bit port selectors.
pub const SYSCFG_EXTI_CONFIG: usize = 2;

/// GPIO port a configurable external-interrupt line can be routed from.
#[derive(Clone, Copy)]
pub enum ExternalInterruptSourcePort {
    PortC,
}

/// The 4-bit selector value of a source port.
pub open spec fn source_port_bits(port: ExternalInterruptSourcePort) -> u32 {
    match port {
        ExternalInterruptSourcePort::PortC => 0b0010,
    }
}

impl ExternalInterruptSourcePort {
    /// The 4-bit selector value of this source port.
    pub fn value(&self) -> (r: u32)
        ensures
            r == source_port_bits(*self),
    {
        match self {
            ExternalInterruptSourcePort::PortC => 0b0010,
        }
    }
}

/// Handle over the system configuration controller's register block.
pub struct SysConf {
    pub reg: MemoryMappedIo,
}

impl View for SysConf {
    type V = Seq<u32>;

    open spec fn view(&self) -> Seq<u32> {
        self.reg@
    }
}

impl SysConf {
    /// Creates the handle for the controller at `base`.
    pub fn new(base: u32) -> (r: SysConf)
        ensures
            r.reg.base_spec() == base,
            r@.len() == REGISTER_WORDS,
            forall|i: int| 0 <= i < REGISTER_WORDS ==> r@[i] == 0u32,
    {
        SysConf { reg: MemoryMappedIo::new(base) }
    }

    /// Routes external-interrupt line `exti_number` to `port`: replaces that
    /// line's 4-bit selector in the matching configuration register,
    /// preserving the other lines' selectors.
    pub fn set_external_interrupt_source_port(
        &mut self,
        exti_number: u32,
        port: ExternalInterruptSourcePort,
    )
        requires
            exti_number < 16,
        ensures
            final(self)@ == old(self)@.update(
                SYSCFG_EXTI_CONFIG + exti_number as int / 4,
                (old(self)@[SYSCFG_EXTI_CONFIG + exti_number as int / 4]
                    & !(0b1111u32 << ((exti_number % 4) * 4)))
                    | (source_port_bits(port) << ((exti_number % 4) * 4)),
            ),
            old(self)@.len() == REGISTER_WORDS,
            final(self).reg.base_spec() == old(self).reg.base_spec(),
    {
        let register_number = (exti_number / 4) as usize;
        let register_offset: u32 = exti_number % 4;
        let shift: u32 = register_offset * 4;
        let mut current_value: u32 = self.reg.read(SYSCFG_EXTI_CONFIG + register_number);
        current_value &= !(0b1111u32 << shift);
        let port_value: u32 = port.value();
        current_value |= port_value << shift;
        self.reg.write(current_value, SYSCFG_EXTI_CONFIG + register_number);
    }
}

} // verus!
