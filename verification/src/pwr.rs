//! The power regulator controller: programming the voltage-scaling level
//! and the readiness predicate the clock-tree bring-up polls before raising
//! the system frequency.

use vstd::prelude::*;

use crate::memory_mapped_io::MemoryMappedIo;
use crate::memory_mapped_io::REGISTER_WORDS;
use crate::memory_mapped_io::lemma_set_bit_sets;
use crate::memory_mapped_io::no_operation;
use crate::memory_mapped_io::store_barrier;

verus! {

/// Word offset of the power control register (voltage scale at bits 15:14).
pub const PWR_CONTROL: usize = 0;

/// Word offset of the power status register (voltage-scaling ready, bit 14).
pub const PWR_STATUS: usize = 1;

/// The voltage scale the control register currently selects: field value
/// 0b11 is scale 1, 0b10 scale 2, and lower values scale 3.
pub open spec fn regulator_scale_of(regs: Seq<u32>) -> u8 {
    let field = (regs[PWR_CONTROL as int] & (0b11u32 << 14)) >> 14;
    if field == 0b11 {
        1
    } else if field == 0b10 {
        2
    } else {
        3
    }
}

/// The field value that selects voltage scale `scale` (the highest scale
/// number is the lowest field value).
pub open spec fn regulator_scale_bits(scale: u8) -> u32 {
    if scale == 1 {
        0b11
    } else if scale == 2 {
        0b10
    } else {
        0b01
    }
}

/// True when the regulator reports the programmed voltage scale as reached.
pub open spec fn regulator_ready(regs: Seq<u32>) -> bool {
    regs[PWR_STATUS as int] & (1u32 << 14) != 0
}

/// Handle over the power controller's register block.
pub struct PwrConf {
    pub reg: MemoryMappedIo,
}

impl View for PwrConf {
    type V = Seq<u32>;

    open spec fn view(&self) -> Seq<u32> {
        self.reg@
    }
}

impl PwrConf {
    /// Creates the handle for the power controller at `base`.
    pub fn new(base: u32) -> (r: PwrConf)
        ensures
            r.reg.base_spec() == base,
            r@.len() == REGISTER_WORDS,
            forall|i: int| 0 <= i < REGISTER_WORDS ==> r@[i] == 0u32,
    {
        PwrConf { reg: MemoryMappedIo::new(base) }
    }

    /// The voltage scale the control register currently selects.
    pub fn get_regulator_voltage_scaling_output(&self) -> (r: u8)
        ensures
            r == regulator_scale_of(self@),
    {
        let value = (self.reg.read(PWR_CONTROL) & (0b11u32 << 14)) >> 14;
        if value == 0b11 {
            1
        } else if value == 0b10 {
            2
        } else {
            3
        }
    }

    /// Programs voltage scale `scale` into the control register, preserving
    /// its other bits, and returns only once the register reads the
    /// requested scale back. The model also raises the regulator-ready
    /// status bit with the change; on hardware that bit lags, and
    /// `is_regulator_voltage_scaling_output_ready` is polled before the
    /// frequency is raised.
    #[verifier::loop_isolation(false)]
    pub fn set_regulator_voltage_scaling_output(&mut self, scale: u8)
        requires
            1 <= scale <= 3,
        ensures
            final(self)@ == old(self)@.update(
                PWR_CONTROL as int,
                (old(self)@[PWR_CONTROL as int] & !(0b11u32 << 14))
                    | (regulator_scale_bits(scale) << 14),
            ).update(
                PWR_STATUS as int,
                old(self)@[PWR_STATUS as int] | (1u32 << 14),
            ),
            regulator_scale_of(final(self)@) == scale,
            regulator_ready(final(self)@),
            old(self)@.len() == REGISTER_WORDS,
            final(self).reg.base_spec() == old(self).reg.base_spec(),
    {
        let value: u32 = if scale == 1 {
            0b11
        } else if scale == 2 {
            0b10
        } else {
            0b01
        };
        let original_value = self.reg.read(PWR_CONTROL);
        let mut current_value = original_value;
        current_value &= !(0b11u32 << 14);
        current_value |= value << 14;
        self.reg.write(current_value, PWR_CONTROL);
        store_barrier();
        self.reg.set_bit(14, PWR_STATUS);
        proof {
            assert((((current_value & (0b11u32 << 14)) >> 14) == value)) by (bit_vector)
                requires
                    current_value == (original_value & !(0b11u32 << 14)) | (value << 14),
                    value == 0b11u32 || value == 0b10u32 || value == 0b01u32,
            ;
            lemma_set_bit_sets(old(self)@[PWR_STATUS as int], 14);
        }
        while self.get_regulator_voltage_scaling_output() != scale
            decreases 0int,
        {
            no_operation();
        }
    }

    /// True when the regulator reports the programmed voltage scale as
    /// reached; set by the hardware some time after the scale is changed.
    pub fn is_regulator_voltage_scaling_output_ready(&self) -> (r: bool)
        ensures
            r == regulator_ready(self@),
    {
        self.reg.is_bit_set(14, PWR_STATUS)
    }
}

} // verus!
