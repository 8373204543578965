//! A general-purpose I/O port: pin modes, alternate functions, output
//! speed, and pin set/toggle through the port's set-reset register.
//!
//! The set-reset register is write-only on the hardware and its effect
//! shows in the output data register; the model mirrors that documented
//! coupling, so a toggle reads the output register the previous set/reset
//! write updated.

use vstd::prelude::*;

use crate::memory_mapped_io::MemoryMappedIo;
use crate::memory_mapped_io::REGISTER_WORDS;
use crate::memory_mapped_io::lemma_clear_bit_clears;
use crate::memory_mapped_io::lemma_set_bit_sets;

verus! {

/// Word offset of the mode register (two bits per pin).
pub const GPIO_MODE: usize = 0;

/// Word offset of the output speed register (two bits per pin).
pub const GPIO_OUTPUT_SPEED: usize = 2;

/// Word offset of the output data register (one bit per pin).
pub const GPIO_OUTPUT_DATA: usize = 5;

/// Word offset of the set-reset register: the low half sets output bits,
/// the high half resets them.
pub const GPIO_SET_RESET: usize = 6;

/// Word offset of the low alternate-function register (four bits per pin,
/// pins 8 and up continue in the next word).
pub const GPIO_ALTERNATE_FUNCTION_LOW: usize = 8;

/// What a pin is wired to.
#[derive(Clone, Copy)]
pub enum PinMode {
    Input,
    Output,
    Alternate,
}

/// The 2-bit mode field value of a pin mode.
pub open spec fn pin_mode_bits(mode: PinMode) -> u32 {
    match mode {
        PinMode::Input => 0b00,
        PinMode::Output => 0b01,
        PinMode::Alternate => 0b10,
    }
}

/// Alternate function a pin can be routed to.
#[derive(Clone, Copy)]
pub enum AlternateFunction {
    Usart1_3,
}

/// The 4-bit selector value of an alternate function.
pub open spec fn alternate_function_bits(function: AlternateFunction) -> u32 {
    match function {
        AlternateFunction::Usart1_3 => 0b0111,
    }
}

/// Output slew-rate setting of a pin.
#[derive(Clone, Copy)]
pub enum OutputSpeed {
    Low,
    Medium,
    High,
    VeryHigh,
}

/// The 2-bit speed field value of an output speed.
pub open spec fn output_speed_bits(speed: OutputSpeed) -> u32 {
    match speed {
        OutputSpeed::Low => 0b00,
        OutputSpeed::Medium => 0b01,
        OutputSpeed::High => 0b10,
        OutputSpeed::VeryHigh => 0b11,
    }
}

/// The mode-register mask that clears the 2-bit fields of every pin in
/// `pins`, leaving all other fields' bits one.
pub open spec fn pins_clear_mask(pins: Seq<u32>) -> u32
    decreases pins.len(),
{
    if pins.len() == 0 {
        0xFFFF_FFFFu32
    } else {
        pins_clear_mask(pins.drop_last()) & !(0b11u32 << (pins.last() * 2))
    }
}

/// The mode-register bits that select `mode` for every pin in `pins`.
pub open spec fn pins_mode_bits(mode: PinMode, pins: Seq<u32>) -> u32
    decreases pins.len(),
{
    if pins.len() == 0 {
        0u32
    } else {
        pins_mode_bits(mode, pins.drop_last()) | (pin_mode_bits(mode) << (pins.last() * 2))
    }
}

/// True when the output data register drives `pin` high.
pub open spec fn pin_output_set(regs: Seq<u32>, pin: u32) -> bool {
    regs[GPIO_OUTPUT_DATA as int] & (1u32 << pin) != 0
}

/// Handle over one GPIO port's register block.
pub struct GpioConf {
    pub reg: MemoryMappedIo,
}

impl View for GpioConf {
    type V = Seq<u32>;

    open spec fn view(&self) -> Seq<u32> {
        self.reg@
    }
}

impl GpioConf {
    /// Creates the handle for the port at `base`.
    pub fn new(base: u32) -> (r: GpioConf)
        ensures
            r.reg.base_spec() == base,
            r@.len() == REGISTER_WORDS,
            forall|i: int| 0 <= i < REGISTER_WORDS ==> r@[i] == 0u32,
    {
        GpioConf { reg: MemoryMappedIo::new(base) }
    }

    /// Selects `mode` for every pin in `pins` with one read-modify-write of
    /// the mode register, preserving the other pins' mode fields.
    #[verifier::loop_isolation(false)]
    pub fn set_pins_mode(&mut self, mode: PinMode, pins: &[u32])
        requires
            forall|i: int| 0 <= i < pins@.len() ==> pins@[i] < 16,
        ensures
            final(self)@ == old(self)@.update(
                GPIO_MODE as int,
                (old(self)@[GPIO_MODE as int] & pins_clear_mask(pins@))
                    | pins_mode_bits(mode, pins@),
            ),
            old(self)@.len() == REGISTER_WORDS,
            final(self).reg.base_spec() == old(self).reg.base_spec(),
    {
        let mut mask: u32 = 0xFFFF_FFFF;
        let mut mode_value: u32 = 0;
        let mut i: usize = 0;
        while i < pins.len()
            invariant
                i <= pins@.len(),
                mask == pins_clear_mask(pins@.take(i as int)),
                mode_value == pins_mode_bits(mode, pins@.take(i as int)),
            decreases pins@.len() - i,
        {
            let shift = pins[i] * 2;
            mask &= !(0b11u32 << shift);
            mode_value |= Self::mode_field(mode) << shift;
            proof {
                let taken = pins@.take(i + 1 as int);
                assert(taken.drop_last() =~= pins@.take(i as int));
            }
            i += 1;
        }
        proof {
            assert(pins@.take(pins@.len() as int) =~= pins@);
        }
        let mut current_value = self.reg.read(GPIO_MODE);
        current_value &= mask;
        current_value |= mode_value;
        self.reg.write(current_value, GPIO_MODE);
    }

    /// The 2-bit mode field value of `mode`.
    fn mode_field(mode: PinMode) -> (r: u32)
        ensures
            r == pin_mode_bits(mode),
    {
        match mode {
            PinMode::Input => 0b00,
            PinMode::Output => 0b01,
            PinMode::Alternate => 0b10,
        }
    }

    /// Selects `mode` for one pin, preserving the other pins' mode fields.
    pub fn set_pin_mode(&mut self, mode: PinMode, pin: u32)
        requires
            pin < 16,
        ensures
            final(self)@ == old(self)@.update(
                GPIO_MODE as int,
                (old(self)@[GPIO_MODE as int] & !(0b11u32 << (pin * 2)))
                    | (pin_mode_bits(mode) << (pin * 2)),
            ),
            old(self)@.len() == REGISTER_WORDS,
            final(self).reg.base_spec() == old(self).reg.base_spec(),
    {
        let shift = pin * 2;
        let mut current_value = self.reg.read(GPIO_MODE);
        current_value &= !(0b11u32 << shift);
        current_value |= Self::mode_field(mode) << shift;
        self.reg.write(current_value, GPIO_MODE);
    }

    /// Drives `pin` high through the set-reset register; the output data
    /// register reflects the set at once.
    pub fn set_pin(&mut self, pin: u32)
        requires
            pin < 16,
        ensures
            final(self)@ == old(self)@.update(GPIO_SET_RESET as int, 1u32 << pin).update(
                GPIO_OUTPUT_DATA as int,
                old(self)@[GPIO_OUTPUT_DATA as int] | (1u32 << pin),
            ),
            pin_output_set(final(self)@, pin),
            old(self)@.len() == REGISTER_WORDS,
            final(self).reg.base_spec() == old(self).reg.base_spec(),
    {
        self.reg.write(1u32 << pin, GPIO_SET_RESET);
        proof {
            lemma_set_bit_sets(self@[GPIO_OUTPUT_DATA as int], pin);
        }
        self.reg.set_bit(pin, GPIO_OUTPUT_DATA);
    }

    /// Toggles `pin`: reads the output data register and writes the
    /// matching set or reset half of the set-reset register, which flips
    /// that output bit and no other.
    pub fn switch_pin_output(&mut self, pin: u32)
        requires
            pin < 16,
        ensures
            pin_output_set(old(self)@, pin) ==> final(self)@ == old(self)@.update(
                GPIO_SET_RESET as int,
                1u32 << (pin + 16),
            ).update(
                GPIO_OUTPUT_DATA as int,
                old(self)@[GPIO_OUTPUT_DATA as int] & !(1u32 << pin),
            ),
            !pin_output_set(old(self)@, pin) ==> final(self)@ == old(self)@.update(
                GPIO_SET_RESET as int,
                1u32 << pin,
            ).update(
                GPIO_OUTPUT_DATA as int,
                old(self)@[GPIO_OUTPUT_DATA as int] | (1u32 << pin),
            ),
            pin_output_set(final(self)@, pin) == !pin_output_set(old(self)@, pin),
            old(self)@.len() == REGISTER_WORDS,
            final(self).reg.base_spec() == old(self).reg.base_spec(),
    {
        let pin_value = self.reg.read(GPIO_OUTPUT_DATA) & (1u32 << pin);
        if pin_value != 0 {
            self.reg.write(1u32 << (pin + 16), GPIO_SET_RESET);
            proof {
                lemma_clear_bit_clears(self@[GPIO_OUTPUT_DATA as int], pin);
            }
            self.reg.clear_bit(pin, GPIO_OUTPUT_DATA);
        } else {
            self.reg.write(1u32 << pin, GPIO_SET_RESET);
            proof {
                lemma_set_bit_sets(self@[GPIO_OUTPUT_DATA as int], pin);
            }
            self.reg.set_bit(pin, GPIO_OUTPUT_DATA);
        }
    }

    /// Routes `pin` to `function`: replaces the pin's 4-bit selector in the
    /// matching alternate-function register, preserving the other pins'.
    pub fn set_alternate_function(&mut self, pin: u32, function: AlternateFunction)
        requires
            pin < 16,
        ensures
            final(self)@ == old(self)@.update(
                GPIO_ALTERNATE_FUNCTION_LOW + pin as int / 8,
                (old(self)@[GPIO_ALTERNATE_FUNCTION_LOW + pin as int / 8]
                    & !(0b1111u32 << ((pin % 8) * 4)))
                    | (alternate_function_bits(function) << ((pin % 8) * 4)),
            ),
            old(self)@.len() == REGISTER_WORDS,
            final(self).reg.base_spec() == old(self).reg.base_spec(),
    {
        let shift: u32 = (pin % 8) * 4;
        let offset: usize = (pin / 8) as usize;
        let mut current_value = self.reg.read(GPIO_ALTERNATE_FUNCTION_LOW + offset);
        current_value &= !(0b1111u32 << shift);
        let function_value: u32 = match function {
            AlternateFunction::Usart1_3 => 0b0111,
        };
        current_value |= function_value << shift;
        self.reg.write(current_value, GPIO_ALTERNATE_FUNCTION_LOW + offset);
    }

    /// Selects the output slew rate of `pin`, preserving the other pins'
    /// speed fields.
    pub fn set_output_speed(&mut self, pin: u32, speed: OutputSpeed)
        requires
            pin < 16,
        ensures
            final(self)@ == old(self)@.update(
                GPIO_OUTPUT_SPEED as int,
                (old(self)@[GPIO_OUTPUT_SPEED as int] & !(0b11u32 << (pin * 2)))
                    | (output_speed_bits(speed) << (pin * 2)),
            ),
            old(self)@.len() == REGISTER_WORDS,
            final(self).reg.base_spec() == old(self).reg.base_spec(),
    {
        let shift = pin * 2;
        let mut current_value = self.reg.read(GPIO_OUTPUT_SPEED);
        current_value &= !(0b11u32 << shift);
        let speed_value: u32 = match speed {
            OutputSpeed::Low => 0b00,
            OutputSpeed::Medium => 0b01,
            OutputSpeed::High => 0b10,
            OutputSpeed::VeryHigh => 0b11,
        };
        current_value |= speed_value << shift;
        self.reg.write(current_value, GPIO_OUTPUT_SPEED);
    }
}

} // verus!
