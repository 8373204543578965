//! The clock tree controller: oscillator enablement, PLL configuration,
//! bus prescalers, peripheral clock gates, and the system-clock switch.
//!
//! Oscillator-ready and PLL-locked flags are raised by the hardware some
//! time after the matching enable; the model raises them together with the
//! enable, and every readiness busy-wait the hardware manual requires is
//! kept in place as the synchronization point a target build relies on.
//! Dummy reads after clock-gate writes stand in for the documented
//! peripheral-clock propagation delay and are performed as real reads.

use vstd::prelude::*;

use crate::memory_mapped_io::MemoryMappedIo;
use crate::memory_mapped_io::REGISTER_WORDS;
use crate::memory_mapped_io::clear_bit_spec;
use crate::memory_mapped_io::lemma_clear_bit_clears;
use crate::memory_mapped_io::lemma_set_bit_sets;
use crate::memory_mapped_io::no_operation;
use crate::memory_mapped_io::set_bit_spec;
use crate::memory_mapped_io::store_barrier;

verus! {

/// Word offset of the clock control register (oscillator and PLL enables
/// and ready flags).
pub const RCC_CONTROL: usize = 0;

/// Word offset of the PLL configuration register.
pub const RCC_PLL_CONFIG: usize = 1;

/// Word offset of the clock configuration register (system-clock selector
/// and status, bus prescalers).
pub const RCC_CLOCK_CONFIG: usize = 2;

/// Word offset of the AHB1 peripheral clock-enable register.
pub const RCC_AHB1_ENABLE: usize = 12;

/// Word offset of the APB1 peripheral clock-enable register.
pub const RCC_APB1_ENABLE: usize = 16;

/// Word offset of the APB2 peripheral clock-enable register.
pub const RCC_APB2_ENABLE: usize = 17;

/// Word offset of the control/status register (low-speed oscillator).
pub const RCC_CONTROL_STATUS: usize = 29;

/// GPIO port whose clock can be gated on.
#[derive(Clone, Copy, PartialEq, Eq, Structural)]
pub enum GpioPort {
    B,
    C,
    D,
}

/// The AHB1 clock-enable bit of a GPIO port.
pub open spec fn gpio_port_bit(port: GpioPort) -> u32 {
    match port {
        GpioPort::B => 1u32 << 1,
        GpioPort::C => 1u32 << 2,
        GpioPort::D => 1u32 << 3,
    }
}

/// The AHB1 clock-enable bits of a list of GPIO ports.
pub open spec fn gpio_ports_mask(ports: Seq<GpioPort>) -> u32
    decreases ports.len(),
{
    if ports.len() == 0 {
        0u32
    } else {
        gpio_ports_mask(ports.drop_last()) | gpio_port_bit(ports.last())
    }
}

/// Basic timer whose clock can be gated on.
#[derive(Clone, Copy, PartialEq, Eq, Structural)]
pub enum BasicTimer {
    TIM6,
    TIM7,
}

/// The APB1 clock-enable bit of a basic timer.
pub open spec fn basic_timer_bit(timer: BasicTimer) -> u32 {
    match timer {
        BasicTimer::TIM6 => 1u32 << 4,
        BasicTimer::TIM7 => 1u32 << 5,
    }
}

/// Oscillator the PLL can multiply.
#[derive(Clone, Copy, PartialEq, Eq, Structural)]
pub enum PllClockSource {
    HSI,
    HSE,
}

/// Source the system clock can be switched to.
#[derive(Clone, Copy, PartialEq, Eq, Structural)]
pub enum SystemClock {
    HSI,
    HSE,
    PLL,
}

/// The 2-bit selector value of a system-clock source.
pub open spec fn system_clock_bits(clock: SystemClock) -> u32 {
    match clock {
        SystemClock::HSI => 0b00,
        SystemClock::HSE => 0b01,
        SystemClock::PLL => 0b10,
    }
}

impl SystemClock {
    /// The 2-bit selector value of this source.
    pub fn value(self) -> (r: u32)
        ensures
            r == system_clock_bits(self),
    {
        match self {
            SystemClock::HSI => 0b00,
            SystemClock::HSE => 0b01,
            SystemClock::PLL => 0b10,
        }
    }

    /// The source a 2-bit selector or status value stands for, if any.
    pub fn from_bits(value: u32) -> (r: Option<SystemClock>)
        ensures
            value == 0b00 ==> r == Some(SystemClock::HSI),
            value == 0b01 ==> r == Some(SystemClock::HSE),
            value == 0b10 ==> r == Some(SystemClock::PLL),
            value > 0b10 ==> r is None,
    {
        if value == 0b00 {
            Some(SystemClock::HSI)
        } else if value == 0b01 {
            Some(SystemClock::HSE)
        } else if value == 0b10 {
            Some(SystemClock::PLL)
        } else {
            None
        }
    }
}

/// True when the PLL reports locked.
pub open spec fn pll_ready(regs: Seq<u32>) -> bool {
    regs[RCC_CONTROL as int] & (1u32 << 25) != 0
}

/// True when the external oscillator reports stable.
pub open spec fn hse_ready(regs: Seq<u32>) -> bool {
    regs[RCC_CONTROL as int] & (1u32 << 17) != 0
}

/// True when the internal oscillator reports stable.
pub open spec fn hsi_ready(regs: Seq<u32>) -> bool {
    regs[RCC_CONTROL as int] & (1u32 << 1) != 0
}

/// True when the internal low-speed oscillator reports stable.
pub open spec fn lsi_ready(regs: Seq<u32>) -> bool {
    regs[RCC_CONTROL_STATUS as int] & (1u32 << 1) != 0
}

/// The 2-bit system-clock status field (bits 3:2 of the clock
/// configuration register).
pub open spec fn clock_status_bits(regs: Seq<u32>) -> u32 {
    (regs[RCC_CLOCK_CONFIG as int] & 0b1100u32) >> 2
}

/// The 3-bit field value of an APB prescaler divider (any divider outside
/// the supported set selects no division).
pub open spec fn apb_prescaler_bits(prescaler: u8) -> u32 {
    if prescaler == 2 {
        0b100
    } else if prescaler == 4 {
        0b101
    } else if prescaler == 8 {
        0b110
    } else if prescaler == 16 {
        0b111
    } else {
        0b000
    }
}

/// The 4-bit field value of an AHB prescaler divider (any divider outside
/// the supported set selects no division).
pub open spec fn ahb_prescaler_bits(prescaler: u16) -> u32 {
    if prescaler == 2 {
        0b1000
    } else if prescaler == 4 {
        0b1001
    } else if prescaler == 8 {
        0b1010
    } else if prescaler == 16 {
        0b1011
    } else if prescaler == 64 {
        0b1100
    } else if prescaler == 128 {
        0b1101
    } else if prescaler == 256 {
        0b1110
    } else if prescaler == 512 {
        0b1111
    } else {
        0b0000
    }
}

/// The high-speed APB prescaler field (bits 15:13).
pub open spec fn apb_high_speed_field(regs: Seq<u32>) -> u32 {
    (regs[RCC_CLOCK_CONFIG as int] & (0b111u32 << 13)) >> 13
}

/// The low-speed APB prescaler field (bits 12:10).
pub open spec fn apb_low_speed_field(regs: Seq<u32>) -> u32 {
    (regs[RCC_CLOCK_CONFIG as int] & (0b111u32 << 10)) >> 10
}

/// The AHB prescaler field (bits 7:4).
pub open spec fn ahb_field(regs: Seq<u32>) -> u32 {
    (regs[RCC_CLOCK_CONFIG as int] & (0b1111u32 << 4)) >> 4
}

/// The 2-bit field value of the PLL general-output divider (2, 4, 6 or 8;
/// anything else selects divide-by-two).
pub open spec fn system_clock_divider_bits(divider: u8) -> u32 {
    if divider == 2 {
        0b00
    } else if divider == 4 {
        0b01
    } else if divider == 6 {
        0b10
    } else if divider == 8 {
        0b11
    } else {
        0b00
    }
}

/// The PLL configuration value `configure_main_pll` writes: the old value
/// with the source bit, multiplication factor (bits 14:6), input division
/// (bits 5:0), general-output division (bits 17:16) and 48 MHz-domain
/// division (bits 27:24) replaced.
pub open spec fn pll_config_value(
    old_value: u32,
    source_bit: u32,
    multiplication_factor: u16,
    division_factor: u8,
    division_main_system_clock: u8,
    division_48mhz_clock: u8,
) -> u32 {
    let with_source = (old_value & !(1u32 << 22)) | source_bit;
    let with_multiplication = (with_source & !(0x1FFu32 << 6))
        | ((multiplication_factor as u32) << 6);
    let with_division = (with_multiplication & !0x3Fu32) | (division_factor as u32);
    let with_system_divider = (with_division & !(0b11u32 << 16))
        | (system_clock_divider_bits(division_main_system_clock) << 16);
    (with_system_divider & !(0b1111u32 << 24)) | ((division_48mhz_clock as u32) << 24)
}

/// The PLL source bit (bit 22).
pub open spec fn pll_source_is_hse(regs: Seq<u32>) -> bool {
    regs[RCC_PLL_CONFIG as int] & (1u32 << 22) != 0
}

/// The PLL multiplication factor field (bits 14:6).
pub open spec fn pll_multiplication_field(regs: Seq<u32>) -> u32 {
    (regs[RCC_PLL_CONFIG as int] >> 6) & 0x1FFu32
}

/// The PLL input division field (bits 5:0).
pub open spec fn pll_division_field(regs: Seq<u32>) -> u32 {
    regs[RCC_PLL_CONFIG as int] & 0x3Fu32
}

/// The PLL general-output division field (bits 17:16).
pub open spec fn pll_system_divider_field(regs: Seq<u32>) -> u32 {
    (regs[RCC_PLL_CONFIG as int] >> 16) & 0b11u32
}

/// The PLL 48 MHz-domain division field (bits 27:24).
pub open spec fn pll_48mhz_divider_field(regs: Seq<u32>) -> u32 {
    (regs[RCC_PLL_CONFIG as int] >> 24) & 0b1111u32
}

/// The clock configuration value `set_system_clock` leaves: the selector
/// field (bits 1:0) replaced, and the status field (bits 3:2) following it
/// as the completed switch reports.
pub open spec fn clock_switch_value(old_value: u32, clock: SystemClock) -> u32 {
    (((old_value & !0b11u32) | system_clock_bits(clock)) & !0b1100u32)
        | (system_clock_bits(clock) << 2)
}

/// Handle over the reset and clock control register block.
pub struct RccConf {
    pub reg: MemoryMappedIo,
}

impl View for RccConf {
    type V = Seq<u32>;

    open spec fn view(&self) -> Seq<u32> {
        self.reg@
    }
}

impl RccConf {
    /// Creates the handle for the clock controller at `base`.
    pub fn new(base: u32) -> (r: RccConf)
        ensures
            r.reg.base_spec() == base,
            r@.len() == REGISTER_WORDS,
            forall|i: int| 0 <= i < REGISTER_WORDS ==> r@[i] == 0u32,
    {
        RccConf { reg: MemoryMappedIo::new(base) }
    }

    /// The AHB1 clock-enable bit of `port`.
    fn gpio_port_value(port: GpioPort) -> (r: u32)
        ensures
            r == gpio_port_bit(port),
    {
        match port {
            GpioPort::B => 1u32 << 1,
            GpioPort::C => 1u32 << 2,
            GpioPort::D => 1u32 << 3,
        }
    }

    /// Gates the clock of every port in `ports` on with one read-modify-
    /// write, then performs the dummy read the enable-propagation delay
    /// calls for.
    #[verifier::loop_isolation(false)]
    pub fn enable_gpio_ports(&mut self, ports: &[GpioPort])
        ensures
            final(self)@ == old(self)@.update(
                RCC_AHB1_ENABLE as int,
                old(self)@[RCC_AHB1_ENABLE as int] | gpio_ports_mask(ports@),
            ),
            old(self)@.len() == REGISTER_WORDS,
            final(self).reg.base_spec() == old(self).reg.base_spec(),
    {
        let mut enable_bits: u32 = 0;
        let mut i: usize = 0;
        while i < ports.len()
            invariant
                i <= ports@.len(),
                enable_bits == gpio_ports_mask(ports@.take(i as int)),
            decreases ports@.len() - i,
        {
            enable_bits |= Self::gpio_port_value(ports[i]);
            proof {
                let taken = ports@.take(i + 1 as int);
                assert(taken.drop_last() =~= ports@.take(i as int));
            }
            i += 1;
        }
        proof {
            assert(ports@.take(ports@.len() as int) =~= ports@);
        }
        let mut current_value: u32 = self.reg.read(RCC_AHB1_ENABLE);
        current_value |= enable_bits;
        self.reg.write(current_value, RCC_AHB1_ENABLE);
        store_barrier();
        let _value = self.reg.read(RCC_AHB1_ENABLE);
    }

    /// Gates the system configuration controller's clock on.
    pub fn enable_system_configuration_controller(&mut self)
        ensures
            final(self)@ == set_bit_spec(old(self)@, 14, RCC_APB2_ENABLE as int),
            old(self)@.len() == REGISTER_WORDS,
            final(self).reg.base_spec() == old(self).reg.base_spec(),
    {
        self.reg.set_bit(14, RCC_APB2_ENABLE);
    }

    /// Gates `timer`'s clock on, then performs the dummy read the
    /// enable-propagation delay calls for.
    pub fn enable_basic_timer(&mut self, timer: BasicTimer)
        ensures
            final(self)@ == old(self)@.update(
                RCC_APB1_ENABLE as int,
                old(self)@[RCC_APB1_ENABLE as int] | basic_timer_bit(timer),
            ),
            old(self)@.len() == REGISTER_WORDS,
            final(self).reg.base_spec() == old(self).reg.base_spec(),
    {
        let timer_bit: u32 = match timer {
            BasicTimer::TIM6 => 1u32 << 4,
            BasicTimer::TIM7 => 1u32 << 5,
        };
        let mut current_value: u32 = self.reg.read(RCC_APB1_ENABLE);
        current_value |= timer_bit;
        self.reg.write(current_value, RCC_APB1_ENABLE);
        store_barrier();
        let _value = self.reg.read(RCC_APB1_ENABLE);
    }

    /// Gates the numbered serial transmitter's clock on; only transmitter
    /// number three is wired, any other number changes nothing.
    pub fn enable_usart(&mut self, usart_number: u32)
        ensures
            usart_number == 3 ==> final(self)@ == set_bit_spec(old(self)@, 18, RCC_APB1_ENABLE as int),
            usart_number != 3 ==> final(self)@ == old(self)@,
            old(self)@.len() == REGISTER_WORDS,
            final(self).reg.base_spec() == old(self).reg.base_spec(),
    {
        match usart_number {
            3 => {
                self.reg.set_bit(18, RCC_APB1_ENABLE);
            },
            _ => {},
        }
        store_barrier();
        let _value = self.reg.read(RCC_APB1_ENABLE);
    }

    /// Enables the internal low-speed oscillator (the watchdog's clock) and
    /// returns only once it reports ready; the model reports it ready with
    /// the enable.
    #[verifier::loop_isolation(false)]
    pub fn enable_internal_low_speed_oscillator(&mut self)
        ensures
            final(self)@ == set_bit_spec(
                set_bit_spec(old(self)@, 0, RCC_CONTROL_STATUS as int),
                1,
                RCC_CONTROL_STATUS as int,
            ),
            lsi_ready(final(self)@),
            old(self)@.len() == REGISTER_WORDS,
            final(self).reg.base_spec() == old(self).reg.base_spec(),
    {
        self.reg.set_bit(0, RCC_CONTROL_STATUS);
        proof {
            lemma_set_bit_sets(self@[RCC_CONTROL_STATUS as int], 1);
        }
        self.reg.set_bit(1, RCC_CONTROL_STATUS);
        store_barrier();
        while !self.is_internal_low_speed_oscillator_ready()
            decreases 0int,
        {
            no_operation();
        }
        let _value = self.reg.read(RCC_CONTROL_STATUS);
    }

    /// True when the PLL reports locked.
    pub fn is_main_pll_ready(&self) -> (r: bool)
        ensures
            r == pll_ready(self@),
    {
        self.reg.is_bit_set(25, RCC_CONTROL)
    }

    /// Enables the PLL and returns only once it reports locked; the model
    /// reports the lock with the enable.
    #[verifier::loop_isolation(false)]
    pub fn enable_main_pll(&mut self)
        ensures
            final(self)@ == set_bit_spec(
                set_bit_spec(old(self)@, 24, RCC_CONTROL as int),
                25,
                RCC_CONTROL as int,
            ),
            pll_ready(final(self)@),
            old(self)@.len() == REGISTER_WORDS,
            final(self).reg.base_spec() == old(self).reg.base_spec(),
    {
        self.reg.set_bit(24, RCC_CONTROL);
        proof {
            lemma_set_bit_sets(self@[RCC_CONTROL as int], 25);
        }
        self.reg.set_bit(25, RCC_CONTROL);
        store_barrier();
        while !self.is_main_pll_ready()
            decreases 0int,
        {
            no_operation();
        }
        let _value = self.reg.read(RCC_CONTROL);
    }

    /// True when the external oscillator reports stable.
    pub fn is_hse_ready(&self) -> (r: bool)
        ensures
            r == hse_ready(self@),
    {
        self.reg.is_bit_set(17, RCC_CONTROL)
    }

    /// Enables the external oscillator, optionally in bypass mode, and
    /// returns only once it reports stable; the model reports stability
    /// with the enable.
    #[verifier::loop_isolation(false)]
    pub fn enable_hse(&mut self, oscillator_bypassed: bool)
        ensures
            oscillator_bypassed ==> final(self)@ == set_bit_spec(
                set_bit_spec(set_bit_spec(old(self)@, 18, RCC_CONTROL as int), 16, RCC_CONTROL as int),
                17,
                RCC_CONTROL as int,
            ),
            !oscillator_bypassed ==> final(self)@ == set_bit_spec(
                set_bit_spec(clear_bit_spec(old(self)@, 18, RCC_CONTROL as int), 16, RCC_CONTROL as int),
                17,
                RCC_CONTROL as int,
            ),
            hse_ready(final(self)@),
            old(self)@.len() == REGISTER_WORDS,
            final(self).reg.base_spec() == old(self).reg.base_spec(),
    {
        if oscillator_bypassed {
            self.reg.set_bit(18, RCC_CONTROL);
        } else {
            self.reg.clear_bit(18, RCC_CONTROL);
        }
        self.reg.set_bit(16, RCC_CONTROL);
        proof {
            lemma_set_bit_sets(self@[RCC_CONTROL as int], 17);
        }
        self.reg.set_bit(17, RCC_CONTROL);
        store_barrier();
        while !self.is_hse_ready()
            decreases 0int,
        {
            no_operation();
        }
        let _value = self.reg.read(RCC_CONTROL);
    }

    /// True when the internal oscillator reports stable.
    pub fn is_hsi_ready(&self) -> (r: bool)
        ensures
            r == hsi_ready(self@),
    {
        self.reg.is_bit_set(1, RCC_CONTROL)
    }

    /// Enables the internal oscillator and returns only once it reports
    /// stable; the model reports stability with the enable.
    #[verifier::loop_isolation(false)]
    pub fn enable_hsi(&mut self)
        ensures
            final(self)@ == set_bit_spec(
                set_bit_spec(old(self)@, 0, RCC_CONTROL as int),
                1,
                RCC_CONTROL as int,
            ),
            hsi_ready(final(self)@),
            old(self)@.len() == REGISTER_WORDS,
            final(self).reg.base_spec() == old(self).reg.base_spec(),
    {
        self.reg.set_bit(0, RCC_CONTROL);
        proof {
            lemma_set_bit_sets(self@[RCC_CONTROL as int], 1);
        }
        self.reg.set_bit(1, RCC_CONTROL);
        store_barrier();
        while !self.is_hsi_ready()
            decreases 0int,
        {
            no_operation();
        }
        let _value = self.reg.read(RCC_CONTROL);
    }

    /// Disables the internal oscillator; its ready flag falls with the
    /// enable in this model.
    pub fn disable_hsi(&mut self)
        ensures
            final(self)@ == clear_bit_spec(
                clear_bit_spec(old(self)@, 0, RCC_CONTROL as int),
                1,
                RCC_CONTROL as int,
            ),
            !hsi_ready(final(self)@),
            old(self)@.len() == REGISTER_WORDS,
            final(self).reg.base_spec() == old(self).reg.base_spec(),
    {
        self.reg.clear_bit(0, RCC_CONTROL);
        proof {
            lemma_clear_bit_clears(self@[RCC_CONTROL as int], 1);
        }
        self.reg.clear_bit(1, RCC_CONTROL);
        store_barrier();
        let _value = self.reg.read(RCC_CONTROL);
    }

    /// Programs the PLL: enables the chosen source oscillator (waiting for
    /// it), then replaces the source bit and the four division and
    /// multiplication fields of the PLL configuration register, preserving
    /// its other bits. The PLL must not be the active system clock while it
    /// is reconfigured.
    pub fn configure_main_pll(
        &mut self,
        clock_source: PllClockSource,
        hse_oscillator_bypass: bool,
        multiplication_factor: u16,
        division_factor: u8,
        division_main_system_clock: u8,
        division_48mhz_click: u8,
    )
        requires
            multiplication_factor < 512,
            division_factor < 64,
            division_48mhz_click < 16,
            clock_status_bits(old(self)@) != system_clock_bits(SystemClock::PLL),
        ensures
            clock_source == PllClockSource::HSI ==> final(self)@ == set_bit_spec(
                set_bit_spec(old(self)@, 0, RCC_CONTROL as int),
                1,
                RCC_CONTROL as int,
            ).update(
                RCC_PLL_CONFIG as int,
                pll_config_value(
                    old(self)@[RCC_PLL_CONFIG as int],
                    0,
                    multiplication_factor,
                    division_factor,
                    division_main_system_clock,
                    division_48mhz_click,
                ),
            ),
            clock_source == PllClockSource::HSI ==> hsi_ready(final(self)@),
            clock_source == PllClockSource::HSE && hse_oscillator_bypass ==> final(self)@
                == set_bit_spec(
                set_bit_spec(set_bit_spec(old(self)@, 18, RCC_CONTROL as int), 16, RCC_CONTROL as int),
                17,
                RCC_CONTROL as int,
            ).update(
                RCC_PLL_CONFIG as int,
                pll_config_value(
                    old(self)@[RCC_PLL_CONFIG as int],
                    1u32 << 22,
                    multiplication_factor,
                    division_factor,
                    division_main_system_clock,
                    division_48mhz_click,
                ),
            ),
            clock_source == PllClockSource::HSE && !hse_oscillator_bypass ==> final(self)@
                == set_bit_spec(
                set_bit_spec(clear_bit_spec(old(self)@, 18, RCC_CONTROL as int), 16, RCC_CONTROL as int),
                17,
                RCC_CONTROL as int,
            ).update(
                RCC_PLL_CONFIG as int,
                pll_config_value(
                    old(self)@[RCC_PLL_CONFIG as int],
                    1u32 << 22,
                    multiplication_factor,
                    division_factor,
                    division_main_system_clock,
                    division_48mhz_click,
                ),
            ),
            clock_source == PllClockSource::HSE ==> hse_ready(final(self)@),
            pll_source_is_hse(final(self)@) == (clock_source == PllClockSource::HSE),
            pll_multiplication_field(final(self)@) == multiplication_factor as u32,
            pll_division_field(final(self)@) == division_factor as u32,
            pll_system_divider_field(final(self)@) == system_clock_divider_bits(
                division_main_system_clock,
            ),
            pll_48mhz_divider_field(final(self)@) == division_48mhz_click as u32,
            old(self)@.len() == REGISTER_WORDS,
            final(self).reg.base_spec() == old(self).reg.base_spec(),
    {
        let mut current_value = self.reg.read(RCC_PLL_CONFIG);
        current_value &= !(1u32 << 22);
        let source_bit: u32 = match clock_source {
            PllClockSource::HSI => {
                self.enable_hsi();
                0
            },
            PllClockSource::HSE => {
                self.enable_hse(hse_oscillator_bypass);
                1u32 << 22
            },
        };
        current_value |= source_bit;
        current_value &= !(0x1FFu32 << 6);
        current_value |= (multiplication_factor as u32) << 6;
        current_value &= !0x3Fu32;
        current_value |= division_factor as u32;
        current_value &= !(0b11u32 << 16);
        let main_system_clk_divider: u32 = match division_main_system_clock {
            2 => 0b00,
            4 => 0b01,
            6 => 0b10,
            8 => 0b11,
            _ => 0b00,
        };
        current_value |= main_system_clk_divider << 16;
        current_value &= !(0b1111u32 << 24);
        current_value |= (division_48mhz_click as u32) << 24;
        proof {
            let w = old(self)@[RCC_PLL_CONFIG as int];
            let sb = source_bit;
            let m = multiplication_factor as u32;
            let d = division_factor as u32;
            let p = main_system_clk_divider;
            let q = division_48mhz_click as u32;
            let v = ((((((((((w & !(1u32 << 22)) | sb) & !(0x1FFu32 << 6)) | (m << 6)) & !0x3Fu32)
                | d) & !(0b11u32 << 16)) | (p << 16)) & !(0b1111u32 << 24)) | (q << 24));
            assert(current_value == v);
            assert((v & (1u32 << 22) != 0) == (sb != 0) && 1u32 << 22 != 0u32
                && (v >> 6) & 0x1FFu32 == m && v & 0x3Fu32 == d && (v >> 16) & 0b11u32 == p
                && (v >> 24) & 0b1111u32 == q) by (bit_vector)
                requires
                    v == ((((((((((w & !(1u32 << 22)) | sb) & !(0x1FFu32 << 6)) | (m << 6))
                        & !0x3Fu32) | d) & !(0b11u32 << 16)) | (p << 16)) & !(0b1111u32 << 24))
                        | (q << 24)),
                    sb == 0 || sb == 1u32 << 22,
                    m < 512,
                    d < 64,
                    p < 4,
                    q < 16,
            ;
        }
        self.reg.write(current_value, RCC_PLL_CONFIG);
        store_barrier();
        let _value = self.reg.read(RCC_PLL_CONFIG);
    }

    /// True when the internal low-speed oscillator reports stable.
    pub fn is_internal_low_speed_oscillator_ready(&self) -> (r: bool)
        ensures
            r == lsi_ready(self@),
    {
        self.reg.is_bit_set(1, RCC_CONTROL_STATUS)
    }

    /// The source the system-clock status field reports as active. The
    /// status field value it decodes never reads as the reserved fourth
    /// value on this hardware.
    pub fn get_system_clock_status(&self) -> (r: SystemClock)
        requires
            clock_status_bits(self@) != 0b11,
        ensures
            system_clock_bits(r) == clock_status_bits(self@),
    {
        let word = self.reg.read(RCC_CLOCK_CONFIG);
        let value = (word & 0b1100u32) >> 2;
        proof {
            assert((word & 0b1100u32) >> 2 <= 3) by (bit_vector);
        }
        match SystemClock::from_bits(value) {
            Some(clock) => clock,
            None => vstd::pervasive::unreached(),
        }
    }

    /// Switches the system-clock selector to `system_clock` and returns
    /// only once the status field reports the requested source. The model
    /// completes the switch with the write; on hardware the status field
    /// lags, and this poll is what delays the return until the switch has
    /// taken effect.
    #[verifier::loop_isolation(false)]
    pub fn set_system_clock(&mut self, system_clock: SystemClock)
        ensures
            final(self)@ == old(self)@.update(
                RCC_CLOCK_CONFIG as int,
                clock_switch_value(old(self)@[RCC_CLOCK_CONFIG as int], system_clock),
            ),
            clock_status_bits(final(self)@) == system_clock_bits(system_clock),
            old(self)@.len() == REGISTER_WORDS,
            final(self).reg.base_spec() == old(self).reg.base_spec(),
    {
        let mut current_value = self.reg.read(RCC_CLOCK_CONFIG);
        let selector = system_clock.value();
        current_value &= !0b11u32;
        current_value |= selector;
        current_value &= !0b1100u32;
        current_value |= selector << 2;
        proof {
            let w = old(self)@[RCC_CLOCK_CONFIG as int];
            assert((((((w & !0b11u32) | selector) & !0b1100u32) | (selector << 2)) & 0b1100u32)
                >> 2 == selector) by (bit_vector)
                requires
                    selector < 4,
            ;
        }
        self.reg.write(current_value, RCC_CLOCK_CONFIG);
        store_barrier();
        while self.get_system_clock_status() != system_clock
            decreases 0int,
        {
            no_operation();
        }
        let _value = self.reg.read(RCC_CLOCK_CONFIG);
    }

    /// The 3-bit field value of an APB prescaler divider.
    fn calculate_apb_prescaler(prescaler: u8) -> (r: u32)
        ensures
            r == apb_prescaler_bits(prescaler),
    {
        match prescaler {
            2 => 0b100,
            4 => 0b101,
            8 => 0b110,
            16 => 0b111,
            _ => 0b000,
        }
    }

    /// True when both APB prescaler fields hold the given dividers' values.
    pub fn is_apb_prescaler_set(&self, high_speed: u8, low_speed: u8) -> (r: bool)
        ensures
            r == (apb_high_speed_field(self@) == apb_prescaler_bits(high_speed)
                && apb_low_speed_field(self@) == apb_prescaler_bits(low_speed)),
    {
        let current = self.reg.read(RCC_CLOCK_CONFIG);
        let high = (current & (0b111u32 << 13)) >> 13;
        let low = (current & (0b111u32 << 10)) >> 10;
        high == Self::calculate_apb_prescaler(high_speed)
            && low == Self::calculate_apb_prescaler(low_speed)
    }

    /// Forces both APB prescalers to their most conservative (largest)
    /// divider, the guard that keeps either bus inside its rated frequency
    /// across the coming clock switch.
    pub fn set_highest_apb_dividers(&mut self)
        ensures
            final(self)@ == old(self)@.update(
                RCC_CLOCK_CONFIG as int,
                ((old(self)@[RCC_CLOCK_CONFIG as int] & !(0b111u32 << 13)) & !(0b111u32 << 10))
                    | ((0b111u32 << 13) | (0b111u32 << 10)),
            ),
            old(self)@.len() == REGISTER_WORDS,
            final(self).reg.base_spec() == old(self).reg.base_spec(),
    {
        let mut current_value = self.reg.read(RCC_CLOCK_CONFIG);
        current_value &= !(0b111u32 << 13);
        current_value &= !(0b111u32 << 10);
        current_value |= (0b111u32 << 13) | (0b111u32 << 10);
        self.reg.write(current_value, RCC_CLOCK_CONFIG);
    }

    /// Programs the two APB prescalers: first forces both to their most
    /// conservative divider, then writes the requested dividers and returns
    /// only once they read back.
    #[verifier::loop_isolation(false)]
    pub fn set_apb_prescaler(&mut self, high_speed: u8, low_speed: u8)
        ensures
            final(self)@ == old(self)@.update(
                RCC_CLOCK_CONFIG as int,
                ((clock_config_after_highest(old(self)@) & !(0b111u32 << 13)) & !(0b111u32 << 10))
                    | (apb_prescaler_bits(high_speed) << 13) | (apb_prescaler_bits(low_speed)
                    << 10),
            ),
            apb_high_speed_field(final(self)@) == apb_prescaler_bits(high_speed),
            apb_low_speed_field(final(self)@) == apb_prescaler_bits(low_speed),
            old(self)@.len() == REGISTER_WORDS,
            final(self).reg.base_spec() == old(self).reg.base_spec(),
    {
        self.set_highest_apb_dividers();
        let mut current_value = self.reg.read(RCC_CLOCK_CONFIG);
        current_value &= !(0b111u32 << 13);
        current_value &= !(0b111u32 << 10);
        let high_bits = Self::calculate_apb_prescaler(high_speed);
        let low_bits = Self::calculate_apb_prescaler(low_speed);
        current_value |= high_bits << 13;
        current_value |= low_bits << 10;
        proof {
            let w = clock_config_after_highest(old(self)@);
            let v = ((((w & !(0b111u32 << 13)) & !(0b111u32 << 10)) | (high_bits << 13))
                | (low_bits << 10));
            assert(current_value == v);
            assert((v & (0b111u32 << 13)) >> 13 == high_bits
                && (v & (0b111u32 << 10)) >> 10 == low_bits) by (bit_vector)
                requires
                    v == ((((w & !(0b111u32 << 13)) & !(0b111u32 << 10)) | (high_bits << 13))
                        | (low_bits << 10)),
                    high_bits < 8,
                    low_bits < 8,
            ;
        }
        self.reg.write(current_value, RCC_CLOCK_CONFIG);
        proof {
            assert(self@ =~= old(self)@.update(RCC_CLOCK_CONFIG as int, current_value));
        }
        store_barrier();
        while !self.is_apb_prescaler_set(high_speed, low_speed)
            decreases 0int,
        {
            no_operation();
        }
        let _value = self.reg.read(RCC_CLOCK_CONFIG);
    }

    /// The 4-bit field value of an AHB prescaler divider.
    fn calculate_ahb_prescaler(prescaler: u16) -> (r: u32)
        ensures
            r == ahb_prescaler_bits(prescaler),
    {
        match prescaler {
            2 => 0b1000,
            4 => 0b1001,
            8 => 0b1010,
            16 => 0b1011,
            64 => 0b1100,
            128 => 0b1101,
            256 => 0b1110,
            512 => 0b1111,
            _ => 0b0000,
        }
    }

    /// True when the AHB prescaler field holds the given divider's value.
    pub fn is_ahb_prescaler_set(&self, prescaler: u16) -> (r: bool)
        ensures
            r == (ahb_field(self@) == ahb_prescaler_bits(prescaler)),
    {
        let current = (self.reg.read(RCC_CLOCK_CONFIG) & (0b1111u32 << 4)) >> 4;
        Self::calculate_ahb_prescaler(prescaler) == current
    }

    /// Programs the AHB prescaler and returns only once it reads back.
    #[verifier::loop_isolation(false)]
    pub fn set_ahb_prescaler(&mut self, divider: u16)
        ensures
            final(self)@ == old(self)@.update(
                RCC_CLOCK_CONFIG as int,
                (old(self)@[RCC_CLOCK_CONFIG as int] & !(0b1111u32 << 4))
                    | (ahb_prescaler_bits(divider) << 4),
            ),
            ahb_field(final(self)@) == ahb_prescaler_bits(divider),
            old(self)@.len() == REGISTER_WORDS,
            final(self).reg.base_spec() == old(self).reg.base_spec(),
    {
        let mut current_value = self.reg.read(RCC_CLOCK_CONFIG);
        current_value &= !(0b1111u32 << 4);
        let divider_bits = Self::calculate_ahb_prescaler(divider);
        current_value |= divider_bits << 4;
        proof {
            let w = old(self)@[RCC_CLOCK_CONFIG as int];
            assert((((w & !(0b1111u32 << 4)) | (divider_bits << 4)) & (0b1111u32 << 4)) >> 4
                == divider_bits) by (bit_vector)
                requires
                    divider_bits < 16,
            ;
        }
        self.reg.write(current_value, RCC_CLOCK_CONFIG);
        store_barrier();
        while !self.is_ahb_prescaler_set(divider)
            decreases 0int,
        {
            no_operation();
        }
        let _value = self.reg.read(RCC_CLOCK_CONFIG);
    }

    /// Gates the numbered DMA controller's clock on; only controllers one
    /// and two exist, any other number changes nothing.
    pub fn enable_dma(&mut self, dma_id: u32)
        ensures
            dma_id == 1 ==> final(self)@ == set_bit_spec(old(self)@, 21, RCC_AHB1_ENABLE as int),
            dma_id == 2 ==> final(self)@ == set_bit_spec(old(self)@, 22, RCC_AHB1_ENABLE as int),
            dma_id != 1 && dma_id != 2 ==> final(self)@ == old(self)@,
            old(self)@.len() == REGISTER_WORDS,
            final(self).reg.base_spec() == old(self).reg.base_spec(),
    {
        match dma_id {
            1 => self.reg.set_bit(21, RCC_AHB1_ENABLE),
            2 => self.reg.set_bit(22, RCC_AHB1_ENABLE),
            _ => {},
        }
        store_barrier();
        let _value = self.reg.read(RCC_AHB1_ENABLE);
    }

    /// Gates the power controller's interface clock on, the first step of
    /// the bring-up sequence.
    pub fn enable_power_interface(&mut self)
        ensures
            final(self)@ == set_bit_spec(old(self)@, 28, RCC_APB1_ENABLE as int),
            old(self)@.len() == REGISTER_WORDS,
            final(self).reg.base_spec() == old(self).reg.base_spec(),
    {
        self.reg.set_bit(28, RCC_APB1_ENABLE);
        store_barrier();
        let _value = self.reg.read(RCC_APB1_ENABLE);
    }
}

/// The clock configuration word after `set_highest_apb_dividers`.
pub open spec fn clock_config_after_highest(regs: Seq<u32>) -> u32 {
    ((regs[RCC_CLOCK_CONFIG as int] & !(0b111u32 << 13)) & !(0b111u32 << 10))
        | ((0b111u32 << 13) | (0b111u32 << 10))
}

} // verus!
