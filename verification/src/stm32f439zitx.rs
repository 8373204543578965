//! One chip's wiring: the peripheral base addresses, the interrupt indices
//! the firmware uses, and the clock-tree bring-up sequence that takes the
//! chip from its reset oscillator to the PLL at full speed.

use vstd::prelude::*;

use crate::flash::FlashConf;
use crate::flash::flash_latency_of;
use crate::memory_mapped_io::lemma_bit_independent;
use crate::memory_mapped_io::no_operation;
use crate::pwr::PwrConf;
use crate::pwr::regulator_ready;
use crate::pwr::regulator_scale_of;
use crate::rcc::PllClockSource;
use crate::rcc::RccConf;
use crate::rcc::SystemClock;
use crate::rcc::RCC_CLOCK_CONFIG;
use crate::rcc::RCC_CONTROL;
use crate::rcc::ahb_field;
use crate::rcc::ahb_prescaler_bits;
use crate::rcc::apb_high_speed_field;
use crate::rcc::apb_low_speed_field;
use crate::rcc::apb_prescaler_bits;
use crate::rcc::clock_status_bits;
use crate::rcc::hse_ready;
use crate::rcc::hsi_ready;
use crate::rcc::lsi_ready;
use crate::rcc::pll_48mhz_divider_field;
use crate::rcc::pll_division_field;
use crate::rcc::pll_multiplication_field;
use crate::rcc::pll_ready;
use crate::rcc::pll_source_is_hse;
use crate::rcc::pll_system_divider_field;
use crate::rcc::system_clock_bits;

verus! {

/// Base address of GPIO port B.
pub const PORT_B_BASE: u32 = 0x4002_0400;

/// Base address of GPIO port C.
pub const PORT_C_BASE: u32 = 0x4002_0800;

/// Base address of GPIO port D.
pub const PORT_D_BASE: u32 = 0x4002_0C00;

/// Base address of the interrupt controller's set-enable bank.
pub const NVIC_BASE: u32 = 0xE000_E100;

/// Base address of the reset and clock controller.
pub const RCC_BASE: u32 = 0x4002_3800;

/// Base address of basic timer six.
pub const TIM6_BASE: u32 = 0x4000_1000;

/// Base address of basic timer seven.
pub const TIM7_BASE: u32 = 0x4000_1400;

/// Base address of the external-interrupt controller.
pub const EXTI_BASE: u32 = 0x4001_3C00;

/// Base address of the system configuration controller.
pub const SYSCFG_BASE: u32 = 0x4001_3800;

/// Base address of serial transmitter three.
pub const USART3_BASE: u32 = 0x4000_4800;

/// Base address of the independent watchdog.
pub const IWDG_BASE: u32 = 0x4000_3000;

/// Base address of DMA controller one.
pub const DMA1_BASE: u32 = 0x4002_6000;

/// Base address of the flash controller.
pub const FLASH_BASE: u32 = 0x4002_3C00;

/// Base address of the power controller.
pub const PWR_BASE: u32 = 0x4000_7000;

/// Interrupt line the firmware enables.
#[derive(Clone, Copy, PartialEq, Eq, Structural)]
pub enum Interrupt {
    Exti15_10,
    Tim6Dac,
    Tim7,
}

/// The controller index of an interrupt line.
pub open spec fn interrupt_index(interrupt: Interrupt) -> u32 {
    match interrupt {
        Interrupt::Exti15_10 => 40,
        Interrupt::Tim6Dac => 54,
        Interrupt::Tim7 => 55,
    }
}

impl Interrupt {
    /// The controller index of this interrupt line.
    pub fn index(self) -> (r: u32)
        ensures
            r == interrupt_index(self),
    {
        match self {
            Interrupt::Exti15_10 => 40,
            Interrupt::Tim6Dac => 54,
            Interrupt::Tim7 => 55,
        }
    }
}

/// Brings the clock tree up to 168 MHz from the bypassed external
/// oscillator: power interface on, voltage scale one reached, low-speed
/// oscillator running for the watchdog, both bus prescalers forced to
/// their most conservative divider before the frequency rises, the PLL
/// programmed (input divided by four, multiplied by 168, general output
/// halved, 48 MHz domain divided by seven) and locked, five flash wait
/// states in place before the switch, the system clock switched to the
/// PLL and confirmed, the prescalers relaxed to their final ratios (APB
/// high-speed half, APB low-speed quarter, AHB undivided), and the unused
/// internal oscillator shut down. Each step returns only once its
/// readiness condition is polled true, and the PLL is only reconfigured
/// while it is not the active system clock.
#[verifier::loop_isolation(false)]
pub fn setup_clock(rcc: &mut RccConf, pwr: &mut PwrConf, flash: &mut FlashConf)
    requires
        clock_status_bits(old(rcc)@) != system_clock_bits(SystemClock::PLL),
    ensures
        clock_status_bits(final(rcc)@) == system_clock_bits(SystemClock::PLL),
        pll_ready(final(rcc)@),
        hse_ready(final(rcc)@),
        !hsi_ready(final(rcc)@),
        lsi_ready(final(rcc)@),
        pll_source_is_hse(final(rcc)@),
        pll_multiplication_field(final(rcc)@) == 168,
        pll_division_field(final(rcc)@) == 4,
        pll_system_divider_field(final(rcc)@) == 0b00,
        pll_48mhz_divider_field(final(rcc)@) == 7,
        apb_high_speed_field(final(rcc)@) == apb_prescaler_bits(2),
        apb_low_speed_field(final(rcc)@) == apb_prescaler_bits(4),
        ahb_field(final(rcc)@) == ahb_prescaler_bits(1),
        regulator_scale_of(final(pwr)@) == 1,
        regulator_ready(final(pwr)@),
        flash_latency_of(final(flash)@) == 5,
        final(rcc).reg.base_spec() == old(rcc).reg.base_spec(),
        final(pwr).reg.base_spec() == old(pwr).reg.base_spec(),
        final(flash).reg.base_spec() == old(flash).reg.base_spec(),
{
    rcc.enable_power_interface();
    pwr.set_regulator_voltage_scaling_output(1);
    while !pwr.is_regulator_voltage_scaling_output_ready()
        decreases 0int,
    {
        no_operation();
    }
    rcc.enable_internal_low_speed_oscillator();
    let ghost cfgr_start = rcc@[RCC_CLOCK_CONFIG as int];
    rcc.set_highest_apb_dividers();
    proof {
        let c = cfgr_start;
        assert(((((c & !(0b111u32 << 13)) & !(0b111u32 << 10)) | ((0b111u32 << 13) | (0b111u32
            << 10))) & 0b1100u32) == c & 0b1100u32) by (bit_vector);
    }
    rcc.configure_main_pll(PllClockSource::HSE, true, 168, 4, 2, 7);
    proof {
        let cr = rcc@[RCC_CONTROL as int];
        lemma_bit_independent(cr, 24, 17);
        lemma_bit_independent(cr | (1u32 << 24), 25, 17);
    }
    rcc.enable_main_pll();
    flash.configure_access_control(5, true, true, true);
    rcc.set_system_clock(SystemClock::PLL);
    let ghost cfgr_switched = rcc@[RCC_CLOCK_CONFIG as int];
    rcc.set_apb_prescaler(2, 4);
    proof {
        let c = cfgr_switched;
        let w = rcc@[RCC_CLOCK_CONFIG as int];
        assert(w & 0b1100u32 == c & 0b1100u32) by (bit_vector)
            requires
                w == (((((((c & !(0b111u32 << 13)) & !(0b111u32 << 10)) | ((0b111u32 << 13)
                    | (0b111u32 << 10))) & !(0b111u32 << 13)) & !(0b111u32 << 10)) | (0b100u32
                    << 13)) | (0b101u32 << 10)),
        ;
    }
    let ghost cfgr_apb = rcc@[RCC_CLOCK_CONFIG as int];
    rcc.set_ahb_prescaler(1);
    proof {
        let w2 = cfgr_apb;
        let w3 = rcc@[RCC_CLOCK_CONFIG as int];
        assert(w3 & 0b1100u32 == w2 & 0b1100u32 && w3 & (0b111u32 << 13) == w2 & (0b111u32 << 13)
            && w3 & (0b111u32 << 10) == w2 & (0b111u32 << 10)) by (bit_vector)
            requires
                w3 == (w2 & !(0b1111u32 << 4)) | (0b0000u32 << 4),
        ;
        let cr2 = rcc@[RCC_CONTROL as int];
        lemma_bit_independent(cr2, 0, 17);
        lemma_bit_independent(cr2, 0, 25);
        lemma_bit_independent(cr2 & !(1u32 << 0), 1, 17);
        lemma_bit_independent(cr2 & !(1u32 << 0), 1, 25);
    }
    rcc.disable_hsi();
}

} // verus!
