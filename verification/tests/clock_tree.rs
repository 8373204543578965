use stm32_bringup::flash::FlashConf;
use stm32_bringup::pwr::PwrConf;
use stm32_bringup::rcc::RccConf;
use stm32_bringup::rcc::SystemClock;
use stm32_bringup::stm32f439zitx::setup_clock;
use stm32_bringup::stm32f439zitx::FLASH_BASE;
use stm32_bringup::stm32f439zitx::PWR_BASE;
use stm32_bringup::stm32f439zitx::RCC_BASE;

#[test]
fn set_system_clock_returns_with_status_confirmed() {
    let mut rcc = RccConf::new(RCC_BASE);
    rcc.set_system_clock(SystemClock::HSE);
    assert!(rcc.get_system_clock_status() == SystemClock::HSE);
    assert_eq!(rcc.reg.read(2) & 0b11, 0b01);
    assert_eq!((rcc.reg.read(2) >> 2) & 0b11, 0b01);
}

#[test]
fn set_system_clock_preserves_the_prescaler_fields() {
    let mut rcc = RccConf::new(RCC_BASE);
    rcc.set_apb_prescaler(2, 4);
    rcc.set_system_clock(SystemClock::PLL);
    assert!(rcc.is_apb_prescaler_set(2, 4));
    assert!(rcc.get_system_clock_status() == SystemClock::PLL);
}

#[test]
fn apb_prescaler_writes_both_fields() {
    let mut rcc = RccConf::new(RCC_BASE);
    rcc.set_apb_prescaler(2, 4);
    let config = rcc.reg.read(2);
    assert_eq!((config >> 13) & 0b111, 0b100);
    assert_eq!((config >> 10) & 0b111, 0b101);
    assert!(rcc.is_apb_prescaler_set(2, 4));
    assert!(!rcc.is_apb_prescaler_set(8, 16));
}

#[test]
fn ahb_prescaler_encodes_the_divider() {
    let mut rcc = RccConf::new(RCC_BASE);
    rcc.set_ahb_prescaler(8);
    assert_eq!((rcc.reg.read(2) >> 4) & 0b1111, 0b1010);
    assert!(rcc.is_ahb_prescaler_set(8));
    rcc.set_ahb_prescaler(1);
    assert_eq!((rcc.reg.read(2) >> 4) & 0b1111, 0b0000);
}

#[test]
fn oscillator_enables_report_ready() {
    let mut rcc = RccConf::new(RCC_BASE);
    assert!(!rcc.is_hse_ready());
    rcc.enable_hse(true);
    assert!(rcc.is_hse_ready());
    assert_eq!(rcc.reg.read(0) & (1 << 16), 1 << 16);
    assert_eq!(rcc.reg.read(0) & (1 << 18), 1 << 18);
    rcc.enable_hsi();
    assert!(rcc.is_hsi_ready());
    rcc.disable_hsi();
    assert!(!rcc.is_hsi_ready());
    assert!(!rcc.is_internal_low_speed_oscillator_ready());
    rcc.enable_internal_low_speed_oscillator();
    assert!(rcc.is_internal_low_speed_oscillator_ready());
    assert!(!rcc.is_main_pll_ready());
    rcc.enable_main_pll();
    assert!(rcc.is_main_pll_ready());
}

#[test]
fn pll_configuration_packs_every_field() {
    let mut rcc = RccConf::new(RCC_BASE);
    rcc.configure_main_pll(stm32_bringup::rcc::PllClockSource::HSE, true, 168, 4, 2, 7);
    let expected: u32 = (1 << 22) | (168 << 6) | 4 | (0b00 << 16) | (7 << 24);
    assert_eq!(rcc.reg.read(1), expected);
    assert!(rcc.is_hse_ready());
}

#[test]
fn regulator_scaling_reads_back() {
    let mut pwr = PwrConf::new(PWR_BASE);
    pwr.set_regulator_voltage_scaling_output(1);
    assert_eq!(pwr.get_regulator_voltage_scaling_output(), 1);
    assert!(pwr.is_regulator_voltage_scaling_output_ready());
    assert_eq!(pwr.reg.read(0) & (0b11 << 14), 0b11 << 14);
    pwr.set_regulator_voltage_scaling_output(3);
    assert_eq!(pwr.get_regulator_voltage_scaling_output(), 3);
}

#[test]
fn flash_access_control_reads_the_latency_back() {
    let mut flash = FlashConf::new(FLASH_BASE);
    flash.configure_access_control(5, true, true, true);
    let value = flash.reg.read(0);
    assert_eq!(value & 0b1111, 5);
    assert_eq!(value & (1 << 8), 1 << 8);
    assert_eq!(value & (1 << 9), 1 << 9);
    assert_eq!(value & (1 << 10), 1 << 10);
    flash.configure_access_control(3, false, false, false);
    assert_eq!(flash.reg.read(0), 3);
}

#[test]
fn clock_bring_up_reaches_the_pll_at_full_speed() {
    let mut rcc = RccConf::new(RCC_BASE);
    let mut pwr = PwrConf::new(PWR_BASE);
    let mut flash = FlashConf::new(FLASH_BASE);
    setup_clock(&mut rcc, &mut pwr, &mut flash);

    assert!(rcc.get_system_clock_status() == SystemClock::PLL);
    let control = rcc.reg.read(0);
    assert_eq!(control & (1 << 16), 1 << 16); // external oscillator on
    assert_eq!(control & (1 << 17), 1 << 17); // and ready
    assert_eq!(control & (1 << 18), 1 << 18); // in bypass mode
    assert_eq!(control & (1 << 24), 1 << 24); // PLL on
    assert_eq!(control & (1 << 25), 1 << 25); // and locked
    assert_eq!(control & 0b11, 0); // internal oscillator off

    let pll_config = rcc.reg.read(1);
    assert_eq!(pll_config, (1 << 22) | (168 << 6) | 4 | (7 << 24));

    let clock_config = rcc.reg.read(2);
    assert_eq!(clock_config & 0b11, 0b10); // selector on the PLL
    assert_eq!((clock_config >> 2) & 0b11, 0b10); // status confirms it
    assert_eq!((clock_config >> 4) & 0b1111, 0b0000); // AHB undivided
    assert_eq!((clock_config >> 10) & 0b111, 0b101); // APB low-speed quarter
    assert_eq!((clock_config >> 13) & 0b111, 0b100); // APB high-speed half

    assert_eq!(rcc.reg.read(16) & (1 << 28), 1 << 28); // power interface clock
    assert_eq!(rcc.reg.read(29) & 0b11, 0b11); // low-speed oscillator on and ready

    assert_eq!(pwr.get_regulator_voltage_scaling_output(), 1);
    assert!(pwr.is_regulator_voltage_scaling_output_ready());
    assert_eq!(flash.reg.read(0) & 0b1111, 5);
}

#[test]
fn peripheral_clock_gates_set_their_bits() {
    let mut rcc = RccConf::new(RCC_BASE);
    rcc.enable_gpio_ports(&[
        stm32_bringup::rcc::GpioPort::B,
        stm32_bringup::rcc::GpioPort::C,
        stm32_bringup::rcc::GpioPort::D,
    ]);
    assert_eq!(rcc.reg.read(12), 0b1110);
    rcc.enable_dma(1);
    assert_eq!(rcc.reg.read(12) & (1 << 21), 1 << 21);
    rcc.enable_dma(9);
    assert_eq!(rcc.reg.read(12), 0b1110 | (1 << 21));
    rcc.enable_usart(3);
    assert_eq!(rcc.reg.read(16) & (1 << 18), 1 << 18);
    rcc.enable_usart(2);
    assert_eq!(rcc.reg.read(16), 1 << 18);
    rcc.enable_basic_timer(stm32_bringup::rcc::BasicTimer::TIM6);
    rcc.enable_basic_timer(stm32_bringup::rcc::BasicTimer::TIM7);
    assert_eq!(rcc.reg.read(16) & 0b110000, 0b110000);
    rcc.enable_system_configuration_controller();
    assert_eq!(rcc.reg.read(17), 1 << 14);
    rcc.enable_power_interface();
    assert_eq!(rcc.reg.read(16) & (1 << 28), 1 << 28);
}

#[test]
fn system_clock_selector_values_round_trip() {
    assert_eq!(SystemClock::HSI.value(), 0b00);
    assert_eq!(SystemClock::HSE.value(), 0b01);
    assert_eq!(SystemClock::PLL.value(), 0b10);
    assert!(SystemClock::from_bits(0b00) == Some(SystemClock::HSI));
    assert!(SystemClock::from_bits(0b01) == Some(SystemClock::HSE));
    assert!(SystemClock::from_bits(0b10) == Some(SystemClock::PLL));
    assert!(SystemClock::from_bits(0b11).is_none());
}
