use stm32_bringup::exti::ExtiConf;
use stm32_bringup::gpio::AlternateFunction;
use stm32_bringup::gpio::GpioConf;
use stm32_bringup::gpio::OutputSpeed;
use stm32_bringup::gpio::PinMode;
use stm32_bringup::independent_watchdog::IndependentWatchdogConf;
use stm32_bringup::nvic::NvicConf;
use stm32_bringup::stm32f439zitx::EXTI_BASE;
use stm32_bringup::stm32f439zitx::Interrupt;
use stm32_bringup::stm32f439zitx::IWDG_BASE;
use stm32_bringup::stm32f439zitx::NVIC_BASE;
use stm32_bringup::stm32f439zitx::PORT_B_BASE;
use stm32_bringup::stm32f439zitx::SYSCFG_BASE;
use stm32_bringup::stm32f439zitx::TIM7_BASE;
use stm32_bringup::syscfg::ExternalInterruptSourcePort;
use stm32_bringup::syscfg::SysConf;
use stm32_bringup::timer::BasicTimerConf;

#[test]
fn pin_modes_pack_two_bits_per_pin() {
    let mut port = GpioConf::new(PORT_B_BASE);
    port.set_pins_mode(PinMode::Output, &[0, 7, 14]);
    assert_eq!(port.reg.read(0), 1 | (1 << 14) | (1 << 28));
    port.set_pin_mode(PinMode::Alternate, 7);
    assert_eq!(port.reg.read(0), 1 | (0b10 << 14) | (1 << 28));
    port.set_pin_mode(PinMode::Input, 7);
    assert_eq!(port.reg.read(0), 1 | (1 << 28));
}

#[test]
fn pin_set_and_toggle_drive_the_output_register() {
    let mut port = GpioConf::new(PORT_B_BASE);
    port.set_pin(7);
    assert_eq!(port.reg.read(5) & (1 << 7), 1 << 7);
    assert_eq!(port.reg.read(6), 1 << 7);
    port.switch_pin_output(7);
    assert_eq!(port.reg.read(5) & (1 << 7), 0);
    assert_eq!(port.reg.read(6), 1 << 23);
    port.switch_pin_output(7);
    assert_eq!(port.reg.read(5) & (1 << 7), 1 << 7);
    assert_eq!(port.reg.read(6), 1 << 7);
}

#[test]
fn alternate_function_and_speed_select_their_fields() {
    let mut port = GpioConf::new(PORT_B_BASE);
    port.set_alternate_function(8, AlternateFunction::Usart1_3);
    assert_eq!(port.reg.read(9), 0b0111);
    port.set_alternate_function(9, AlternateFunction::Usart1_3);
    assert_eq!(port.reg.read(9), 0b0111_0111);
    port.set_alternate_function(3, AlternateFunction::Usart1_3);
    assert_eq!(port.reg.read(8), 0b0111 << 12);
    port.set_output_speed(8, OutputSpeed::VeryHigh);
    assert_eq!(port.reg.read(2), 0b11 << 16);
    port.set_output_speed(0, OutputSpeed::Medium);
    assert_eq!(port.reg.read(2), (0b11 << 16) | 0b01);
}

#[test]
fn basic_timer_programming_lands_on_its_registers() {
    let mut timer = BasicTimerConf::new(TIM7_BASE);
    timer.update_interrupt_enable();
    assert_eq!(timer.reg.read(3), 1);
    timer.set_prescaler(0xFFFF);
    assert_eq!(timer.reg.read(10), 0xFFFF);
    timer.set_auto_reload(0x0285);
    assert_eq!(timer.reg.read(11), 0x0285);
    timer.enable_timer();
    assert_eq!(timer.reg.read(0), 1);
    timer.reg.write(1, 4);
    timer.clear_status_flag();
    assert_eq!(timer.reg.read(4), 0);
}

#[test]
fn watchdog_keys_start_and_feed() {
    let mut watchdog = IndependentWatchdogConf::new(IWDG_BASE);
    watchdog.start_watchdog();
    assert_eq!(watchdog.reg.read(0), 0xCCCC);
    watchdog.feed_watchdog();
    assert_eq!(watchdog.reg.read(0), 0xAAAA);
}

#[test]
fn external_interrupt_line_thirteen_is_wired() {
    let mut exti = ExtiConf::new(EXTI_BASE);
    exti.unmask_interrupt(13);
    assert_eq!(exti.reg.read(0), 1 << 13);
    exti.enable_rising_trigger(13);
    assert_eq!(exti.reg.read(2), 1 << 13);
    exti.clear_pending(13);
    assert_eq!(exti.reg.read(5), 1 << 13);
}

#[test]
fn interrupt_indices_spread_over_the_enable_words() {
    let mut nvic = NvicConf::new(NVIC_BASE);
    nvic.enable_interrupts(&[
        Interrupt::Exti15_10.index(),
        Interrupt::Tim7.index(),
        Interrupt::Tim6Dac.index(),
    ]);
    assert_eq!(nvic.set_enable_base.read(1), (1 << 8) | (1 << 22) | (1 << 23));
    assert_eq!(nvic.set_enable_base.read(0), 0);
    nvic.enable_interrupt(31);
    assert_eq!(nvic.set_enable_base.read(0), 1 << 31);
}

#[test]
fn interrupt_source_port_selector_lands_in_the_fourth_register() {
    let mut syscfg = SysConf::new(SYSCFG_BASE);
    syscfg.set_external_interrupt_source_port(13, ExternalInterruptSourcePort::PortC);
    assert_eq!(syscfg.reg.read(5), 0b0010 << 4);
    assert_eq!(syscfg.reg.read(2), 0);
}
