//! Register-level drivers for one microcontroller: clock-tree bring-up,
//! a DMA-driven serial transmit pipeline, and the simple peripherals around
//! them (GPIO, timers, external interrupts, watchdog).
//!
//! Every peripheral handle owns an explicit model of its register block, and
//! every operation carries a contract stating the exact register
//! transformation it performs. Readiness predicates are pure functions of
//! the current register contents.

pub mod dma;
pub mod exti;
pub mod flash;
pub mod gpio;
pub mod independent_watchdog;
pub mod memory_mapped_io;
pub mod nvic;
pub mod pwr;
pub mod rcc;
pub mod stm32f439zitx;
pub mod syscfg;
pub mod timer;
pub mod usart;
