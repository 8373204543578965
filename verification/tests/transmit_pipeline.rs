use stm32_bringup::dma::DmaConf;
use stm32_bringup::stm32f439zitx::DMA1_BASE;
use stm32_bringup::stm32f439zitx::USART3_BASE;
use stm32_bringup::usart::UsartConf;
use stm32_bringup::usart::UsartControl;
use stm32_bringup::usart::UsartDmaDriver;
use stm32_bringup::usart::UsartSingleByteDriver;
use stm32_bringup::usart::UsartStopBits;
use stm32_bringup::usart::UsartWordLength;

const BUFFER_ADDRESS: u32 = 0x2000_0000;

fn pipeline(buffer_size: usize) -> UsartDmaDriver {
    UsartDmaDriver::new(
        UsartConf::new(USART3_BASE),
        DmaConf::new(DMA1_BASE),
        3,
        4,
        BUFFER_ADDRESS,
        buffer_size,
    )
}

#[test]
fn baud_rate_uses_the_fractional_encoding() {
    let mut usart = UsartConf::new(USART3_BASE);
    usart.set_baud_rate(104, 3);
    assert_eq!(usart.reg.read(2), 1667);
    usart.set_baud_rate(22, 13);
    assert_eq!(usart.reg.read(2), 365);
}

#[test]
fn control_fields_land_on_their_bits() {
    let mut usart = UsartConf::new(USART3_BASE);
    usart.reg.write(0xFFFF_0000, 3);
    usart.set_usart_control(UsartControl {
        enabled: Some(true),
        parity_control_enabled: Some(false),
        transmitter_enabled: Some(true),
        word_length: Some(UsartWordLength::Len1Start8Data),
        stop_bits: Some(UsartStopBits::Stop1Bit),
        dma_transmitter_enabled: Some(true),
    });
    assert_eq!(usart.reg.read(3), 0xFFFF_0000 | (1 << 13) | (1 << 3));
    assert_eq!(usart.reg.read(4), 0);
    assert_eq!(usart.reg.read(5), 1 << 7);
    usart.set_usart_control(UsartControl {
        transmitter_enabled: Some(false),
        ..UsartControl::default()
    });
    assert_eq!(usart.reg.read(3), 0xFFFF_0000 | (1 << 13));
    assert_eq!(usart.reg.read(5), 1 << 7);
}

#[test]
fn send_bytes_pushes_every_byte_through() {
    let mut driver = UsartSingleByteDriver::new(UsartConf::new(USART3_BASE));
    driver.send_bytes(b"Hello World\r\n");
    assert_eq!(driver.control.reg.read(1), u32::from(b'\n'));
    assert!(driver.control.is_transmit_data_register_empty());
    assert!(driver.control.is_transmission_completed());
}

#[test]
fn write_buffer_applies_back_pressure() {
    let mut driver = pipeline(8);
    assert_eq!(driver.buffer_capacity(), 8);
    assert_eq!(driver.write_buffer(&[1, 2, 3, 4, 5]), 5);
    assert_eq!(driver.buffer_capacity(), 3);
    assert_eq!(driver.write_buffer(&[6, 7, 8, 9, 10]), 3);
    assert_eq!(driver.buffer_capacity(), 0);
    assert_eq!(driver.write_buffer(&[11, 12]), 0);
    assert_eq!(driver.buffer_capacity(), 0);
}

#[test]
fn flush_programs_the_stream_for_the_buffered_bytes() {
    let mut driver = pipeline(1024);
    let payload = b"DMA Works Fine, always";
    assert_eq!(payload.len(), 22);
    assert_eq!(driver.write_buffer(payload), 22);
    driver.flush();

    // Stream three's register group starts at word 4 + 6 * 3.
    let config = driver.dma.reg.read(22);
    assert_eq!(driver.dma.reg.read(23), 22); // transfer length
    assert_eq!(driver.dma.reg.read(24), USART3_BASE + 4); // peripheral address
    assert_eq!(driver.dma.reg.read(25), BUFFER_ADDRESS); // memory address
    assert_eq!((config >> 6) & 0b11, 0b10); // memory to peripheral
    assert_eq!(config & (1 << 10), 1 << 10); // memory side increments
    assert_eq!((config >> 25) & 0b111, 4); // assigned channel
    assert_eq!((config >> 16) & 0b11, 0b11); // highest priority
    assert_eq!((config >> 13) & 0b11, 0b00); // byte-sized memory elements
    assert_eq!((config >> 11) & 0b11, 0b00); // byte-sized peripheral elements
    assert_eq!(config & 1, 1); // stream enabled
    assert_eq!(driver.buffer_capacity(), 1024); // cursor reset
}

#[test]
fn completion_needs_both_flags() {
    let mut driver = pipeline(1024);
    driver.write_buffer(b"ping");
    driver.flush();
    assert!(!driver.is_transmission_completed());

    // Only the transmitter's flag: still incomplete.
    driver.control.reg.set_bit(6, 0);
    assert!(!driver.is_transmission_completed());

    // Only the stream's flag (stream three completes at bit 27 of the
    // low status half): still incomplete.
    driver.control.reg.clear_bit(6, 0);
    driver.dma.reg.set_bit(27, 0);
    assert!(!driver.is_transmission_completed());

    // Both: complete.
    driver.control.reg.set_bit(6, 0);
    assert!(driver.is_transmission_completed());
}

#[test]
fn flush_clears_a_stale_completion_flag_before_enabling() {
    let mut driver = pipeline(1024);
    driver.write_buffer(b"first");
    driver.flush();
    // A completed earlier transfer leaves its sticky flags behind.
    driver.dma.reg.set_bit(27, 0);
    driver.control.reg.set_bit(6, 0);
    assert!(driver.dma.is_transfer_completed(3));

    driver.write_buffer(b"second");
    driver.flush();
    assert!(!driver.dma.is_transfer_completed(3));
    assert!(!driver.control.is_transmission_completed());
    assert!(!driver.is_transmission_completed());
    assert_eq!(driver.dma.reg.read(22) & 1, 1); // re-enabled
    assert_eq!(driver.dma.reg.read(2), 0b1111101 << 22); // clear pattern written
    assert_eq!(driver.dma.reg.read(23), 6); // new transfer length
}

#[test]
fn stream_disable_and_interrupt_clearing_by_half() {
    let mut dma = DmaConf::new(DMA1_BASE);
    dma.enable_stream(6);
    assert!(!dma.is_stream_disabled(6));
    dma.disable_stream(6);
    assert!(dma.is_stream_disabled(6));

    // Stream six reports in the high half, group shift 16, completion
    // bit 21.
    dma.reg.set_bit(21, 1);
    assert!(dma.is_transfer_completed(6));
    dma.clear_stream_interrupt_status_register(6);
    assert!(!dma.is_transfer_completed(6));
    assert_eq!(dma.reg.read(3), 0b1111101 << 16);
}
