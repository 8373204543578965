use stm32_bringup::memory_mapped_io::MemoryMappedIo;
use stm32_bringup::memory_mapped_io::REGISTER_WORDS;

#[test]
fn new_block_reads_zero_everywhere() {
    let handle = MemoryMappedIo::new(0x4000_0000);
    for offset in 0..REGISTER_WORDS {
        assert_eq!(handle.read(offset), 0);
    }
    assert_eq!(handle.address(), 0x4000_0000);
}

#[test]
fn write_then_read_round_trips() {
    let mut handle = MemoryMappedIo::new(0x4002_3800);
    handle.write(0xDEAD_BEEF, 5);
    assert_eq!(handle.read(5), 0xDEAD_BEEF);
    handle.write(0x0000_0001, 0);
    assert_eq!(handle.read(0), 0x0000_0001);
    assert_eq!(handle.read(5), 0xDEAD_BEEF);
    handle.write(0xFFFF_FFFF, 63);
    assert_eq!(handle.read(63), 0xFFFF_FFFF);
}

#[test]
fn set_bit_is_idempotent() {
    let mut handle = MemoryMappedIo::new(0x4000_1000);
    handle.write(0x5A5A_0000, 3);
    handle.set_bit(7, 3);
    let after_once = handle.read(3);
    handle.set_bit(7, 3);
    assert_eq!(handle.read(3), after_once);
    assert_eq!(after_once, 0x5A5A_0080);
}

#[test]
fn clear_bit_after_set_bit_restores_a_clear_bit() {
    let mut handle = MemoryMappedIo::new(0x4000_1400);
    handle.write(0x0F0F_0F00, 9);
    handle.set_bit(4, 9);
    handle.clear_bit(4, 9);
    assert_eq!(handle.read(9), 0x0F0F_0F00);
}

#[test]
fn clear_bit_after_set_bit_leaves_other_bits_alone() {
    let mut handle = MemoryMappedIo::new(0x4000_1400);
    handle.write(0xFFFF_FFFF, 2);
    handle.set_bit(31, 2);
    handle.clear_bit(31, 2);
    assert_eq!(handle.read(2), 0x7FFF_FFFF);
}

#[test]
fn is_bit_set_reads_single_bits() {
    let mut handle = MemoryMappedIo::new(0xE000_E100);
    assert!(!handle.is_bit_set(17, 0));
    handle.set_bit(17, 0);
    assert!(handle.is_bit_set(17, 0));
    assert!(!handle.is_bit_set(16, 0));
    handle.clear_bit(17, 0);
    assert!(!handle.is_bit_set(17, 0));
}
