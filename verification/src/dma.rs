//! The DMA stream controller: configuring one transfer stream (direction,
//! increment mode, channel, priority, element sizes, addresses, length) and
//! its enable/disable/readiness/interrupt-flag operations.
//!
//! Stream fields are only safely written while the stream is disabled, and
//! a stream's event flags must be cleared before it is re-enabled, or the
//! new transfer's completion flag may already read as set. Writing the
//! clear pattern to a clear register drops the matching status bits; the
//! model mirrors that documented coupling.

use vstd::prelude::*;

use crate::memory_mapped_io::MemoryMappedIo;
use crate::memory_mapped_io::REGISTER_WORDS;
use crate::memory_mapped_io::clear_bit_spec;
use crate::memory_mapped_io::set_bit_spec;
use crate::memory_mapped_io::store_barrier;

verus! {

/// Word offset of the low interrupt status register (streams zero to
/// three); the high half for the other four streams follows it.
pub const DMA_LOW_INTERRUPT_STATUS: usize = 0;

/// Word offset of the high interrupt status register.
pub const DMA_HIGH_INTERRUPT_STATUS: usize = 1;

/// Word offset of the low interrupt flag clear register.
pub const DMA_LOW_INTERRUPT_CLEAR: usize = 2;

/// Word offset of the high interrupt flag clear register.
pub const DMA_HIGH_INTERRUPT_CLEAR: usize = 3;

/// The clear pattern covering one stream's event flags, before shifting.
pub const DMA_CLEAR_PATTERN: u32 = 0b1111101;

/// Direction a stream moves data in.
#[derive(Clone, Copy, PartialEq, Eq, Structural)]
pub enum DataTransferDirection {
    MemoryToPeripheral,
}

/// The 2-bit direction field value.
pub open spec fn transfer_direction_bits(direction: DataTransferDirection) -> u32 {
    match direction {
        DataTransferDirection::MemoryToPeripheral => 0b10,
    }
}

/// Whether the memory-side address advances with each element.
#[derive(Clone, Copy, PartialEq, Eq, Structural)]
pub enum MemoryIncrementMode {
    AddressIncrement,
}

/// The 1-bit memory-increment field value.
pub open spec fn memory_increment_bits(mode: MemoryIncrementMode) -> u32 {
    match mode {
        MemoryIncrementMode::AddressIncrement => 0b1,
    }
}

/// Arbitration priority of a stream.
#[derive(Clone, Copy, PartialEq, Eq, Structural)]
pub enum PriorityLevel {
    VeryHigh,
}

/// The 2-bit priority field value.
pub open spec fn priority_level_bits(priority: PriorityLevel) -> u32 {
    match priority {
        PriorityLevel::VeryHigh => 0b11,
    }
}

/// Element width on the memory side.
#[derive(Clone, Copy, PartialEq, Eq, Structural)]
pub enum MemoryDataSize {
    Byte,
}

/// The 2-bit memory data-size field value.
pub open spec fn memory_data_size_bits(size: MemoryDataSize) -> u32 {
    match size {
        MemoryDataSize::Byte => 0b00,
    }
}

/// Element width on the peripheral side.
#[derive(Clone, Copy, PartialEq, Eq, Structural)]
pub enum PeripheralDataSize {
    Byte,
}

/// The 2-bit peripheral data-size field value.
pub open spec fn peripheral_data_size_bits(size: PeripheralDataSize) -> u32 {
    match size {
        PeripheralDataSize::Byte => 0b00,
    }
}

/// One stream's optional configuration fields: a field left `None` keeps
/// its current register value.
pub struct StreamConf {
    pub data_transfer_direction: Option<DataTransferDirection>,
    pub memory_increment_mode: Option<MemoryIncrementMode>,
    pub channel: Option<u8>,
    pub priority_level: Option<PriorityLevel>,
    pub memory_data_size: Option<MemoryDataSize>,
    pub peripheral_data_size: Option<PeripheralDataSize>,
}

impl Default for StreamConf {
    /// The configuration that changes no field.
    fn default() -> (r: StreamConf)
        ensures
            r.data_transfer_direction is None,
            r.memory_increment_mode is None,
            r.channel is None,
            r.priority_level is None,
            r.memory_data_size is None,
            r.peripheral_data_size is None,
    {
        StreamConf {
            data_transfer_direction: None,
            memory_increment_mode: None,
            channel: None,
            priority_level: None,
            memory_data_size: None,
            peripheral_data_size: None,
        }
    }
}

/// Word offset of a stream's configuration register.
pub open spec fn stream_config_word(stream_id: u32) -> int {
    4 + 6 * stream_id as int
}

/// Word offset of a stream's data-length register.
pub open spec fn stream_length_word(stream_id: u32) -> int {
    5 + 6 * stream_id as int
}

/// Word offset of a stream's peripheral-address register.
pub open spec fn stream_peripheral_word(stream_id: u32) -> int {
    6 + 6 * stream_id as int
}

/// Word offset of a stream's memory-address register.
pub open spec fn stream_memory_word(stream_id: u32) -> int {
    7 + 6 * stream_id as int
}

/// The configuration value `set_stream_config` writes: each `Some` field
/// replaces its register field, each `None` field keeps it.
pub open spec fn stream_config_value(old_value: u32, config: StreamConf) -> u32 {
    let after_direction = match config.data_transfer_direction {
        Some(direction) => (old_value & !(0b11u32 << 6)) | (transfer_direction_bits(direction)
            << 6),
        None => old_value,
    };
    let after_channel = match config.channel {
        Some(channel) => (after_direction & !(0b111u32 << 25)) | ((channel as u32) << 25),
        None => after_direction,
    };
    let after_increment = match config.memory_increment_mode {
        Some(mode) => (after_channel & !(0b1u32 << 10)) | (memory_increment_bits(mode) << 10),
        None => after_channel,
    };
    let after_priority = match config.priority_level {
        Some(priority) => (after_increment & !(0b11u32 << 16)) | (priority_level_bits(priority)
            << 16),
        None => after_increment,
    };
    let after_memory_size = match config.memory_data_size {
        Some(size) => (after_priority & !(0b11u32 << 13)) | (memory_data_size_bits(size) << 13),
        None => after_priority,
    };
    match config.peripheral_data_size {
        Some(size) => (after_memory_size & !(0b11u32 << 11)) | (peripheral_data_size_bits(size)
            << 11),
        None => after_memory_size,
    }
}

/// True when a stream's enable bit is clear.
pub open spec fn stream_disabled(regs: Seq<u32>, stream_id: u32) -> bool {
    regs[stream_config_word(stream_id)] & 0b1u32 == 0
}

/// The bit position of a stream's transfer-complete flag within its status
/// register half.
pub open spec fn transfer_complete_shift(stream_id: u32) -> u32 {
    if stream_id % 4 == 0 {
        5
    } else if stream_id % 4 == 1 {
        11
    } else if stream_id % 4 == 2 {
        21
    } else {
        27
    }
}

/// The bit position of a stream's 6-bit flag group within its status
/// register half.
pub open spec fn stream_group_shift(stream_id: u32) -> u32 {
    if stream_id % 4 == 0 {
        0
    } else if stream_id % 4 == 1 {
        6
    } else if stream_id % 4 == 2 {
        16
    } else {
        22
    }
}

/// Word offset of the status register half covering a stream.
pub open spec fn stream_status_word(stream_id: u32) -> int {
    if stream_id > 3 {
        DMA_HIGH_INTERRUPT_STATUS as int
    } else {
        DMA_LOW_INTERRUPT_STATUS as int
    }
}

/// Word offset of the clear register half covering a stream.
pub open spec fn stream_clear_word(stream_id: u32) -> int {
    if stream_id > 3 {
        DMA_HIGH_INTERRUPT_CLEAR as int
    } else {
        DMA_LOW_INTERRUPT_CLEAR as int
    }
}

/// True when a stream's transfer-complete flag is set.
pub open spec fn transfer_complete_flag(regs: Seq<u32>, stream_id: u32) -> bool {
    regs[stream_status_word(stream_id)] & (1u32 << transfer_complete_shift(stream_id)) != 0
}

/// A stream's 2-bit direction field (bits 7:6).
pub open spec fn stream_direction_field(regs: Seq<u32>, stream_id: u32) -> u32 {
    (regs[stream_config_word(stream_id)] >> 6) & 0b11u32
}

/// A stream's 3-bit channel field (bits 27:25).
pub open spec fn stream_channel_field(regs: Seq<u32>, stream_id: u32) -> u32 {
    (regs[stream_config_word(stream_id)] >> 25) & 0b111u32
}

/// True when a stream advances its memory-side address per element
/// (bit 10).
pub open spec fn stream_memory_increment_on(regs: Seq<u32>, stream_id: u32) -> bool {
    regs[stream_config_word(stream_id)] & (1u32 << 10) != 0
}

/// A stream's 2-bit priority field (bits 17:16).
pub open spec fn stream_priority_field(regs: Seq<u32>, stream_id: u32) -> u32 {
    (regs[stream_config_word(stream_id)] >> 16) & 0b11u32
}

/// A stream's 2-bit memory data-size field (bits 14:13).
pub open spec fn stream_memory_size_field(regs: Seq<u32>, stream_id: u32) -> u32 {
    (regs[stream_config_word(stream_id)] >> 13) & 0b11u32
}

/// A stream's 2-bit peripheral data-size field (bits 12:11).
pub open spec fn stream_peripheral_size_field(regs: Seq<u32>, stream_id: u32) -> u32 {
    (regs[stream_config_word(stream_id)] >> 11) & 0b11u32
}

/// Handle over one DMA controller's register block.
pub struct DmaConf {
    pub reg: MemoryMappedIo,
}

impl View for DmaConf {
    type V = Seq<u32>;

    open spec fn view(&self) -> Seq<u32> {
        self.reg@
    }
}

impl DmaConf {
    /// Creates the handle for the DMA controller at `base`.
    pub fn new(base: u32) -> (r: DmaConf)
        ensures
            r.reg.base_spec() == base,
            r@.len() == REGISTER_WORDS,
            forall|i: int| 0 <= i < REGISTER_WORDS ==> r@[i] == 0u32,
    {
        DmaConf { reg: MemoryMappedIo::new(base) }
    }

    /// Word offset of stream `stream_id`'s configuration register.
    fn stream_config_offset(stream_id: u32) -> (r: usize)
        requires
            stream_id < 8,
        ensures
            r == stream_config_word(stream_id),
    {
        (4 + 6 * stream_id) as usize
    }

    /// Sets a stream's enable bit, starting the programmed transfer. The
    /// stream's event flags must have been cleared beforehand, or its
    /// completion flag may still show the previous transfer.
    pub fn enable_stream(&mut self, stream_id: u32)
        requires
            stream_id < 8,
        ensures
            final(self)@ == set_bit_spec(old(self)@, 0, stream_config_word(stream_id)),
            old(self)@.len() == REGISTER_WORDS,
            final(self).reg.base_spec() == old(self).reg.base_spec(),
    {
        self.reg.set_bit(0, Self::stream_config_offset(stream_id));
        store_barrier();
    }

    /// Clears a stream's enable bit. The stop is not synchronous on the
    /// hardware: callers poll `is_stream_disabled` before reprogramming
    /// stream fields.
    pub fn disable_stream(&mut self, stream_id: u32)
        requires
            stream_id < 8,
        ensures
            final(self)@ == clear_bit_spec(old(self)@, 0, stream_config_word(stream_id)),
            old(self)@.len() == REGISTER_WORDS,
            final(self).reg.base_spec() == old(self).reg.base_spec(),
    {
        self.reg.clear_bit(0, Self::stream_config_offset(stream_id));
        store_barrier();
    }

    /// True when the stream reports disabled.
    pub fn is_stream_disabled(&self, stream_id: u32) -> (r: bool)
        requires
            stream_id < 8,
        ensures
            r == stream_disabled(self@, stream_id),
    {
        self.reg.read(Self::stream_config_offset(stream_id)) & 0b1u32 == 0
    }

    /// Replaces the `Some` fields of `config` in the stream's configuration
    /// register, preserving every other bit; legal only while the stream is
    /// disabled.
    pub fn set_stream_config(&mut self, stream_id: u32, config: StreamConf)
        requires
            stream_id < 8,
            config.channel is Some ==> config.channel.unwrap() < 8,
        ensures
            final(self)@ == old(self)@.update(
                stream_config_word(stream_id),
                stream_config_value(old(self)@[stream_config_word(stream_id)], config),
            ),
            old(self)@.len() == REGISTER_WORDS,
            final(self).reg.base_spec() == old(self).reg.base_spec(),
    {
        let offset: usize = Self::stream_config_offset(stream_id);
        let mut current_value: u32 = self.reg.read(offset);
        if let Some(data_transfer_direction) = config.data_transfer_direction {
            current_value &= !(0b11u32 << 6);
            let direction_value: u32 = match data_transfer_direction {
                DataTransferDirection::MemoryToPeripheral => 0b10,
            };
            current_value |= direction_value << 6;
        }
        if let Some(channel) = config.channel {
            current_value &= !(0b111u32 << 25);
            current_value |= (channel as u32) << 25;
        }
        if let Some(memory_increment_mode) = config.memory_increment_mode {
            current_value &= !(0b1u32 << 10);
            let increment_value: u32 = match memory_increment_mode {
                MemoryIncrementMode::AddressIncrement => 0b1,
            };
            current_value |= increment_value << 10;
        }
        if let Some(priority_level) = config.priority_level {
            current_value &= !(0b11u32 << 16);
            let priority_value: u32 = match priority_level {
                PriorityLevel::VeryHigh => 0b11,
            };
            current_value |= priority_value << 16;
        }
        if let Some(memory_data_size) = config.memory_data_size {
            current_value &= !(0b11u32 << 13);
            let memory_size_value: u32 = match memory_data_size {
                MemoryDataSize::Byte => 0b00,
            };
            current_value |= memory_size_value << 13;
        }
        if let Some(peripheral_data_size) = config.peripheral_data_size {
            current_value &= !(0b11u32 << 11);
            let peripheral_size_value: u32 = match peripheral_data_size {
                PeripheralDataSize::Byte => 0b00,
            };
            current_value |= peripheral_size_value << 11;
        }
        self.reg.write(current_value, offset);
    }

    /// Programs the number of elements to transfer (up to 65535); legal
    /// only while the stream is disabled.
    pub fn set_stream_data_length(&mut self, stream_id: u32, length: u16)
        requires
            stream_id < 8,
        ensures
            final(self)@ == old(self)@.update(stream_length_word(stream_id), length as u32),
            old(self)@.len() == REGISTER_WORDS,
            final(self).reg.base_spec() == old(self).reg.base_spec(),
    {
        self.reg.write(length as u32, (5 + 6 * stream_id) as usize);
    }

    /// Programs the peripheral-side address; legal only while the stream is
    /// disabled.
    pub fn set_stream_peripheral_address(&mut self, stream_id: u32, address: u32)
        requires
            stream_id < 8,
        ensures
            final(self)@ == old(self)@.update(stream_peripheral_word(stream_id), address),
            old(self)@.len() == REGISTER_WORDS,
            final(self).reg.base_spec() == old(self).reg.base_spec(),
    {
        self.reg.write(address, (6 + 6 * stream_id) as usize);
    }

    /// Programs the memory-side base address; legal only while the stream
    /// is disabled.
    pub fn set_stream_memory0_address(&mut self, stream_id: u32, address: u32)
        requires
            stream_id < 8,
        ensures
            final(self)@ == old(self)@.update(stream_memory_word(stream_id), address),
            old(self)@.len() == REGISTER_WORDS,
            final(self).reg.base_spec() == old(self).reg.base_spec(),
    {
        self.reg.write(address, (7 + 6 * stream_id) as usize);
    }

    /// True when the stream's transfer-complete flag is set in its status
    /// register half.
    pub fn is_transfer_completed(&self, stream_id: u32) -> (r: bool)
        requires
            stream_id < 8,
        ensures
            r == transfer_complete_flag(self@, stream_id),
    {
        let remainder = stream_id % 4;
        let shift: u32 = if remainder == 0 {
            5
        } else if remainder == 1 {
            11
        } else if remainder == 2 {
            21
        } else {
            27
        };
        let mask = 1u32 << shift;
        if stream_id > 3 {
            self.reg.read(DMA_HIGH_INTERRUPT_STATUS) & mask != 0
        } else {
            self.reg.read(DMA_LOW_INTERRUPT_STATUS) & mask != 0
        }
    }

    /// Writes the stream's clear pattern to the matching clear register,
    /// which drops the stream's event flags — transfer complete among them
    /// — from the status register, the step owed before every re-enable.
    pub fn clear_stream_interrupt_status_register(&mut self, stream_id: u32)
        requires
            stream_id < 8,
        ensures
            final(self)@ == old(self)@.update(
                stream_clear_word(stream_id),
                DMA_CLEAR_PATTERN << stream_group_shift(stream_id),
            ).update(
                stream_status_word(stream_id),
                old(self)@[stream_status_word(stream_id)]
                    & !(DMA_CLEAR_PATTERN << stream_group_shift(stream_id)),
            ),
            !transfer_complete_flag(final(self)@, stream_id),
            old(self)@.len() == REGISTER_WORDS,
            final(self).reg.base_spec() == old(self).reg.base_spec(),
    {
        let remainder = stream_id % 4;
        let group_shift: u32 = if remainder == 0 {
            0
        } else if remainder == 1 {
            6
        } else if remainder == 2 {
            16
        } else {
            22
        };
        let reset_value = DMA_CLEAR_PATTERN << group_shift;
        proof {
            let w = if stream_id > 3 {
                old(self)@[DMA_HIGH_INTERRUPT_STATUS as int]
            } else {
                old(self)@[DMA_LOW_INTERRUPT_STATUS as int]
            };
            let g = group_shift;
            let t = transfer_complete_shift(stream_id);
            assert((w & !(0b1111101u32 << g)) & (1u32 << t) == 0) by (bit_vector)
                requires
                    (g == 0u32 && t == 5u32) || (g == 6u32 && t == 11u32) || (g == 16u32 && t
                        == 21u32) || (g == 22u32 && t == 27u32),
            ;
        }
        if stream_id > 3 {
            self.reg.write(reset_value, DMA_HIGH_INTERRUPT_CLEAR);
            let current_status = self.reg.read(DMA_HIGH_INTERRUPT_STATUS);
            self.reg.write(current_status & !reset_value, DMA_HIGH_INTERRUPT_STATUS);
        } else {
            self.reg.write(reset_value, DMA_LOW_INTERRUPT_CLEAR);
            let current_status = self.reg.read(DMA_LOW_INTERRUPT_STATUS);
            self.reg.write(current_status & !reset_value, DMA_LOW_INTERRUPT_STATUS);
        }
        store_barrier();
    }
}

} // verus!
