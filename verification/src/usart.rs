//! The serial transmitter and the two drivers over it: a busy-waiting
//! single-byte driver and the DMA-driven transmit pipeline that accumulates
//! bytes in a bounded buffer and issues one-shot stream transfers.

use vstd::prelude::*;

use crate::dma::DMA_CLEAR_PATTERN;
use crate::dma::DataTransferDirection;
use crate::dma::DmaConf;
use crate::dma::MemoryDataSize;
use crate::dma::MemoryIncrementMode;
use crate::dma::PeripheralDataSize;
use crate::dma::PriorityLevel;
use crate::dma::StreamConf;
use crate::dma::stream_channel_field;
use crate::dma::stream_clear_word;
use crate::dma::stream_config_value;
use crate::dma::stream_config_word;
use crate::dma::stream_direction_field;
use crate::dma::stream_disabled;
use crate::dma::stream_group_shift;
use crate::dma::stream_length_word;
use crate::dma::stream_memory_increment_on;
use crate::dma::stream_memory_size_field;
use crate::dma::stream_memory_word;
use crate::dma::stream_peripheral_size_field;
use crate::dma::stream_peripheral_word;
use crate::dma::stream_priority_field;
use crate::dma::stream_status_word;
use crate::dma::transfer_complete_flag;
use crate::memory_mapped_io::MemoryMappedIo;
use crate::memory_mapped_io::REGISTER_WORDS;
use crate::memory_mapped_io::clear_bit_spec;
use crate::memory_mapped_io::lemma_clear_bit_clears;
use crate::memory_mapped_io::no_operation;
use crate::memory_mapped_io::store_barrier;

verus! {

/// Word offset of the status register (transmit-empty bit 7, transmission-
/// complete bit 6).
pub const USART_STATUS: usize = 0;

/// Word offset of the data register.
pub const USART_DATA: usize = 1;

/// Word offset of the baud-rate register.
pub const USART_BAUD_RATE: usize = 2;

/// Word offset of the first control register (enable bit 13, word length
/// bit 12, parity bit 10, transmitter enable bit 3).
pub const USART_CONTROL_1: usize = 3;

/// Word offset of the second control register (stop bits 13:12).
pub const USART_CONTROL_2: usize = 4;

/// Word offset of the third control register (DMA transmit enable bit 7).
pub const USART_CONTROL_3: usize = 5;

/// Frame length of a transmitted word.
#[derive(Clone, Copy, Debug)]
pub enum UsartWordLength {
    Len1Start8Data,
}

/// The 1-bit word-length field value.
pub open spec fn word_length_bits(length: UsartWordLength) -> u32 {
    match length {
        UsartWordLength::Len1Start8Data => 0b0,
    }
}

/// Number of stop bits a frame carries.
#[derive(Clone, Copy)]
pub enum UsartStopBits {
    Stop1Bit,
}

/// The 2-bit stop-bits field value.
pub open spec fn stop_bits_value(stop_bits: UsartStopBits) -> u32 {
    match stop_bits {
        UsartStopBits::Stop1Bit => 0b00,
    }
}

/// The transmitter's optional control fields: a field left `None` keeps
/// its current register value.
pub struct UsartControl {
    pub enabled: Option<bool>,
    pub parity_control_enabled: Option<bool>,
    pub transmitter_enabled: Option<bool>,
    pub dma_transmitter_enabled: Option<bool>,
    pub word_length: Option<UsartWordLength>,
    pub stop_bits: Option<UsartStopBits>,
}

impl Default for UsartControl {
    /// The control that changes no field.
    fn default() -> (r: UsartControl)
        ensures
            r.enabled is None,
            r.parity_control_enabled is None,
            r.transmitter_enabled is None,
            r.dma_transmitter_enabled is None,
            r.word_length is None,
            r.stop_bits is None,
    {
        UsartControl {
            enabled: None,
            parity_control_enabled: None,
            transmitter_enabled: None,
            dma_transmitter_enabled: None,
            word_length: None,
            stop_bits: None,
        }
    }
}

/// The first control value `set_usart_control` writes: each `Some` field
/// replaces its bit, each `None` field keeps it.
pub open spec fn control1_value(old_value: u32, control: UsartControl) -> u32 {
    let after_enabled = match control.enabled {
        Some(enabled) => (old_value & !(1u32 << 13)) | (if enabled {
            1u32 << 13
        } else {
            0u32
        }),
        None => old_value,
    };
    let after_parity = match control.parity_control_enabled {
        Some(parity) => (after_enabled & !(1u32 << 10)) | (if parity {
            1u32 << 10
        } else {
            0u32
        }),
        None => after_enabled,
    };
    let after_transmitter = match control.transmitter_enabled {
        Some(transmitter) => (after_parity & !(1u32 << 3)) | (if transmitter {
            1u32 << 3
        } else {
            0u32
        }),
        None => after_parity,
    };
    match control.word_length {
        Some(length) => (after_transmitter & !(1u32 << 12)) | (word_length_bits(length) << 12),
        None => after_transmitter,
    }
}

/// The second control value `set_usart_control` writes.
pub open spec fn control2_value(old_value: u32, control: UsartControl) -> u32 {
    match control.stop_bits {
        Some(stop_bits) => (old_value & !(0b11u32 << 12)) | (stop_bits_value(stop_bits) << 12),
        None => old_value,
    }
}

/// The third control value `set_usart_control` writes.
pub open spec fn control3_value(old_value: u32, control: UsartControl) -> u32 {
    match control.dma_transmitter_enabled {
        Some(enabled) => (old_value & !(1u32 << 7)) | (if enabled {
            1u32 << 7
        } else {
            0u32
        }),
        None => old_value,
    }
}

/// True when the transmit data register reports empty.
pub open spec fn transmit_register_empty(regs: Seq<u32>) -> bool {
    regs[USART_STATUS as int] & (1u32 << 7) != 0
}

/// True when the transmitter reports the last byte fully shifted out.
pub open spec fn transmission_complete(regs: Seq<u32>) -> bool {
    regs[USART_STATUS as int] & (1u32 << 6) != 0
}

/// Handle over one serial transmitter's register block.
pub struct UsartConf {
    pub reg: MemoryMappedIo,
}

impl View for UsartConf {
    type V = Seq<u32>;

    open spec fn view(&self) -> Seq<u32> {
        self.reg@
    }
}

impl UsartConf {
    /// Creates the handle for the transmitter at `base`.
    pub fn new(base: u32) -> (r: UsartConf)
        ensures
            r.reg.base_spec() == base,
            r@.len() == REGISTER_WORDS,
            forall|i: int| 0 <= i < REGISTER_WORDS ==> r@[i] == 0u32,
    {
        UsartConf { reg: MemoryMappedIo::new(base) }
    }

    /// The address of the data register, the destination a transmit DMA
    /// stream is pointed at.
    pub fn data_register(&self) -> (r: u32)
        requires
            self.reg.base_spec() + 4 <= u32::MAX,
        ensures
            r == self.reg.base_spec() + 4,
    {
        self.reg.address() + 4
    }

    /// Replaces the `Some` fields of `usart_control` across the three
    /// control registers, preserving every other bit.
    pub fn set_usart_control(&mut self, usart_control: UsartControl)
        ensures
            final(self)@ == old(self)@.update(
                USART_CONTROL_1 as int,
                control1_value(old(self)@[USART_CONTROL_1 as int], usart_control),
            ).update(
                USART_CONTROL_2 as int,
                control2_value(old(self)@[USART_CONTROL_2 as int], usart_control),
            ).update(
                USART_CONTROL_3 as int,
                control3_value(old(self)@[USART_CONTROL_3 as int], usart_control),
            ),
            old(self)@.len() == REGISTER_WORDS,
            final(self).reg.base_spec() == old(self).reg.base_spec(),
    {
        let mut current_value_ctrl1: u32 = self.reg.read(USART_CONTROL_1);
        let mut current_value_ctrl2: u32 = self.reg.read(USART_CONTROL_2);
        let mut current_value_ctrl3: u32 = self.reg.read(USART_CONTROL_3);
        if let Some(enabled) = usart_control.enabled {
            current_value_ctrl1 &= !(1u32 << 13);
            current_value_ctrl1 |= if enabled {
                1u32 << 13
            } else {
                0u32
            };
        }
        if let Some(parity_control_enabled) = usart_control.parity_control_enabled {
            current_value_ctrl1 &= !(1u32 << 10);
            current_value_ctrl1 |= if parity_control_enabled {
                1u32 << 10
            } else {
                0u32
            };
        }
        if let Some(transmitter_enabled) = usart_control.transmitter_enabled {
            current_value_ctrl1 &= !(1u32 << 3);
            current_value_ctrl1 |= if transmitter_enabled {
                1u32 << 3
            } else {
                0u32
            };
        }
        if let Some(word_length) = usart_control.word_length {
            current_value_ctrl1 &= !(1u32 << 12);
            let length_value: u32 = match word_length {
                UsartWordLength::Len1Start8Data => 0b0,
            };
            current_value_ctrl1 |= length_value << 12;
        }
        if let Some(stop_bits) = usart_control.stop_bits {
            current_value_ctrl2 &= !(0b11u32 << 12);
            let stop_value: u32 = match stop_bits {
                UsartStopBits::Stop1Bit => 0b00,
            };
            current_value_ctrl2 |= stop_value << 12;
        }
        if let Some(enabled) = usart_control.dma_transmitter_enabled {
            current_value_ctrl3 &= !(1u32 << 7);
            current_value_ctrl3 |= if enabled {
                1u32 << 7
            } else {
                0u32
            };
        }
        self.reg.write(current_value_ctrl1, USART_CONTROL_1);
        self.reg.write(current_value_ctrl2, USART_CONTROL_2);
        self.reg.write(current_value_ctrl3, USART_CONTROL_3);
    }

    /// Programs the baud-rate register with the standard fractional
    /// encoding: the integer part shifted past the 4-bit fractional part.
    pub fn set_baud_rate(&mut self, mantissa: u32, fraction: u32)
        requires
            mantissa < 4096,
            fraction < 16,
        ensures
            final(self)@ == old(self)@.update(
                USART_BAUD_RATE as int,
                (mantissa << 4) | fraction,
            ),
            old(self)@.len() == REGISTER_WORDS,
            final(self).reg.base_spec() == old(self).reg.base_spec(),
    {
        let value: u32 = (mantissa << 4) | fraction;
        self.reg.write(value, USART_BAUD_RATE);
    }

    /// True when the transmit data register reports empty.
    pub fn is_transmit_data_register_empty(&self) -> (r: bool)
        ensures
            r == transmit_register_empty(self@),
    {
        self.reg.read(USART_STATUS) & (1u32 << 7) != 0
    }

    /// True when the transmitter reports the last byte on the wire.
    pub fn is_transmission_completed(&self) -> (r: bool)
        ensures
            r == transmission_complete(self@),
    {
        self.reg.read(USART_STATUS) & (1u32 << 6) != 0
    }

    /// Writes one byte to the data register. The model shifts the byte out
    /// at once, so the empty and complete flags the single-byte driver
    /// busy-waits on rise with the write; on hardware they lag it.
    pub fn set_data(&mut self, data: u8)
        ensures
            final(self)@ == old(self)@.update(USART_DATA as int, data as u32).update(
                USART_STATUS as int,
                old(self)@[USART_STATUS as int] | (0b11u32 << 6),
            ),
            transmit_register_empty(final(self)@),
            transmission_complete(final(self)@),
            old(self)@.len() == REGISTER_WORDS,
            final(self).reg.base_spec() == old(self).reg.base_spec(),
    {
        self.reg.write(data as u32, USART_DATA);
        let current_status = self.reg.read(USART_STATUS);
        proof {
            let w = old(self)@[USART_STATUS as int];
            assert((w | (0b11u32 << 6)) & (1u32 << 7) != 0 && (w | (0b11u32 << 6)) & (1u32 << 6)
                != 0) by (bit_vector);
        }
        self.reg.write(current_status | (0b11u32 << 6), USART_STATUS);
    }

    /// Clears the transmission-complete flag, the first step of a flush.
    pub fn clear_transmission_complete(&mut self)
        ensures
            final(self)@ == clear_bit_spec(old(self)@, 6, USART_STATUS as int),
            !transmission_complete(final(self)@),
            old(self)@.len() == REGISTER_WORDS,
            final(self).reg.base_spec() == old(self).reg.base_spec(),
    {
        proof {
            lemma_clear_bit_clears(self@[USART_STATUS as int], 6);
        }
        self.reg.clear_bit(6, USART_STATUS);
    }
}

/// A transmitter driver that sends one byte at a time, busy-waiting on the
/// empty and complete flags between bytes.
pub struct UsartSingleByteDriver {
    pub control: UsartConf,
}

impl UsartSingleByteDriver {
    /// Takes ownership of the transmitter handle.
    pub fn new(control: UsartConf) -> (r: UsartSingleByteDriver)
        ensures
            r.control == control,
    {
        UsartSingleByteDriver { control }
    }

    /// Sends every byte of `bytes` in order, waiting out each one. The
    /// data register ends holding the last byte.
    #[verifier::loop_isolation(false)]
    pub fn send_bytes(&mut self, bytes: &[u8])
        ensures
            bytes@.len() == 0 ==> *final(self) == *old(self),
            bytes@.len() > 0 ==> final(self).control@ == old(self).control@.update(
                USART_DATA as int,
                bytes@[bytes@.len() - 1] as u32,
            ).update(
                USART_STATUS as int,
                old(self).control@[USART_STATUS as int] | (0b11u32 << 6),
            ),
            final(self).control.reg.base_spec() == old(self).control.reg.base_spec(),
    {
        let ghost orig = *self;
        let mut i: usize = 0;
        while i < bytes.len()
            invariant
                i <= bytes@.len(),
                i == 0 ==> *self == orig,
                i > 0 ==> orig.control@.len() == REGISTER_WORDS,
                i > 0 ==> self.control@ == orig.control@.update(
                    USART_DATA as int,
                    bytes@[i - 1] as u32,
                ).update(
                    USART_STATUS as int,
                    orig.control@[USART_STATUS as int] | (0b11u32 << 6),
                ),
                self.control.reg.base_spec() == orig.control.reg.base_spec(),
            decreases bytes@.len() - i,
        {
            self.control.set_data(bytes[i]);
            proof {
                if i > 0 {
                    let w = orig.control@[USART_STATUS as int];
                    assert((w | (0b11u32 << 6)) | (0b11u32 << 6) == w | (0b11u32 << 6))
                        by (bit_vector);
                    assert(self.control@ =~= orig.control@.update(
                        USART_DATA as int,
                        bytes@[i as int] as u32,
                    ).update(
                        USART_STATUS as int,
                        orig.control@[USART_STATUS as int] | (0b11u32 << 6),
                    ));
                }
            }
            while !self.control.is_transmit_data_register_empty()
                || !self.control.is_transmission_completed()
                decreases 0int,
            {
                no_operation();
            }
            i += 1;
        }
    }
}

/// How many bytes one buffer write accepts: the request itself when it
/// fits, the remaining capacity otherwise. `write_buffer` returns exactly
/// this of its live cursor.
pub open spec fn accepted_length(capacity: int, cursor: int, request: int) -> int {
    if request <= capacity - cursor {
        request
    } else {
        capacity - cursor
    }
}

/// The cursor after a sequence of write requests, each accepting what
/// `accepted_length` allows at its point in the sequence.
pub open spec fn cursor_after_writes(capacity: int, cursor: int, requests: Seq<int>) -> int
    decreases requests.len(),
{
    if requests.len() == 0 {
        cursor
    } else {
        cursor_after_writes(
            capacity,
            cursor + accepted_length(capacity, cursor, requests.first()),
            requests.drop_first(),
        )
    }
}

/// What each write of a request sequence accepts, in order.
pub open spec fn accepted_lengths(capacity: int, cursor: int, requests: Seq<int>) -> Seq<int>
    decreases requests.len(),
{
    if requests.len() == 0 {
        Seq::empty()
    } else {
        seq![accepted_length(capacity, cursor, requests.first())] + accepted_lengths(
            capacity,
            cursor + accepted_length(capacity, cursor, requests.first()),
            requests.drop_first(),
        )
    }
}

/// The sum of a sequence of integers.
pub open spec fn sum_of(values: Seq<int>) -> int
    decreases values.len(),
{
    if values.len() == 0 {
        0
    } else {
        values.first() + sum_of(values.drop_first())
    }
}

/// Buffer accounting over any sequence of writes: the capacity remaining
/// afterwards is the starting capacity remaining less the sum of the
/// accepted lengths, the cursor never leaves the buffer, and no write
/// accepts more than it was asked or more than the capacity remaining
/// when it ran.
pub proof fn lemma_write_sequence_accounting(capacity: int, cursor: int, requests: Seq<int>)
    requires
        0 <= cursor <= capacity,
        forall|i: int| 0 <= i < requests.len() ==> requests[i] >= 0,
    ensures
        cursor_after_writes(capacity, cursor, requests) == cursor + sum_of(
            accepted_lengths(capacity, cursor, requests),
        ),
        0 <= cursor_after_writes(capacity, cursor, requests) <= capacity,
        accepted_lengths(capacity, cursor, requests).len() == requests.len(),
        forall|i: int|
            0 <= i < requests.len() ==> 0 <= #[trigger] accepted_lengths(
                capacity,
                cursor,
                requests,
            )[i] <= requests[i],
    decreases requests.len(),
{
    if requests.len() > 0 {
        let first_accepted = accepted_length(capacity, cursor, requests.first());
        lemma_write_sequence_accounting(capacity, cursor + first_accepted, requests.drop_first());
        let rest = accepted_lengths(
            capacity,
            cursor + first_accepted,
            requests.drop_first(),
        );
        assert((seq![first_accepted] + rest).first() == first_accepted);
        assert((seq![first_accepted] + rest).drop_first() =~= rest);
        assert forall|i: int| 0 <= i < requests.len() implies 0 <= #[trigger] accepted_lengths(
            capacity,
            cursor,
            requests,
        )[i] <= requests[i] by {
            if i > 0 {
                assert(accepted_lengths(capacity, cursor, requests)[i] == accepted_lengths(
                    capacity,
                    cursor + first_accepted,
                    requests.drop_first(),
                )[i - 1]);
                assert(requests.drop_first()[i - 1] == requests[i]);
            }
        }
    }
}

/// The stream configuration a flush programs: memory-to-peripheral, the
/// memory address incrementing, the assigned channel, highest priority,
/// byte-sized elements on both sides.
pub open spec fn flush_stream_conf(channel: u8) -> StreamConf {
    StreamConf {
        data_transfer_direction: Some(DataTransferDirection::MemoryToPeripheral),
        memory_increment_mode: Some(MemoryIncrementMode::AddressIncrement),
        channel: Some(channel),
        priority_level: Some(PriorityLevel::VeryHigh),
        memory_data_size: Some(MemoryDataSize::Byte),
        peripheral_data_size: Some(PeripheralDataSize::Byte),
    }
}

/// The DMA-driven transmit pipeline: a bounded byte buffer with a write
/// cursor, flushed as a one-shot stream transfer into the transmitter's
/// data register.
pub struct UsartDmaDriver {
    pub control: UsartConf,
    pub dma: DmaConf,
    pub buffer: Vec<u8>,
    pub buffer_size: usize,
    pub stream_id: u32,
    pub channel: u8,
    pub buffer_address: u32,
}

impl UsartDmaDriver {
    /// The bytes written since the last flush, in order.
    pub open spec fn buffer_view(&self) -> Seq<u8> {
        self.buffer@
    }

    /// The buffer's fixed capacity.
    pub open spec fn buffer_size_spec(&self) -> usize {
        self.buffer_size
    }

    /// The DMA stream the pipeline transmits through.
    pub open spec fn stream_id_spec(&self) -> u32 {
        self.stream_id
    }

    /// The channel the stream is bound to.
    pub open spec fn channel_spec(&self) -> u8 {
        self.channel
    }

    /// The memory address a flush hands the stream as the transfer source.
    pub open spec fn buffer_address_spec(&self) -> u32 {
        self.buffer_address
    }

    /// How many more bytes the buffer accepts before a flush is owed.
    pub open spec fn capacity_remaining(&self) -> int {
        self.buffer_size_spec() - self.buffer_view().len()
    }

    /// The pipeline's validity: a wired stream and channel, a capacity the
    /// stream's 16-bit length register can carry, a cursor inside the
    /// buffer, and a data-register address that does not wrap.
    pub open spec fn wf(&self) -> bool {
        &&& self.stream_id_spec() < 8
        &&& self.channel_spec() < 8
        &&& self.buffer_size_spec() <= 0xFFFF
        &&& self.buffer_view().len() <= self.buffer_size_spec()
        &&& self.control.reg.base_spec() + 4 <= u32::MAX
    }

    /// Takes ownership of the transmitter and DMA handles and binds the
    /// pipeline to one stream, one channel, and one transfer buffer of
    /// `buffer_size` bytes at `buffer_address`.
    pub fn new(
        control: UsartConf,
        dma: DmaConf,
        stream_id: u32,
        channel: u8,
        buffer_address: u32,
        buffer_size: usize,
    ) -> (r: UsartDmaDriver)
        requires
            stream_id < 8,
            channel < 8,
            buffer_size <= 0xFFFF,
            control.reg.base_spec() + 4 <= u32::MAX,
        ensures
            r.wf(),
            r.control == control,
            r.dma == dma,
            r.stream_id_spec() == stream_id,
            r.channel_spec() == channel,
            r.buffer_address_spec() == buffer_address,
            r.buffer_size_spec() == buffer_size,
            r.buffer_view().len() == 0,
            r.capacity_remaining() == buffer_size,
    {
        UsartDmaDriver {
            control,
            dma,
            buffer: Vec::new(),
            buffer_size,
            stream_id,
            channel,
            buffer_address,
        }
    }

    /// True only when both the transmitter's transmission-complete flag
    /// and the stream's transfer-complete flag are set: the DMA engine
    /// finishing is not enough, the last byte must be on the wire.
    pub fn is_transmission_completed(&self) -> (r: bool)
        requires
            self.wf(),
        ensures
            r == (transmission_complete(self.control@) && transfer_complete_flag(
                self.dma@,
                self.stream_id_spec(),
            )),
    {
        self.control.is_transmission_completed() && self.dma.is_transfer_completed(self.stream_id)
    }

    /// How many more bytes the buffer accepts before a flush is owed;
    /// callers check it before writing and flush when it is short.
    pub fn buffer_capacity(&self) -> (r: usize)
        requires
            self.wf(),
        ensures
            r == self.capacity_remaining(),
    {
        self.buffer_size - self.buffer.len()
    }

    /// Appends as much of `source` as fits: exactly the shorter of the
    /// request and the remaining capacity, and returns how many bytes were
    /// accepted. A short return is back-pressure: the caller flushes
    /// before writing more.
    #[verifier::loop_isolation(false)]
    pub fn write_buffer(&mut self, source: &[u8]) -> (written: usize)
        requires
            old(self).wf(),
        ensures
            final(self).wf(),
            written <= source@.len(),
            written <= old(self).capacity_remaining(),
            written as int == if source@.len() <= old(self).capacity_remaining() {
                source@.len() as int
            } else {
                old(self).capacity_remaining()
            },
            final(self).buffer_view() == old(self).buffer_view() + source@.subrange(
                0,
                written as int,
            ),
            final(self).capacity_remaining() == old(self).capacity_remaining() - written,
            final(self).control == old(self).control,
            final(self).dma == old(self).dma,
            final(self).buffer_size_spec() == old(self).buffer_size_spec(),
            final(self).stream_id_spec() == old(self).stream_id_spec(),
            final(self).channel_spec() == old(self).channel_spec(),
            final(self).buffer_address_spec() == old(self).buffer_address_spec(),
    {
        let remaining = self.buffer_size - self.buffer.len();
        let bytes_to_write = if source.len() > remaining {
            remaining
        } else {
            source.len()
        };
        let ghost orig = *self;
        let mut k: usize = 0;
        while k < bytes_to_write
            invariant
                k <= bytes_to_write,
                self.buffer@ == orig.buffer@ + source@.subrange(0, k as int),
                self.control == orig.control,
                self.dma == orig.dma,
                self.buffer_size == orig.buffer_size,
                self.stream_id == orig.stream_id,
                self.channel == orig.channel,
                self.buffer_address == orig.buffer_address,
            decreases bytes_to_write - k,
        {
            self.buffer.push(source[k]);
            proof {
                assert(orig.buffer@ + source@.subrange(0, k + 1 as int) =~= (orig.buffer@
                    + source@.subrange(0, k as int)).push(source@[k as int]));
            }
            k += 1;
        }
        proof {
            assert(self.buffer@ == orig.buffer@ + source@.subrange(0, bytes_to_write as int));
        }
        bytes_to_write
    }

    /// Issues the buffered bytes as one stream transfer: clears the
    /// transmitter's completion flag, disables the stream and waits until
    /// it reports disabled, clears the stream's event flags, programs
    /// length, source and destination addresses and the stream
    /// configuration, and enables the stream behind a store barrier. The
    /// flag-clear step runs on every flush, so the completion signal right
    /// after a flush reads false until this transfer itself completes; the
    /// write cursor is reset, so the next write starts a fresh buffer.
    /// The caller must not flush while a previous transfer on the same
    /// stream is still in flight.
    #[verifier::loop_isolation(false)]
    pub fn flush(&mut self)
        requires
            old(self).wf(),
        ensures
            final(self).wf(),
            final(self).buffer_view().len() == 0,
            final(self).control@ == clear_bit_spec(old(self).control@, 6, USART_STATUS as int),
            !transmission_complete(final(self).control@),
            !transfer_complete_flag(final(self).dma@, old(self).stream_id_spec()),
            final(self).dma@[stream_length_word(old(self).stream_id_spec())]
                == old(self).buffer_view().len() as u32,
            final(self).dma@[stream_memory_word(old(self).stream_id_spec())]
                == old(self).buffer_address_spec(),
            final(self).dma@[stream_peripheral_word(old(self).stream_id_spec())]
                == old(self).control.reg.base_spec() + 4,
            final(self).dma@[stream_clear_word(old(self).stream_id_spec())]
                == DMA_CLEAR_PATTERN << stream_group_shift(
                old(self).stream_id_spec(),
            ),
            final(self).dma@[stream_status_word(old(self).stream_id_spec())]
                == old(self).dma@[stream_status_word(old(self).stream_id_spec())]
                & !(DMA_CLEAR_PATTERN << stream_group_shift(
                old(self).stream_id_spec(),
            )),
            final(self).dma@[stream_config_word(old(self).stream_id_spec())]
                == stream_config_value(
                old(self).dma@[stream_config_word(old(self).stream_id_spec())]
                    & !(1u32 << 0),
                flush_stream_conf(old(self).channel_spec()),
            ) | (1u32 << 0),
            !stream_disabled(final(self).dma@, old(self).stream_id_spec()),
            stream_direction_field(final(self).dma@, old(self).stream_id_spec())
                == 0b10,
            stream_memory_increment_on(final(self).dma@, old(self).stream_id_spec()),
            stream_channel_field(final(self).dma@, old(self).stream_id_spec())
                == old(self).channel_spec() as u32,
            stream_priority_field(final(self).dma@, old(self).stream_id_spec())
                == 0b11,
            stream_memory_size_field(final(self).dma@, old(self).stream_id_spec())
                == 0b00,
            stream_peripheral_size_field(final(self).dma@, old(self).stream_id_spec())
                == 0b00,
            forall|j: int|
                0 <= j < REGISTER_WORDS
                    && j != stream_config_word(old(self).stream_id_spec())
                    && j != stream_length_word(old(self).stream_id_spec())
                    && j != stream_memory_word(old(self).stream_id_spec())
                    && j != stream_peripheral_word(old(self).stream_id_spec())
                    && j != stream_status_word(old(self).stream_id_spec())
                    && j != stream_clear_word(old(self).stream_id_spec())
                    ==> final(self).dma@[j] == old(self).dma@[j],
            final(self).control.reg.base_spec() == old(self).control.reg.base_spec(),
            final(self).dma.reg.base_spec() == old(self).dma.reg.base_spec(),
            final(self).buffer_size_spec() == old(self).buffer_size_spec(),
            final(self).stream_id_spec() == old(self).stream_id_spec(),
            final(self).channel_spec() == old(self).channel_spec(),
            final(self).buffer_address_spec() == old(self).buffer_address_spec(),
    {
        self.control.clear_transmission_complete();
        self.dma.disable_stream(self.stream_id);
        proof {
            let w = old(self).dma@[stream_config_word(self.stream_id)];
            assert((w & !(1u32 << 0)) & 0b1u32 == 0) by (bit_vector);
        }
        while !self.dma.is_stream_disabled(self.stream_id)
            decreases 0int,
        {
            no_operation();
        }
        self.dma.clear_stream_interrupt_status_register(self.stream_id);
        let length_usize = self.buffer.len();
        let length: u16 = length_usize as u16;
        proof {
            assert(length_usize <= 0xFFFF ==> (length_usize as u16) as u32 == length_usize as u32)
                by (bit_vector);
        }
        self.dma.set_stream_data_length(self.stream_id, length);
        self.dma.set_stream_memory0_address(self.stream_id, self.buffer_address);
        let peripheral_address = self.control.data_register();
        self.dma.set_stream_peripheral_address(self.stream_id, peripheral_address);
        self.dma.set_stream_config(
            self.stream_id,
            StreamConf {
                data_transfer_direction: Some(DataTransferDirection::MemoryToPeripheral),
                memory_increment_mode: Some(MemoryIncrementMode::AddressIncrement),
                channel: Some(self.channel),
                priority_level: Some(PriorityLevel::VeryHigh),
                memory_data_size: Some(MemoryDataSize::Byte),
                peripheral_data_size: Some(PeripheralDataSize::Byte),
            },
        );
        store_barrier();
        self.dma.enable_stream(self.stream_id);
        proof {
            let c = old(self).dma@[stream_config_word(self.stream_id)] & !(1u32 << 0);
            let ch = self.channel as u32;
            let v1 = stream_config_value(c, flush_stream_conf(self.channel));
            let expanded = ((((((((((((c & !(0b11u32 << 6)) | (0b10u32 << 6)) & !(0b111u32 << 25))
                | (ch << 25)) & !(0b1u32 << 10)) | (0b1u32 << 10)) & !(0b11u32 << 16)) | (0b11u32
                << 16)) & !(0b11u32 << 13)) | (0b00u32 << 13)) & !(0b11u32 << 11)) | (0b00u32
                << 11));
            assert(v1 == expanded);
            assert(((expanded | (1u32 << 0)) >> 6) & 0b11u32 == 0b10u32
                && (expanded | (1u32 << 0)) & (1u32 << 10) != 0
                && ((expanded | (1u32 << 0)) >> 25) & 0b111u32 == ch
                && ((expanded | (1u32 << 0)) >> 16) & 0b11u32 == 0b11u32
                && ((expanded | (1u32 << 0)) >> 13) & 0b11u32 == 0b00u32
                && ((expanded | (1u32 << 0)) >> 11) & 0b11u32 == 0b00u32
                && (expanded | (1u32 << 0)) & 0b1u32 != 0) by (bit_vector)
                requires
                    expanded == ((((((((((((c & !(0b11u32 << 6)) | (0b10u32 << 6)) & !(0b111u32
                        << 25)) | (ch << 25)) & !(0b1u32 << 10)) | (0b1u32 << 10)) & !(0b11u32
                        << 16)) | (0b11u32 << 16)) & !(0b11u32 << 13)) | (0b00u32 << 13))
                        & !(0b11u32 << 11)) | (0b00u32 << 11)),
                    ch < 8,
            ;
        }
        self.buffer.clear();
    }
}

} // verus!
