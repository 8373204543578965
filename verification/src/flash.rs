//! The flash latency controller: programming the read-wait-state count and
//! the cache/prefetch enables, verified by reading the latency back. Flash
//! timing must match the new target frequency before the clock switch, so
//! the bring-up sequence runs this step before selecting the faster clock.

use vstd::prelude::*;

use crate::memory_mapped_io::MemoryMappedIo;
use crate::memory_mapped_io::REGISTER_WORDS;
use crate::memory_mapped_io::no_operation;
use crate::memory_mapped_io::store_barrier;

verus! {

/// Word offset of the access control register.
pub const FLASH_ACCESS_CONTROL: usize = 0;

/// The wait-state count the access control register currently holds.
pub open spec fn flash_latency_of(regs: Seq<u32>) -> u32 {
    regs[FLASH_ACCESS_CONTROL as int] & 0b1111u32
}

/// The access control value `configure_access_control` writes: the old
/// value with the latency field replaced and the prefetch (bit 8),
/// instruction-cache (bit 9) and data-cache (bit 10) enables rewritten.
pub open spec fn access_control_value(
    old_value: u32,
    latency: u8,
    instruction_cache: bool,
    data_cache: bool,
    prefetch: bool,
) -> u32 {
    let with_latency = (old_value & !0b1111u32) | (latency as u32);
    let cleared = with_latency & !(0b111u32 << 8);
    let after_instruction = if instruction_cache {
        cleared | (1u32 << 9)
    } else {
        cleared
    };
    let after_data = if data_cache {
        after_instruction | (1u32 << 10)
    } else {
        after_instruction
    };
    if prefetch {
        after_data | (1u32 << 8)
    } else {
        after_data
    }
}

/// Raising one of the enable bits does not change the latency field.
proof fn lemma_enable_bit_preserves_latency(value: u32, bit_number: u32)
    by (bit_vector)
    requires
        8 <= bit_number < 32,
    ensures
        (value | (1u32 << bit_number)) & 0b1111u32 == value & 0b1111u32,
{
}

/// Handle over the flash controller's register block.
pub struct FlashConf {
    pub reg: MemoryMappedIo,
}

impl View for FlashConf {
    type V = Seq<u32>;

    open spec fn view(&self) -> Seq<u32> {
        self.reg@
    }
}

impl FlashConf {
    /// Creates the handle for the flash controller at `base`.
    pub fn new(base: u32) -> (r: FlashConf)
        ensures
            r.reg.base_spec() == base,
            r@.len() == REGISTER_WORDS,
            forall|i: int| 0 <= i < REGISTER_WORDS ==> r@[i] == 0u32,
    {
        FlashConf { reg: MemoryMappedIo::new(base) }
    }

    /// Programs the wait-state count and the cache/prefetch enables,
    /// preserving the register's remaining bits, and returns only once the
    /// latency field reads back as requested.
    #[verifier::loop_isolation(false)]
    pub fn configure_access_control(
        &mut self,
        latency: u8,
        instruction_cache: bool,
        data_cache: bool,
        prefetch: bool,
    )
        requires
            latency < 16,
        ensures
            final(self)@ == old(self)@.update(
                FLASH_ACCESS_CONTROL as int,
                access_control_value(
                    old(self)@[FLASH_ACCESS_CONTROL as int],
                    latency,
                    instruction_cache,
                    data_cache,
                    prefetch,
                ),
            ),
            flash_latency_of(final(self)@) == latency as u32,
            old(self)@.len() == REGISTER_WORDS,
            final(self).reg.base_spec() == old(self).reg.base_spec(),
    {
        let original_value = self.reg.read(FLASH_ACCESS_CONTROL);
        let mut current_value = original_value;
        current_value &= !0b1111u32;
        current_value |= latency as u32;
        current_value &= !(0b111u32 << 8);
        proof {
            let l = latency as u32;
            assert(l < 16 ==> (((original_value & !0b1111u32) | l) & !(0b111u32 << 8)) & 0b1111u32
                == l) by (bit_vector);
        }
        if instruction_cache {
            proof {
                lemma_enable_bit_preserves_latency(current_value, 9);
            }
            current_value |= 1u32 << 9;
        }
        if data_cache {
            proof {
                lemma_enable_bit_preserves_latency(current_value, 10);
            }
            current_value |= 1u32 << 10;
        }
        if prefetch {
            proof {
                lemma_enable_bit_preserves_latency(current_value, 8);
            }
            current_value |= 1u32 << 8;
        }
        self.reg.write(current_value, FLASH_ACCESS_CONTROL);
        store_barrier();
        while self.reg.read(FLASH_ACCESS_CONTROL) & 0b1111u32 != (latency as u32)
            decreases 0int,
        {
            no_operation();
        }
    }
}

} // verus!
