//! The interrupt controller's set-enable registers: each interrupt index
//! maps to one bit of one 32-bit word.

use vstd::prelude::*;

use crate::memory_mapped_io::MemoryMappedIo;
use crate::memory_mapped_io::REGISTER_WORDS;
use crate::memory_mapped_io::set_bit_spec;

verus! {

/// Register state after enabling, in order, every interrupt index in
/// `indices`: each index sets bit `index % 32` of word `index / 32`.
pub open spec fn enable_interrupts_spec(regs: Seq<u32>, indices: Seq<u32>) -> Seq<u32>
    decreases indices.len(),
{
    if indices.len() == 0 {
        regs
    } else {
        set_bit_spec(
            enable_interrupts_spec(regs, indices.drop_last()),
            (indices.last() % 32) as u32,
            indices.last() as int / 32,
        )
    }
}

/// Handle over the interrupt controller's set-enable register bank.
pub struct NvicConf {
    pub set_enable_base: MemoryMappedIo,
}

impl View for NvicConf {
    type V = Seq<u32>;

    open spec fn view(&self) -> Seq<u32> {
        self.set_enable_base@
    }
}

impl NvicConf {
    /// Creates the handle for the set-enable bank at `set_enable_base`.
    pub fn new(set_enable_base: u32) -> (r: NvicConf)
        ensures
            r.set_enable_base.base_spec() == set_enable_base,
            r@.len() == REGISTER_WORDS,
            forall|i: int| 0 <= i < REGISTER_WORDS ==> r@[i] == 0u32,
    {
        NvicConf { set_enable_base: MemoryMappedIo::new(set_enable_base) }
    }

    /// Enables the interrupt at `index`: sets bit `index % 32` of set-enable
    /// word `index / 32`, preserving every other enable bit.
    pub fn enable_interrupt(&mut self, index: u32)
        requires
            index < 32 * REGISTER_WORDS,
        ensures
            final(self)@ == set_bit_spec(old(self)@, index % 32, index as int / 32),
            old(self)@.len() == REGISTER_WORDS,
            final(self).set_enable_base.base_spec() == old(self).set_enable_base.base_spec(),
    {
        let register: usize = (index / 32) as usize;
        let offset = index % 32;
        self.set_enable_base.set_bit(offset, register);
    }

    /// Enables every interrupt index in `indices`, in order.
    pub fn enable_interrupts(&mut self, indices: &[u32])
        requires
            forall|i: int| 0 <= i < indices@.len() ==> indices@[i] < 32 * REGISTER_WORDS,
        ensures
            final(self)@ == enable_interrupts_spec(old(self)@, indices@),
            final(self).set_enable_base.base_spec() == old(self).set_enable_base.base_spec(),
    {
        let ghost orig = *self;
        let mut i: usize = 0;
        while i < indices.len()
            invariant
                i <= indices@.len(),
                forall|j: int| 0 <= j < indices@.len() ==> indices@[j] < 32 * REGISTER_WORDS,
                self@ == enable_interrupts_spec(orig@, indices@.take(i as int)),
                self.set_enable_base.base_spec() == orig.set_enable_base.base_spec(),
            decreases indices@.len() - i,
        {
            self.enable_interrupt(indices[i]);
            proof {
                let taken = indices@.take(i + 1 as int);
                assert(taken.drop_last() =~= indices@.take(i as int));
                assert(taken.last() == indices@[i as int]);
            }
            i += 1;
        }
        proof {
            assert(indices@.take(indices@.len() as int) =~= indices@);
        }
    }
}

} // verus!
