//! The register access layer: a typed handle over a peripheral's base
//! address offering word-granular read/write and set/clear-bit operations.
//!
//! The handle owns an explicit model of its register block, one `u32` word
//! per register. Because each handle owns its own words, no two handles can
//! alias the same register. On the target, every access would be a single
//! naturally aligned 32-bit volatile operation; the model makes each store
//! immediately visible, so the store barrier is an ordering marker with no
//! further effect.

use vstd::prelude::*;

verus! {

/// Number of 32-bit words in one modelled register block. Large enough for
/// every peripheral this crate drives (the widest block, the DMA controller,
/// ends at word 49).
pub const REGISTER_WORDS: usize = 64;

/// A register block handle: a base address plus the block's word-granular
/// contents.
pub struct MemoryMappedIo {
    base: u32,
    words: Vec<u32>,
}

impl View for MemoryMappedIo {
    type V = Seq<u32>;

    closed spec fn view(&self) -> Seq<u32> {
        self.words@
    }
}

/// The register block a `set_bit` call leaves behind: the addressed word
/// with bit `bit_number` forced to one, every other bit and word unchanged.
pub open spec fn set_bit_spec(regs: Seq<u32>, bit_number: u32, offset: int) -> Seq<u32> {
    regs.update(offset, regs[offset] | (1u32 << bit_number))
}

/// The register block a `clear_bit` call leaves behind: the addressed word
/// with bit `bit_number` forced to zero, every other bit and word unchanged.
pub open spec fn clear_bit_spec(regs: Seq<u32>, bit_number: u32, offset: int) -> Seq<u32> {
    regs.update(offset, regs[offset] & !(1u32 << bit_number))
}

impl MemoryMappedIo {
    #[verifier::type_invariant]
    spec fn block_size_fixed(self) -> bool {
        self.words@.len() == REGISTER_WORDS
    }

    /// The base address this handle stands for.
    pub closed spec fn base_spec(&self) -> u32 {
        self.base
    }

    /// Creates the handle for the block at `base`, every register reading
    /// as zero until written.
    pub fn new(base: u32) -> (r: MemoryMappedIo)
        ensures
            r.base_spec() == base,
            r@.len() == REGISTER_WORDS,
            forall|i: int| 0 <= i < REGISTER_WORDS ==> r@[i] == 0u32,
    {
        let mut words: Vec<u32> = Vec::new();
        while words.len() < REGISTER_WORDS
            invariant
                words@.len() <= REGISTER_WORDS,
                forall|i: int| 0 <= i < words@.len() ==> words@[i] == 0u32,
            decreases REGISTER_WORDS - words@.len(),
        {
            words.push(0u32);
        }
        MemoryMappedIo { base, words }
    }

    /// The base address of the block.
    pub fn address(&self) -> (a: u32)
        ensures
            a == self.base_spec(),
    {
        self.base
    }

    /// Reads the word at `offset`: exactly the value the model holds there.
    pub fn read(&self, offset: usize) -> (r: u32)
        requires
            offset < REGISTER_WORDS,
        ensures
            r == self@[offset as int],
            self@.len() == REGISTER_WORDS,
    {
        proof {
            use_type_invariant(self);
        }
        self.words[offset]
    }

    /// Writes `value` to the word at `offset`, leaving every other word
    /// unchanged. Together with `read`, a written value reads back as is.
    pub fn write(&mut self, value: u32, offset: usize)
        requires
            offset < REGISTER_WORDS,
        ensures
            old(self)@.len() == REGISTER_WORDS,
            final(self)@ == old(self)@.update(offset as int, value),
            final(self).base_spec() == old(self).base_spec(),
    {
        proof {
            use_type_invariant(&*self);
        }
        self.words[offset] = value;
    }

    /// Read-modify-write setting bit `bit_number` of the word at `offset`.
    pub fn set_bit(&mut self, bit_number: u32, offset: usize)
        requires
            bit_number < 32,
            offset < REGISTER_WORDS,
        ensures
            old(self)@.len() == REGISTER_WORDS,
            final(self)@ == set_bit_spec(old(self)@, bit_number, offset as int),
            final(self).base_spec() == old(self).base_spec(),
    {
        let mut current_value = self.read(offset);
        current_value |= 1u32 << bit_number;
        self.write(current_value, offset);
    }

    /// Read-modify-write clearing bit `bit_number` of the word at `offset`.
    pub fn clear_bit(&mut self, bit_number: u32, offset: usize)
        requires
            bit_number < 32,
            offset < REGISTER_WORDS,
        ensures
            old(self)@.len() == REGISTER_WORDS,
            final(self)@ == clear_bit_spec(old(self)@, bit_number, offset as int),
            final(self).base_spec() == old(self).base_spec(),
    {
        let mut current_value = self.read(offset);
        current_value &= !(1u32 << bit_number);
        self.write(current_value, offset);
    }

    /// True exactly when bit `bit_number` of the word at `offset` is set.
    pub fn is_bit_set(&self, bit_number: u32, offset: usize) -> (r: bool)
        requires
            bit_number < 32,
            offset < REGISTER_WORDS,
        ensures
            r == (self@[offset as int] & (1u32 << bit_number) != 0),
            self@.len() == REGISTER_WORDS,
    {
        self.read(offset) & (1u32 << bit_number) != 0
    }
}

/// A store barrier: on the target this stalls the pipeline until the
/// preceding store is externally observable. In this model a store is
/// visible as soon as it is made, so the barrier only marks the ordering
/// points the hardware requires.
pub fn store_barrier() {
}

/// A single idle step, the body of every hardware-readiness busy-wait.
pub fn no_operation() {
}

/// Setting a bit leaves that bit readable as one.
pub proof fn lemma_set_bit_sets(word: u32, bit_number: u32)
    by (bit_vector)
    requires
        bit_number < 32,
    ensures
        (word | (1u32 << bit_number)) & (1u32 << bit_number) != 0,
{
}

/// Clearing a bit leaves that bit readable as zero.
pub proof fn lemma_clear_bit_clears(word: u32, bit_number: u32)
    by (bit_vector)
    requires
        bit_number < 32,
    ensures
        (word & !(1u32 << bit_number)) & (1u32 << bit_number) == 0,
{
}

/// Setting or clearing one bit leaves every other bit as it was.
pub proof fn lemma_bit_independent(word: u32, bit_number: u32, other: u32)
    by (bit_vector)
    requires
        bit_number < 32,
        other < 32,
        bit_number != other,
    ensures
        (word | (1u32 << bit_number)) & (1u32 << other) == word & (1u32 << other),
        (word & !(1u32 << bit_number)) & (1u32 << other) == word & (1u32 << other),
{
}

/// Round trip: writing `value` at `offset` and reading the same offset back
/// yields `value`, for every offset and every value.
pub proof fn lemma_write_read_round_trip(regs: Seq<u32>, value: u32, offset: int)
    requires
        0 <= offset < regs.len(),
    ensures
        regs.update(offset, value)[offset] == value,
{
}

/// Setting a bit is idempotent: setting the same bit of the same register
/// twice leaves exactly the register block that setting it once leaves.
pub proof fn lemma_set_bit_idempotent(regs: Seq<u32>, bit_number: u32, offset: int)
    requires
        0 <= offset < regs.len(),
        bit_number < 32,
    ensures
        set_bit_spec(set_bit_spec(regs, bit_number, offset), bit_number, offset)
            == set_bit_spec(regs, bit_number, offset),
{
    let w = regs[offset];
    assert((w | (1u32 << bit_number)) | (1u32 << bit_number) == w | (1u32 << bit_number))
        by (bit_vector);
    assert(set_bit_spec(set_bit_spec(regs, bit_number, offset), bit_number, offset)
        =~= set_bit_spec(regs, bit_number, offset));
}

/// Clearing a bit right after setting it leaves the bit clear and every
/// other bit of every register unchanged; if the bit was clear to begin
/// with, the whole register block is restored exactly.
pub proof fn lemma_clear_after_set(regs: Seq<u32>, bit_number: u32, offset: int)
    requires
        0 <= offset < regs.len(),
        bit_number < 32,
    ensures
        clear_bit_spec(set_bit_spec(regs, bit_number, offset), bit_number, offset)
            == clear_bit_spec(regs, bit_number, offset),
        regs[offset] & (1u32 << bit_number) == 0
            ==> clear_bit_spec(set_bit_spec(regs, bit_number, offset), bit_number, offset) == regs,
{
    let w = regs[offset];
    assert((w | (1u32 << bit_number)) & !(1u32 << bit_number) == w & !(1u32 << bit_number))
        by (bit_vector);
    assert(clear_bit_spec(set_bit_spec(regs, bit_number, offset), bit_number, offset)
        =~= clear_bit_spec(regs, bit_number, offset));
    if w & (1u32 << bit_number) == 0 {
        assert(w & (1u32 << bit_number) == 0 ==> w & !(1u32 << bit_number) == w) by (bit_vector);
        assert(clear_bit_spec(regs, bit_number, offset) =~= regs);
    }
}

} // verus!
