//! The read-write data store.

use super::{
    byte_lane, half_lane, with_byte_lane, with_half_lane, word_index, MMIODevice, MMIOError,
    MMIOResult,
};
use vstd::prelude::*;

verus! {

/// Number of word cells in the data store (4 MiB).
pub const RAM_WORDS: usize = 1_048_576;

const RAM_MASK: u32 = 0xF_FFFF;

/// What every cell of a fresh store holds.
pub const FRESH_WORD: u32 = 0xFFFF_FFFF;

/// The contents of a store that was never written.
pub open spec fn fresh_image() -> Seq<u32> {
    Seq::new(RAM_WORDS as nat, |i: int| FRESH_WORD)
}

/// A word-addressed read-write store. Addresses wrap around its size.
pub struct RamDevice {
    ram: Vec<u32>,
}

impl View for RamDevice {
    type V = Seq<u32>;

    closed spec fn view(&self) -> Seq<u32> {
        self.ram@
    }
}

proof fn lemma_ram_index_in_range(address: u32)
    by (bit_vector)
    ensures
        (address >> 2) & 0xF_FFFFu32 < 1_048_576,
{
}

impl RamDevice {
    #[verifier::type_invariant]
    spec fn sized(&self) -> bool {
        self.ram.len() == RAM_WORDS
    }

    /// A store in which every cell holds `FRESH_WORD`.
    pub fn new() -> (device: Self)
        ensures
            device@ == fresh_image(),
            device@.len() == RAM_WORDS,
    {
        let ram = vec![FRESH_WORD; RAM_WORDS];
        assert(ram@ =~= fresh_image());
        Self { ram }
    }

    /// The number of cells, which is the same for every store.
    pub fn words(&self) -> (count: usize)
        ensures
            count == RAM_WORDS,
            self@.len() == RAM_WORDS,
    {
        proof {
            use_type_invariant(self);
        }
        RAM_WORDS
    }
}

impl Default for RamDevice {
    fn default() -> (device: Self)
        ensures
            device@ == fresh_image(),
            device@.len() == RAM_WORDS,
    {
        Self::new()
    }
}

impl MMIODevice for RamDevice {
    fn read_byte(&self, address: u32) -> (result: MMIOResult<u8>)
        ensures
            result == Ok::<u8, MMIOError>(
                byte_lane(self@[word_index(address, RAM_WORDS)], address),
            ),
            self@.len() == RAM_WORDS,
    {
        proof {
            use_type_invariant(self);
            lemma_ram_index_in_range(address);
        }
        let index = ((address >> 2) & RAM_MASK) as usize;
        let value = self.ram[index];
        Ok(
            (match address & 0b11 {
                0b00 => (value & 0xFF00_0000) >> 24,
                0b01 => (value & 0x00FF_0000) >> 16,
                0b10 => (value & 0x0000_FF00) >> 8,
                _ => value & 0x0000_00FF,
            }) as u8,
        )
    }

    fn read_half_word(&self, address: u32) -> (result: MMIOResult<u16>)
        ensures
            result == Ok::<u16, MMIOError>(
                half_lane(self@[word_index(address, RAM_WORDS)], address),
            ),
            self@.len() == RAM_WORDS,
    {
        proof {
            use_type_invariant(self);
            lemma_ram_index_in_range(address);
        }
        let index = ((address >> 2) & RAM_MASK) as usize;
        let value = self.ram[index];
        Ok(
            (match address & 0b10 {
                0b0 => (value & 0xFFFF_0000) >> 16,
                _ => value & 0x0000_FFFF,
            }) as u16,
        )
    }

    fn read_word(&self, address: u32) -> (result: MMIOResult<u32>)
        ensures
            result == Ok::<u32, MMIOError>(self@[word_index(address, RAM_WORDS)]),
            self@.len() == RAM_WORDS,
    {
        proof {
            use_type_invariant(self);
            lemma_ram_index_in_range(address);
        }
        let index = ((address >> 2) & RAM_MASK) as usize;
        Ok(self.ram[index])
    }

    /// Replaces one byte lane of the addressed cell; the other three lanes
    /// and every other cell keep their contents.
    fn write_byte(&mut self, address: u32, value: u8) -> (result: MMIOResult<()>)
        ensures
            result == Ok::<(), MMIOError>(()),
            final(self)@ == old(self)@.update(
                word_index(address, RAM_WORDS),
                with_byte_lane(old(self)@[word_index(address, RAM_WORDS)], address, value),
            ),
            old(self)@.len() == RAM_WORDS,
            final(self)@.len() == RAM_WORDS,
    {
        proof {
            use_type_invariant(&*self);
            lemma_ram_index_in_range(address);
        }
        let index = ((address >> 2) & RAM_MASK) as usize;
        let current_value = self.ram[index];
        self.ram[index] = match address & 0b11 {
            0b00 => (current_value & 0x00FF_FFFF) | ((value as u32) << 24),
            0b01 => (current_value & 0xFF00_FFFF) | ((value as u32) << 16),
            0b10 => (current_value & 0xFFFF_00FF) | ((value as u32) << 8),
            _ => (current_value & 0xFFFF_FF00) | (value as u32),
        };
        Ok(())
    }

    /// Replaces one half-word lane of the addressed cell; the other lane and
    /// every other cell keep their contents.
    fn write_half_word(&mut self, address: u32, value: u16) -> (result: MMIOResult<()>)
        ensures
            result == Ok::<(), MMIOError>(()),
            final(self)@ == old(self)@.update(
                word_index(address, RAM_WORDS),
                with_half_lane(old(self)@[word_index(address, RAM_WORDS)], address, value),
            ),
            old(self)@.len() == RAM_WORDS,
            final(self)@.len() == RAM_WORDS,
    {
        proof {
            use_type_invariant(&*self);
            lemma_ram_index_in_range(address);
        }
        let index = ((address >> 2) & RAM_MASK) as usize;
        let current_value = self.ram[index];
        self.ram[index] = match address & 0b10 {
            0b0 => (current_value & 0x0000_FFFF) | ((value as u32) << 16),
            _ => (current_value & 0xFFFF_0000) | (value as u32),
        };
        Ok(())
    }

    /// Replaces the addressed cell; every other cell keeps its contents.
    fn write_word(&mut self, address: u32, value: u32) -> (result: MMIOResult<()>)
        ensures
            result == Ok::<(), MMIOError>(()),
            final(self)@ == old(self)@.update(word_index(address, RAM_WORDS), value),
            old(self)@.len() == RAM_WORDS,
            final(self)@.len() == RAM_WORDS,
    {
        proof {
            use_type_invariant(&*self);
            lemma_ram_index_in_range(address);
        }
        let index = ((address >> 2) & RAM_MASK) as usize;
        self.ram[index] = value;
        Ok(())
    }
}

} // verus!
