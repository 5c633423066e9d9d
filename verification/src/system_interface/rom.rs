//! The read-only program store.

use super::{byte_lane, half_lane, word_index, MMIODevice, MMIOError, MMIOResult};
use vstd::prelude::*;

verus! {

/// Number of word cells in the program store (1 MiB).
pub const ROM_WORDS: usize = 262_144;

const ROM_MASK: u32 = 0x3_FFFF;

/// What every cell holds until something is loaded over it.
pub const ERASED_WORD: u32 = 0xFFFF_FFFF;

/// The contents of the store after loading `data`: the first cells hold the
/// data, in order, as far as it fits; the rest are erased.
pub open spec fn loaded_image(data: Seq<u32>) -> Seq<u32> {
    Seq::new(
        ROM_WORDS as nat,
        |i: int|
            if i < data.len() {
                data[i]
            } else {
                ERASED_WORD
            },
    )
}

/// A word-addressed read-only store. Addresses wrap around its size.
pub struct RomDevice {
    rom: Vec<u32>,
}

impl View for RomDevice {
    type V = Seq<u32>;

    closed spec fn view(&self) -> Seq<u32> {
        self.rom@
    }
}

proof fn lemma_rom_index_in_range(address: u32)
    by (bit_vector)
    ensures
        (address >> 2) & 0x3_FFFFu32 < 262_144,
{
}

impl RomDevice {
    #[verifier::type_invariant]
    spec fn sized(&self) -> bool {
        self.rom.len() == ROM_WORDS
    }

    /// An erased store.
    pub fn new() -> (device: Self)
        ensures
            device@ == loaded_image(Seq::empty()),
            device@.len() == ROM_WORDS,
    {
        let rom = vec![ERASED_WORD; ROM_WORDS];
        assert(rom@ =~= loaded_image(Seq::empty()));
        Self { rom }
    }

    /// The number of cells, which is the same for every store.
    pub fn words(&self) -> (count: usize)
        ensures
            count == ROM_WORDS,
            self@.len() == ROM_WORDS,
    {
        proof {
            use_type_invariant(self);
        }
        ROM_WORDS
    }

    /// Replaces the contents with `data`, cut to the size of the store and
    /// padded with erased cells.
    pub fn load(&mut self, data: Vec<u32>)
        ensures
            final(self)@ == loaded_image(data@),
            final(self)@.len() == ROM_WORDS,
    {
        proof {
            use_type_invariant(&*self);
        }
        let mut i: usize = 0;
        while i < ROM_WORDS
            invariant
                i <= ROM_WORDS,
                self.rom.len() == ROM_WORDS,
                forall|j: int| 0 <= j < i ==> self.rom@[j] == #[trigger] loaded_image(data@)[j],
            decreases ROM_WORDS - i,
        {
            if i >= data.len() {
                self.rom[i] = ERASED_WORD;
            } else {
                self.rom[i] = data[i];
            }
            i += 1;
        }
        assert(self.rom@ =~= loaded_image(data@));
    }
}

impl Default for RomDevice {
    fn default() -> (device: Self)
        ensures
            device@ == loaded_image(Seq::empty()),
            device@.len() == ROM_WORDS,
    {
        Self::new()
    }
}

impl MMIODevice for RomDevice {
    fn read_byte(&self, address: u32) -> (result: MMIOResult<u8>)
        ensures
            result == Ok::<u8, MMIOError>(
                byte_lane(self@[word_index(address, ROM_WORDS)], address),
            ),
            self@.len() == ROM_WORDS,
    {
        proof {
            use_type_invariant(self);
            lemma_rom_index_in_range(address);
        }
        let index = ((address >> 2) & ROM_MASK) as usize;
        let value = self.rom[index];
        Ok(
            (match address & 0b11 {
                0b00 => (value & 0xFF00_0000) >> 24,
                0b01 => (value & 0x00FF_0000) >> 16,
                0b10 => (value & 0x0000_FF00) >> 8,
                _ => value & 0x0000_00FF,
            }) as u8,
        )
    }

    fn read_half_word(&self, address: u32) -> (result: MMIOResult<u16>)
        ensures
            result == Ok::<u16, MMIOError>(
                half_lane(self@[word_index(address, ROM_WORDS)], address),
            ),
            self@.len() == ROM_WORDS,
    {
        proof {
            use_type_invariant(self);
            lemma_rom_index_in_range(address);
        }
        let index = ((address >> 2) & ROM_MASK) as usize;
        let value = self.rom[index];
        Ok(
            (match address & 0b10 {
                0 => (value & 0xFFFF_0000) >> 16,
                _ => value & 0x0000_FFFF,
            }) as u16,
        )
    }

    fn read_word(&self, address: u32) -> (result: MMIOResult<u32>)
        ensures
            result == Ok::<u32, MMIOError>(self@[word_index(address, ROM_WORDS)]),
            self@.len() == ROM_WORDS,
    {
        proof {
            use_type_invariant(self);
            lemma_rom_index_in_range(address);
        }
        let index = ((address >> 2) & ROM_MASK) as usize;
        Ok(self.rom[index])
    }

    /// Writing to the program store does nothing.
    fn write_byte(&mut self, _address: u32, _value: u8) -> (result: MMIOResult<()>)
        ensures
            result == Ok::<(), MMIOError>(()),
            final(self)@ == old(self)@,
            final(self)@.len() == ROM_WORDS,
    {
        proof {
            use_type_invariant(&*self);
        }
        Ok(())
    }

    /// Writing to the program store does nothing.
    fn write_half_word(&mut self, _address: u32, _value: u16) -> (result: MMIOResult<()>)
        ensures
            result == Ok::<(), MMIOError>(()),
            final(self)@ == old(self)@,
            final(self)@.len() == ROM_WORDS,
    {
        proof {
            use_type_invariant(&*self);
        }
        Ok(())
    }

    /// Writing to the program store does nothing.
    fn write_word(&mut self, _address: u32, _value: u32) -> (result: MMIOResult<()>)
        ensures
            result == Ok::<(), MMIOError>(()),
            final(self)@ == old(self)@,
            final(self)@.len() == ROM_WORDS,
    {
        proof {
            use_type_invariant(&*self);
        }
        Ok(())
    }
}

/// The word that four bytes spell, least significant byte first.
pub open spec fn le_word(b0: u8, b1: u8, b2: u8, b3: u8) -> u32 {
    (b0 + 0x100 * b1 + 0x1_0000 * b2 + 0x100_0000 * b3) as u32
}

/// The words of a program image: each run of four bytes is one word, least
/// significant byte first.
pub open spec fn image_words(bytes: Seq<u8>) -> Seq<u32> {
    Seq::new(
        bytes.len() / 4,
        |i: int| le_word(bytes[4 * i], bytes[4 * i + 1], bytes[4 * i + 2], bytes[4 * i + 3]),
    )
}

proof fn lemma_le_word(b0: u8, b1: u8, b2: u8, b3: u8)
    by (bit_vector)
    ensures
        (b0 as u32) | ((b1 as u32) << 8) | ((b2 as u32) << 16) | ((b3 as u32) << 24) == b0 + 0x100
            * b1 + 0x1_0000 * b2 + 0x100_0000 * b3,
{
}

/// Groups the bytes of a program image into words, ready to be loaded. The
/// image must be a whole number of words.
pub fn words_from_le_bytes(bytes: &[u8]) -> (words: Vec<u32>)
    requires
        bytes@.len() % 4 == 0,
    ensures
        words@ == image_words(bytes@),
{
    let count = bytes.len() / 4;
    let mut words: Vec<u32> = Vec::with_capacity(count);
    let mut i: usize = 0;
    while i < count
        invariant
            bytes@.len() == 4 * count,
            4 * count <= usize::MAX,
            i <= count,
            words@.len() == i,
            forall|j: int| 0 <= j < i ==> words@[j] == #[trigger] image_words(bytes@)[j],
        decreases count - i,
    {
        let b0 = bytes[4 * i];
        let b1 = bytes[4 * i + 1];
        let b2 = bytes[4 * i + 2];
        let b3 = bytes[4 * i + 3];
        proof {
            lemma_le_word(b0, b1, b2, b3);
        }
        words.push((b0 as u32) | ((b1 as u32) << 8) | ((b2 as u32) << 16) | ((b3 as u32) << 24));
        i += 1;
    }
    assert(words@ =~= image_words(bytes@));
    words
}

} // verus!
