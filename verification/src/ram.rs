//! A word-addressed data store: each address names one whole word.

use vstd::prelude::*;

verus! {

/// Number of word cells in the store (4 MiB).
pub const RAM_WORDS: usize = 1_048_576;

const RAM_MASK: u32 = 0xF_FFFF;

/// What every cell of a fresh store holds.
pub const FRESH_WORD: u32 = 0xFFFF_FFFF;

/// The cell that `address` names: the address modulo the size of the store.
pub open spec fn cell_index(address: u32) -> int {
    address as int % RAM_WORDS as int
}

/// The contents of a store that was never written.
pub open spec fn fresh_image() -> Seq<u32> {
    Seq::new(RAM_WORDS as nat, |i: int| FRESH_WORD)
}

/// A read-write store of words, addressed by word number. Addresses wrap
/// around its size.
pub struct RamDevice {
    ram: Vec<u32>,
}

impl View for RamDevice {
    type V = Seq<u32>;

    closed spec fn view(&self) -> Seq<u32> {
        self.ram@
    }
}

proof fn lemma_cell_index(address: u32)
    by (bit_vector)
    ensures
        address & 0xF_FFFFu32 == address % 1_048_576u32,
        address & 0xF_FFFFu32 < 1_048_576,
{
}

impl RamDevice {
    #[verifier::type_invariant]
    spec fn sized(&self) -> bool {
        self.ram.len() == RAM_WORDS
    }

    /// A store in which every cell holds `FRESH_WORD`.
    pub fn new() -> (device: Self)
        ensures
            device@ == fresh_image(),
            device@.len() == RAM_WORDS,
    {
        let mut ram: Vec<u32> = Vec::with_capacity(RAM_WORDS);
        let mut filled: usize = 0;
        while filled < RAM_WORDS
            invariant
                filled <= RAM_WORDS,
                ram.len() == filled,
                forall|i: int| 0 <= i < filled ==> ram@[i] == FRESH_WORD,
            decreases RAM_WORDS - filled,
        {
            ram.push(FRESH_WORD);
            filled += 1;
        }
        assert(ram@ =~= fresh_image());
        RamDevice { ram }
    }

    /// The number of cells, which is the same for every store.
    pub fn words(&self) -> (count: usize)
        ensures
            count == RAM_WORDS,
            self@.len() == RAM_WORDS,
    {
        proof {
            use_type_invariant(self);
        }
        RAM_WORDS
    }

    /// The word in the cell that `address` names.
    pub fn read(&self, address: u32) -> (value: u32)
        ensures
            value == self@[cell_index(address)],
            self@.len() == RAM_WORDS,
            0 <= cell_index(address) < RAM_WORDS,
    {
        proof {
            use_type_invariant(self);
            lemma_cell_index(address);
        }
        let index = (address & RAM_MASK) as usize;
        self.ram[index]
    }

    /// Stores `value` in the cell that `address` names; every other cell
    /// keeps its contents.
    pub fn write(&mut self, address: u32, value: u32)
        ensures
            final(self)@ == old(self)@.update(cell_index(address), value),
            old(self)@.len() == RAM_WORDS,
            final(self)@.len() == RAM_WORDS,
            0 <= cell_index(address) < RAM_WORDS,
    {
        proof {
            use_type_invariant(&*self);
            lemma_cell_index(address);
        }
        let index = (address & RAM_MASK) as usize;
        self.ram[index] = value;
    }
}

/// A word that was written is the word that is read, and a write changes no
/// other cell.
pub proof fn lemma_read_after_write(cells: Seq<u32>, address: u32, value: u32, other: u32)
    requires
        cells.len() == RAM_WORDS,
    ensures
        0 <= cell_index(address) < RAM_WORDS,
        cells.update(cell_index(address), value)[cell_index(address)] == value,
        cell_index(other) != cell_index(address) ==> cells.update(
            cell_index(address),
            value,
        )[cell_index(other)] == cells[cell_index(other)],
{
}

} // verus!
