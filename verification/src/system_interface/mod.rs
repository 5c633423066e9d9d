//! The memory-mapped bus: address decoding, alignment checks and the two
//! memory devices behind it.

use vstd::prelude::*;
use vstd::string::StringExecFns;

pub mod ram;
pub mod rom;

pub use ram::{RamDevice, RAM_WORDS};
pub use rom::{RomDevice, ROM_WORDS};

verus! {

/// Why a bus access was refused.
#[derive(PartialEq, Eq, Debug, Clone, Copy)]
pub enum MMIOError {
    /// A half-word or word read from an address that is not a multiple of
    /// the access width. Carries the address.
    UnalignedRead(u32),
    /// A half-word or word write to an address that is not a multiple of the
    /// access width. Carries the address and the value.
    UnalignedWrite(u32, u32),
}

pub type MMIOResult<T> = Result<T, MMIOError>;

/// The upper-case hexadecimal digit for a value below sixteen.
pub open spec fn hex_char(nibble: u32) -> char {
    if nibble == 0 {
        '0'
    } else if nibble == 1 {
        '1'
    } else if nibble == 2 {
        '2'
    } else if nibble == 3 {
        '3'
    } else if nibble == 4 {
        '4'
    } else if nibble == 5 {
        '5'
    } else if nibble == 6 {
        '6'
    } else if nibble == 7 {
        '7'
    } else if nibble == 8 {
        '8'
    } else if nibble == 9 {
        '9'
    } else if nibble == 10 {
        'A'
    } else if nibble == 11 {
        'B'
    } else if nibble == 12 {
        'C'
    } else if nibble == 13 {
        'D'
    } else if nibble == 14 {
        'E'
    } else {
        'F'
    }
}

/// How many hexadecimal digits `value` is written with: as many as it needs,
/// and at least six.
pub open spec fn hex_width(value: u32) -> nat {
    if value >= 0x1000_0000 {
        8
    } else if value >= 0x0100_0000 {
        7
    } else {
        6
    }
}

/// The digits of `value`, most significant first.
pub open spec fn hex_digits(value: u32) -> Seq<char> {
    Seq::new(
        hex_width(value),
        |k: int| hex_char((value >> ((4 * (hex_width(value) - 1 - k)) as u32)) & 0xF),
    )
}

/// `value` in hexadecimal, with the prefix `0x`.
pub open spec fn hex_text(value: u32) -> Seq<char> {
    seq!['0', 'x'] + hex_digits(value)
}

impl MMIOError {
    /// The message that describes the error.
    pub open spec fn message(self) -> Seq<char> {
        match self {
            MMIOError::UnalignedRead(address) => "Unaligned read from address "@ + hex_text(
                address,
            ),
            MMIOError::UnalignedWrite(address, value) => "Unaligned write to address "@
                + hex_text(address) + " (value="@ + hex_text(value) + seq![')'],
        }
    }

    /// Describes the error in words, with the address (and the value) in
    /// hexadecimal.
    pub fn to_string(&self) -> (text: String)
        ensures
            text@ == self.message(),
    {
        match *self {
            MMIOError::UnalignedRead(address) => {
                let mut text = String::from_str("Unaligned read from address ");
                append_hex(&mut text, address);
                text
            },
            MMIOError::UnalignedWrite(address, value) => {
                let mut text = String::from_str("Unaligned write to address ");
                append_hex(&mut text, address);
                text.append(" (value=");
                append_hex(&mut text, value);
                text.append(")");
                proof {
                    reveal_strlit(")");
                    assert(")"@ =~= seq![')']);
                }
                text
            },
        }
    }
}

proof fn lemma_nibble(value: u32, shift: u32)
    by (bit_vector)
    ensures
        (value >> shift) & 0xF < 16,
{
}

/// The text of one hexadecimal digit.
fn hex_digit(nibble: u32) -> (digit: &'static str)
    requires
        nibble < 16,
    ensures
        digit@ == seq![hex_char(nibble)],
{
    proof {
        reveal_strlit("0");
        reveal_strlit("1");
        reveal_strlit("2");
        reveal_strlit("3");
        reveal_strlit("4");
        reveal_strlit("5");
        reveal_strlit("6");
        reveal_strlit("7");
        reveal_strlit("8");
        reveal_strlit("9");
        reveal_strlit("A");
        reveal_strlit("B");
        reveal_strlit("C");
        reveal_strlit("D");
        reveal_strlit("E");
        reveal_strlit("F");
    }
    let digit = match nibble {
        0 => "0",
        1 => "1",
        2 => "2",
        3 => "3",
        4 => "4",
        5 => "5",
        6 => "6",
        7 => "7",
        8 => "8",
        9 => "9",
        10 => "A",
        11 => "B",
        12 => "C",
        13 => "D",
        14 => "E",
        _ => "F",
    };
    assert(digit@ =~= seq![hex_char(nibble)]);
    digit
}

/// Appends `value` in hexadecimal to `text`.
fn append_hex(text: &mut String, value: u32)
    ensures
        final(text)@ == old(text)@ + hex_text(value),
{
    let width: u32 = if value >= 0x1000_0000 {
        8
    } else if value >= 0x0100_0000 {
        7
    } else {
        6
    };
    text.append("0x");
    proof {
        reveal_strlit("0x");
        assert("0x"@ =~= seq!['0', 'x']);
    }
    let mut k: u32 = 0;
    while k < width
        invariant
            k <= width,
            width == hex_width(value),
            text@ == old(text)@ + seq!['0', 'x'] + hex_digits(value).subrange(0, k as int),
        decreases width - k,
    {
        let shift: u32 = 4 * (width - 1 - k);
        proof {
            lemma_nibble(value, shift);
        }
        text.append(hex_digit((value >> shift) & 0xF));
        k += 1;
        assert(text@ =~= old(text)@ + seq!['0', 'x'] + hex_digits(value).subrange(0, k as int));
    }
    assert(text@ =~= old(text)@ + hex_text(value));
}

/// A device that can be read and written one byte, half-word or word at a
/// time.
pub trait MMIODevice {
    fn read_byte(&self, address: u32) -> MMIOResult<u8>;

    fn write_byte(&mut self, address: u32, value: u8) -> MMIOResult<()>;

    fn read_half_word(&self, address: u32) -> MMIOResult<u16>;

    fn write_half_word(&mut self, address: u32, value: u16) -> MMIOResult<()>;

    fn read_word(&self, address: u32) -> MMIOResult<u32>;

    fn write_word(&mut self, address: u32, value: u32) -> MMIOResult<()>;
}

pub const PROGRAM_ROM_START: u32 = 0x1000_0000;

pub const PROGRAM_ROM_END: u32 = 0x1FFF_FFFF;

pub const RAM_START: u32 = 0x2000_0000;

pub const RAM_END: u32 = 0x2FFF_FFFF;

/// The byte of `word` that a byte access at `address` selects. Lanes are
/// numbered from the most significant byte: offset 0 is bits 31..24, offset 3
/// is bits 7..0.
pub open spec fn byte_lane(word: u32, address: u32) -> u8 {
    if address & 0b11 == 0b00 {
        ((word & 0xFF00_0000) >> 24) as u8
    } else if address & 0b11 == 0b01 {
        ((word & 0x00FF_0000) >> 16) as u8
    } else if address & 0b11 == 0b10 {
        ((word & 0x0000_FF00) >> 8) as u8
    } else {
        (word & 0x0000_00FF) as u8
    }
}

/// The half-word of `word` that a half-word access at `address` selects: the
/// upper half when bit 1 of the address is clear, the lower half otherwise.
pub open spec fn half_lane(word: u32, address: u32) -> u16 {
    if address & 0b10 == 0 {
        ((word & 0xFFFF_0000) >> 16) as u16
    } else {
        (word & 0x0000_FFFF) as u16
    }
}

/// `word` with the byte lane that `address` selects replaced by `value`.
pub open spec fn with_byte_lane(word: u32, address: u32, value: u8) -> u32 {
    if address & 0b11 == 0b00 {
        (word & 0x00FF_FFFF) | ((value as u32) << 24)
    } else if address & 0b11 == 0b01 {
        (word & 0xFF00_FFFF) | ((value as u32) << 16)
    } else if address & 0b11 == 0b10 {
        (word & 0xFFFF_00FF) | ((value as u32) << 8)
    } else {
        (word & 0xFFFF_FF00) | (value as u32)
    }
}

/// `word` with the half-word lane that `address` selects replaced by `value`.
pub open spec fn with_half_lane(word: u32, address: u32, value: u16) -> u32 {
    if address & 0b10 == 0 {
        (word & 0x0000_FFFF) | ((value as u32) << 16)
    } else {
        (word & 0xFFFF_0000) | (value as u32)
    }
}

/// The cell of a store of `words` cells (a power of two) that a byte address
/// falls in: the word number, modulo the size of the store.
pub open spec fn word_index(address: u32, words: usize) -> int {
    ((address >> 2) & ((words - 1) as u32)) as int
}

/// Whether the address decoder sends a read at `address` to the program
/// store. The decoder tests one address bit, so this holds of every address
/// with that bit set, inside the documented window or not.
pub open spec fn selects_rom(address: u32) -> bool {
    address & PROGRAM_ROM_START == PROGRAM_ROM_START
}

/// Whether the address decoder sends an access at `address` to the data
/// store: a write whenever this holds, a read when the program store is not
/// selected first.
pub open spec fn selects_ram(address: u32) -> bool {
    address & RAM_START == RAM_START
}

/// The contents of the two devices behind the bus, cell by cell.
pub struct BusState {
    pub rom: Seq<u32>,
    pub ram: Seq<u32>,
}

impl BusState {
    /// Both stores have their full size.
    pub open spec fn sized(self) -> bool {
        self.rom.len() == ROM_WORDS && self.ram.len() == RAM_WORDS
    }

    /// The word that a read at `address` is served from: a cell of the
    /// program store, a cell of the data store, or zero where nothing is
    /// mapped.
    pub open spec fn word_at(self, address: u32) -> u32 {
        if selects_rom(address) {
            self.rom[word_index(address, ROM_WORDS)]
        } else if selects_ram(address) {
            self.ram[word_index(address, RAM_WORDS)]
        } else {
            0
        }
    }

    /// The result of a byte read. It never fails.
    pub open spec fn read_byte(self, address: u32) -> MMIOResult<u8> {
        if selects_rom(address) || selects_ram(address) {
            Ok(byte_lane(self.word_at(address), address))
        } else {
            Ok(0)
        }
    }

    /// The result of a half-word read: refused at an odd address.
    pub open spec fn read_half_word(self, address: u32) -> MMIOResult<u16> {
        if address & 0b1 != 0 {
            Err(MMIOError::UnalignedRead(address))
        } else if selects_rom(address) || selects_ram(address) {
            Ok(half_lane(self.word_at(address), address))
        } else {
            Ok(0)
        }
    }

    /// The result of a word read: refused at an address that is not a
    /// multiple of four.
    pub open spec fn read_word(self, address: u32) -> MMIOResult<u32> {
        if address & 0b11 != 0 {
            Err(MMIOError::UnalignedRead(address))
        } else {
            Ok(self.word_at(address))
        }
    }

    /// The devices after a byte write. Only the data store can change.
    pub open spec fn write_byte(self, address: u32, value: u8) -> BusState {
        if selects_ram(address) {
            let index = word_index(address, RAM_WORDS);
            BusState { ram: self.ram.update(index, with_byte_lane(self.ram[index], address, value)), ..self }
        } else {
            self
        }
    }

    /// The devices after a half-word write. A refused write changes nothing.
    pub open spec fn write_half_word(self, address: u32, value: u16) -> BusState {
        if address & 0b1 == 0 && selects_ram(address) {
            let index = word_index(address, RAM_WORDS);
            BusState { ram: self.ram.update(index, with_half_lane(self.ram[index], address, value)), ..self }
        } else {
            self
        }
    }

    /// The devices after a word write. A refused write changes nothing.
    pub open spec fn write_word(self, address: u32, value: u32) -> BusState {
        if address & 0b11 == 0 && selects_ram(address) {
            BusState { ram: self.ram.update(word_index(address, RAM_WORDS), value), ..self }
        } else {
            self
        }
    }
}

/// What a half-word write reports: a refusal at an odd address, whatever
/// device the address selects.
pub open spec fn write_half_word_result(address: u32, value: u16) -> MMIOResult<()> {
    if address & 0b1 != 0 {
        Err(MMIOError::UnalignedWrite(address, value as u32))
    } else {
        Ok(())
    }
}

/// What a word write reports: a refusal at an address that is not a multiple
/// of four, whatever device the address selects.
pub open spec fn write_word_result(address: u32, value: u32) -> MMIOResult<()> {
    if address & 0b11 != 0 {
        Err(MMIOError::UnalignedWrite(address, value))
    } else {
        Ok(())
    }
}

/// The bus. It owns the program store and the data store and routes each
/// access to one of them by the address.
pub struct SystemInterface {
    pub rom: RomDevice,
    pub ram: RamDevice,
}

impl View for SystemInterface {
    type V = BusState;

    open spec fn view(&self) -> BusState {
        BusState { rom: self.rom@, ram: self.ram@ }
    }
}

/// Stripping the top nibble of an address changes neither the cell nor the
/// lane it selects.
proof fn lemma_device_address(address: u32)
    by (bit_vector)
    ensures
        ((address & 0x0FFF_FFFF) >> 2) & 0x3_FFFFu32 == (address >> 2) & 0x3_FFFFu32,
        ((address & 0x0FFF_FFFF) >> 2) & 0xF_FFFFu32 == (address >> 2) & 0xF_FFFFu32,
        (address & 0x0FFF_FFFF) & 0b11 == address & 0b11,
        (address & 0x0FFF_FFFF) & 0b10 == address & 0b10,
{
}

impl SystemInterface {
    pub fn new(rom: RomDevice, ram: RamDevice) -> (bus: Self)
        ensures
            bus.rom == rom,
            bus.ram == ram,
            bus@.sized(),
    {
        let bus = Self { rom, ram };
        bus.sizes();
        bus
    }

    /// The sizes of the two stores, in words. They are the same for every
    /// bus.
    pub fn sizes(&self) -> (words: (usize, usize))
        ensures
            words == (ROM_WORDS, RAM_WORDS),
            self@.sized(),
    {
        (self.rom.words(), self.ram.words())
    }
}

impl MMIODevice for SystemInterface {
    fn read_byte(&self, address: u32) -> (result: MMIOResult<u8>)
        ensures
            result == self@.read_byte(address),
            self@.sized(),
    {
        proof {
            lemma_device_address(address);
        }
        self.sizes();
        if (address & PROGRAM_ROM_START) == PROGRAM_ROM_START {
            self.rom.read_byte(address & 0x0FFF_FFFF)
        } else if (address & RAM_START) == RAM_START {
            self.ram.read_byte(address & 0x0FFF_FFFF)
        } else {
            Ok(0)
        }
    }

    fn read_half_word(&self, address: u32) -> (result: MMIOResult<u16>)
        ensures
            result == self@.read_half_word(address),
            self@.sized(),
    {
        proof {
            lemma_device_address(address);
        }
        self.sizes();
        if address & 0b1 != 0 {
            return Err(MMIOError::UnalignedRead(address));
        }
        if (address & PROGRAM_ROM_START) == PROGRAM_ROM_START {
            self.rom.read_half_word(address & 0x0FFF_FFFF)
        } else if (address & RAM_START) == RAM_START {
            self.ram.read_half_word(address & 0x0FFF_FFFF)
        } else {
            Ok(0)
        }
    }

    fn read_word(&self, address: u32) -> (result: MMIOResult<u32>)
        ensures
            result == self@.read_word(address),
            self@.sized(),
    {
        proof {
            lemma_device_address(address);
        }
        self.sizes();
        if address & 0b11 != 0 {
            return Err(MMIOError::UnalignedRead(address));
        }
        if (address & PROGRAM_ROM_START) == PROGRAM_ROM_START {
            self.rom.read_word(address & 0x0FFF_FFFF)
        } else if (address & RAM_START) == RAM_START {
            self.ram.read_word(address & 0x0FFF_FFFF)
        } else {
            Ok(0)
        }
    }

    fn write_byte(&mut self, address: u32, value: u8) -> (result: MMIOResult<()>)
        ensures
            result == Ok::<(), MMIOError>(()),
            final(self)@ == old(self)@.write_byte(address, value),
            old(self)@.sized(),
            final(self)@.sized(),
    {
        proof {
            lemma_device_address(address);
        }
        self.sizes();
        if (address & RAM_START) == RAM_START {
            return self.ram.write_byte(address & 0x0FFF_FFFF, value);
        }
        Ok(())
    }

    fn write_half_word(&mut self, address: u32, value: u16) -> (result: MMIOResult<()>)
        ensures
            result == write_half_word_result(address, value),
            final(self)@ == old(self)@.write_half_word(address, value),
            old(self)@.sized(),
            final(self)@.sized(),
    {
        proof {
            lemma_device_address(address);
        }
        self.sizes();
        if address & 0b1 != 0 {
            return Err(MMIOError::UnalignedWrite(address, value as u32));
        }
        if (address & RAM_START) == RAM_START {
            return self.ram.write_half_word(address & 0x0FFF_FFFF, value);
        }
        Ok(())
    }

    fn write_word(&mut self, address: u32, value: u32) -> (result: MMIOResult<()>)
        ensures
            result == write_word_result(address, value),
            final(self)@ == old(self)@.write_word(address, value),
            old(self)@.sized(),
            final(self)@.sized(),
    {
        proof {
            lemma_device_address(address);
        }
        self.sizes();
        if address & 0b11 != 0 {
            return Err(MMIOError::UnalignedWrite(address, value));
        }
        if (address & RAM_START) == RAM_START {
            return self.ram.write_word(address & 0x0FFF_FFFF, value);
        }
        Ok(())
    }
}

/// The lanes and the cell index in plain arithmetic. The offset of an
/// address within its word is the address modulo four, and the cell is the
/// word number modulo the size of the store. Byte lane `k` holds digit
/// `3 - k` of the word written in base 256, and the half-word lanes hold the
/// two digits of the word written in base 65536, upper digit first.
pub proof fn lemma_lane_arithmetic(word: u32, address: u32)
    by (bit_vector)
    ensures
        address & 0b11 == address % 4,
        address & 0b10 == 0 <==> address % 4 < 2,
        address & 0b1 == address % 2,
        (address >> 2) & 0x3_FFFFu32 == (address / 4) % 262_144,
        (address >> 2) & 0xF_FFFFu32 == (address / 4) % 1_048_576,
        address % 4 == 0 ==> byte_lane(word, address) == word / 0x100_0000,
        address % 4 == 1 ==> byte_lane(word, address) == (word / 0x1_0000) % 0x100,
        address % 4 == 2 ==> byte_lane(word, address) == (word / 0x100) % 0x100,
        address % 4 == 3 ==> byte_lane(word, address) == word % 0x100,
        address % 4 < 2 ==> half_lane(word, address) == word / 0x1_0000,
        address % 4 >= 2 ==> half_lane(word, address) == word % 0x1_0000,
{
}

proof fn lemma_lanes(word: u32, a: u32, b: u32, byte: u8, half: u16)
    by (bit_vector)
    ensures
        byte_lane(with_byte_lane(word, a, byte), a) == byte,
        half_lane(with_half_lane(word, a, half), a) == half,
        a & 0b11 != b & 0b11 ==> byte_lane(with_byte_lane(word, a, byte), b) == byte_lane(word, b),
        a & 0b10 != b & 0b10 ==> half_lane(with_half_lane(word, a, half), b) == half_lane(word, b),
{
}

proof fn lemma_windows(a: u32)
    by (bit_vector)
    ensures
        0x1000_0000 <= a <= 0x1FFF_FFFF ==> a & 0x1000_0000 == 0x1000_0000,
        0x2000_0000 <= a <= 0x2FFF_FFFF ==> a & 0x2000_0000 == 0x2000_0000 && a & 0x1000_0000
            != 0x1000_0000,
        (a >> 2) & 0x3_FFFFu32 < 262_144,
        (a >> 2) & 0xF_FFFFu32 < 1_048_576,
{
}

/// Every address of the program window is served by the program store, and
/// every address of the data window by the data store.
pub proof fn lemma_window_decoding(address: u32)
    ensures
        PROGRAM_ROM_START <= address <= PROGRAM_ROM_END ==> selects_rom(address),
        RAM_START <= address <= RAM_END ==> selects_ram(address) && !selects_rom(address),
        0 <= word_index(address, ROM_WORDS) < ROM_WORDS,
        0 <= word_index(address, RAM_WORDS) < RAM_WORDS,
{
    lemma_windows(address);
}

/// In the data window a value that was written is the value that is read, at
/// each of the three widths.
pub proof fn lemma_ram_reads_what_was_written(
    bus: BusState,
    address: u32,
    byte: u8,
    half: u16,
    word: u32,
)
    requires
        bus.sized(),
        RAM_START <= address <= RAM_END,
    ensures
        bus.write_byte(address, byte).read_byte(address) == Ok::<u8, MMIOError>(byte),
        address & 0b1 == 0 ==> bus.write_half_word(address, half).read_half_word(address) == Ok::<
            u16,
            MMIOError,
        >(half),
        address & 0b11 == 0 ==> bus.write_word(address, word).read_word(address) == Ok::<
            u32,
            MMIOError,
        >(word),
{
    lemma_windows(address);
    lemma_lanes(bus.ram[word_index(address, RAM_WORDS)], address, address, byte, half);
}

/// A byte write changes one lane of one cell of the data store: a byte read
/// from any other lane or any other cell returns what it returned before.
pub proof fn lemma_byte_write_keeps_other_lanes(
    bus: BusState,
    address: u32,
    byte: u8,
    other: u32,
)
    requires
        bus.sized(),
        word_index(other, RAM_WORDS) != word_index(address, RAM_WORDS) || other & 0b11 != address
            & 0b11,
    ensures
        bus.write_byte(address, byte).read_byte(other) == bus.read_byte(other),
{
    lemma_windows(address);
    lemma_windows(other);
    lemma_lanes(bus.ram[word_index(address, RAM_WORDS)], address, other, byte, 0);
}

/// A half-word write changes one half of one cell of the data store: a
/// half-word read from the other half or from any other cell returns what it
/// returned before.
pub proof fn lemma_half_word_write_keeps_other_half(
    bus: BusState,
    address: u32,
    half: u16,
    other: u32,
)
    requires
        bus.sized(),
        word_index(other, RAM_WORDS) != word_index(address, RAM_WORDS) || other & 0b10 != address
            & 0b10,
    ensures
        bus.write_half_word(address, half).read_half_word(other) == bus.read_half_word(other),
{
    lemma_windows(address);
    lemma_windows(other);
    lemma_lanes(bus.ram[word_index(address, RAM_WORDS)], address, other, 0, half);
}

/// No write changes what is read from the program store: whatever is
/// written, anywhere, a read that the program store serves returns what it
/// returned before.
pub proof fn lemma_rom_reads_survive_writes(
    bus: BusState,
    address: u32,
    written: u32,
    byte: u8,
    half: u16,
    word: u32,
)
    requires
        selects_rom(address),
    ensures
        bus.write_byte(written, byte).rom == bus.rom,
        bus.write_half_word(written, half).rom == bus.rom,
        bus.write_word(written, word).rom == bus.rom,
        bus.write_byte(written, byte).read_byte(address) == bus.read_byte(address),
        bus.write_byte(written, byte).read_half_word(address) == bus.read_half_word(address),
        bus.write_byte(written, byte).read_word(address) == bus.read_word(address),
        bus.write_half_word(written, half).read_byte(address) == bus.read_byte(address),
        bus.write_half_word(written, half).read_half_word(address) == bus.read_half_word(address),
        bus.write_half_word(written, half).read_word(address) == bus.read_word(address),
        bus.write_word(written, word).read_byte(address) == bus.read_byte(address),
        bus.write_word(written, word).read_half_word(address) == bus.read_half_word(address),
        bus.write_word(written, word).read_word(address) == bus.read_word(address),
{
}

/// A word access is refused exactly at the addresses whose low two bits are
/// not zero, a half-word access exactly at the odd addresses, and a byte
/// access never. A refusal carries the address, and for a write the value.
pub proof fn lemma_alignment(bus: BusState, address: u32, byte: u8, half: u16, word: u32)
    ensures
        bus.read_byte(address) is Ok,
        address & 0b1 != 0 <==> bus.read_half_word(address) is Err,
        address & 0b1 != 0 <==> write_half_word_result(address, half) is Err,
        address & 0b11 != 0 <==> bus.read_word(address) is Err,
        address & 0b11 != 0 <==> write_word_result(address, word) is Err,
        address & 0b1 != 0 ==> bus.read_half_word(address) == Err::<u16, MMIOError>(
            MMIOError::UnalignedRead(address),
        ) && write_half_word_result(address, half) == Err::<(), MMIOError>(
            MMIOError::UnalignedWrite(address, half as u32),
        ) && bus.write_half_word(address, half) == bus,
        address & 0b11 != 0 ==> bus.read_word(address) == Err::<u32, MMIOError>(
            MMIOError::UnalignedRead(address),
        ) && write_word_result(address, word) == Err::<(), MMIOError>(
            MMIOError::UnalignedWrite(address, word),
        ) && bus.write_word(address, word) == bus,
{
}

} // verus!
