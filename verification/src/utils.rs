//! The two-slot register cell every unit is built from, and the bit-field
//! helpers the instruction decoder uses.

use vstd::prelude::*;

verus! {

/// What a latch holds: the value observers see, the value waiting to become
/// visible, and the value a reset restores.
pub struct LatchState<T> {
    pub current: T,
    pub next: T,
    pub default: T,
}

impl<T> LatchState<T> {
    /// The state after the end-of-tick latch: the pending value is visible.
    pub open spec fn latched(self) -> LatchState<T> {
        LatchState { current: self.next, ..self }
    }

    /// The state after a reset: both slots hold the default.
    pub open spec fn cleared(self) -> LatchState<T> {
        LatchState { current: self.default, next: self.default, default: self.default }
    }

    /// The state after a write of `value`: only the pending slot changes.
    pub open spec fn written(self, value: T) -> LatchState<T> {
        LatchState { next: value, ..self }
    }

    /// A cell that holds `value` in all three slots.
    pub open spec fn holding(value: T) -> LatchState<T> {
        LatchState { current: value, next: value, default: value }
    }
}

/// A register cell with a shadow slot. Writes go to the shadow and become
/// visible only when the cell is latched.
#[derive(Default, Debug, PartialEq, Eq)]
pub struct LatchValue<T> where T: Clone {
    value: T,
    next: T,
    default: T,
}

impl<T: Clone> View for LatchValue<T> {
    type V = LatchState<T>;

    closed spec fn view(&self) -> LatchState<T> {
        LatchState { current: self.value, next: self.next, default: self.default }
    }
}

impl<T> LatchValue<T> where T: Clone {
    /// A cell whose three slots all hold (clones of) `value`.
    pub fn new(value: T) -> (latch: Self)
        ensures
            cloned(value, latch@.current),
            cloned(value, latch@.next),
            latch@.default == value,
    {
        LatchValue { value: value.clone(), next: value.clone(), default: value }
    }

    /// The visible value. Pending writes do not show.
    pub fn get(&self) -> (value: &T)
        ensures
            *value == self@.current,
    {
        &self.value
    }

    /// Stores `value` in the shadow slot; the visible value stays as it is.
    pub fn set(&mut self, value: T)
        ensures
            final(self)@ == (LatchState { next: value, ..old(self)@ }),
    {
        self.next = value;
    }

    /// Makes the shadow slot visible.
    pub fn latch_next(&mut self)
        ensures
            cloned(old(self)@.next, final(self)@.current),
            final(self)@.next == old(self)@.next,
            final(self)@.default == old(self)@.default,
    {
        self.value = self.next.clone();
    }

    /// Puts the default back into both slots.
    pub fn reset(&mut self)
        ensures
            cloned(old(self)@.default, final(self)@.current),
            cloned(old(self)@.default, final(self)@.next),
            final(self)@.default == old(self)@.default,
    {
        self.value = self.default.clone();
        self.next = self.default.clone();
    }
}

/// The word whose low `n` bits are set and whose other bits are clear.
pub open spec fn low_bits(n: u32) -> u32 {
    if n >= 32 {
        0xFFFF_FFFFu32
    } else {
        ((1u32 << n) - 1) as u32
    }
}

/// Sign extension of a `bits`-wide field: the low `bits` bits of `value` are
/// kept and every higher bit repeats bit `bits - 1`.
pub open spec fn sign_extend_32_spec(bits: u32, value: i32) -> i32 {
    let field = (value as u32) & low_bits(bits);
    if bits < 32 && (field >> ((bits - 1) as u32)) & 1 == 1 {
        (field | !low_bits(bits)) as i32
    } else {
        field as i32
    }
}

/// Bits `from..=to` of `value` (`from` the higher index), moved so that the
/// top bit of the field sits just below bit `position`; with `position == 0`
/// the field stays right-aligned.
pub open spec fn slice_32_spec(from: u32, to: u32, value: u32, position: u32) -> u32 {
    let span = (from - to + 1) as u32;
    let field = (value >> to) & low_bits(span);
    if position != 0 {
        field << ((position - span) as u32)
    } else {
        field
    }
}

/// Bit `index` of `value`, placed at bit `position - 1`.
pub open spec fn bit_spec(index: u32, value: u32, position: u32) -> u32 {
    ((value >> index) & 1) << ((position - 1) as u32)
}

proof fn lemma_shift_forms(bits: u32, value: i32)
    by (bit_vector)
    requires
        1 <= bits <= 32,
    ensures
        (value << ((32 - bits) as u32)) >> ((32 - bits) as u32) == sign_extend_32_spec(bits, value),
{
}

proof fn lemma_low_bits_shift(span: u32)
    by (bit_vector)
    requires
        1 <= span <= 32,
    ensures
        0xFFFF_FFFFu32 >> ((32 - span) as u32) == low_bits(span),
{
}

/// The sign extension of a `bits`-wide field agrees with the value in its
/// low `bits` bits, and as a signed number it lies in the range of signed
/// `bits`-bit numbers, from `-2^(bits-1)` up to but not including
/// `2^(bits-1)`. A value that already lies in that range is its own
/// extension.
pub proof fn lemma_sign_extension(bits: u32, value: i32)
    by (bit_vector)
    requires
        1 <= bits <= 32,
    ensures
        (sign_extend_32_spec(bits, value) as u32) & low_bits(bits) == (value as u32) & low_bits(
            bits,
        ),
        -(1i64 << ((bits - 1) as u32)) <= sign_extend_32_spec(bits, value) as i64,
        (sign_extend_32_spec(bits, value) as i64) < (1i64 << ((bits - 1) as u32)),
        -(1i64 << ((bits - 1) as u32)) <= value as i64 && (value as i64) < (1i64 << ((bits
            - 1) as u32)) ==> sign_extend_32_spec(bits, value) == value,
{
}

/// Sign-extends the low `bits` bits of `value` to a full signed word.
pub fn sign_extend_32(bits: u32, value: i32) -> (extended: i32)
    requires
        1 <= bits <= 32,
    ensures
        extended == sign_extend_32_spec(bits, value),
{
    let extend_bits: u32 = 32 - bits;
    proof {
        lemma_shift_forms(bits, value);
    }
    (value << extend_bits) >> extend_bits
}

/// Extracts bits `from..=to` of `value` and places the field below bit
/// `position` (right-aligned when `position` is zero).
pub fn slice_32(from: u32, to: u32, value: u32, position: u32) -> (field: u32)
    requires
        to <= from < 32,
        position == 0 || from - to + 1 <= position <= 32,
    ensures
        field == slice_32_spec(from, to, value, position),
{
    let span: u32 = from - to + 1;
    proof {
        lemma_low_bits_shift(span);
    }
    let sliced: u32 = (value >> to) & (0xFFFF_FFFFu32 >> (32 - span));
    if position != 0 {
        return sliced << (position - span);
    }
    sliced
}

/// Extracts bit `index` of `value` and places it at bit `position - 1`.
pub fn bit(index: u32, value: u32, position: u32) -> (placed: u32)
    requires
        index < 32,
        1 <= position <= 32,
    ensures
        placed == bit_spec(index, value, position),
{
    ((value >> index) & 1) << (position - 1)
}

} // verus!
