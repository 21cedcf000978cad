//! The trap frame: one canonical layout of thirty-one saved registers and the
//! trap cause, each a 64-bit word at a fixed byte offset. The trampoline
//! stores and loads registers by offset; the dispatcher reads and writes by
//! slot name. Both derive from the constants below.
use vstd::prelude::*;

use crate::hart::NUM_REGS;

verus! {

/// Words in a frame: registers `x1` to `x31`, then the trap cause.
pub const FRAME_WORDS: usize = 32;

/// Bytes in one frame word.
pub const WORD_BYTES: u64 = 8;

/// Bytes in a frame; the trampoline moves the stack pointer by this much.
pub const FRAME_SIZE: u64 = 256;

pub const FRAME_RA: usize = 0;
pub const FRAME_SP: usize = 1;
pub const FRAME_GP: usize = 2;
pub const FRAME_TP: usize = 3;
pub const FRAME_T0: usize = 4;
pub const FRAME_T1: usize = 5;
pub const FRAME_T2: usize = 6;
pub const FRAME_S0: usize = 7;
pub const FRAME_S1: usize = 8;
pub const FRAME_A0: usize = 9;
pub const FRAME_A1: usize = 10;
pub const FRAME_A2: usize = 11;
pub const FRAME_A3: usize = 12;
pub const FRAME_A4: usize = 13;
pub const FRAME_A5: usize = 14;
pub const FRAME_A6: usize = 15;
pub const FRAME_A7: usize = 16;
pub const FRAME_S2: usize = 17;
pub const FRAME_S3: usize = 18;
pub const FRAME_S4: usize = 19;
pub const FRAME_S5: usize = 20;
pub const FRAME_S6: usize = 21;
pub const FRAME_S7: usize = 22;
pub const FRAME_S8: usize = 23;
pub const FRAME_S9: usize = 24;
pub const FRAME_S10: usize = 25;
pub const FRAME_S11: usize = 26;
pub const FRAME_T3: usize = 27;
pub const FRAME_T4: usize = 28;
pub const FRAME_T5: usize = 29;
pub const FRAME_T6: usize = 30;

/// Slot of the trap cause, the frame's last word.
pub const FRAME_SCAUSE: usize = 31;

/// The slot that holds general register `x<reg>`, for `reg` in `1..32`.
pub open spec fn slot_of_reg(reg: int) -> int {
    reg - 1
}

/// The byte offset of a slot.
pub open spec fn slot_offset(slot: int) -> int {
    slot * WORD_BYTES
}

/// Byte offset at which the trampoline stores general register `x<reg>`.
pub fn reg_offset(reg: usize) -> (r: u64)
    requires
        1 <= reg < NUM_REGS,
    ensures
        r == slot_offset(slot_of_reg(reg as int)),
        r % WORD_BYTES == 0,
        r < FRAME_SIZE,
        r / WORD_BYTES == slot_of_reg(reg as int),
{
    let s = (reg - 1) as u64;
    assert(s * 8 / 8 == s && (s * 8) % 8 == 0) by (nonlinear_arith);
    s * WORD_BYTES
}

/// Byte offset at which the trampoline stores the trap cause.
pub fn cause_offset() -> (r: u64)
    ensures
        r == slot_offset(FRAME_SCAUSE as int),
        r + WORD_BYTES == FRAME_SIZE,
        r % WORD_BYTES == 0,
        r / WORD_BYTES == FRAME_SCAUSE,
{
    (FRAME_SCAUSE as u64) * WORD_BYTES
}

/// A trap frame, one word per slot.
#[derive(Debug)]
pub struct TrapFrame {
    pub words: Vec<u64>,
}

impl View for TrapFrame {
    type V = Seq<u64>;

    open spec fn view(&self) -> Seq<u64> {
        self.words@
    }
}

impl TrapFrame {
    pub open spec fn wf(&self) -> bool {
        self@.len() == FRAME_WORDS
    }

    /// A frame with every word zero.
    pub fn zeroed() -> (r: TrapFrame)
        ensures
            r.wf(),
            r@ == Seq::new(FRAME_WORDS as nat, |i: int| 0u64),
    {
        let mut words: Vec<u64> = Vec::new();
        let mut i: usize = 0;
        while i < FRAME_WORDS
            invariant
                i <= FRAME_WORDS,
                words@ == Seq::new(i as nat, |k: int| 0u64),
            decreases FRAME_WORDS - i,
        {
            words.push(0);
            i = i + 1;
            assert(words@ =~= Seq::new(i as nat, |k: int| 0u64));
        }
        TrapFrame { words }
    }

    /// Reads a slot by name.
    pub fn get(&self, slot: usize) -> (r: u64)
        requires
            self.wf(),
            slot < FRAME_WORDS,
        ensures
            r == self@[slot as int],
    {
        self.words[slot]
    }

    /// Writes a slot by name.
    pub fn set(&mut self, slot: usize, v: u64)
        requires
            old(self).wf(),
            slot < FRAME_WORDS,
        ensures
            final(self)@ == old(self)@.update(slot as int, v),
            final(self).wf(),
    {
        self.words.set(slot, v);
    }

    /// Loads the word at a byte offset, as `ld` does.
    pub fn load(&self, offset: u64) -> (r: u64)
        requires
            self.wf(),
            offset % WORD_BYTES == 0,
            offset < FRAME_SIZE,
        ensures
            r == self@[(offset / WORD_BYTES) as int],
    {
        self.words[(offset / WORD_BYTES) as usize]
    }

    /// Stores a word at a byte offset, as `sd` does.
    pub fn store(&mut self, offset: u64, v: u64)
        requires
            old(self).wf(),
            offset % WORD_BYTES == 0,
            offset < FRAME_SIZE,
        ensures
            final(self)@ == old(self)@.update((offset / WORD_BYTES) as int, v),
            final(self).wf(),
    {
        self.words.set((offset / WORD_BYTES) as usize, v);
    }
}

/// The named slots and the trampoline's offsets agree: the slot each name
/// denotes is the one the trampoline fills from that register, the cause
/// comes last, and the frame's size is exactly its words.
pub proof fn lemma_layout_agrees()
    ensures
        FRAME_SIZE == FRAME_WORDS * WORD_BYTES,
        FRAME_RA == slot_of_reg(1),
        FRAME_SP == slot_of_reg(2),
        FRAME_GP == slot_of_reg(3),
        FRAME_TP == slot_of_reg(4),
        FRAME_T0 == slot_of_reg(5),
        FRAME_T1 == slot_of_reg(6),
        FRAME_T2 == slot_of_reg(7),
        FRAME_S0 == slot_of_reg(8),
        FRAME_S1 == slot_of_reg(9),
        FRAME_A0 == slot_of_reg(10),
        FRAME_A1 == slot_of_reg(11),
        FRAME_A2 == slot_of_reg(12),
        FRAME_A3 == slot_of_reg(13),
        FRAME_A4 == slot_of_reg(14),
        FRAME_A5 == slot_of_reg(15),
        FRAME_A6 == slot_of_reg(16),
        FRAME_A7 == slot_of_reg(17),
        FRAME_S2 == slot_of_reg(18),
        FRAME_S3 == slot_of_reg(19),
        FRAME_S4 == slot_of_reg(20),
        FRAME_S5 == slot_of_reg(21),
        FRAME_S6 == slot_of_reg(22),
        FRAME_S7 == slot_of_reg(23),
        FRAME_S8 == slot_of_reg(24),
        FRAME_S9 == slot_of_reg(25),
        FRAME_S10 == slot_of_reg(26),
        FRAME_S11 == slot_of_reg(27),
        FRAME_T3 == slot_of_reg(28),
        FRAME_T4 == slot_of_reg(29),
        FRAME_T5 == slot_of_reg(30),
        FRAME_T6 == slot_of_reg(31),
        FRAME_SCAUSE == FRAME_WORDS - 1,
        slot_offset(FRAME_SCAUSE as int) + WORD_BYTES == FRAME_SIZE,
{
}

} // verus!
