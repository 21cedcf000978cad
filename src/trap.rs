//! The trap trampoline and the syscall dispatcher: the only path from user
//! mode back up into supervisor code.
use vstd::prelude::*;

use crate::csr::{lemma_spp_after_trap, Privilege};
use crate::device::{Memory, MemoryState, Uart};
use crate::frame::{
    cause_offset, reg_offset, TrapFrame, FRAME_A0, FRAME_A1, FRAME_A2, FRAME_A7, FRAME_SCAUSE,
    FRAME_SIZE, FRAME_WORDS,
};
use crate::hart::{
    sret, swap_stack, take_trap, Csrs, Hart, HartState, NUM_REGS, REG_A0, REG_A1, REG_A2, REG_A7,
    REG_SP,
};

verus! {

/// `scause` of an environment call from user mode.
pub const SCAUSE_ECALL_FROM_U: u64 = 8;

/// The one supported syscall: write bytes to the output device.
pub const SYSCALL_WRITE: u64 = 64;

/// Result left in `a0` by an unrecognised trap or syscall: all bits set.
pub const ERROR_SENTINEL: u64 = 0xffff_ffff_ffff_ffff;

/// Width in bytes of the `ecall` instruction.
pub const ECALL_WIDTH: u64 = 4;

/// Whether a trap with this cause and syscall number is a WRITE call.
pub open spec fn is_write_call(cause: u64, number: u64) -> bool {
    cause == SCAUSE_ECALL_FROM_U && number == SYSCALL_WRITE
}

/// The value the dispatcher leaves in `a0`.
pub open spec fn syscall_result(cause: u64, number: u64, count: u64) -> u64 {
    if is_write_call(cause, number) {
        count
    } else {
        ERROR_SENTINEL
    }
}

/// The bytes the dispatcher sends to the output device.
pub open spec fn syscall_output(
    cause: u64,
    number: u64,
    buf: u64,
    count: u64,
    mem: MemoryState,
) -> Seq<u8> {
    if is_write_call(cause, number) {
        mem.range(buf, count)
    } else {
        Seq::empty()
    }
}

/// Whether every byte the dispatcher would read lies in memory; a read
/// elsewhere is an access fault, which this system does not handle.
pub open spec fn syscall_readable(
    cause: u64,
    number: u64,
    buf: u64,
    count: u64,
    mem: MemoryState,
) -> bool {
    is_write_call(cause, number) ==> mem.holds(buf, count)
}

/// The frame the trampoline fills from registers `x1` to `x31` and a cause.
pub open spec fn frame_of(regs: Seq<u64>, cause: u64) -> Seq<u64> {
    regs.subrange(1, NUM_REGS as int).push(cause)
}

/// The registers the trampoline reloads from a frame; `x0` stays zero.
pub open spec fn regs_of(frame: Seq<u64>) -> Seq<u64> {
    Seq::new(NUM_REGS as nat, |i: int| if i == 0 { 0u64 } else { frame[i - 1] })
}

/// The program counter after the trapping instruction, wrapping at the top
/// of the address space.
pub open spec fn advance_pc(pc: u64) -> u64 {
    ((pc + ECALL_WIDTH) % 0x1_0000_0000_0000_0000int) as u64
}

impl HartState {
    /// The state the trampoline leaves: `a0` holds `result`, `sepc` has
    /// moved past the trapping instruction, and the supervisor return has
    /// been taken.
    pub open spec fn trap_return(self, result: u64) -> HartState {
        HartState {
            regs: self.regs.update(REG_A0 as int, result),
            csrs: Csrs { sepc: advance_pc(self.csrs.sepc), ..self.csrs },
            ..self
        }.sret_step()
    }

    /// The state after the trampoline handles the pending trap.
    pub open spec fn after_trampoline(self) -> HartState {
        self.trap_return(
            syscall_result(
                self.csrs.scause,
                self.regs[REG_A7 as int],
                self.regs[REG_A2 as int],
            ),
        )
    }

    /// The state after an `ecall` from user mode has been taken, handled and
    /// returned from.
    pub open spec fn after_syscall(self) -> HartState {
        self.trap_step(SCAUSE_ECALL_FROM_U).after_trampoline()
    }

    /// Whether the pending trap's syscall reads only memory that exists.
    pub open spec fn trap_readable(self, mem: MemoryState) -> bool {
        syscall_readable(
            self.csrs.scause,
            self.regs[REG_A7 as int],
            self.regs[REG_A1 as int],
            self.regs[REG_A2 as int],
            mem,
        )
    }
}

/// Handles a trap described by `frame`. `a0` is first set to the error
/// sentinel; for a WRITE call from user mode, the `count` bytes at the
/// buffer address go to the device in order and `a0` becomes `count`.
pub fn trap_handler(frame: &mut TrapFrame, memory: &Memory, uart: &mut Uart)
    requires
        old(frame).wf(),
        syscall_readable(
            old(frame)@[FRAME_SCAUSE as int],
            old(frame)@[FRAME_A7 as int],
            old(frame)@[FRAME_A1 as int],
            old(frame)@[FRAME_A2 as int],
            memory@,
        ),
    ensures
        final(frame).wf(),
        final(frame)@ == old(frame)@.update(
            FRAME_A0 as int,
            syscall_result(
                old(frame)@[FRAME_SCAUSE as int],
                old(frame)@[FRAME_A7 as int],
                old(frame)@[FRAME_A2 as int],
            ),
        ),
        final(uart).sent@ == old(uart).sent@ + syscall_output(
            old(frame)@[FRAME_SCAUSE as int],
            old(frame)@[FRAME_A7 as int],
            old(frame)@[FRAME_A1 as int],
            old(frame)@[FRAME_A2 as int],
            memory@,
        ),
{
    frame.set(FRAME_A0, ERROR_SENTINEL);
    if frame.get(FRAME_SCAUSE) == SCAUSE_ECALL_FROM_U {
        let syscall_number = frame.get(FRAME_A7);
        if syscall_number == SYSCALL_WRITE {
            let buf = frame.get(FRAME_A1);
            let count = frame.get(FRAME_A2);
            let ghost mem = memory@;
            let mut i: u64 = 0;
            while i < count
                invariant
                    i <= count,
                    mem == memory@,
                    mem.holds(buf, count),
                    uart.sent@ == old(uart).sent@ + mem.range(buf, i),
                decreases count - i,
            {
                let b = memory.load(buf + i);
                uart.emit(b);
                i = i + 1;
                assert(mem.range(buf, i) =~= mem.range(buf, (i - 1) as u64).push(b));
            }
            frame.set(FRAME_A0, count);
        }
    }
    assert(old(uart).sent@ + Seq::<u8>::empty() =~= old(uart).sent@);
}

/// Stores registers `x1` to `x31` and `scause` into a fresh frame, each at
/// its fixed offset.
pub fn save_frame(hart: &Hart) -> (frame: TrapFrame)
    requires
        hart@.wf(),
    ensures
        frame.wf(),
        frame@ == frame_of(hart@.regs, hart@.csrs.scause),
{
    let mut frame = TrapFrame::zeroed();
    let mut r: usize = 1;
    while r < NUM_REGS
        invariant
            1 <= r <= NUM_REGS,
            frame.wf(),
            hart@.wf(),
            forall|k: int| 0 <= k < r - 1 ==> frame@[k] == hart@.regs[k + 1],
        decreases NUM_REGS - r,
    {
        frame.store(reg_offset(r), hart.regs[r]);
        r = r + 1;
    }
    frame.store(cause_offset(), hart.csrs.scause);
    assert(frame@ =~= frame_of(hart@.regs, hart@.csrs.scause));
    frame
}

/// Reloads registers `x1` to `x31` from the frame's fixed offsets.
pub fn restore_frame(hart: &mut Hart, frame: &TrapFrame)
    requires
        old(hart)@.wf(),
        frame.wf(),
    ensures
        final(hart)@ == (HartState { regs: regs_of(frame@), ..old(hart)@ }),
        final(hart)@.wf(),
{
    let mut r: usize = 1;
    while r < NUM_REGS
        invariant
            1 <= r <= NUM_REGS,
            frame.wf(),
            hart@.wf(),
            hart@ == (HartState { regs: hart@.regs, ..old(hart)@ }),
            forall|k: int| 1 <= k < r ==> hart@.regs[k] == frame@[k - 1],
        decreases NUM_REGS - r,
    {
        let v = frame.load(reg_offset(r));
        hart.regs.set(r, v);
        r = r + 1;
    }
    assert(hart@.regs =~= regs_of(frame@));
}

/// The trap trampoline, entered at `stvec` in supervisor mode: swaps in the
/// supervisor stack, reserves a frame on it, saves the registers and cause,
/// dispatches, reloads the registers, releases the frame, advances `sepc`
/// past the trapping instruction, swaps the stacks back and returns.
pub fn trap_entry(hart: &mut Hart, memory: &Memory, uart: &mut Uart)
    requires
        old(hart)@.wf(),
        old(hart)@.privilege == Privilege::Supervisor,
        old(hart)@.trap_readable(memory@),
    ensures
        final(hart)@ == old(hart)@.after_trampoline(),
        final(hart)@.wf(),
        final(uart).sent@ == old(uart).sent@ + syscall_output(
            old(hart)@.csrs.scause,
            old(hart)@.regs[REG_A7 as int],
            old(hart)@.regs[REG_A1 as int],
            old(hart)@.regs[REG_A2 as int],
            memory@,
        ),
{
    let ghost s = hart@;
    swap_stack(hart);
    let sp = hart.regs[REG_SP];
    hart.regs.set(REG_SP, sp.wrapping_sub(FRAME_SIZE));
    let ghost s1 = hart@;
    let mut frame = save_frame(hart);
    trap_handler(&mut frame, memory, uart);
    restore_frame(hart, &frame);
    assert(hart@.regs =~= s1.regs.update(
        REG_A0 as int,
        syscall_result(s.csrs.scause, s.regs[REG_A7 as int], s.regs[REG_A2 as int]),
    ));
    let sp = hart.regs[REG_SP];
    hart.regs.set(REG_SP, sp.wrapping_add(FRAME_SIZE));
    hart.csrs.sepc = hart.csrs.sepc.wrapping_add(ECALL_WIDTH);
    swap_stack(hart);
    let ghost s2 = hart@;
    assert(s2.regs =~= s.regs.update(
        REG_A0 as int,
        syscall_result(s.csrs.scause, s.regs[REG_A7 as int], s.regs[REG_A2 as int]),
    ));
    sret(hart);
}

/// Executes `ecall` in user mode: the hart traps into the trampoline, which
/// dispatches the call and resumes user code after the `ecall`.
pub fn ecall(hart: &mut Hart, memory: &Memory, uart: &mut Uart)
    requires
        old(hart)@.wf(),
        old(hart)@.privilege == Privilege::User,
        old(hart)@.delegates(SCAUSE_ECALL_FROM_U),
        syscall_readable(
            SCAUSE_ECALL_FROM_U,
            old(hart)@.regs[REG_A7 as int],
            old(hart)@.regs[REG_A1 as int],
            old(hart)@.regs[REG_A2 as int],
            memory@,
        ),
    ensures
        final(hart)@ == old(hart)@.after_syscall(),
        final(hart)@.wf(),
        final(hart)@.privilege == Privilege::User,
        final(uart).sent@ == old(uart).sent@ + syscall_output(
            SCAUSE_ECALL_FROM_U,
            old(hart)@.regs[REG_A7 as int],
            old(hart)@.regs[REG_A1 as int],
            old(hart)@.regs[REG_A2 as int],
            memory@,
        ),
{
    take_trap(hart, SCAUSE_ECALL_FROM_U);
    trap_entry(hart, memory, uart);
}

/// Across the trampoline's save, dispatch and restore cycle every general
/// register but the result register `a0` holds its value from trap entry,
/// and the shadow stack pointer is back in `sscratch`.
pub proof fn lemma_trampoline_preserves_registers(s: HartState)
    requires
        s.wf(),
    ensures
        s.after_trampoline().regs.len() == s.regs.len(),
        forall|i: int|
            0 <= i < NUM_REGS && i != REG_A0 ==> #[trigger] s.after_trampoline().regs[i]
                == s.regs[i],
        s.after_trampoline().csrs.sscratch == s.csrs.sscratch,
{
}

/// A system call resumes user code at the instruction after the `ecall`:
/// four bytes past the pre-trap program counter.
pub proof fn lemma_syscall_advances_pc(s: HartState)
    requires
        s.wf(),
        s.privilege == Privilege::User,
        s.pc % ECALL_WIDTH == 0,
        s.pc + ECALL_WIDTH <= u64::MAX,
    ensures
        s.after_syscall().pc == s.pc + ECALL_WIDTH,
        s.after_syscall().privilege == Privilege::User,
{
    lemma_spp_after_trap(s.csrs.sstatus, Privilege::User);
}

} // verus!
