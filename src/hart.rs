//! The hart's architectural state, and the steps the hardware itself takes:
//! the two mode-return instructions, trap entry, and the stack-pointer
//! exchange with `sscratch`.
use vstd::prelude::*;

use crate::csr::{
    decode_privilege, mpp_field, mret_mstatus, mstatus_on_mret, privilege_from_field,
    sret_sstatus, sstatus_on_sret, sstatus_on_trap, spp_field, trap_sstatus, Privilege,
};

verus! {

/// Number of general-purpose registers, `x0` included.
pub const NUM_REGS: usize = 32;

/// Return address register `x1`.
pub const REG_RA: usize = 1;

/// Stack pointer register `x2`.
pub const REG_SP: usize = 2;

/// First argument and result register `x10`.
pub const REG_A0: usize = 10;

/// Second argument register `x11`.
pub const REG_A1: usize = 11;

/// Third argument register `x12`.
pub const REG_A2: usize = 12;

/// Syscall-number register `x17`.
pub const REG_A7: usize = 17;

/// The control and status registers this system touches.
#[derive(Clone, Copy, Debug, PartialEq, Eq, Structural)]
pub struct Csrs {
    pub mstatus: u64,
    pub mepc: u64,
    pub medeleg: u64,
    pub mideleg: u64,
    pub pmpaddr0: u64,
    pub pmpcfg0: u64,
    pub sstatus: u64,
    pub sepc: u64,
    pub stvec: u64,
    pub sscratch: u64,
    pub scause: u64,
}

/// A hart: its active privilege, program counter, general registers and CSRs.
#[derive(Debug)]
pub struct Hart {
    pub privilege: Privilege,
    pub pc: u64,
    pub regs: Vec<u64>,
    pub csrs: Csrs,
}

/// The mathematical state of a hart.
pub ghost struct HartState {
    pub privilege: Privilege,
    pub pc: u64,
    pub regs: Seq<u64>,
    pub csrs: Csrs,
}

impl View for Hart {
    type V = HartState;

    open spec fn view(&self) -> HartState {
        HartState { privilege: self.privilege, pc: self.pc, regs: self.regs@, csrs: self.csrs }
    }
}

impl HartState {
    /// Thirty-two registers with `x0` hard-wired to zero, and no reserved
    /// encoding in the MPP field.
    pub open spec fn wf(self) -> bool {
        &&& self.regs.len() == NUM_REGS
        &&& self.regs[0] == 0
        &&& mpp_field(self.csrs.mstatus) != 2
    }

    /// The state after `mret`: privilege from MPP, pc from `mepc`, MPP reset.
    pub open spec fn mret_step(self) -> HartState {
        HartState {
            privilege: decode_privilege(mpp_field(self.csrs.mstatus)),
            pc: self.csrs.mepc,
            csrs: Csrs { mstatus: mstatus_on_mret(self.csrs.mstatus), ..self.csrs },
            ..self
        }
    }

    /// The state after `sret`: privilege from SPP, pc from `sepc`, SIE from
    /// SPIE.
    pub open spec fn sret_step(self) -> HartState {
        HartState {
            privilege: decode_privilege(spp_field(self.csrs.sstatus)),
            pc: self.csrs.sepc,
            csrs: Csrs { sstatus: sstatus_on_sret(self.csrs.sstatus), ..self.csrs },
            ..self
        }
    }

    /// The state after a trap with the given cause is taken in supervisor
    /// mode: the cause and faulting pc are recorded, SPP remembers the
    /// interrupted level, and control moves to `stvec`.
    pub open spec fn trap_step(self, cause: u64) -> HartState {
        HartState {
            privilege: Privilege::Supervisor,
            pc: self.csrs.stvec,
            csrs: Csrs {
                scause: cause,
                sepc: self.pc,
                sstatus: sstatus_on_trap(self.csrs.sstatus, self.privilege),
                ..self.csrs
            },
            ..self
        }
    }

    /// The state after `csrrw sp, sscratch, sp`.
    pub open spec fn stack_swapped(self) -> HartState {
        HartState {
            regs: self.regs.update(REG_SP as int, self.csrs.sscratch),
            csrs: Csrs { sscratch: self.regs[REG_SP as int], ..self.csrs },
            ..self
        }
    }

    /// Whether a trap with this cause, raised at the current level, is
    /// delegated to supervisor mode.
    pub open spec fn delegates(self, cause: u64) -> bool {
        cause < 64 && (self.csrs.medeleg >> cause) & 1 == 1
    }
}

impl Hart {
    /// A hart as the boot loader hands it over: in machine mode at `boot_pc`,
    /// with every register and CSR cleared.
    pub fn reset(boot_pc: u64) -> (r: Hart)
        ensures
            r@.wf(),
            r@.privilege == Privilege::Machine,
            r@.pc == boot_pc,
            r@.regs == Seq::new(NUM_REGS as nat, |i: int| 0u64),
            r.csrs == (Csrs {
                mstatus: 0,
                mepc: 0,
                medeleg: 0,
                mideleg: 0,
                pmpaddr0: 0,
                pmpcfg0: 0,
                sstatus: 0,
                sepc: 0,
                stvec: 0,
                sscratch: 0,
                scause: 0,
            }),
    {
        let mut regs: Vec<u64> = Vec::new();
        let mut i: usize = 0;
        while i < NUM_REGS
            invariant
                i <= NUM_REGS,
                regs@ == Seq::new(i as nat, |k: int| 0u64),
            decreases NUM_REGS - i,
        {
            regs.push(0);
            i = i + 1;
            assert(regs@ =~= Seq::new(i as nat, |k: int| 0u64));
        }
        proof {
            assert(mpp_field(0u64) == 0) by (bit_vector);
        }
        Hart {
            privilege: Privilege::Machine,
            pc: boot_pc,
            regs,
            csrs: Csrs {
                mstatus: 0,
                mepc: 0,
                medeleg: 0,
                mideleg: 0,
                pmpaddr0: 0,
                pmpcfg0: 0,
                sstatus: 0,
                sepc: 0,
                stvec: 0,
                sscratch: 0,
                scause: 0,
            },
        }
    }

    /// Reads general register `x<i>`.
    pub fn reg(&self, i: usize) -> (r: u64)
        requires
            self@.wf(),
            i < NUM_REGS,
        ensures
            r == self@.regs[i as int],
    {
        self.regs[i]
    }

    /// Writes general register `x<i>`; a write to `x0` is discarded.
    pub fn set_reg(&mut self, i: usize, v: u64)
        requires
            old(self)@.wf(),
            i < NUM_REGS,
        ensures
            final(self)@ == (HartState {
                regs: if i == 0 {
                    old(self)@.regs
                } else {
                    old(self)@.regs.update(i as int, v)
                },
                ..old(self)@
            }),
            final(self)@.wf(),
    {
        if i != 0 {
            self.regs.set(i, v);
        }
    }
}

/// Executes `mret`: drops to the level held in MPP and jumps to `mepc`.
pub fn mret(hart: &mut Hart)
    requires
        old(hart)@.wf(),
        old(hart)@.privilege == Privilege::Machine,
    ensures
        final(hart)@ == old(hart)@.mret_step(),
        final(hart)@.wf(),
{
    let field = (hart.csrs.mstatus >> 11u64) & 3;
    hart.privilege = privilege_from_field(field);
    hart.pc = hart.csrs.mepc;
    hart.csrs.mstatus = mret_mstatus(hart.csrs.mstatus);
}

/// Executes `sret`: drops to the level held in SPP and jumps to `sepc`.
pub fn sret(hart: &mut Hart)
    requires
        old(hart)@.wf(),
        old(hart)@.privilege != Privilege::User,
    ensures
        final(hart)@ == old(hart)@.sret_step(),
        final(hart)@.wf(),
{
    let field = (hart.csrs.sstatus >> 8u64) & 1;
    hart.privilege = privilege_from_field(field);
    hart.pc = hart.csrs.sepc;
    hart.csrs.sstatus = sret_sstatus(hart.csrs.sstatus);
}

/// Takes a synchronous trap raised in user mode, delegated to supervisor
/// mode.
pub fn take_trap(hart: &mut Hart, cause: u64)
    requires
        old(hart)@.wf(),
        old(hart)@.privilege == Privilege::User,
        old(hart)@.delegates(cause),
    ensures
        final(hart)@ == old(hart)@.trap_step(cause),
        final(hart)@.wf(),
        spp_field(final(hart)@.csrs.sstatus) == Privilege::User.encoding(),
{
    hart.csrs.sstatus = trap_sstatus(hart.csrs.sstatus, hart.privilege);
    hart.csrs.scause = cause;
    hart.csrs.sepc = hart.pc;
    hart.privilege = Privilege::Supervisor;
    hart.pc = hart.csrs.stvec;
}

/// Executes `csrrw sp, sscratch, sp`: exchanges the stack pointer with the
/// shadow stack pointer held in `sscratch`.
pub fn swap_stack(hart: &mut Hart)
    requires
        old(hart)@.wf(),
    ensures
        final(hart)@ == old(hart)@.stack_swapped(),
        final(hart)@.wf(),
{
    let shadow = hart.csrs.sscratch;
    hart.csrs.sscratch = hart.regs[REG_SP];
    hart.regs.set(REG_SP, shadow);
}

/// Exchanging the stack pointer with `sscratch` twice restores both.
pub proof fn lemma_stack_swap_involution(s: HartState)
    requires
        s.wf(),
    ensures
        s.stack_swapped().stack_swapped() == s,
{
    assert(s.stack_swapped().stack_swapped().regs =~= s.regs);
}

} // verus!
