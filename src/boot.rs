//! The privilege transition controller: the one-way descents from machine to
//! supervisor mode and from supervisor to user mode, and the boot path that
//! strings them together.
use vstd::prelude::*;
use vstd::string::StringSliceAdditionalSpecFns;

use crate::csr::{
    lemma_mpp_supervisor, lemma_spp_user, mstatus_to_supervisor,
    set_mpp_supervisor, set_spp_user, sstatus_to_user, Privilege, DELEGATE_ALL, PMP_0_ADDR,
    PMP_0_CFG,
};
use crate::device::{Memory, Uart};
use crate::hart::{mret, sret, Csrs, Hart, HartState, REG_A1, REG_A2, REG_A7, REG_SP};
use crate::trap::{ecall, syscall_output, syscall_readable, SCAUSE_ECALL_FROM_U};

verus! {

/// Required alignment of the trap-vector address.
pub const STVEC_ALIGN: u64 = 4;

/// What supervisor code prints before dropping to user mode.
pub const SUPERVISOR_BANNER: &'static str = "hello from the supervisor\n";

/// What user code prints before its system call.
pub const USER_BANNER: &'static str = "hello from the userspace\n";

/// What user code prints once its system call has returned.
pub const USER_AFTER_ECALL_BANNER: &'static str = "hello from the userspace after the ecall\n";

/// The addresses the linker provides: the supervisor and user entry points,
/// the trampoline installed as trap vector, and the top of the stack.
#[derive(Clone, Copy, Debug, PartialEq, Eq, Structural)]
pub struct Layout {
    pub start: u64,
    pub userspace_init: u64,
    pub trap_vector: u64,
    pub stack_top: u64,
}

impl HartState {
    /// The machine-mode CSR writes that precede `mret`: `mepc`, MPP, both
    /// delegation masks, the stack pointer and protection region 0.
    pub open spec fn supervisor_configured(self, entry: u64, stack_top: u64) -> HartState {
        HartState {
            regs: self.regs.update(REG_SP as int, stack_top),
            csrs: Csrs {
                mepc: entry,
                mstatus: mstatus_to_supervisor(self.csrs.mstatus),
                medeleg: DELEGATE_ALL,
                mideleg: DELEGATE_ALL,
                pmpaddr0: PMP_0_ADDR,
                pmpcfg0: PMP_0_CFG,
                ..self.csrs
            },
            ..self
        }
    }

    /// The state after `enter_supervisor`.
    pub open spec fn after_enter_supervisor(self, entry: u64, stack_top: u64) -> HartState {
        self.supervisor_configured(entry, stack_top).mret_step()
    }

    /// The supervisor-mode CSR writes that precede `sret`: `sepc`, SPP and
    /// SIE, and the trap vector.
    pub open spec fn user_configured(self, entry: u64, trap_vector: u64) -> HartState {
        HartState {
            csrs: Csrs {
                sepc: entry,
                sstatus: sstatus_to_user(self.csrs.sstatus),
                stvec: trap_vector,
                ..self.csrs
            },
            ..self
        }
    }

    /// The state after `enter_usermode`.
    pub open spec fn after_enter_usermode(self, entry: u64, trap_vector: u64) -> HartState {
        self.user_configured(entry, trap_vector).sret_step()
    }

    /// The protection region and delegation masks that machine mode sets up.
    pub open spec fn machine_config(self) -> (u64, u64, u64, u64) {
        (self.csrs.pmpaddr0, self.csrs.pmpcfg0, self.csrs.medeleg, self.csrs.mideleg)
    }
}

/// Drops from machine to supervisor mode at `entry`, with every trap and
/// interrupt delegated, the stack pointer at `stack_top` and protection
/// region 0 granting full access.
pub fn enter_supervisor(hart: &mut Hart, entry: u64, stack_top: u64)
    requires
        old(hart)@.wf(),
        old(hart)@.privilege == Privilege::Machine,
    ensures
        final(hart)@ == old(hart)@.after_enter_supervisor(entry, stack_top),
        final(hart)@.wf(),
        final(hart)@.privilege == Privilege::Supervisor,
        final(hart)@.pc == entry,
        final(hart)@.regs[REG_SP as int] == stack_top,
        final(hart)@.machine_config() == (PMP_0_ADDR, PMP_0_CFG, DELEGATE_ALL, DELEGATE_ALL),
{
    hart.csrs.mepc = entry;
    hart.csrs.mstatus = set_mpp_supervisor(hart.csrs.mstatus);
    hart.csrs.medeleg = DELEGATE_ALL;
    hart.csrs.mideleg = DELEGATE_ALL;
    hart.regs.set(REG_SP, stack_top);
    hart.csrs.pmpaddr0 = PMP_0_ADDR;
    hart.csrs.pmpcfg0 = PMP_0_CFG;
    mret(hart);
}

/// Drops from supervisor to user mode at `entry`, with supervisor traps
/// enabled and `trap_vector` installed in `stvec`.
pub fn enter_usermode(hart: &mut Hart, entry: u64, trap_vector: u64)
    requires
        old(hart)@.wf(),
        old(hart)@.privilege == Privilege::Supervisor,
        trap_vector % STVEC_ALIGN == 0,
    ensures
        final(hart)@ == old(hart)@.after_enter_usermode(entry, trap_vector),
        final(hart)@.wf(),
        final(hart)@.privilege == Privilege::User,
        final(hart)@.pc == entry,
        final(hart)@.csrs.stvec == trap_vector,
        final(hart)@.machine_config() == old(hart)@.machine_config(),
        final(hart)@.regs == old(hart)@.regs,
{
    hart.csrs.sepc = entry;
    hart.csrs.sstatus = set_spp_user(hart.csrs.sstatus);
    hart.csrs.stvec = trap_vector;
    sret(hart);
}

/// Machine-mode entry: hands the hart to supervisor code at `layout.start`.
pub fn kmain(hart: &mut Hart, layout: Layout)
    requires
        old(hart)@.wf(),
        old(hart)@.privilege == Privilege::Machine,
    ensures
        final(hart)@ == old(hart)@.after_enter_supervisor(layout.start, layout.stack_top),
        final(hart)@.wf(),
        final(hart)@.privilege == Privilege::Supervisor,
{
    enter_supervisor(hart, layout.start, layout.stack_top);
}

/// Supervisor entry: greets on the device, then drops to user code at
/// `layout.userspace_init` with the trampoline as trap vector.
pub fn start(hart: &mut Hart, uart: &mut Uart, layout: Layout)
    requires
        old(hart)@.wf(),
        old(hart)@.privilege == Privilege::Supervisor,
        layout.trap_vector % STVEC_ALIGN == 0,
    ensures
        final(hart)@ == old(hart)@.after_enter_usermode(layout.userspace_init, layout.trap_vector),
        final(hart)@.wf(),
        final(hart)@.privilege == Privilege::User,
        final(uart).sent@ == old(uart).sent@ + SUPERVISOR_BANNER.spec_bytes(),
{
    uart.emit_all(SUPERVISOR_BANNER.as_bytes());
    enter_usermode(hart, layout.userspace_init, layout.trap_vector);
}

/// User entry: greets on the device, issues a system call with the
/// registers as they stand, and greets again once it has returned.
pub fn userspace_init(hart: &mut Hart, memory: &Memory, uart: &mut Uart)
    requires
        old(hart)@.wf(),
        old(hart)@.privilege == Privilege::User,
        old(hart)@.delegates(SCAUSE_ECALL_FROM_U),
        syscall_readable(
            SCAUSE_ECALL_FROM_U,
            old(hart)@.regs[REG_A7 as int],
            old(hart)@.regs[REG_A1 as int],
            old(hart)@.regs[REG_A2 as int],
            memory@,
        ),
    ensures
        final(hart)@ == old(hart)@.after_syscall(),
        final(hart)@.wf(),
        final(hart)@.privilege == Privilege::User,
        final(uart).sent@ == old(uart).sent@ + USER_BANNER.spec_bytes() + syscall_output(
            SCAUSE_ECALL_FROM_U,
            old(hart)@.regs[REG_A7 as int],
            old(hart)@.regs[REG_A1 as int],
            old(hart)@.regs[REG_A2 as int],
            memory@,
        ) + USER_AFTER_ECALL_BANNER.spec_bytes(),
{
    uart.emit_all(USER_BANNER.as_bytes());
    ecall(hart, memory, uart);
    uart.emit_all(USER_AFTER_ECALL_BANNER.as_bytes());
}

/// Descending to supervisor mode and then to user mode leaves the hart in
/// user mode, each step strictly lowering privilege, with the protection
/// region and delegation masks exactly as the first descent set them.
pub proof fn lemma_descent_reaches_user(
    s: HartState,
    supervisor_entry: u64,
    stack_top: u64,
    user_entry: u64,
    trap_vector: u64,
)
    requires
        s.wf(),
        s.privilege == Privilege::Machine,
        trap_vector % STVEC_ALIGN == 0,
    ensures
        ({
            let s1 = s.after_enter_supervisor(supervisor_entry, stack_top);
            let s2 = s1.after_enter_usermode(user_entry, trap_vector);
            &&& s1.privilege == Privilege::Supervisor
            &&& s2.privilege == Privilege::User
            &&& s2.privilege.rank() < s1.privilege.rank() < s.privilege.rank()
            &&& s2.machine_config() == s1.machine_config()
            &&& s2.machine_config() == (PMP_0_ADDR, PMP_0_CFG, DELEGATE_ALL, DELEGATE_ALL)
            &&& s2.csrs.mstatus == s1.csrs.mstatus
        }),
{
    lemma_mpp_supervisor(s.csrs.mstatus);
    let s1 = s.after_enter_supervisor(supervisor_entry, stack_top);
    lemma_spp_user(s1.csrs.sstatus);
}

} // verus!
