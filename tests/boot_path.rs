use kernel::boot::{
    enter_supervisor, enter_usermode, kmain, start, userspace_init, Layout, SUPERVISOR_BANNER,
    USER_AFTER_ECALL_BANNER, USER_BANNER,
};
use kernel::csr::{
    mret_mstatus, privilege_from_field, set_mpp_supervisor, set_spp_user, sret_sstatus,
    trap_sstatus, Privilege, DELEGATE_ALL, PMP_0_ADDR, PMP_0_CFG,
};
use kernel::device::{Memory, Uart};
use kernel::hart::{mret, sret, swap_stack, take_trap, Hart, NUM_REGS, REG_A0, REG_A1, REG_A2, REG_A7, REG_SP};
use kernel::trap::{ecall, trap_entry, ERROR_SENTINEL, SYSCALL_WRITE};

const LAYOUT: Layout = Layout {
    start: 0x8000_1000,
    userspace_init: 0x8000_2000,
    trap_vector: 0x8000_3000,
    stack_top: 0x8010_0000,
};

fn user_hart(uart: &mut Uart) -> Hart {
    let mut hart = Hart::reset(0x8000_0000);
    kmain(&mut hart, LAYOUT);
    start(&mut hart, uart, LAYOUT);
    hart.csrs.sscratch = 0x8020_0000;
    hart
}

fn fill_regs(hart: &mut Hart) {
    for i in 1..NUM_REGS {
        hart.set_reg(i, 0x1000 + i as u64 * 3);
    }
}

#[test]
fn reset_hart_is_in_machine_mode() {
    let hart = Hart::reset(0x8000_0000);
    assert_eq!(hart.privilege, Privilege::Machine);
    assert_eq!(hart.pc, 0x8000_0000);
    assert_eq!(hart.regs, vec![0u64; NUM_REGS]);
}

#[test]
fn set_reg_ignores_zero_register() {
    let mut hart = Hart::reset(0);
    hart.set_reg(0, 7);
    hart.set_reg(5, 9);
    assert_eq!(hart.reg(0), 0);
    assert_eq!(hart.reg(5), 9);
}

#[test]
fn enter_supervisor_configures_machine_state() {
    let mut hart = Hart::reset(0x8000_0000);
    hart.csrs.mstatus = 0x1800 | 0x8;
    enter_supervisor(&mut hart, 0x8000_1000, 0x8010_0000);
    assert_eq!(hart.privilege, Privilege::Supervisor);
    assert_eq!(hart.pc, 0x8000_1000);
    assert_eq!(hart.csrs.mepc, 0x8000_1000);
    assert_eq!(hart.reg(REG_SP), 0x8010_0000);
    assert_eq!(hart.csrs.medeleg, DELEGATE_ALL);
    assert_eq!(hart.csrs.mideleg, DELEGATE_ALL);
    assert_eq!(hart.csrs.pmpaddr0, 0x2fff_ffff_ffff_ffff);
    assert_eq!(hart.csrs.pmpaddr0, PMP_0_ADDR);
    assert_eq!(hart.csrs.pmpcfg0, 0b1111);
    assert_eq!(hart.csrs.pmpcfg0, PMP_0_CFG);
    // MPP went to supervisor, then mret reset it to user; other bits kept.
    assert_eq!(hart.csrs.mstatus, 0x8);
}

#[test]
fn enter_usermode_installs_trap_vector() {
    let mut hart = Hart::reset(0x8000_0000);
    enter_supervisor(&mut hart, 0x8000_1000, 0x8010_0000);
    hart.csrs.sstatus = 0x100;
    enter_usermode(&mut hart, 0x8000_2000, 0x8000_3000);
    assert_eq!(hart.privilege, Privilege::User);
    assert_eq!(hart.pc, 0x8000_2000);
    assert_eq!(hart.csrs.sepc, 0x8000_2000);
    assert_eq!(hart.csrs.stvec, 0x8000_3000);
    assert_eq!(hart.reg(REG_SP), 0x8010_0000);
}

#[test]
fn descent_keeps_protection_and_delegation() {
    let mut hart = Hart::reset(0x8000_0000);
    let mut uart = Uart::new();
    kmain(&mut hart, LAYOUT);
    assert_eq!(hart.privilege, Privilege::Supervisor);
    assert_eq!(hart.pc, LAYOUT.start);
    let config = (hart.csrs.pmpaddr0, hart.csrs.pmpcfg0, hart.csrs.medeleg, hart.csrs.mideleg);
    start(&mut hart, &mut uart, LAYOUT);
    assert_eq!(hart.privilege, Privilege::User);
    assert_eq!(hart.pc, LAYOUT.userspace_init);
    assert_eq!(
        (hart.csrs.pmpaddr0, hart.csrs.pmpcfg0, hart.csrs.medeleg, hart.csrs.mideleg),
        config
    );
    assert_eq!(config, (PMP_0_ADDR, PMP_0_CFG, DELEGATE_ALL, DELEGATE_ALL));
    assert_eq!(uart.sent, b"hello from the supervisor\n".to_vec());
    assert_eq!(uart.sent, SUPERVISOR_BANNER.as_bytes().to_vec());
}

#[test]
fn stack_swap_twice_restores_pair() {
    let mut hart = Hart::reset(0);
    hart.set_reg(REG_SP, 0x1111);
    hart.csrs.sscratch = 0x2222;
    swap_stack(&mut hart);
    assert_eq!(hart.reg(REG_SP), 0x2222);
    assert_eq!(hart.csrs.sscratch, 0x1111);
    swap_stack(&mut hart);
    assert_eq!(hart.reg(REG_SP), 0x1111);
    assert_eq!(hart.csrs.sscratch, 0x2222);
}

#[test]
fn syscall_preserves_registers_but_result() {
    let mut uart = Uart::new();
    let mut hart = user_hart(&mut uart);
    fill_regs(&mut hart);
    hart.set_reg(REG_A7, 999);
    let before = hart.regs.clone();
    let scratch = hart.csrs.sscratch;
    let memory = Memory::new(0, Vec::new());
    ecall(&mut hart, &memory, &mut uart);
    for i in 0..NUM_REGS {
        if i != REG_A0 {
            assert_eq!(hart.reg(i), before[i]);
        }
    }
    assert_eq!(hart.reg(REG_A0), ERROR_SENTINEL);
    assert_eq!(hart.csrs.sscratch, scratch);
    assert_eq!(hart.privilege, Privilege::User);
}

#[test]
fn syscall_write_through_trap_path() {
    let mut uart = Uart::new();
    let mut hart = user_hart(&mut uart);
    fill_regs(&mut hart);
    let memory = Memory::new(0x9000_0000, b"hello".to_vec());
    hart.set_reg(REG_A7, SYSCALL_WRITE);
    hart.set_reg(REG_A1, 0x9000_0000);
    hart.set_reg(REG_A2, 5);
    let before = hart.regs.clone();
    let sent_before = uart.sent.len();
    ecall(&mut hart, &memory, &mut uart);
    assert_eq!(uart.sent[sent_before..].to_vec(), b"hello".to_vec());
    assert_eq!(hart.reg(REG_A0), 5);
    for i in 1..NUM_REGS {
        if i != REG_A0 {
            assert_eq!(hart.reg(i), before[i]);
        }
    }
}

#[test]
fn syscall_advances_pc_by_four() {
    let mut uart = Uart::new();
    let mut hart = user_hart(&mut uart);
    let memory = Memory::new(0, Vec::new());
    hart.pc = 0x8000_2010;
    ecall(&mut hart, &memory, &mut uart);
    assert_eq!(hart.pc, 0x8000_2014);
    assert_eq!(hart.csrs.sepc, 0x8000_2014);
    assert_eq!(hart.csrs.scause, 8);
}

#[test]
fn syscall_at_top_of_address_space_wraps() {
    let mut uart = Uart::new();
    let mut hart = user_hart(&mut uart);
    let memory = Memory::new(0, Vec::new());
    hart.pc = u64::MAX - 3;
    ecall(&mut hart, &memory, &mut uart);
    assert_eq!(hart.pc, 0);
}

#[test]
fn trampoline_restores_stack_pair() {
    let mut uart = Uart::new();
    let mut hart = user_hart(&mut uart);
    hart.set_reg(REG_SP, 0x7000);
    hart.csrs.sscratch = 0x100;
    let memory = Memory::new(0, Vec::new());
    take_trap(&mut hart, 8);
    assert_eq!(hart.privilege, Privilege::Supervisor);
    assert_eq!(hart.pc, LAYOUT.trap_vector);
    trap_entry(&mut hart, &memory, &mut uart);
    assert_eq!(hart.reg(REG_SP), 0x7000);
    assert_eq!(hart.csrs.sscratch, 0x100);
}

#[test]
fn userspace_init_runs_a_call_between_banners() {
    let mut uart = Uart::new();
    let mut hart = user_hart(&mut uart);
    uart.sent.clear();
    let memory = Memory::new(0x9000_0000, b"hi\n".to_vec());
    hart.set_reg(REG_A7, SYSCALL_WRITE);
    hart.set_reg(REG_A1, 0x9000_0000);
    hart.set_reg(REG_A2, 3);
    userspace_init(&mut hart, &memory, &mut uart);
    let mut expected = USER_BANNER.as_bytes().to_vec();
    expected.extend_from_slice(b"hi\n");
    expected.extend_from_slice(USER_AFTER_ECALL_BANNER.as_bytes());
    assert_eq!(uart.sent, expected);
    assert_eq!(hart.reg(REG_A0), 3);
    assert_eq!(hart.privilege, Privilege::User);
    assert_eq!(hart.pc, LAYOUT.userspace_init + 4);
}

#[test]
fn status_bit_operations() {
    assert_eq!(set_mpp_supervisor(0), 0x800);
    assert_eq!(set_mpp_supervisor(0x1800), 0x800);
    assert_eq!(set_mpp_supervisor(0x1000 | 0x7), 0x807);
    assert_eq!(set_spp_user(0x100), 0x2);
    assert_eq!(set_spp_user(0x120), 0x22);
    assert_eq!(mret_mstatus(0x1808), 0x8);
    assert_eq!(trap_sstatus(0x2, Privilege::User), 0x20);
    assert_eq!(trap_sstatus(0x0, Privilege::Supervisor), 0x100);
    assert_eq!(sret_sstatus(0x120), 0x22);
    assert_eq!(sret_sstatus(0x102), 0x20);
    assert_eq!(privilege_from_field(0), Privilege::User);
    assert_eq!(privilege_from_field(1), Privilege::Supervisor);
    assert_eq!(privilege_from_field(3), Privilege::Machine);
}

#[test]
fn mode_returns_follow_previous_privilege() {
    let mut hart = Hart::reset(0);
    hart.csrs.mstatus = 0x800;
    hart.csrs.mepc = 0x40;
    mret(&mut hart);
    assert_eq!(hart.privilege, Privilege::Supervisor);
    assert_eq!(hart.pc, 0x40);
    assert_eq!(hart.csrs.mstatus, 0);
    hart.csrs.sstatus = 0x100;
    hart.csrs.sepc = 0x80;
    sret(&mut hart);
    assert_eq!(hart.privilege, Privilege::Supervisor);
    assert_eq!(hart.pc, 0x80);
    sret(&mut hart);
    assert_eq!(hart.privilege, Privilege::User);
}

#[test]
fn register_numbers() {
    assert_eq!((REG_SP, REG_A0, REG_A1, REG_A2, REG_A7), (2, 10, 11, 12, 17));
}
