//! A model of a RISC-V hart's boot path: the machine to supervisor to user
//! privilege descent, and the trap trampoline and syscall dispatcher that
//! bring control back from user code.
use vstd::prelude::*;

pub mod boot;
pub mod csr;
pub mod device;
pub mod frame;
pub mod hart;
pub mod trap;

verus! {

} // verus!
