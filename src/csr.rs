//! Status-register bit positions, protection-region configuration and the
//! privilege-level encodings, with the bit operations the descents perform.
use vstd::prelude::*;

verus! {

/// Shift of the two-bit previous-privilege field (MPP) in `mstatus`.
pub const XSTATUS_XPP_SHIFT: u64 = 11;

/// The supervisor encoding placed in the MPP field.
pub const XSTATUS_XPP_S: u64 = 0x800;

/// Mask of the whole MPP field.
pub const XSTATUS_MPP_X: u64 = 0x1800;

/// Supervisor trap-enable bit (SIE) of `sstatus`.
pub const XSTATUS_SIE: u64 = 0x2;

/// Previous trap-enable bit (SPIE) of `sstatus`.
pub const SSTATUS_SPIE: u64 = 0x20;

/// One-bit previous-privilege field (SPP) of `sstatus`.
pub const SSTATUS_SPP: u64 = 0x100;

/// Configuration of protection region 0: readable, writable, executable,
/// top-of-range addressing.
pub const PMP_0_CFG: u64 = 0b00001111;

/// Upper boundary of protection region 0.
pub const PMP_0_ADDR: u64 = 0x2fffffffffffffff;

/// Delegation mask that hands every trap and interrupt to supervisor mode.
pub const DELEGATE_ALL: u64 = 0xffff_ffff_ffff_ffff;

/// Hardware privilege level of the hart.
#[derive(Clone, Copy, Debug, PartialEq, Eq, Structural)]
pub enum Privilege {
    User,
    Supervisor,
    Machine,
}

impl Privilege {
    /// The two-bit encoding of the level in a previous-privilege field.
    pub open spec fn encoding(self) -> u64 {
        match self {
            Privilege::User => 0,
            Privilege::Supervisor => 1,
            Privilege::Machine => 3,
        }
    }

    /// Higher levels have higher rank.
    pub open spec fn rank(self) -> nat {
        match self {
            Privilege::User => 0,
            Privilege::Supervisor => 1,
            Privilege::Machine => 2,
        }
    }
}

/// The level a previous-privilege field names; the reserved encoding 2 never
/// occurs in a well-formed status register.
pub open spec fn decode_privilege(field: u64) -> Privilege {
    if field == 0 {
        Privilege::User
    } else if field == 1 {
        Privilege::Supervisor
    } else {
        Privilege::Machine
    }
}

/// The MPP field of an `mstatus` value.
pub open spec fn mpp_field(mstatus: u64) -> u64 {
    (mstatus >> 11u64) & 3
}

/// The SPP field of an `sstatus` value.
pub open spec fn spp_field(sstatus: u64) -> u64 {
    (sstatus >> 8u64) & 1
}

/// Whether the supervisor trap-enable bit is set.
pub open spec fn sie_set(sstatus: u64) -> bool {
    sstatus & XSTATUS_SIE != 0
}

/// Reads the level named by a previous-privilege field.
pub fn privilege_from_field(field: u64) -> (r: Privilege)
    ensures
        r == decode_privilege(field),
{
    if field == 0 {
        Privilege::User
    } else if field == 1 {
        Privilege::Supervisor
    } else {
        Privilege::Machine
    }
}

/// `mstatus` with MPP set to the supervisor encoding: the field's low bit is
/// set, its high bit cleared, every other bit kept.
pub open spec fn mstatus_to_supervisor(mstatus: u64) -> u64 {
    (mstatus | XSTATUS_XPP_S) & !(XSTATUS_XPP_S << 1u64)
}

/// `sstatus` prepared for the drop to user mode: SPP cleared to the user
/// encoding, SIE set, every other bit kept.
pub open spec fn sstatus_to_user(sstatus: u64) -> u64 {
    (sstatus & !SSTATUS_SPP) | XSTATUS_SIE
}

/// Rewrites `mstatus` so that the next mode return lands in supervisor mode.
pub fn set_mpp_supervisor(mstatus: u64) -> (r: u64)
    ensures
        r == mstatus_to_supervisor(mstatus),
        mpp_field(r) == Privilege::Supervisor.encoding(),
        r & !XSTATUS_MPP_X == mstatus & !XSTATUS_MPP_X,
{
    let t = mstatus | XSTATUS_XPP_S;
    let mask = !(XSTATUS_XPP_S << 1u64);
    proof {
        lemma_mpp_supervisor(mstatus);
        assert(((mstatus | 0x800u64) & !(0x800u64 << 1u64)) & !0x1800u64 == mstatus & !0x1800u64)
            by (bit_vector);
    }
    t & mask
}

/// Rewrites `sstatus` so that the next supervisor return lands in user mode
/// with supervisor traps enabled.
pub fn set_spp_user(sstatus: u64) -> (r: u64)
    ensures
        r == sstatus_to_user(sstatus),
        spp_field(r) == Privilege::User.encoding(),
        sie_set(r),
        r & !(SSTATUS_SPP | XSTATUS_SIE) == sstatus & !(SSTATUS_SPP | XSTATUS_SIE),
{
    proof {
        lemma_spp_user(sstatus);
        assert(((sstatus & !0x100u64) | 2u64) & 2u64 != 0) by (bit_vector);
        assert(((sstatus & !0x100u64) | 2u64) & !(0x100u64 | 2u64) == sstatus & !(0x100u64
            | 2u64)) by (bit_vector);
    }
    (sstatus & !SSTATUS_SPP) | XSTATUS_SIE
}

/// `sstatus` after the hart takes a trap from level `from`: SPIE receives
/// SIE, SIE is cleared, SPP records whether the trap came from user mode.
pub open spec fn sstatus_on_trap(sstatus: u64, from: Privilege) -> u64 {
    let spie = if sstatus & XSTATUS_SIE != 0 { SSTATUS_SPIE } else { 0 };
    let spp = if from == Privilege::User { 0 } else { SSTATUS_SPP };
    (sstatus & !(XSTATUS_SIE | SSTATUS_SPIE | SSTATUS_SPP)) | spie | spp
}

/// `sstatus` after a supervisor return: SIE receives SPIE, SPIE is set, SPP
/// falls back to the user encoding.
pub open spec fn sstatus_on_sret(sstatus: u64) -> u64 {
    let sie = if sstatus & SSTATUS_SPIE != 0 { XSTATUS_SIE } else { 0 };
    (sstatus & !(XSTATUS_SIE | SSTATUS_SPIE | SSTATUS_SPP)) | sie | SSTATUS_SPIE
}

/// `mstatus` after a machine return: MPP falls back to the user encoding.
pub open spec fn mstatus_on_mret(mstatus: u64) -> u64 {
    mstatus & !XSTATUS_MPP_X
}

/// Computes `sstatus` as the hart leaves it on taking a trap.
pub fn trap_sstatus(sstatus: u64, from: Privilege) -> (r: u64)
    requires
        from != Privilege::Machine,
    ensures
        r == sstatus_on_trap(sstatus, from),
        spp_field(r) == from.encoding(),
        !sie_set(r),
{
    let spie: u64 = if sstatus & XSTATUS_SIE != 0 {
        SSTATUS_SPIE
    } else {
        0
    };
    let spp: u64 = if from == Privilege::User {
        0
    } else {
        SSTATUS_SPP
    };
    let r = (sstatus & !(XSTATUS_SIE | SSTATUS_SPIE | SSTATUS_SPP)) | spie | spp;
    proof {
        assert(spie == 0 || spie == 0x20);
        assert(spp == 0 || spp == 0x100);
        lemma_spp_after_trap(sstatus, from);
        assert(((sstatus & !(0x2u64 | 0x20u64 | 0x100u64)) | spie | spp) & 0x2u64 == 0)
            by (bit_vector)
            requires
                spie == 0 || spie == 0x20,
                spp == 0 || spp == 0x100,
        ;
    }
    r
}

/// Computes `sstatus` as a supervisor return leaves it.
pub fn sret_sstatus(sstatus: u64) -> (r: u64)
    ensures
        r == sstatus_on_sret(sstatus),
        spp_field(r) == Privilege::User.encoding(),
{
    let sie: u64 = if sstatus & SSTATUS_SPIE != 0 {
        XSTATUS_SIE
    } else {
        0
    };
    let r = (sstatus & !(XSTATUS_SIE | SSTATUS_SPIE | SSTATUS_SPP)) | sie | SSTATUS_SPIE;
    proof {
        assert(spp_field((sstatus & !(0x2u64 | 0x20u64 | 0x100u64)) | sie | 0x20u64) == 0)
            by (bit_vector)
            requires
                sie == 0 || sie == 0x2,
        ;
    }
    r
}

/// Computes `mstatus` as a machine return leaves it.
pub fn mret_mstatus(mstatus: u64) -> (r: u64)
    ensures
        r == mstatus_on_mret(mstatus),
        mpp_field(r) == Privilege::User.encoding(),
{
    proof {
        lemma_mpp_after_mret(mstatus);
    }
    mstatus & !XSTATUS_MPP_X
}

/// MPP names the supervisor after `mstatus_to_supervisor`.
pub proof fn lemma_mpp_supervisor(mstatus: u64)
    ensures
        mpp_field(mstatus_to_supervisor(mstatus)) == Privilege::Supervisor.encoding(),
{
    assert(mpp_field((mstatus | 0x800u64) & !(0x800u64 << 1u64)) == 1) by (bit_vector);
}

/// SPP names user mode after `sstatus_to_user`.
pub proof fn lemma_spp_user(sstatus: u64)
    ensures
        spp_field(sstatus_to_user(sstatus)) == Privilege::User.encoding(),
{
    assert(spp_field((sstatus & !0x100u64) | 2u64) == 0) by (bit_vector);
}

/// MPP names user mode after a machine return.
pub proof fn lemma_mpp_after_mret(mstatus: u64)
    ensures
        mpp_field(mstatus_on_mret(mstatus)) == Privilege::User.encoding(),
{
    assert(mpp_field(mstatus & !0x1800u64) == 0) by (bit_vector);
}

/// After a trap from user or supervisor mode, SPP names that level.
pub proof fn lemma_spp_after_trap(sstatus: u64, from: Privilege)
    requires
        from != Privilege::Machine,
    ensures
        spp_field(sstatus_on_trap(sstatus, from)) == from.encoding(),
{
    let spie: u64 = if sstatus & XSTATUS_SIE != 0 { SSTATUS_SPIE } else { 0 };
    let spp: u64 = if from == Privilege::User { 0 } else { SSTATUS_SPP };
    assert(spp_field((sstatus & !(0x2u64 | 0x20u64 | 0x100u64)) | spie | spp) == (if spp == 0 {
        0u64
    } else {
        1u64
    })) by (bit_vector)
        requires
            spie == 0 || spie == 0x20,
            spp == 0 || spp == 0x100,
    ;
}

} // verus!
