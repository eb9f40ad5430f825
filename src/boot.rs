//! The decisions of the boot trampoline: which core goes on, how much of
//! the uninitialised data it clears, and the register values of the drop
//! from EL3 to EL1.
use vstd::prelude::*;

verus! {

/// The low bits of `MPIDR_EL1` that number the core within its cluster.
pub const AFFINITY_MASK: u64 = 3;

/// `SCTLR_EL1` bits that are reserved as one: 29, 28, 23, 22, 20 and 11.
pub const SCTLR_RES1: u64 = 0x30D0_0800;

/// `SCTLR_EL1` endianness: little-endian at EL1 (bit 25) and EL0 (bit 24).
pub const SCTLR_ENDIANNESS_LE: u64 = 0;

/// `HCR_EL2.RW`: the level below EL2 runs AArch64.
pub const HCR_RW: u64 = 0x8000_0000;

/// `SCR_EL3` bits that are reserved as one: 5 and 4.
pub const SCR_RES1: u64 = 0x30;

/// `SCR_EL3.NS`: the levels below EL3 are non-secure.
pub const SCR_NS: u64 = 0x1;

/// `SCR_EL3.RW`: the level below EL3 runs AArch64.
pub const SCR_RW: u64 = 0x400;

/// `SPSR_EL3`: FIQ, IRQ and SError masked (bits 6, 7 and 8).
pub const SPSR_INT_MASK: u64 = 0x1C0;

/// `SPSR_EL3.M`: return to EL1 with its own stack pointer (EL1h).
pub const SPSR_EL1H: u64 = 0x5;

/// Where a core stands in the trampoline.
#[derive(Clone, Copy, Debug, PartialEq, Eq, Structural)]
pub enum BootState {
    /// Just entered from the firmware.
    Entry,
    /// Parked in the low-power wait loop.
    Parked,
    /// Handed over to the kernel entry.
    Kernel,
}

/// The values that the drop to EL1 programs, and where it returns to the
/// kernel entry.
#[derive(Clone, Copy, Debug, PartialEq, Eq, Structural)]
pub struct El1Setup {
    pub sctlr_el1: u64,
    pub hcr_el2: u64,
    pub scr_el3: u64,
    pub spsr_el3: u64,
}

/// Whether the core whose `MPIDR_EL1` reads `mpidr` is the primary one.
pub open spec fn is_primary_spec(mpidr: u64) -> bool {
    mpidr & AFFINITY_MASK == 0
}

/// The next place of a core whose `MPIDR_EL1` reads `mpidr`.
pub open spec fn next_state(state: BootState, mpidr: u64) -> BootState {
    match state {
        BootState::Entry => if is_primary_spec(mpidr) {
            BootState::Kernel
        } else {
            BootState::Parked
        },
        BootState::Parked => BootState::Parked,
        BootState::Kernel => BootState::Kernel,
    }
}

/// Where a core stands after `n` steps from `state`.
pub open spec fn run(state: BootState, mpidr: u64, n: nat) -> BootState
    decreases n,
{
    if n == 0 {
        state
    } else {
        run(next_state(state, mpidr), mpidr, (n - 1) as nat)
    }
}

/// Whether the core whose `MPIDR_EL1` reads `mpidr` goes on to the kernel:
/// its low two affinity bits are zero.
pub fn is_primary(mpidr: u64) -> (r: bool)
    ensures
        r == is_primary_spec(mpidr),
{
    mpidr & AFFINITY_MASK == 0
}

/// One step of a core in the trampoline: from the entry, the primary core
/// goes on to the kernel and the others park; a parked core stays parked
/// when it wakes.
pub fn boot_step(state: BootState, mpidr: u64) -> (r: BootState)
    ensures
        r == next_state(state, mpidr),
{
    match state {
        BootState::Entry => {
            if is_primary(mpidr) {
                BootState::Kernel
            } else {
                BootState::Parked
            }
        },
        BootState::Parked => BootState::Parked,
        BootState::Kernel => BootState::Kernel,
    }
}

/// The number of zero 8-byte stores, from `bss_start` on, that clear the
/// uninitialised data up to `bss_end`: the byte count divided by eight,
/// rounded up.
pub fn bss_words(bss_start: u64, bss_end: u64) -> (r: u64)
    requires
        bss_start <= bss_end,
    ensures
        r == (bss_end - bss_start + 7) / 8,
        8 * r >= bss_end - bss_start,
        8 * r < bss_end - bss_start + 8,
{
    let len = bss_end - bss_start;
    let r = len / 8 + if len % 8 != 0 { 1 } else { 0 };
    r
}

/// The register values of the drop from EL3 to EL1: reserved-one bits and
/// little-endian for `SCTLR_EL1`; AArch64 at EL1 for `HCR_EL2`; reserved-one,
/// non-secure and AArch64 below for `SCR_EL3`; interrupts masked and EL1h
/// for `SPSR_EL3`.
pub fn el1_setup() -> (r: El1Setup)
    ensures
        r.sctlr_el1 == 0x30D0_0800,
        r.hcr_el2 == 0x8000_0000,
        r.scr_el3 == 0x431,
        r.spsr_el3 == 0x1C5,
{
    let r = El1Setup {
        sctlr_el1: SCTLR_RES1 | SCTLR_ENDIANNESS_LE,
        hcr_el2: HCR_RW,
        scr_el3: SCR_RES1 | SCR_NS | SCR_RW,
        spsr_el3: SPSR_INT_MASK | SPSR_EL1H,
    };
    assert(SCTLR_RES1 | SCTLR_ENDIANNESS_LE == 0x30D0_0800u64) by (bit_vector);
    assert(SCR_RES1 | SCR_NS | SCR_RW == 0x431u64) by (bit_vector);
    assert(SPSR_INT_MASK | SPSR_EL1H == 0x1C5u64) by (bit_vector);
    r
}

/// A core whose affinity bits are not zero never reaches the kernel entry,
/// however many steps it takes; it is parked after the first.
pub proof fn lemma_secondary_parks(mpidr: u64, n: nat)
    requires
        mpidr & AFFINITY_MASK != 0,
    ensures
        run(BootState::Entry, mpidr, n) != BootState::Kernel,
        n >= 1 ==> run(BootState::Entry, mpidr, n) == BootState::Parked,
    decreases n,
{
    if n >= 1 {
        lemma_parked_stays(mpidr, (n - 1) as nat);
    }
}

/// A parked core stays parked.
pub proof fn lemma_parked_stays(mpidr: u64, n: nat)
    ensures
        run(BootState::Parked, mpidr, n) == BootState::Parked,
    decreases n,
{
    if n > 0 {
        lemma_parked_stays(mpidr, (n - 1) as nat);
    }
}

} // verus!
