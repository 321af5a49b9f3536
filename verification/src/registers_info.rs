//! A snapshot of the AArch64 identification registers.
//!
//! Reading the registers is a privileged, per-platform operation; callers
//! take the snapshot once and hand the raw 64-bit values in. Every catalog
//! entry then looks its register up here instead of re-reading hardware.

use vstd::prelude::*;

verus! {

/// The identification registers the feature catalog draws on.
#[allow(non_camel_case_types)]
#[derive(Eq, PartialEq, Structural, Hash, Copy, Clone, Debug)]
pub enum Register {
    /// Debug feature register 0
    ID_AA64DFR0_EL1,
    /// Instruction set attribute register 0
    ID_AA64ISAR0_EL1,
    /// Instruction set attribute register 1
    ID_AA64ISAR1_EL1,
    /// Memory model feature register 0
    ID_AA64MMFR0_EL1,
    /// Memory model feature register 1
    ID_AA64MMFR1_EL1,
    /// Memory model feature register 2
    ID_AA64MMFR2_EL1,
    /// Processor feature register 0
    ID_AA64PFR0_EL1,
    /// Processor feature register 1
    ID_AA64PFR1_EL1,
    /// Instruction set attribute register 3
    ID_AA64ISAR3_EL1,
    /// External debug device ID register
    EDDEVID,
    /// Cache type register
    CTR_EL0,
    /// SME feature register 0
    ID_AA64SMFR0_EL1,
    /// Counter-timer ID register
    CNTID,
    /// Instruction set attribute register 2
    ID_AA64ISAR2_EL1,
    /// Trace unit device architecture register
    TRCDEVARCH,
    /// SVE feature register 0
    ID_AA64ZFR0_EL1,
    /// A placeholder that no snapshot holds; it reads as zero.
    NoRegister,
}

/// One snapshot of every register the catalogs reference, taken before
/// evaluation begins.
pub struct RegistersInfo {
    /// ID_AA64DFR0_EL1
    pub id_aa64dfr0: u64,
    /// ID_AA64ISAR0_EL1
    pub id_aa64isar0: u64,
    /// ID_AA64ISAR1_EL1
    pub id_aa64isar1: u64,
    /// ID_AA64MMFR0_EL1
    pub id_aa64mmfr0: u64,
    /// ID_AA64MMFR1_EL1
    pub id_aa64mmfr1: u64,
    /// ID_AA64MMFR2_EL1
    pub id_aa64mmfr2: u64,
    /// ID_AA64PFR0_EL1
    pub id_aa64pfr0: u64,
    /// ID_AA64PFR1_EL1
    pub id_aa64pfr1: u64,
    /// ID_AA64ISAR3_EL1
    pub id_aa64isar3_el1: u64,
    /// CTR_EL0
    pub ctr_el0: u64,
    /// EDDEVID
    pub eddevid: u64,
    /// ID_AA64SMFR0_EL1
    pub id_aa64smfr0_el1: u64,
    /// CNTID
    pub cntid: u64,
    /// ID_AA64ISAR2_EL1
    pub id_aa64isar2_el1: u64,
    /// TRCDEVARCH
    pub trcdevarch: u64,
    /// ID_AA64ZFR0_EL1
    pub id_aa64zfr0: u64,
}

impl RegistersInfo {
    /// The snapshot's value of a register; the `NoRegister` placeholder
    /// reads as zero, so a matcher on it finds nothing rather than failing.
    pub open spec fn spec_read(self, index: Register) -> u64 {
        match index {
            Register::ID_AA64DFR0_EL1 => self.id_aa64dfr0,
            Register::ID_AA64ISAR0_EL1 => self.id_aa64isar0,
            Register::ID_AA64ISAR1_EL1 => self.id_aa64isar1,
            Register::ID_AA64MMFR0_EL1 => self.id_aa64mmfr0,
            Register::ID_AA64MMFR1_EL1 => self.id_aa64mmfr1,
            Register::ID_AA64MMFR2_EL1 => self.id_aa64mmfr2,
            Register::ID_AA64PFR0_EL1 => self.id_aa64pfr0,
            Register::ID_AA64PFR1_EL1 => self.id_aa64pfr1,
            Register::ID_AA64ISAR3_EL1 => self.id_aa64isar3_el1,
            Register::EDDEVID => self.eddevid,
            Register::CTR_EL0 => self.ctr_el0,
            Register::ID_AA64SMFR0_EL1 => self.id_aa64smfr0_el1,
            Register::CNTID => self.cntid,
            Register::ID_AA64ISAR2_EL1 => self.id_aa64isar2_el1,
            Register::TRCDEVARCH => self.trcdevarch,
            Register::ID_AA64ZFR0_EL1 => self.id_aa64zfr0,
            Register::NoRegister => 0u64,
        }
    }

    /// A snapshot built from raw register values, in the field order of the
    /// struct.
    pub fn new(
        id_aa64dfr0: u64,
        id_aa64isar0: u64,
        id_aa64isar1: u64,
        id_aa64mmfr0: u64,
        id_aa64mmfr1: u64,
        id_aa64mmfr2: u64,
        id_aa64pfr0: u64,
        id_aa64pfr1: u64,
        id_aa64isar3_el1: u64,
        ctr_el0: u64,
        eddevid: u64,
        id_aa64smfr0_el1: u64,
        cntid: u64,
        id_aa64isar2_el1: u64,
        trcdevarch: u64,
        id_aa64zfr0: u64,
    ) -> (r: RegistersInfo)
        ensures
            r == (RegistersInfo {
                id_aa64dfr0,
                id_aa64isar0,
                id_aa64isar1,
                id_aa64mmfr0,
                id_aa64mmfr1,
                id_aa64mmfr2,
                id_aa64pfr0,
                id_aa64pfr1,
                id_aa64isar3_el1,
                ctr_el0,
                eddevid,
                id_aa64smfr0_el1,
                cntid,
                id_aa64isar2_el1,
                trcdevarch,
                id_aa64zfr0,
            }),
    {
        RegistersInfo {
            id_aa64dfr0,
            id_aa64isar0,
            id_aa64isar1,
            id_aa64mmfr0,
            id_aa64mmfr1,
            id_aa64mmfr2,
            id_aa64pfr0,
            id_aa64pfr1,
            id_aa64isar3_el1,
            ctr_el0,
            eddevid,
            id_aa64smfr0_el1,
            cntid,
            id_aa64isar2_el1,
            trcdevarch,
            id_aa64zfr0,
        }
    }

    /// The snapshot of a machine that exposes nothing: every register zero,
    /// so no catalog entry matches.
    pub fn zeroed() -> (r: RegistersInfo)
        ensures
            forall|reg: Register| r.spec_read(reg) == 0u64,
    {
        RegistersInfo {
            id_aa64dfr0: 0,
            id_aa64isar0: 0,
            id_aa64isar1: 0,
            id_aa64mmfr0: 0,
            id_aa64mmfr1: 0,
            id_aa64mmfr2: 0,
            id_aa64pfr0: 0,
            id_aa64pfr1: 0,
            id_aa64isar3_el1: 0,
            ctr_el0: 0,
            eddevid: 0,
            id_aa64smfr0_el1: 0,
            cntid: 0,
            id_aa64isar2_el1: 0,
            trcdevarch: 0,
            id_aa64zfr0: 0,
        }
    }

    /// The snapshot's value of a register, by name.
    pub fn read_register(&self, index: Register) -> (v: u64)
        ensures
            v == self.spec_read(index),
    {
        match index {
            Register::ID_AA64DFR0_EL1 => self.id_aa64dfr0,
            Register::ID_AA64ISAR0_EL1 => self.id_aa64isar0,
            Register::ID_AA64ISAR1_EL1 => self.id_aa64isar1,
            Register::ID_AA64MMFR0_EL1 => self.id_aa64mmfr0,
            Register::ID_AA64MMFR1_EL1 => self.id_aa64mmfr1,
            Register::ID_AA64MMFR2_EL1 => self.id_aa64mmfr2,
            Register::ID_AA64PFR0_EL1 => self.id_aa64pfr0,
            Register::ID_AA64PFR1_EL1 => self.id_aa64pfr1,
            Register::ID_AA64ISAR3_EL1 => self.id_aa64isar3_el1,
            Register::EDDEVID => self.eddevid,
            Register::CTR_EL0 => self.ctr_el0,
            Register::ID_AA64SMFR0_EL1 => self.id_aa64smfr0_el1,
            Register::CNTID => self.cntid,
            Register::ID_AA64ISAR2_EL1 => self.id_aa64isar2_el1,
            Register::TRCDEVARCH => self.trcdevarch,
            Register::ID_AA64ZFR0_EL1 => self.id_aa64zfr0,
            Register::NoRegister => 0,
        }
    }
}

} // verus!
