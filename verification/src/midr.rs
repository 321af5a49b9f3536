//! The main ID register (MIDR_EL1) and its decoded fields.
//!
//! The register packs five fields into its low 32 bits: the implementer code
//! in bits 31:24, the variant in bits 23:20, the architecture tag in bits
//! 19:16, the part number in bits 15:4 and the revision in bits 3:0.
//! Reading the register is privileged and platform work; this module only
//! decodes a raw 64-bit value that the caller obtained.

use vstd::prelude::*;

verus! {

/// The value of one bitfield of a 64-bit register: the bits of `value`
/// starting at `shift`, masked by `mask` after the shift.
pub open spec fn spec_extract(value: u64, shift: u64, mask: u64) -> u64 {
    (value >> shift) & mask
}

/// Extract a bitfield: shift `midr` right by `shift`, then keep the bits of
/// `mask`.
pub fn extract(midr: u64, shift: u64, mask: u64) -> (r: u64)
    requires
        shift < 64,
    ensures
        r == spec_extract(midr, shift, mask),
{
    (midr >> shift) & mask
}

/// The organizations that design AArch64 cores, as encoded in the
/// implementer field of MIDR_EL1.
#[non_exhaustive]
#[derive(Clone, Copy, Eq, PartialEq, Structural, Debug)]
pub enum Implementer {
    /// Implementer code 0x41
    Arm,
    /// Implementer code 0x46
    Fujitsu,
    /// Implementer code 0x61
    Apple,
    /// Implementer code 0xc0
    Ampere,
    /// Implementer code 0x6d
    Microsoft,
    /// Implementer code 0x4e
    Nvidia,
    /// Any implementer code this catalog does not know
    Unknown,
}

/// The implementer that an 8-bit implementer code denotes; codes outside the
/// catalog map to `Unknown`.
pub open spec fn implementer_of_code(value: u64) -> Implementer {
    if value == 0x41 {
        Implementer::Arm
    } else if value == 0x46 {
        Implementer::Fujitsu
    } else if value == 0x61 {
        Implementer::Apple
    } else if value == 0xc0 {
        Implementer::Ampere
    } else if value == 0x6d {
        Implementer::Microsoft
    } else if value == 0x4e {
        Implementer::Nvidia
    } else {
        Implementer::Unknown
    }
}

impl Implementer {
    /// Decode an implementer code; an uncataloged code is an error.
    pub fn try_from(value: u64) -> (r: Result<Implementer, &'static str>)
        ensures
            r matches Ok(i) ==> i == implementer_of_code(value) && i != Implementer::Unknown,
            r is Err <==> implementer_of_code(value) == Implementer::Unknown,
    {
        if value == 0x41 {
            Ok(Implementer::Arm)
        } else if value == 0x46 {
            Ok(Implementer::Fujitsu)
        } else if value == 0x61 {
            Ok(Implementer::Apple)
        } else if value == 0xc0 {
            Ok(Implementer::Ampere)
        } else if value == 0x6d {
            Ok(Implementer::Microsoft)
        } else if value == 0x4e {
            Ok(Implementer::Nvidia)
        } else {
            Err("unknown implementer")
        }
    }

    /// The implementer's name.
    pub fn as_str(&self) -> (r: &'static str)
        ensures
            r@ == spec_implementer_name(*self),
    {
        match self {
            Implementer::Arm => "Arm",
            Implementer::Fujitsu => "Fujitsu",
            Implementer::Apple => "Apple",
            Implementer::Ampere => "Ampere",
            Implementer::Microsoft => "Microsoft",
            Implementer::Nvidia => "Nvidia",
            Implementer::Unknown => "Unknown",
        }
    }
}

/// The name that `Implementer::as_str` returns.
pub open spec fn spec_implementer_name(i: Implementer) -> Seq<char> {
    match i {
        Implementer::Arm => "Arm"@,
        Implementer::Fujitsu => "Fujitsu"@,
        Implementer::Apple => "Apple"@,
        Implementer::Ampere => "Ampere"@,
        Implementer::Microsoft => "Microsoft"@,
        Implementer::Nvidia => "Nvidia"@,
        Implementer::Unknown => "Unknown"@,
    }
}

/// The architecture tag of MIDR_EL1. On every AArch64 core the field holds
/// `IDRegisters`: the architecture version is described by the ID register
/// scheme instead.
#[derive(Clone, Copy, Eq, PartialEq, Structural, Debug)]
pub enum Architecture {
    /// Architecture tag 0x1
    Armv4,
    /// Architecture tag 0x2
    Armv4T,
    /// Architecture tag 0x3
    Armv5,
    /// Architecture tag 0x4
    Armv5T,
    /// Architecture tag 0x5
    Armv5TE,
    /// Architecture tag 0x6
    Armv5TEJ,
    /// Architecture tag 0x7: see the ID registers
    IDRegisters,
    /// Any other architecture tag
    Unknown,
}

/// The architecture that a 4-bit architecture tag denotes; tags outside the
/// catalog map to `Unknown`.
pub open spec fn architecture_of_code(value: u64) -> Architecture {
    if value == 0x01 {
        Architecture::Armv4
    } else if value == 0x02 {
        Architecture::Armv4T
    } else if value == 0x03 {
        Architecture::Armv5
    } else if value == 0x04 {
        Architecture::Armv5T
    } else if value == 0x05 {
        Architecture::Armv5TE
    } else if value == 0x06 {
        Architecture::Armv5TEJ
    } else if value == 0x07 {
        Architecture::IDRegisters
    } else {
        Architecture::Unknown
    }
}

impl Architecture {
    /// Decode an architecture tag; a tag outside the catalog is an error.
    pub fn try_from(value: u64) -> (r: Result<Architecture, &'static str>)
        ensures
            r matches Ok(a) ==> a == architecture_of_code(value) && a != Architecture::Unknown,
            r is Err <==> architecture_of_code(value) == Architecture::Unknown,
    {
        if value == 0x01 {
            Ok(Architecture::Armv4)
        } else if value == 0x02 {
            Ok(Architecture::Armv4T)
        } else if value == 0x03 {
            Ok(Architecture::Armv5)
        } else if value == 0x04 {
            Ok(Architecture::Armv5T)
        } else if value == 0x05 {
            Ok(Architecture::Armv5TE)
        } else if value == 0x06 {
            Ok(Architecture::Armv5TEJ)
        } else if value == 0x07 {
            Ok(Architecture::IDRegisters)
        } else {
            Err("Value greater than 0x07")
        }
    }

    /// The architecture tag's name.
    pub fn as_str(&self) -> (r: &'static str)
        ensures
            r@ == spec_architecture_name(*self),
    {
        match self {
            Architecture::Armv4 => "Armv4",
            Architecture::Armv4T => "Armv4T",
            Architecture::Armv5 => "Armv5",
            Architecture::Armv5T => "Armv5T",
            Architecture::Armv5TE => "Armv5TE",
            Architecture::Armv5TEJ => "Armv5TEJ",
            Architecture::IDRegisters => "ID Registers",
            Architecture::Unknown => "unknown",
        }
    }
}

/// The name that `Architecture::as_str` returns.
pub open spec fn spec_architecture_name(a: Architecture) -> Seq<char> {
    match a {
        Architecture::Armv4 => "Armv4"@,
        Architecture::Armv4T => "Armv4T"@,
        Architecture::Armv5 => "Armv5"@,
        Architecture::Armv5T => "Armv5T"@,
        Architecture::Armv5TE => "Armv5TE"@,
        Architecture::Armv5TEJ => "Armv5TEJ"@,
        Architecture::IDRegisters => "ID Registers"@,
        Architecture::Unknown => "unknown"@,
    }
}

/// Shift of the implementer field within MIDR_EL1.
pub const MIDR_IMPLEMENTOR_SHIFT: u64 = 24;

/// Shift of the variant field within MIDR_EL1.
pub const MIDR_VARIANT_SHIFT: u64 = 20;

/// Shift of the architecture field within MIDR_EL1.
pub const MIDR_ARCHITECTURE_SHIFT: u64 = 16;

/// Shift of the part-number field within MIDR_EL1.
pub const MIDR_PART_NUM_SHIFT: u64 = 4;

/// Shift of the revision field within MIDR_EL1.
pub const MIDR_REVISION_SHIFT: u64 = 0;

/// Mask of the implementer field, applied after the shift: 8 bits.
pub const MIDR_IMPLEMENTOR_MASK: u64 = 0xff;

/// Mask of the variant field, applied after the shift: 4 bits.
pub const MIDR_VARIANT_MASK: u64 = 0xf;

/// Mask of the architecture field, applied after the shift: 4 bits.
pub const MIDR_ARCHITECTURE_MASK: u64 = 0xf;

/// Mask of the part-number field, applied after the shift: 12 bits.
pub const MIDR_PART_NUM_MASK: u64 = 0xfff;

/// Mask of the revision field, applied after the shift: 4 bits.
pub const MIDR_REVISION_MASK: u64 = 0xf;

/// A MIDR_EL1 register, decoded into its five fields.
#[derive(Clone, Copy, Debug)]
pub struct Midr {
    implementer: Implementer,
    variant: u64,
    architecture: Architecture,
    part_num: u64,
    revision: u64,
}

impl Midr {
    /// The decoded implementer.
    pub closed spec fn spec_implementer(self) -> Implementer {
        self.implementer
    }

    /// The decoded variant field.
    pub closed spec fn spec_variant(self) -> u64 {
        self.variant
    }

    /// The decoded architecture tag.
    pub closed spec fn spec_architecture(self) -> Architecture {
        self.architecture
    }

    /// The decoded part number.
    pub closed spec fn spec_part_num(self) -> u64 {
        self.part_num
    }

    /// The decoded revision field.
    pub closed spec fn spec_revision(self) -> u64 {
        self.revision
    }

    /// Decode a raw MIDR_EL1 value into its five fields. Implementer codes
    /// and architecture tags outside the catalogs decode to `Unknown`.
    pub fn extract_parts(midr: u64) -> (r: Midr)
        ensures
            r.spec_implementer() == implementer_of_code(
                spec_extract(midr, MIDR_IMPLEMENTOR_SHIFT, MIDR_IMPLEMENTOR_MASK),
            ),
            r.spec_variant() == spec_extract(midr, MIDR_VARIANT_SHIFT, MIDR_VARIANT_MASK),
            r.spec_architecture() == architecture_of_code(
                spec_extract(midr, MIDR_ARCHITECTURE_SHIFT, MIDR_ARCHITECTURE_MASK),
            ),
            r.spec_part_num() == spec_extract(midr, MIDR_PART_NUM_SHIFT, MIDR_PART_NUM_MASK),
            r.spec_revision() == spec_extract(midr, MIDR_REVISION_SHIFT, MIDR_REVISION_MASK),
    {
        let implementer = extract(midr, MIDR_IMPLEMENTOR_SHIFT, MIDR_IMPLEMENTOR_MASK);
        let variant = extract(midr, MIDR_VARIANT_SHIFT, MIDR_VARIANT_MASK);
        let architecture = extract(midr, MIDR_ARCHITECTURE_SHIFT, MIDR_ARCHITECTURE_MASK);
        let part_num = extract(midr, MIDR_PART_NUM_SHIFT, MIDR_PART_NUM_MASK);
        let revision = extract(midr, MIDR_REVISION_SHIFT, MIDR_REVISION_MASK);

        Midr {
            implementer: match Implementer::try_from(implementer) {
                Ok(im) => im,
                Err(_) => Implementer::Unknown,
            },
            variant,
            architecture: match Architecture::try_from(architecture) {
                Ok(arch) => arch,
                Err(_) => Architecture::Unknown,
            },
            part_num,
            revision,
        }
    }

    /// The decoded implementer.
    pub fn implementer(&self) -> (r: Implementer)
        ensures
            r == self.spec_implementer(),
    {
        self.implementer
    }

    /// The decoded variant field.
    pub fn variant(&self) -> (r: u64)
        ensures
            r == self.spec_variant(),
    {
        self.variant
    }

    /// The decoded architecture tag.
    pub fn architecture(&self) -> (r: Architecture)
        ensures
            r == self.spec_architecture(),
    {
        self.architecture
    }

    /// The decoded part number.
    pub fn part_num(&self) -> (r: u64)
        ensures
            r == self.spec_part_num(),
    {
        self.part_num
    }

    /// The decoded revision field.
    pub fn revision(&self) -> (r: u64)
        ensures
            r == self.spec_revision(),
    {
        self.revision
    }

    /// Does the register name this implementer?
    pub fn check_implementer(&self, im: Implementer) -> (r: bool)
        ensures
            r == (self.spec_implementer() == im),
    {
        self.implementer == im
    }

    /// Is the implementer Arm?
    pub fn is_arm(&self) -> (r: bool)
        ensures
            r == (self.spec_implementer() == Implementer::Arm),
    {
        self.implementer == Implementer::Arm
    }

    /// Is the implementer Apple?
    pub fn is_apple(&self) -> (r: bool)
        ensures
            r == (self.spec_implementer() == Implementer::Apple),
    {
        self.implementer == Implementer::Apple
    }

    /// Does the variant field hold this value?
    pub fn check_variant(&self, im: u64) -> (r: bool)
        ensures
            r == (self.spec_variant() == im),
    {
        self.variant == im
    }

    /// Does the register name this architecture tag?
    pub fn check_architecture(&self, arch: Architecture) -> (r: bool)
        ensures
            r == (self.spec_architecture() == arch),
    {
        self.architecture == arch
    }

    /// Does the part-number field hold this value?
    pub fn check_part_num(&self, part_num: u64) -> (r: bool)
        ensures
            r == (self.spec_part_num() == part_num),
    {
        self.part_num == part_num
    }

    /// Does the part-number field hold either of these values?
    pub fn check_part_num_or(&self, part_num0: u64, part_num1: u64) -> (r: bool)
        ensures
            r == (self.spec_part_num() == part_num0 || self.spec_part_num() == part_num1),
    {
        self.part_num == part_num0 || self.part_num == part_num1
    }

    /// Does the revision field hold this value?
    pub fn check_revision(&self, im: u64) -> (r: bool)
        ensures
            r == (self.spec_revision() == im),
    {
        self.revision == im
    }
}

/// A MIDR_EL1 reading: `Known` carries the decoded register of an AArch64
/// core; `Unknown` records that the executing processor has no such register
/// (it is not an AArch64 core), so no core identity can be derived.
#[derive(Clone, Copy, Debug)]
pub enum MidrEL1 {
    /// The executing processor is not an AArch64 core.
    Unknown,
    /// A decoded MIDR_EL1 value.
    Known(Midr),
}

/// Builds a `Midr` field by field; every field that is not set defaults to
/// zero or `Unknown`.
pub struct MidrBuilder {
    /// The implementer to store, if set.
    pub implementer: Option<Implementer>,
    /// The variant field to store, if set.
    pub variant: Option<u64>,
    /// The architecture tag to store, if set.
    pub architecture: Option<Architecture>,
    /// The part number to store, if set.
    pub part_num: Option<u64>,
    /// The revision field to store, if set.
    pub revision: Option<u64>,
}

impl MidrBuilder {
    /// A builder with no field set.
    pub fn new() -> (r: MidrBuilder)
        ensures
            r.implementer is None,
            r.variant is None,
            r.architecture is None,
            r.part_num is None,
            r.revision is None,
    {
        MidrBuilder {
            implementer: None,
            variant: None,
            architecture: None,
            part_num: None,
            revision: None,
        }
    }

    /// Set the implementer.
    pub fn implementer(self, im: Implementer) -> (r: MidrBuilder)
        ensures
            r.implementer == Some(im),
            r.variant == self.variant,
            r.architecture == self.architecture,
            r.part_num == self.part_num,
            r.revision == self.revision,
    {
        MidrBuilder { implementer: Some(im), ..self }
    }

    /// Set the variant field.
    pub fn variant(self, var: u64) -> (r: MidrBuilder)
        ensures
            r.variant == Some(var),
            r.implementer == self.implementer,
            r.architecture == self.architecture,
            r.part_num == self.part_num,
            r.revision == self.revision,
    {
        MidrBuilder { variant: Some(var), ..self }
    }

    /// Set the architecture tag.
    pub fn architecture(self, arch: Architecture) -> (r: MidrBuilder)
        ensures
            r.architecture == Some(arch),
            r.implementer == self.implementer,
            r.variant == self.variant,
            r.part_num == self.part_num,
            r.revision == self.revision,
    {
        MidrBuilder { architecture: Some(arch), ..self }
    }

    /// Set the part number.
    pub fn part_num(self, part: u64) -> (r: MidrBuilder)
        ensures
            r.part_num == Some(part),
            r.implementer == self.implementer,
            r.variant == self.variant,
            r.architecture == self.architecture,
            r.revision == self.revision,
    {
        MidrBuilder { part_num: Some(part), ..self }
    }

    /// Set the revision field.
    pub fn revision(self, rev: u64) -> (r: MidrBuilder)
        ensures
            r.revision == Some(rev),
            r.implementer == self.implementer,
            r.variant == self.variant,
            r.architecture == self.architecture,
            r.part_num == self.part_num,
    {
        MidrBuilder { revision: Some(rev), ..self }
    }

    /// The register the builder describes: set fields keep their values,
    /// unset fields are zero or `Unknown`.
    pub fn build(&self) -> (r: Midr)
        ensures
            r.spec_implementer() == (match self.implementer {
                Some(im) => im,
                None => Implementer::Unknown,
            }),
            r.spec_variant() == (match self.variant {
                Some(v) => v,
                None => 0u64,
            }),
            r.spec_architecture() == (match self.architecture {
                Some(a) => a,
                None => Architecture::Unknown,
            }),
            r.spec_part_num() == (match self.part_num {
                Some(p) => p,
                None => 0u64,
            }),
            r.spec_revision() == (match self.revision {
                Some(rev) => rev,
                None => 0u64,
            }),
    {
        Midr {
            implementer: match self.implementer {
                Some(im) => im,
                None => Implementer::Unknown,
            },
            variant: match self.variant {
                Some(v) => v,
                None => 0,
            },
            architecture: match self.architecture {
                Some(a) => a,
                None => Architecture::Unknown,
            },
            part_num: match self.part_num {
                Some(p) => p,
                None => 0,
            },
            revision: match self.revision {
                Some(rev) => rev,
                None => 0,
            },
        }
    }
}

} // verus!
