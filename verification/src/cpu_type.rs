//! An opinionated core-model detector for AArch64.
//!
//! A catalog of (core, implementer, part-number matcher) entries is scanned
//! in declaration order against a decoded main ID register; the first entry
//! whose implementer and part number both match names the core. Ordering is
//! load-bearing: two entries may carry the same part number under different
//! implementers (implementer equality is checked first), and big.LITTLE
//! pairs share one catalog entry through an either-of part-number matcher.

use vstd::prelude::*;

use crate::midr::Implementer;
use crate::midr::Midr;
use crate::midr::MidrEL1;

verus! {

/// Core kind
#[non_exhaustive]
#[derive(Debug, Hash, Eq, PartialEq, Structural, Clone, Copy)]
pub enum Core {
    /// Arm Neoverse E1 core
    NeoverseE1,
    /// Arm Neoverse N1 core
    NeoverseN1,
    /// Arm Neoverse N2 core
    NeoverseN2,
    /// Arm Neoverse N3 core
    NeoverseN3,
    /// Arm Neoverse V1 core
    NeoverseV1,
    /// Arm Neoverse V2 core
    NeoverseV2,
    /// Arm Neoverse V3 core
    NeoverseV3,
    /// Fujitsu A64FX
    A64FX,
    /// Fujitsu MONAKA
    MONAKA,
    /// Apple M1
    AppleM1,
    /// Apple M1 Pro
    AppleM1Pro,
    /// Apple M1 Max
    AppleM1Max,
    /// Apple M2
    AppleM2,
    /// Apple M2 Pro
    AppleM2Pro,
    /// Apple M2 Max
    AppleM2Max,
    /// Apple M3
    AppleM3,
    /// Apple M3 Pro
    AppleM3Pro,
    /// Apple M3 Max
    AppleM3Max,
    /// Apple M4
    AppleM4,
    /// Apple M4 Max
    AppleM4Max,
    /// Ampere 1
    Ampere1,
    /// Ampere 1A
    Ampere1A,
    /// Ampere 1B
    Ampere1B,
    /// Apple A14
    AppleA14,
    /// Apple A15
    AppleA15,
    /// Apple A16
    AppleA16,
    /// Apple A18
    AppleA18,
    /// Apple A18 Pro
    AppleA18Pro,
    /// Microsoft Azure Cobalt 100 (custom N2)
    MicrosoftAzureCobalt100,
    /// Nvidia Olympus
    NvidiaOlympus,
}

/// Why no core identity could be produced. The two cases are deliberately
/// distinct: `UnsupportedArchitecture` means the executing processor is not
/// an AArch64 core at all, while `UnknownCore` means a real AArch64 core
/// whose (implementer, part number) pair the catalog does not list yet.
#[derive(Debug, Hash, Eq, PartialEq, Structural, Clone, Copy)]
pub enum DetectionError {
    /// The executing instruction-set architecture is not AArch64.
    UnsupportedArchitecture,
    /// An AArch64 core whose implementer and part number are not cataloged.
    UnknownCore,
}

/// A part-number matcher: one exact value, or either of two values for a
/// big.LITTLE pair grouped under one public core name.
#[derive(Eq, PartialEq, Structural, Clone, Copy, Debug)]
pub enum PartNumMatcher {
    /// The part number must equal this value.
    One(u64),
    /// The part number must equal either value.
    Or(u64, u64),
}

impl PartNumMatcher {
    /// Does the reading's part number fall in this matcher's value set?
    /// An `Unknown` reading matches nothing.
    pub open spec fn spec_matches(self, value: MidrEL1) -> bool {
        match value {
            MidrEL1::Unknown => false,
            MidrEL1::Known(midr) => match self {
                PartNumMatcher::One(one) => midr.spec_part_num() == one,
                PartNumMatcher::Or(one, two) => midr.spec_part_num() == one
                    || midr.spec_part_num() == two,
            },
        }
    }

    /// Test the matcher against a MIDR_EL1 reading.
    pub fn check_match(&self, value: &MidrEL1) -> (r: bool)
        ensures
            r == self.spec_matches(*value),
    {
        match value {
            MidrEL1::Unknown => false,
            MidrEL1::Known(midr) => match self {
                PartNumMatcher::One(one) => midr.check_part_num(*one),
                PartNumMatcher::Or(one, two) => midr.check_part_num(*one)
                    || midr.check_part_num(*two),
            },
        }
    }
}

/// One catalog entry: the core name that a (implementer, part number)
/// combination denotes.
#[derive(Eq, PartialEq, Structural, Clone, Copy, Debug)]
pub struct CoreDescription {
    /// The core the entry names.
    pub core: Core,
    /// The implementer whose code must match.
    pub implementer: Implementer,
    /// The part numbers that denote this core.
    pub variant: PartNumMatcher,
}

impl CoreDescription {
    /// Does this entry name the given register's core?
    pub open spec fn spec_matches(self, midr: Midr) -> bool {
        midr.spec_implementer() == self.implementer && self.variant.spec_matches(
            MidrEL1::Known(midr),
        )
    }
}

/// Apple A14 energy-efficient core (Icestorm).
pub const APPLE_ICESTORM_PART_NUM: u64 = 0x20;

/// Apple A14 high-performance core (Firestorm).
pub const APPLE_FIRESTORM_PART_NUM: u64 = 0x21;

/// Apple A15 energy-efficient core (Blizzard).
pub const APPLE_BLIZZARD_PART_NUM: u64 = 0x30;

/// Apple A15 high-performance core (Avalanche).
pub const APPLE_AVALANCHE_PART_NUM: u64 = 0x31;

/// Apple M1 energy-efficient core (Icestorm).
pub const APPLE_CPU_PART_M1_ICESTORM: u64 = 0x022;

/// Apple M1 high-performance core (Firestorm).
pub const APPLE_CPU_PART_M1_FIRESTORM: u64 = 0x023;

/// Apple M1 Pro energy-efficient core.
pub const APPLE_CPU_PART_M1_ICESTORM_PRO: u64 = 0x024;

/// Apple M1 Pro high-performance core.
pub const APPLE_CPU_PART_M1_FIRESTORM_PRO: u64 = 0x025;

/// Apple M1 Max energy-efficient core.
pub const APPLE_CPU_PART_M1_ICESTORM_MAX: u64 = 0x028;

/// Apple M1 Max high-performance core.
pub const APPLE_CPU_PART_M1_FIRESTORM_MAX: u64 = 0x029;

/// Apple M2 energy-efficient core (Blizzard).
pub const APPLE_CPU_PART_M2_BLIZZARD: u64 = 0x032;

/// Apple M2 high-performance core (Avalanche).
pub const APPLE_CPU_PART_M2_AVALANCHE: u64 = 0x033;

/// Apple M2 Pro energy-efficient core.
pub const APPLE_CPU_PART_M2_BLIZZARD_PRO: u64 = 0x034;

/// Apple M2 Pro high-performance core.
pub const APPLE_CPU_PART_M2_AVALANCHE_PRO: u64 = 0x035;

/// Apple M2 Max energy-efficient core.
pub const APPLE_CPU_PART_M2_BLIZZARD_MAX: u64 = 0x038;

/// Apple M2 Max high-performance core.
pub const APPLE_CPU_PART_M2_AVALANCHE_MAX: u64 = 0x039;

/// Apple A16 energy-efficient core (Sawtooth).
pub const APPLE_SAWTOOTH_PART_NUM: u64 = 0x40;

/// Apple A16 high-performance core (Everest).
pub const APPLE_EVEREST_PART_NUM: u64 = 0x41;

/// Apple M3 energy-efficient core (Ibiza).
pub const APPLE_ECORE_IBIZA_PART_NUM: u64 = 0x42;

/// Apple M3 high-performance core (Ibiza).
pub const APPLE_PCORE_IBIZA_PART_NUM: u64 = 0x43;

/// Apple M3 Pro energy-efficient core (Lobos).
pub const APPLE_ECORE_LOBOS_PART_NUM: u64 = 0x44;

/// Apple M3 Pro high-performance core (Lobos).
pub const APPLE_PCORE_LOBOS_PART_NUM: u64 = 0x45;

/// Apple M3 Max energy-efficient core (Palma).
pub const APPLE_ECORE_PALMA_PART_NUM: u64 = 0x48;

/// Apple M3 Max high-performance core (Palma).
pub const APPLE_PCORE_PALMA_PART_NUM: u64 = 0x49;

/// Apple M4 energy-efficient core (Donan).
pub const APPLE_ECORE_DONAN_PART_NUM: u64 = 0x52;

/// Apple M4 high-performance core (Donan).
pub const APPLE_PCORE_DONAN_PART_NUM: u64 = 0x53;

/// Apple A18 Pro energy-efficient core (Tahiti).
pub const APPLE_ECORE_TAHITI_PART_NUM: u64 = 0x60;

/// Apple A18 Pro high-performance core (Tahiti).
pub const APPLE_PCORE_TAHITI_PART_NUM: u64 = 0x61;

/// Apple A18 energy-efficient core (Tupai).
pub const APPLE_ECORE_TUPAI_PART_NUM: u64 = 0x6a;

/// Apple A18 high-performance core (Tupai).
pub const APPLE_PCORE_TUPAI_PART_NUM: u64 = 0x6b;

/// Arm Neoverse E1.
pub const ARM_NEOVERSE_E1_PART_NUM: u64 = 0xD4A;

/// Arm Neoverse N1.
pub const ARM_NEOVERSE_N1_PART_NUM: u64 = 0xD0C;

/// Arm Neoverse N2.
pub const ARM_NEOVERSE_N2_PART_NUM: u64 = 0xD49;

/// Arm Neoverse N3.
pub const ARM_NEOVERSE_N3_PART_NUM: u64 = 0xD8E;

/// Arm Neoverse V1.
pub const ARM_NEOVERSE_V1_PART_NUM: u64 = 0xD40;

/// Arm Neoverse V2.
pub const ARM_NEOVERSE_V2_PART_NUM: u64 = 0xD4F;

/// Arm Neoverse V3.
pub const ARM_NEOVERSE_V3_PART_NUM: u64 = 0xD84;

/// Ampere 1.
pub const AMPERE_1_PART_NUM: u64 = 0xac3;

/// Ampere 1A.
pub const AMPERE_1A_PART_NUM: u64 = 0xac4;

/// Ampere 1B.
pub const AMPERE_1B_PART_NUM: u64 = 0xac5;

/// Fujitsu A64FX.
pub const FUJITSU_A64FX_PART_NUM: u64 = 0x001;

/// Fujitsu MONAKA.
pub const FUJITSU_MONAKA_PART_NUM: u64 = 0x003;

/// Microsoft Azure Cobalt 100; the part number deliberately repeats the
/// Neoverse N2 value, so the implementer check alone tells them apart.
pub const MICROSOFT_AZURE_COBALT100_PART_NUM: u64 = 0xd49;

/// Nvidia Olympus.
pub const NVIDIA_OLYMPUS_PART_NUM: u64 = 0x010;

/// The core catalog, in the declaration order that resolution scans.
pub open spec fn spec_cores() -> Seq<CoreDescription> {
    seq![
        CoreDescription {
            core: Core::NeoverseE1,
            implementer: Implementer::Arm,
            variant: PartNumMatcher::One(ARM_NEOVERSE_E1_PART_NUM),
        },
        CoreDescription {
            core: Core::NeoverseN1,
            implementer: Implementer::Arm,
            variant: PartNumMatcher::One(ARM_NEOVERSE_N1_PART_NUM),
        },
        CoreDescription {
            core: Core::NeoverseN2,
            implementer: Implementer::Arm,
            variant: PartNumMatcher::One(ARM_NEOVERSE_N2_PART_NUM),
        },
        CoreDescription {
            core: Core::NeoverseN3,
            implementer: Implementer::Arm,
            variant: PartNumMatcher::One(ARM_NEOVERSE_N3_PART_NUM),
        },
        CoreDescription {
            core: Core::NeoverseV1,
            implementer: Implementer::Arm,
            variant: PartNumMatcher::One(ARM_NEOVERSE_V1_PART_NUM),
        },
        CoreDescription {
            core: Core::NeoverseV2,
            implementer: Implementer::Arm,
            variant: PartNumMatcher::One(ARM_NEOVERSE_V2_PART_NUM),
        },
        CoreDescription {
            core: Core::NeoverseV3,
            implementer: Implementer::Arm,
            variant: PartNumMatcher::One(ARM_NEOVERSE_V3_PART_NUM),
        },
        CoreDescription {
            core: Core::Ampere1,
            implementer: Implementer::Ampere,
            variant: PartNumMatcher::One(AMPERE_1_PART_NUM),
        },
        CoreDescription {
            core: Core::Ampere1A,
            implementer: Implementer::Ampere,
            variant: PartNumMatcher::One(AMPERE_1A_PART_NUM),
        },
        CoreDescription {
            core: Core::Ampere1B,
            implementer: Implementer::Ampere,
            variant: PartNumMatcher::One(AMPERE_1B_PART_NUM),
        },
        CoreDescription {
            core: Core::AppleM1,
            implementer: Implementer::Apple,
            variant: PartNumMatcher::Or(
                APPLE_CPU_PART_M1_ICESTORM,
                APPLE_CPU_PART_M1_FIRESTORM,
            ),
        },
        CoreDescription {
            core: Core::AppleM1Pro,
            implementer: Implementer::Apple,
            variant: PartNumMatcher::Or(
                APPLE_CPU_PART_M1_ICESTORM_PRO,
                APPLE_CPU_PART_M1_FIRESTORM_PRO,
            ),
        },
        CoreDescription {
            core: Core::AppleM1Max,
            implementer: Implementer::Apple,
            variant: PartNumMatcher::Or(
                APPLE_CPU_PART_M1_ICESTORM_MAX,
                APPLE_CPU_PART_M1_FIRESTORM_MAX,
            ),
        },
        CoreDescription {
            core: Core::AppleM2,
            implementer: Implementer::Apple,
            variant: PartNumMatcher::Or(
                APPLE_CPU_PART_M2_BLIZZARD,
                APPLE_CPU_PART_M2_AVALANCHE,
            ),
        },
        CoreDescription {
            core: Core::AppleM2Pro,
            implementer: Implementer::Apple,
            variant: PartNumMatcher::Or(
                APPLE_CPU_PART_M2_BLIZZARD_PRO,
                APPLE_CPU_PART_M2_AVALANCHE_PRO,
            ),
        },
        CoreDescription {
            core: Core::AppleM2Max,
            implementer: Implementer::Apple,
            variant: PartNumMatcher::Or(
                APPLE_CPU_PART_M2_BLIZZARD_MAX,
                APPLE_CPU_PART_M2_AVALANCHE_MAX,
            ),
        },
        CoreDescription {
            core: Core::AppleM3,
            implementer: Implementer::Apple,
            variant: PartNumMatcher::Or(
                APPLE_ECORE_IBIZA_PART_NUM,
                APPLE_PCORE_IBIZA_PART_NUM,
            ),
        },
        CoreDescription {
            core: Core::AppleM3Pro,
            implementer: Implementer::Apple,
            variant: PartNumMatcher::Or(
                APPLE_ECORE_LOBOS_PART_NUM,
                APPLE_PCORE_LOBOS_PART_NUM,
            ),
        },
        CoreDescription {
            core: Core::AppleM3Max,
            implementer: Implementer::Apple,
            variant: PartNumMatcher::Or(
                APPLE_ECORE_PALMA_PART_NUM,
                APPLE_PCORE_PALMA_PART_NUM,
            ),
        },
        CoreDescription {
            core: Core::AppleM4,
            implementer: Implementer::Apple,
            variant: PartNumMatcher::Or(
                APPLE_ECORE_DONAN_PART_NUM,
                APPLE_PCORE_DONAN_PART_NUM,
            ),
        },
        CoreDescription {
            core: Core::AppleA14,
            implementer: Implementer::Apple,
            variant: PartNumMatcher::Or(APPLE_ICESTORM_PART_NUM, APPLE_FIRESTORM_PART_NUM),
        },
        CoreDescription {
            core: Core::AppleA15,
            implementer: Implementer::Apple,
            variant: PartNumMatcher::Or(APPLE_BLIZZARD_PART_NUM, APPLE_AVALANCHE_PART_NUM),
        },
        CoreDescription {
            core: Core::AppleA16,
            implementer: Implementer::Apple,
            variant: PartNumMatcher::Or(APPLE_SAWTOOTH_PART_NUM, APPLE_EVEREST_PART_NUM),
        },
        CoreDescription {
            core: Core::AppleA18,
            implementer: Implementer::Apple,
            variant: PartNumMatcher::Or(
                APPLE_ECORE_TUPAI_PART_NUM,
                APPLE_PCORE_TUPAI_PART_NUM,
            ),
        },
        CoreDescription {
            core: Core::AppleA18Pro,
            implementer: Implementer::Apple,
            variant: PartNumMatcher::Or(
                APPLE_ECORE_TAHITI_PART_NUM,
                APPLE_PCORE_TAHITI_PART_NUM,
            ),
        },
        CoreDescription {
            core: Core::A64FX,
            implementer: Implementer::Fujitsu,
            variant: PartNumMatcher::One(FUJITSU_A64FX_PART_NUM),
        },
        CoreDescription {
            core: Core::MONAKA,
            implementer: Implementer::Fujitsu,
            variant: PartNumMatcher::One(FUJITSU_MONAKA_PART_NUM),
        },
        CoreDescription {
            core: Core::MicrosoftAzureCobalt100,
            implementer: Implementer::Microsoft,
            variant: PartNumMatcher::One(MICROSOFT_AZURE_COBALT100_PART_NUM),
        },
        CoreDescription {
            core: Core::NvidiaOlympus,
            implementer: Implementer::Nvidia,
            variant: PartNumMatcher::One(NVIDIA_OLYMPUS_PART_NUM),
        },
    ]
}

/// The first catalog entry that matches the register decides the core;
/// a catalog without a match yields `UnknownCore`.
pub open spec fn spec_resolve(catalog: Seq<CoreDescription>, midr: Midr) -> Result<
    Core,
    DetectionError,
>
    decreases catalog.len(),
{
    if catalog.len() == 0 {
        Err(DetectionError::UnknownCore)
    } else if catalog[0].spec_matches(midr) {
        Ok(catalog[0].core)
    } else {
        spec_resolve(catalog.drop_first(), midr)
    }
}

/// The core catalog as a vector, for scanning.
pub fn cores_catalog() -> (v: Vec<CoreDescription>)
    ensures
        v@ == spec_cores(),
{
    let mut v: Vec<CoreDescription> = Vec::new();
    v.push(
        CoreDescription {
            core: Core::NeoverseE1,
            implementer: Implementer::Arm,
            variant: PartNumMatcher::One(ARM_NEOVERSE_E1_PART_NUM),
        },
    );
    v.push(
        CoreDescription {
            core: Core::NeoverseN1,
            implementer: Implementer::Arm,
            variant: PartNumMatcher::One(ARM_NEOVERSE_N1_PART_NUM),
        },
    );
    v.push(
        CoreDescription {
            core: Core::NeoverseN2,
            implementer: Implementer::Arm,
            variant: PartNumMatcher::One(ARM_NEOVERSE_N2_PART_NUM),
        },
    );
    v.push(
        CoreDescription {
            core: Core::NeoverseN3,
            implementer: Implementer::Arm,
            variant: PartNumMatcher::One(ARM_NEOVERSE_N3_PART_NUM),
        },
    );
    v.push(
        CoreDescription {
            core: Core::NeoverseV1,
            implementer: Implementer::Arm,
            variant: PartNumMatcher::One(ARM_NEOVERSE_V1_PART_NUM),
        },
    );
    v.push(
        CoreDescription {
            core: Core::NeoverseV2,
            implementer: Implementer::Arm,
            variant: PartNumMatcher::One(ARM_NEOVERSE_V2_PART_NUM),
        },
    );
    v.push(
        CoreDescription {
            core: Core::NeoverseV3,
            implementer: Implementer::Arm,
            variant: PartNumMatcher::One(ARM_NEOVERSE_V3_PART_NUM),
        },
    );
    v.push(
        CoreDescription {
            core: Core::Ampere1,
            implementer: Implementer::Ampere,
            variant: PartNumMatcher::One(AMPERE_1_PART_NUM),
        },
    );
    v.push(
        CoreDescription {
            core: Core::Ampere1A,
            implementer: Implementer::Ampere,
            variant: PartNumMatcher::One(AMPERE_1A_PART_NUM),
        },
    );
    v.push(
        CoreDescription {
            core: Core::Ampere1B,
            implementer: Implementer::Ampere,
            variant: PartNumMatcher::One(AMPERE_1B_PART_NUM),
        },
    );
    v.push(
        CoreDescription {
            core: Core::AppleM1,
            implementer: Implementer::Apple,
            variant: PartNumMatcher::Or(
                APPLE_CPU_PART_M1_ICESTORM,
                APPLE_CPU_PART_M1_FIRESTORM,
            ),
        },
    );
    v.push(
        CoreDescription {
            core: Core::AppleM1Pro,
            implementer: Implementer::Apple,
            variant: PartNumMatcher::Or(
                APPLE_CPU_PART_M1_ICESTORM_PRO,
                APPLE_CPU_PART_M1_FIRESTORM_PRO,
            ),
        },
    );
    v.push(
        CoreDescription {
            core: Core::AppleM1Max,
            implementer: Implementer::Apple,
            variant: PartNumMatcher::Or(
                APPLE_CPU_PART_M1_ICESTORM_MAX,
                APPLE_CPU_PART_M1_FIRESTORM_MAX,
            ),
        },
    );
    v.push(
        CoreDescription {
            core: Core::AppleM2,
            implementer: Implementer::Apple,
            variant: PartNumMatcher::Or(
                APPLE_CPU_PART_M2_BLIZZARD,
                APPLE_CPU_PART_M2_AVALANCHE,
            ),
        },
    );
    v.push(
        CoreDescription {
            core: Core::AppleM2Pro,
            implementer: Implementer::Apple,
            variant: PartNumMatcher::Or(
                APPLE_CPU_PART_M2_BLIZZARD_PRO,
                APPLE_CPU_PART_M2_AVALANCHE_PRO,
            ),
        },
    );
    v.push(
        CoreDescription {
            core: Core::AppleM2Max,
            implementer: Implementer::Apple,
            variant: PartNumMatcher::Or(
                APPLE_CPU_PART_M2_BLIZZARD_MAX,
                APPLE_CPU_PART_M2_AVALANCHE_MAX,
            ),
        },
    );
    v.push(
        CoreDescription {
            core: Core::AppleM3,
            implementer: Implementer::Apple,
            variant: PartNumMatcher::Or(
                APPLE_ECORE_IBIZA_PART_NUM,
                APPLE_PCORE_IBIZA_PART_NUM,
            ),
        },
    );
    v.push(
        CoreDescription {
            core: Core::AppleM3Pro,
            implementer: Implementer::Apple,
            variant: PartNumMatcher::Or(
                APPLE_ECORE_LOBOS_PART_NUM,
                APPLE_PCORE_LOBOS_PART_NUM,
            ),
        },
    );
    v.push(
        CoreDescription {
            core: Core::AppleM3Max,
            implementer: Implementer::Apple,
            variant: PartNumMatcher::Or(
                APPLE_ECORE_PALMA_PART_NUM,
                APPLE_PCORE_PALMA_PART_NUM,
            ),
        },
    );
    v.push(
        CoreDescription {
            core: Core::AppleM4,
            implementer: Implementer::Apple,
            variant: PartNumMatcher::Or(
                APPLE_ECORE_DONAN_PART_NUM,
                APPLE_PCORE_DONAN_PART_NUM,
            ),
        },
    );
    v.push(
        CoreDescription {
            core: Core::AppleA14,
            implementer: Implementer::Apple,
            variant: PartNumMatcher::Or(APPLE_ICESTORM_PART_NUM, APPLE_FIRESTORM_PART_NUM),
        },
    );
    v.push(
        CoreDescription {
            core: Core::AppleA15,
            implementer: Implementer::Apple,
            variant: PartNumMatcher::Or(APPLE_BLIZZARD_PART_NUM, APPLE_AVALANCHE_PART_NUM),
        },
    );
    v.push(
        CoreDescription {
            core: Core::AppleA16,
            implementer: Implementer::Apple,
            variant: PartNumMatcher::Or(APPLE_SAWTOOTH_PART_NUM, APPLE_EVEREST_PART_NUM),
        },
    );
    v.push(
        CoreDescription {
            core: Core::AppleA18,
            implementer: Implementer::Apple,
            variant: PartNumMatcher::Or(
                APPLE_ECORE_TUPAI_PART_NUM,
                APPLE_PCORE_TUPAI_PART_NUM,
            ),
        },
    );
    v.push(
        CoreDescription {
            core: Core::AppleA18Pro,
            implementer: Implementer::Apple,
            variant: PartNumMatcher::Or(
                APPLE_ECORE_TAHITI_PART_NUM,
                APPLE_PCORE_TAHITI_PART_NUM,
            ),
        },
    );
    v.push(
        CoreDescription {
            core: Core::A64FX,
            implementer: Implementer::Fujitsu,
            variant: PartNumMatcher::One(FUJITSU_A64FX_PART_NUM),
        },
    );
    v.push(
        CoreDescription {
            core: Core::MONAKA,
            implementer: Implementer::Fujitsu,
            variant: PartNumMatcher::One(FUJITSU_MONAKA_PART_NUM),
        },
    );
    v.push(
        CoreDescription {
            core: Core::MicrosoftAzureCobalt100,
            implementer: Implementer::Microsoft,
            variant: PartNumMatcher::One(MICROSOFT_AZURE_COBALT100_PART_NUM),
        },
    );
    v.push(
        CoreDescription {
            core: Core::NvidiaOlympus,
            implementer: Implementer::Nvidia,
            variant: PartNumMatcher::One(NVIDIA_OLYMPUS_PART_NUM),
        },
    );
    assert(v@ =~= spec_cores());
    v
}

impl Core {
    /// Detect the core that a MIDR_EL1 reading names: scan the catalog in
    /// declaration order and return the first entry whose implementer and
    /// part number both match. An `Unknown` reading is not an AArch64 core
    /// at all; a reading no entry matches is a real but uncataloged core.
    pub fn try_from(value: MidrEL1) -> (r: Result<Core, DetectionError>)
        ensures
            (value is Unknown) ==> r == Err::<Core, DetectionError>(
                DetectionError::UnsupportedArchitecture,
            ),
            value matches MidrEL1::Known(midr) ==> r == spec_resolve(spec_cores(), midr),
    {
        match &value {
            MidrEL1::Unknown => Err(DetectionError::UnsupportedArchitecture),
            MidrEL1::Known(midr_ref) => {
                let midr = *midr_ref;
                let catalog = cores_catalog();
                proof {
                    assert(spec_cores().skip(0) =~= spec_cores());
                }
                let mut i: usize = 0;
                while i < catalog.len()
                    invariant
                        0 <= i <= catalog.len(),
                        value == MidrEL1::Known(midr),
                        catalog@ == spec_cores(),
                        spec_resolve(spec_cores(), midr) == spec_resolve(
                            spec_cores().skip(i as int),
                            midr,
                        ),
                    decreases catalog.len() - i,
                {
                    let entry = &catalog[i];
                    proof {
                        assert(spec_cores().skip(i as int).len() == spec_cores().len() - i);
                        assert(spec_cores().skip(i as int)[0] == spec_cores()[i as int]);
                    }
                    if midr.check_implementer(entry.implementer) && entry.variant.check_match(
                        &MidrEL1::Known(midr),
                    ) {
                        proof {
                            assert(spec_cores().skip(i as int)[0].spec_matches(midr));
                        }
                        return Ok(entry.core);
                    }
                    proof {
                        assert(spec_cores().skip(i as int).drop_first() =~= spec_cores().skip(
                            i as int + 1,
                        ));
                    }
                    i = i + 1;
                }
                proof {
                    assert(spec_cores().skip(spec_cores().len() as int).len() == 0);
                }
                Err(DetectionError::UnknownCore)
            },
        }
    }
}

} // verus!
