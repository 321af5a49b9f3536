//! The feature catalog and its evaluation.
//!
//! Each catalog entry binds a feature identifier to the register bitfield
//! pattern that announces it: a source register, a primary (bit range,
//! value matcher) pair and an optional secondary pair, an architecture
//! version, a category and a description. Evaluation extracts each entry's
//! field from an already-taken register snapshot and tests the matcher;
//! the entries are independent of one another, so no evaluation order is
//! observable in the resulting feature set.

use vstd::prelude::*;

use crate::ARMVersion;
use crate::Category;
use crate::Feature;
use crate::Platform;
use crate::linux_exported_features::contains_feature;
use crate::is_exposed_to_userspace;
use crate::spec_is_exposed;
use crate::registers_info::Register;
use crate::registers_info::RegistersInfo;

verus! {

broadcast use vstd::seq_lib::lemma_seq_contains_after_push;

/// An inclusive range of bit positions within a 64-bit register value,
/// 0-indexed from the least significant bit.
#[derive(Eq, PartialEq, Structural, Hash, Copy, Clone, Debug)]
pub struct BitRange {
    /// The least significant bit of the field.
    pub start: u64,
    /// The most significant bit of the field.
    pub end: u64,
}

impl BitRange {
    /// The number of bits in the field.
    pub open spec fn width(self) -> int {
        self.end - self.start + 1
    }

    /// A range is well formed when it lies within a 64-bit value and its
    /// width is one the extractor supports. The catalog only uses fields of
    /// one, two or four bits; any other width would be a defect in the
    /// catalog itself, and the extractor refuses it rather than silently
    /// truncate.
    pub open spec fn wf(self) -> bool {
        self.start <= self.end && self.end < 64 && (self.width() == 1 || self.width() == 2
            || self.width() == 4)
    }
}

/// The unsigned integer encoded in `range` within `value`:
/// `(value >> start) & ((1 << width) - 1)`.
pub open spec fn spec_extract_range(value: u64, range: BitRange) -> u64 {
    (value >> range.start) & (((1u64 << range.width() as u64) - 1) as u64)
}

/// Extract the bitfield `range` of `value`.
pub fn extract(value: u64, range: BitRange) -> (r: u64)
    requires
        range.wf(),
    ensures
        r == spec_extract_range(value, range),
{
    let shifted_bits = value >> range.start;
    let width = range.end - range.start + 1;
    if width == 4 {
        proof {
            assert(((1u64 << 4u64) - 1) as u64 == 0b1111u64) by (bit_vector);
        }
        shifted_bits & 0b1111
    } else if width == 2 {
        proof {
            assert(((1u64 << 2u64) - 1) as u64 == 0b0011u64) by (bit_vector);
        }
        shifted_bits & 0b0011
    } else {
        proof {
            assert(((1u64 << 1u64) - 1) as u64 == 0b0001u64) by (bit_vector);
        }
        shifted_bits & 0b0001
    }
}

/// A matcher for an extracted field: one exact value, either of two, or any
/// of three. Evaluation never fails; a field value outside the listed
/// constants simply does not match.
#[derive(Eq, PartialEq, Structural, Hash, Copy, Clone, Debug)]
pub enum ValueMatcher {
    /// The field must equal this value.
    Value(u64),
    /// The field must equal either value.
    Or(u64, u64),
    /// The field must equal one of three values.
    Any(u64, u64, u64),
}

impl ValueMatcher {
    /// Does the extracted field fall in this matcher's value set?
    pub open spec fn spec_matches(self, bits: u64) -> bool {
        match self {
            ValueMatcher::Value(val) => bits == val,
            ValueMatcher::Or(a, b) => bits == a || bits == b,
            ValueMatcher::Any(a, b, c) => bits == a || bits == b || bits == c,
        }
    }

    /// Test the matcher against an extracted field.
    pub fn check_match(&self, bits: u64) -> (r: bool)
        ensures
            r == self.spec_matches(bits),
    {
        match self {
            ValueMatcher::Value(val) => bits == *val,
            ValueMatcher::Or(a, b) => bits == *a || bits == *b,
            ValueMatcher::Any(a, b, c) => bits == *a || bits == *b || bits == *c,
        }
    }
}

/// A register condition: a bit range and the values that announce the
/// feature there. `Fill` is the placeholder for entries without a secondary
/// condition; it matches nothing.
#[derive(Eq, PartialEq, Structural, Hash, Copy, Clone, Debug)]
pub enum RegisterMatches {
    /// The placeholder condition; it never matches.
    Fill,
    /// A bit range of the entry's register and the matcher for it.
    RegisterMatch(BitRange, ValueMatcher),
}

impl RegisterMatches {
    /// The condition's bit range, if any, is well formed.
    pub open spec fn wf(self) -> bool {
        match self {
            RegisterMatches::Fill => true,
            RegisterMatches::RegisterMatch(range, _) => range.wf(),
        }
    }

    /// Does the condition hold of a register value? `Fill` holds of none.
    pub open spec fn spec_matches(self, register: u64) -> bool {
        match self {
            RegisterMatches::Fill => false,
            RegisterMatches::RegisterMatch(range, value) => value.spec_matches(
                spec_extract_range(register, range),
            ),
        }
    }

    /// Test the condition against a register value.
    pub fn check_match(&self, register: u64) -> (r: bool)
        requires
            self.wf(),
        ensures
            r == self.spec_matches(register),
    {
        match self {
            RegisterMatches::Fill => false,
            RegisterMatches::RegisterMatch(range, value) => {
                let bits = extract(register, *range);
                value.check_match(bits)
            },
        }
    }
}

/// One catalog entry: the register conditions under which a feature is
/// present, together with its version, category and description.
#[derive(Copy, Clone, Debug)]
pub struct FeatureDescription {
    /// The feature the entry announces.
    pub feature: Feature,
    /// The architecture version that introduced the feature.
    pub version: ARMVersion,
    /// The register both of the entry's conditions read.
    pub register: Register,
    /// The primary condition.
    pub matcher: RegisterMatches,
    /// The secondary condition: an alternative encoding of the same
    /// feature, or the `Fill` placeholder when there is none. The
    /// pointer-authentication entries list their second register field
    /// here, so either field alone announces the feature; the reference
    /// manual arguably asks for both fields jointly, but the either-of
    /// reading is kept on purpose rather than silently tightened.
    pub matcher2: RegisterMatches,
    /// The capability family the feature belongs to.
    pub category: Category,
    /// A human-readable description of the feature.
    pub description: &'static str,
}

impl FeatureDescription {
    /// Both of the entry's conditions are well formed.
    pub open spec fn wf(self) -> bool {
        self.matcher.wf() && self.matcher2.wf()
    }

    /// An entry matches a snapshot when its primary condition, or failing
    /// that its secondary one, holds of the entry's register. Both read the
    /// same register: the secondary is an alternative bit pattern, and the
    /// first condition to hold wins.
    pub open spec fn spec_matches(self, cpu_info: RegistersInfo) -> bool {
        self.matcher.spec_matches(cpu_info.spec_read(self.register)) || self.matcher2.spec_matches(
            cpu_info.spec_read(self.register),
        )
    }

    /// The entry's feature, when the snapshot announces it.
    pub fn matches(&self, cpu_info: &RegistersInfo) -> (r: Option<Feature>)
        requires
            self.wf(),
        ensures
            r == (if self.spec_matches(*cpu_info) {
                Some(self.feature)
            } else {
                None::<Feature>
            }),
    {
        let register = cpu_info.read_register(self.register);

        if self.matcher.check_match(register) || self.matcher2.check_match(register) {
            return Some(self.feature);
        }

        None
    }

    /// The feature the entry announces.
    pub fn get_feature(&self) -> (r: Feature)
        ensures
            r == self.feature,
    {
        self.feature
    }

    /// The entry's description.
    pub fn get_description(&self) -> (r: &'static str)
        ensures
            r@ == self.description@,
    {
        self.description
    }
}

/// The catalog entries introduced with Armv8.0.
pub open spec fn features_armv8_0() -> Seq<FeatureDescription> {
    seq![
        FeatureDescription {
            feature: Feature::FEAT_AdvSIMD,
            version: ARMVersion::Armv8_0,
            register: Register::ID_AA64PFR0_EL1,
            matcher: RegisterMatches::RegisterMatch(
                BitRange { start: 20, end: 23 },
                ValueMatcher::Or(0b000, 0b0001),
            ),
            matcher2: RegisterMatches::Fill,
            category: Category::Float,
            description: "AdvSIMD",
        },
        FeatureDescription {
            feature: Feature::FEAT_SB,
            version: ARMVersion::Armv8_0,
            register: Register::ID_AA64ISAR1_EL1,
            matcher: RegisterMatches::RegisterMatch(
                BitRange { start: 36, end: 39 },
                ValueMatcher::Value(0b0001),
            ),
            matcher2: RegisterMatches::Fill,
            category: Category::Unknown,
            description: "Speculation Barrier",
        },
        FeatureDescription {
            feature: Feature::FEAT_SSBS,
            version: ARMVersion::Armv8_0,
            register: Register::ID_AA64PFR1_EL1,
            matcher: RegisterMatches::RegisterMatch(
                BitRange { start: 4, end: 7 },
                ValueMatcher::Or(0b0001, 0b0010),
            ),
            matcher2: RegisterMatches::Fill,
            category: Category::Unknown,
            description: "Speculative Store Bypass Safe",
        },
        FeatureDescription {
            feature: Feature::FEAT_CSV2,
            version: ARMVersion::Armv8_0,
            register: Register::ID_AA64PFR0_EL1,
            matcher: RegisterMatches::RegisterMatch(
                BitRange { start: 56, end: 59 },
                ValueMatcher::Value(0b0001),
            ),
            matcher2: RegisterMatches::Fill,
            category: Category::Caches,
            description: "Cache Speculation Variant 2",
        },
        FeatureDescription {
            feature: Feature::FEAT_CSV2_2,
            version: ARMVersion::Armv8_0,
            register: Register::ID_AA64PFR0_EL1,
            matcher: RegisterMatches::RegisterMatch(
                BitRange { start: 56, end: 59 },
                ValueMatcher::Value(0b0010),
            ),
            matcher2: RegisterMatches::Fill,
            category: Category::Caches,
            description: "Cache Speculation Variant 2",
        },
        FeatureDescription {
            feature: Feature::FEAT_CSV2_1p1,
            version: ARMVersion::Armv8_0,
            register: Register::ID_AA64PFR1_EL1,
            matcher: RegisterMatches::RegisterMatch(
                BitRange { start: 32, end: 35 },
                ValueMatcher::Value(0b0001),
            ),
            matcher2: RegisterMatches::Fill,
            category: Category::Caches,
            description: "Cache Speculation Variant 2",
        },
        FeatureDescription {
            feature: Feature::FEAT_CSV2_1p2,
            version: ARMVersion::Armv8_0,
            register: Register::ID_AA64PFR1_EL1,
            matcher: RegisterMatches::RegisterMatch(
                BitRange { start: 32, end: 35 },
                ValueMatcher::Value(0b0010),
            ),
            matcher2: RegisterMatches::Fill,
            category: Category::Caches,
            description: "Cache Speculation Variant 2",
        },
        FeatureDescription {
            feature: Feature::FEAT_CSV3,
            version: ARMVersion::Armv8_0,
            register: Register::ID_AA64PFR0_EL1,
            matcher: RegisterMatches::RegisterMatch(
                BitRange { start: 60, end: 63 },
                ValueMatcher::Value(0b0001),
            ),
            matcher2: RegisterMatches::Fill,
            category: Category::Caches,
            description: "Cache Speculation Variant 3",
        },
        FeatureDescription {
            feature: Feature::FEAT_SPECRES,
            version: ARMVersion::Armv8_0,
            register: Register::ID_AA64ISAR1_EL1,
            matcher: RegisterMatches::RegisterMatch(
                BitRange { start: 40, end: 43 },
                ValueMatcher::Value(0b0001),
            ),
            matcher2: RegisterMatches::Fill,
            category: Category::Unknown,
            description: "Speculation restriction instructions",
        },
        FeatureDescription {
            feature: Feature::FEAT_DoubleLock,
            version: ARMVersion::Armv8_0,
            register: Register::ID_AA64DFR0_EL1,
            matcher: RegisterMatches::RegisterMatch(
                BitRange { start: 36, end: 39 },
                ValueMatcher::Value(0b0000),
            ),
            matcher2: RegisterMatches::Fill,
            category: Category::Unknown,
            description: "Double Lock",
        },
        FeatureDescription {
            feature: Feature::FEAT_DGH,
            version: ARMVersion::Armv8_0,
            register: Register::ID_AA64ISAR1_EL1,
            matcher: RegisterMatches::RegisterMatch(
                BitRange { start: 48, end: 51 },
                ValueMatcher::Value(0b0001),
            ),
            matcher2: RegisterMatches::Fill,
            category: Category::Unknown,
            description: "Data Gathering Hint",
        },
        FeatureDescription {
            feature: Feature::FEAT_ETS,
            version: ARMVersion::Armv8_0,
            register: Register::ID_AA64MMFR1_EL1,
            matcher: RegisterMatches::RegisterMatch(
                BitRange { start: 36, end: 39 },
                ValueMatcher::Value(0b0001),
            ),
            matcher2: RegisterMatches::Fill,
            category: Category::Unknown,
            description: "Enhanced Translation Synchronization",
        },
        FeatureDescription {
            feature: Feature::FEAT_nTLBPA,
            version: ARMVersion::Armv8_0,
            register: Register::ID_AA64MMFR1_EL1,
            matcher: RegisterMatches::RegisterMatch(
                BitRange { start: 48, end: 51 },
                ValueMatcher::Value(0b0001),
            ),
            matcher2: RegisterMatches::Fill,
            category: Category::Unknown,
            description: "Intermediate caching of translation table walks",
        },
        FeatureDescription {
            feature: Feature::FEAT_AES,
            version: ARMVersion::Armv8_0,
            register: Register::ID_AA64ISAR0_EL1,
            matcher: RegisterMatches::RegisterMatch(
                BitRange { start: 4, end: 7 },
                ValueMatcher::Value(0b0001),
            ),
            matcher2: RegisterMatches::Fill,
            category: Category::Crypto,
            description: "Advanced SIMD AES instructions",
        },
        FeatureDescription {
            feature: Feature::FEAT_PMULL,
            version: ARMVersion::Armv8_0,
            register: Register::ID_AA64ISAR0_EL1,
            matcher: RegisterMatches::RegisterMatch(
                BitRange { start: 4, end: 7 },
                ValueMatcher::Value(0b0010),
            ),
            matcher2: RegisterMatches::Fill,
            category: Category::Unknown,
            description: "Advanced SIMD PMULL instructions",
        },
        FeatureDescription {
            feature: Feature::FEAT_SHA1,
            version: ARMVersion::Armv8_0,
            register: Register::ID_AA64ISAR0_EL1,
            matcher: RegisterMatches::RegisterMatch(
                BitRange { start: 8, end: 11 },
                ValueMatcher::Value(0b0001),
            ),
            matcher2: RegisterMatches::Fill,
            category: Category::Crypto,
            description: "Advanced SIMD SHA1 instructions",
        },
        FeatureDescription {
            feature: Feature::FEAT_SHA256,
            version: ARMVersion::Armv8_0,
            register: Register::ID_AA64ISAR0_EL1,
            matcher: RegisterMatches::RegisterMatch(
                BitRange { start: 12, end: 15 },
                ValueMatcher::Value(0b0001),
            ),
            matcher2: RegisterMatches::Fill,
            category: Category::Crypto,
            description: "Advanced SIMD SHA256 instructions",
        },
    ]
}

/// The catalog entries introduced with Armv8.1.
pub open spec fn features_armv8_1() -> Seq<FeatureDescription> {
    seq![
        FeatureDescription {
            feature: Feature::FEAT_LSE,
            version: ARMVersion::Armv8_1,
            register: Register::ID_AA64ISAR0_EL1,
            matcher: RegisterMatches::RegisterMatch(
                BitRange { start: 20, end: 23 },
                ValueMatcher::Value(0b0010),
            ),
            matcher2: RegisterMatches::Fill,
            category: Category::Atomics,
            description: "Large System Extensions",
        },
        FeatureDescription {
            feature: Feature::FEAT_RDM,
            version: ARMVersion::Armv8_1,
            register: Register::ID_AA64ISAR0_EL1,
            matcher: RegisterMatches::RegisterMatch(
                BitRange { start: 28, end: 31 },
                ValueMatcher::Value(0b0001),
            ),
            matcher2: RegisterMatches::Fill,
            category: Category::Float,
            description: "Advanced SIMD rounding double multiply accumulate instructions",
        },
        FeatureDescription {
            feature: Feature::FEAT_LOR,
            version: ARMVersion::Armv8_1,
            register: Register::ID_AA64MMFR1_EL1,
            matcher: RegisterMatches::RegisterMatch(
                BitRange { start: 16, end: 19 },
                ValueMatcher::Value(0b0001),
            ),
            matcher2: RegisterMatches::Fill,
            category: Category::Atomics,
            description: "Limited ordering regions",
        },
        FeatureDescription {
            feature: Feature::FEAT_HAFDBS,
            version: ARMVersion::Armv8_1,
            register: Register::ID_AA64MMFR1_EL1,
            matcher: RegisterMatches::RegisterMatch(
                BitRange { start: 12, end: 15 },
                ValueMatcher::Value(0b0001),
            ),
            matcher2: RegisterMatches::Fill,
            category: Category::Unknown,
            description: "Hardware management of the Access flag and dirty state",
        },
        FeatureDescription {
            feature: Feature::FEAT_PAN,
            version: ARMVersion::Armv8_1,
            register: Register::ID_AA64MMFR1_EL1,
            matcher: RegisterMatches::RegisterMatch(
                BitRange { start: 20, end: 23 },
                ValueMatcher::Value(0b0001),
            ),
            matcher2: RegisterMatches::Fill,
            category: Category::Unknown,
            description: "Privileged access never",
        },
        FeatureDescription {
            feature: Feature::FEAT_VMID16,
            version: ARMVersion::Armv8_1,
            register: Register::ID_AA64MMFR1_EL1,
            matcher: RegisterMatches::RegisterMatch(
                BitRange { start: 4, end: 7 },
                ValueMatcher::Value(0b0010),
            ),
            matcher2: RegisterMatches::Fill,
            category: Category::Unknown,
            description: "16-bit VMID",
        },
        FeatureDescription {
            feature: Feature::FEAT_VHE,
            version: ARMVersion::Armv8_1,
            register: Register::ID_AA64DFR0_EL1,
            matcher: RegisterMatches::RegisterMatch(
                BitRange { start: 8, end: 11 },
                ValueMatcher::Value(0b0001),
            ),
            matcher2: RegisterMatches::Fill,
            category: Category::Virtual,
            description: "Virtualization Host Extensions",
        },
        FeatureDescription {
            feature: Feature::FEAT_PMUv3p1,
            version: ARMVersion::Armv8_1,
            register: Register::ID_AA64DFR0_EL1,
            matcher: RegisterMatches::RegisterMatch(
                BitRange { start: 8, end: 11 },
                ValueMatcher::Value(0b0010),
            ),
            matcher2: RegisterMatches::Fill,
            category: Category::Unknown,
            description: "PMU Extensions v3.1",
        },
        FeatureDescription {
            feature: Feature::FEAT_PAN3,
            version: ARMVersion::Armv8_1,
            register: Register::ID_AA64MMFR1_EL1,
            matcher: RegisterMatches::RegisterMatch(
                BitRange { start: 20, end: 23 },
                ValueMatcher::Value(0b0011),
            ),
            matcher2: RegisterMatches::Fill,
            category: Category::Unknown,
            description: "Support for SCTLR_ELx.EPAN",
        },
    ]
}

/// The catalog entries introduced with Armv8.2.
pub open spec fn features_armv8_2() -> Seq<FeatureDescription> {
    seq![
        FeatureDescription {
            feature: Feature::FEAT_SHA512,
            version: ARMVersion::Armv8_2,
            register: Register::ID_AA64ISAR0_EL1,
            matcher: RegisterMatches::RegisterMatch(
                BitRange { start: 12, end: 15 },
                ValueMatcher::Value(0b0010),
            ),
            matcher2: RegisterMatches::Fill,
            category: Category::Crypto,
            description: "Advanced SIMD SHA512 instructions",
        },
        FeatureDescription {
            feature: Feature::FEAT_SHA3,
            version: ARMVersion::Armv8_2,
            register: Register::ID_AA64ISAR0_EL1,
            matcher: RegisterMatches::RegisterMatch(
                BitRange { start: 32, end: 35 },
                ValueMatcher::Value(0b0001),
            ),
            matcher2: RegisterMatches::Fill,
            category: Category::Crypto,
            description: "Advanced SIMD SHA3 instructions",
        },
        FeatureDescription {
            feature: Feature::FEAT_SM3,
            version: ARMVersion::Armv8_2,
            register: Register::ID_AA64ISAR0_EL1,
            matcher: RegisterMatches::RegisterMatch(
                BitRange { start: 36, end: 39 },
                ValueMatcher::Value(0b0001),
            ),
            matcher2: RegisterMatches::Fill,
            category: Category::Crypto,
            description: "Advanced SIMD SM3 instructions",
        },
        FeatureDescription {
            feature: Feature::FEAT_SM4,
            version: ARMVersion::Armv8_2,
            register: Register::ID_AA64ISAR0_EL1,
            matcher: RegisterMatches::RegisterMatch(
                BitRange { start: 40, end: 43 },
                ValueMatcher::Value(0b0001),
            ),
            matcher2: RegisterMatches::Fill,
            category: Category::Crypto,
            description: "Advanced SIMD SM4 instructions",
        },
        FeatureDescription {
            feature: Feature::FEAT_PAN2,
            version: ARMVersion::Armv8_2,
            register: Register::ID_AA64MMFR1_EL1,
            matcher: RegisterMatches::RegisterMatch(
                BitRange { start: 20, end: 23 },
                ValueMatcher::Value(0b0010),
            ),
            matcher2: RegisterMatches::Fill,
            category: Category::Unknown,
            description: "AT S1E1R and AT S1E1W instruction variants affected by PSTATE.PAN",
        },
        FeatureDescription {
            feature: Feature::FEAT_FP16,
            version: ARMVersion::Armv8_2,
            register: Register::ID_AA64PFR0_EL1,
            matcher: RegisterMatches::RegisterMatch(
                BitRange { start: 16, end: 19 },
                ValueMatcher::Value(0b0001),
            ),
            matcher2: RegisterMatches::Fill,
            category: Category::Float,
            description: "Half-precision floating-point data processing",
        },
        FeatureDescription {
            feature: Feature::FEAT_DotProd,
            version: ARMVersion::Armv8_2,
            register: Register::ID_AA64ISAR0_EL1,
            matcher: RegisterMatches::RegisterMatch(
                BitRange { start: 44, end: 47 },
                ValueMatcher::Value(0b0001),
            ),
            matcher2: RegisterMatches::Fill,
            category: Category::Float,
            description: "Advanced SIMD dot product instructions",
        },
        FeatureDescription {
            feature: Feature::FEAT_FHM,
            version: ARMVersion::Armv8_2,
            register: Register::ID_AA64ISAR0_EL1,
            matcher: RegisterMatches::RegisterMatch(
                BitRange { start: 48, end: 51 },
                ValueMatcher::Value(0b0001),
            ),
            matcher2: RegisterMatches::Fill,
            category: Category::Float,
            description: "Floating-point half-precision multiplication instructions",
        },
        FeatureDescription {
            feature: Feature::FEAT_UAO,
            version: ARMVersion::Armv8_2,
            register: Register::ID_AA64MMFR2_EL1,
            matcher: RegisterMatches::RegisterMatch(
                BitRange { start: 4, end: 7 },
                ValueMatcher::Value(0b0001),
            ),
            matcher2: RegisterMatches::Fill,
            category: Category::Unknown,
            description: "Unprivileged Access Override control",
        },
        FeatureDescription {
            feature: Feature::FEAT_DPB,
            version: ARMVersion::Armv8_2,
            register: Register::ID_AA64ISAR1_EL1,
            matcher: RegisterMatches::RegisterMatch(
                BitRange { start: 0, end: 3 },
                ValueMatcher::Value(0b0001),
            ),
            matcher2: RegisterMatches::Fill,
            category: Category::Caches,
            description: "DC CVAP instruction",
        },
        FeatureDescription {
            feature: Feature::FEAT_VPIPT,
            version: ARMVersion::Armv8_2,
            register: Register::CTR_EL0,
            matcher: RegisterMatches::RegisterMatch(
                BitRange { start: 14, end: 15 },
                ValueMatcher::Value(0b0000),
            ),
            matcher2: RegisterMatches::Fill,
            category: Category::Unknown,
            description: "VMID-aware PIPT instruction cache",
        },
        FeatureDescription {
            feature: Feature::FEAT_HPDS2,
            version: ARMVersion::Armv8_2,
            register: Register::ID_AA64MMFR1_EL1,
            matcher: RegisterMatches::RegisterMatch(
                BitRange { start: 12, end: 15 },
                ValueMatcher::Value(0b0010),
            ),
            matcher2: RegisterMatches::Fill,
            category: Category::Unknown,
            description: "Translation table page-based hardware attributes",
        },
        FeatureDescription {
            feature: Feature::FEAT_LPA,
            version: ARMVersion::Armv8_2,
            register: Register::ID_AA64MMFR0_EL1,
            matcher: RegisterMatches::RegisterMatch(
                BitRange { start: 0, end: 3 },
                ValueMatcher::Value(0b0110),
            ),
            matcher2: RegisterMatches::Fill,
            category: Category::Unknown,
            description: "Large PA and IPA support",
        },
        FeatureDescription {
            feature: Feature::FEAT_LVA,
            version: ARMVersion::Armv8_2,
            register: Register::ID_AA64MMFR2_EL1,
            matcher: RegisterMatches::RegisterMatch(
                BitRange { start: 16, end: 19 },
                ValueMatcher::Value(0b0001),
            ),
            matcher2: RegisterMatches::Fill,
            category: Category::Unknown,
            description: "Large VA support",
        },
        FeatureDescription {
            feature: Feature::FEAT_TTCNP,
            version: ARMVersion::Armv8_2,
            register: Register::ID_AA64MMFR2_EL1,
            matcher: RegisterMatches::RegisterMatch(
                BitRange { start: 0, end: 3 },
                ValueMatcher::Value(0b0001),
            ),
            matcher2: RegisterMatches::Fill,
            category: Category::Unknown,
            description: "Translation table Common not private translations",
        },
        FeatureDescription {
            feature: Feature::FEAT_XNX,
            version: ARMVersion::Armv8_2,
            register: Register::ID_AA64MMFR1_EL1,
            matcher: RegisterMatches::RegisterMatch(
                BitRange { start: 28, end: 31 },
                ValueMatcher::Value(0b0001),
            ),
            matcher2: RegisterMatches::Fill,
            category: Category::Unknown,
            description: "Translation table stage 2 Unprivileged Execute-never",
        },
        FeatureDescription {
            feature: Feature::FEAT_Debugv8p2,
            version: ARMVersion::Armv8_2,
            register: Register::ID_AA64DFR0_EL1,
            matcher: RegisterMatches::RegisterMatch(
                BitRange { start: 0, end: 3 },
                ValueMatcher::Value(0b1000),
            ),
            matcher2: RegisterMatches::Fill,
            category: Category::Unknown,
            description: "Debug v8.2",
        },
        FeatureDescription {
            feature: Feature::FEAT_PCSRv8p2,
            version: ARMVersion::Armv8_2,
            register: Register::EDDEVID,
            matcher: RegisterMatches::RegisterMatch(
                BitRange { start: 0, end: 3 },
                ValueMatcher::Value(0b0000),
            ),
            matcher2: RegisterMatches::Fill,
            category: Category::Unknown,
            description: "PC Sample-based profiling",
        },
        FeatureDescription {
            feature: Feature::FEAT_IESB,
            version: ARMVersion::Armv8_2,
            register: Register::ID_AA64MMFR2_EL1,
            matcher: RegisterMatches::RegisterMatch(
                BitRange { start: 12, end: 15 },
                ValueMatcher::Value(0b0001),
            ),
            matcher2: RegisterMatches::Fill,
            category: Category::Unknown,
            description: "Implicit Error Synchronization event",
        },
        FeatureDescription {
            feature: Feature::FEAT_EVT,
            version: ARMVersion::Armv8_2,
            register: Register::ID_AA64MMFR2_EL1,
            matcher: RegisterMatches::RegisterMatch(
                BitRange { start: 56, end: 59 },
                ValueMatcher::Value(0b0010),
            ),
            matcher2: RegisterMatches::Fill,
            category: Category::Unknown,
            description: "Enhanced Virtualization Traps",
        },
        FeatureDescription {
            feature: Feature::FEAT_DPB2,
            version: ARMVersion::Armv8_2,
            register: Register::ID_AA64ISAR1_EL1,
            matcher: RegisterMatches::RegisterMatch(
                BitRange { start: 0, end: 3 },
                ValueMatcher::Value(0b0010),
            ),
            matcher2: RegisterMatches::Fill,
            category: Category::Caches,
            description: "DC CVADP instruction",
        },
        FeatureDescription {
            feature: Feature::FEAT_BF16,
            version: ARMVersion::Armv8_2,
            register: Register::ID_AA64ISAR1_EL1,
            matcher: RegisterMatches::RegisterMatch(
                BitRange { start: 44, end: 47 },
                ValueMatcher::Value(0b0001),
            ),
            matcher2: RegisterMatches::Fill,
            category: Category::Float,
            description: "BFloat16 instructions",
        },
        FeatureDescription {
            feature: Feature::FEAT_I8MM,
            version: ARMVersion::Armv8_2,
            register: Register::ID_AA64ISAR1_EL1,
            matcher: RegisterMatches::RegisterMatch(
                BitRange { start: 52, end: 55 },
                ValueMatcher::Value(0b0001),
            ),
            matcher2: RegisterMatches::Fill,
            category: Category::Float,
            description: "Int8 matrix multiplication instructions",
        },
    ]
}

/// The catalog entries introduced with Armv8.3.
pub open spec fn features_armv8_3() -> Seq<FeatureDescription> {
    seq![
        FeatureDescription {
            feature: Feature::FEAT_FCMA,
            version: ARMVersion::Armv8_3,
            register: Register::ID_AA64ISAR1_EL1,
            matcher: RegisterMatches::RegisterMatch(
                BitRange { start: 16, end: 19 },
                ValueMatcher::Value(0b0001),
            ),
            matcher2: RegisterMatches::Fill,
            category: Category::Float,
            description: "Floating-point complex number instructions",
        },
        FeatureDescription {
            feature: Feature::FEAT_JSCVT,
            version: ARMVersion::Armv8_3,
            register: Register::ID_AA64ISAR1_EL1,
            matcher: RegisterMatches::RegisterMatch(
                BitRange { start: 12, end: 15 },
                ValueMatcher::Value(0b0001),
            ),
            matcher2: RegisterMatches::Fill,
            category: Category::Float,
            description: "JavaScript conversion instructions",
        },
        FeatureDescription {
            feature: Feature::FEAT_LRCPC,
            version: ARMVersion::Armv8_3,
            register: Register::ID_AA64ISAR1_EL1,
            matcher: RegisterMatches::RegisterMatch(
                BitRange { start: 20, end: 23 },
                ValueMatcher::Value(0b0001),
            ),
            matcher2: RegisterMatches::Fill,
            category: Category::Atomics,
            description: "Load-acquire RCpc instructions",
        },
        FeatureDescription {
            feature: Feature::FEAT_NV,
            version: ARMVersion::Armv8_3,
            register: Register::ID_AA64MMFR2_EL1,
            matcher: RegisterMatches::RegisterMatch(
                BitRange { start: 24, end: 27 },
                ValueMatcher::Value(0b0001),
            ),
            matcher2: RegisterMatches::Fill,
            category: Category::Virtual,
            description: "Nested virtualization support",
        },
        FeatureDescription {
            feature: Feature::FEAT_CCIDX,
            version: ARMVersion::Armv8_3,
            register: Register::ID_AA64MMFR2_EL1,
            matcher: RegisterMatches::RegisterMatch(
                BitRange { start: 20, end: 23 },
                ValueMatcher::Value(0b0001),
            ),
            matcher2: RegisterMatches::Fill,
            category: Category::Caches,
            description: "Extended cache index",
        },
        FeatureDescription {
            feature: Feature::FEAT_PAuth,
            version: ARMVersion::Armv8_3,
            register: Register::ID_AA64ISAR1_EL1,
            matcher: RegisterMatches::RegisterMatch(
                BitRange { start: 4, end: 7 },
                ValueMatcher::Or(0b0001, 0b0010),
            ),
            matcher2: RegisterMatches::RegisterMatch(
                BitRange { start: 8, end: 11 },
                ValueMatcher::Or(0b0001, 0b0010),
            ),
            category: Category::Security,
            description: "Pointer authentication",
        },
        FeatureDescription {
            feature: Feature::FEAT_SPEv1p1,
            version: ARMVersion::Armv8_3,
            register: Register::ID_AA64DFR0_EL1,
            matcher: RegisterMatches::RegisterMatch(
                BitRange { start: 32, end: 35 },
                ValueMatcher::Value(0b0010),
            ),
            matcher2: RegisterMatches::Fill,
            category: Category::Profiling,
            description: "Armv8.3 Statistical Profiling Extensions",
        },
        FeatureDescription {
            feature: Feature::FEAT_DoPD,
            version: ARMVersion::Armv8_3,
            register: Register::EDDEVID,
            matcher: RegisterMatches::RegisterMatch(
                BitRange { start: 4, end: 7 },
                ValueMatcher::Value(0b0001),
            ),
            matcher2: RegisterMatches::Fill,
            category: Category::Debug,
            description: "Debug over Powerdown",
        },
        FeatureDescription {
            feature: Feature::FEAT_PAuth2,
            version: ARMVersion::Armv8_3,
            register: Register::ID_AA64ISAR1_EL1,
            matcher: RegisterMatches::RegisterMatch(
                BitRange { start: 4, end: 7 },
                ValueMatcher::Value(0b0011),
            ),
            matcher2: RegisterMatches::RegisterMatch(
                BitRange { start: 8, end: 11 },
                ValueMatcher::Value(0b0011),
            ),
            category: Category::Security,
            description: "Enhancements to pointer authentication",
        },
        FeatureDescription {
            feature: Feature::FEAT_FPAC,
            version: ARMVersion::Armv8_3,
            register: Register::ID_AA64ISAR1_EL1,
            matcher: RegisterMatches::RegisterMatch(
                BitRange { start: 4, end: 7 },
                ValueMatcher::Or(0b0100, 0b0101),
            ),
            matcher2: RegisterMatches::RegisterMatch(
                BitRange { start: 8, end: 11 },
                ValueMatcher::Or(0b0100, 0b0101),
            ),
            category: Category::Security,
            description: "Faulting on AUT* instructions",
        },
    ]
}

/// The catalog entries introduced with Armv8.4.
pub open spec fn features_armv8_4() -> Seq<FeatureDescription> {
    seq![
        FeatureDescription {
            feature: Feature::FEAT_DIT,
            version: ARMVersion::Armv8_4,
            register: Register::ID_AA64PFR0_EL1,
            matcher: RegisterMatches::RegisterMatch(
                BitRange { start: 48, end: 51 },
                ValueMatcher::Value(0b0010),
            ),
            matcher2: RegisterMatches::Fill,
            category: Category::Unknown,
            description: "Data Independent Timing instructions",
        },
        FeatureDescription {
            feature: Feature::FEAT_FlagM,
            version: ARMVersion::Armv8_4,
            register: Register::ID_AA64ISAR0_EL1,
            matcher: RegisterMatches::RegisterMatch(
                BitRange { start: 52, end: 55 },
                ValueMatcher::Value(0b0001),
            ),
            matcher2: RegisterMatches::Fill,
            category: Category::Unknown,
            description: "Flag manipulation instructions v2",
        },
        FeatureDescription {
            feature: Feature::FEAT_LRCPC2,
            version: ARMVersion::Armv8_4,
            register: Register::ID_AA64ISAR1_EL1,
            matcher: RegisterMatches::RegisterMatch(
                BitRange { start: 20, end: 23 },
                ValueMatcher::Value(0b0010),
            ),
            matcher2: RegisterMatches::Fill,
            category: Category::Atomics,
            description: "Load-Acquire RCpc instructions v2",
        },
        FeatureDescription {
            feature: Feature::FEAT_LSE2,
            version: ARMVersion::Armv8_4,
            register: Register::ID_AA64MMFR2_EL1,
            matcher: RegisterMatches::RegisterMatch(
                BitRange { start: 32, end: 35 },
                ValueMatcher::Value(0b0001),
            ),
            matcher2: RegisterMatches::Fill,
            category: Category::Atomics,
            description: "Large System Extensions v2",
        },
        FeatureDescription {
            feature: Feature::FEAT_TLBIOS,
            version: ARMVersion::Armv8_4,
            register: Register::ID_AA64ISAR0_EL1,
            matcher: RegisterMatches::RegisterMatch(
                BitRange { start: 56, end: 59 },
                ValueMatcher::Or(0b0001, 0b0010),
            ),
            matcher2: RegisterMatches::Fill,
            category: Category::Unknown,
            description: "TLB invalidate instructions in Outer Shareable domain",
        },
        FeatureDescription {
            feature: Feature::FEAT_TLBIRANGE,
            version: ARMVersion::Armv8_4,
            register: Register::ID_AA64ISAR0_EL1,
            matcher: RegisterMatches::RegisterMatch(
                BitRange { start: 56, end: 59 },
                ValueMatcher::Value(0b0010),
            ),
            matcher2: RegisterMatches::Fill,
            category: Category::Unknown,
            description: "TLB invalidate range instructions",
        },
        FeatureDescription {
            feature: Feature::FEAT_TTL,
            version: ARMVersion::Armv8_4,
            register: Register::ID_AA64MMFR2_EL1,
            matcher: RegisterMatches::RegisterMatch(
                BitRange { start: 48, end: 51 },
                ValueMatcher::Value(0b0001),
            ),
            matcher2: RegisterMatches::Fill,
            category: Category::Unknown,
            description: "Translation Table Level",
        },
        FeatureDescription {
            feature: Feature::FEAT_S2FWB,
            version: ARMVersion::Armv8_4,
            register: Register::ID_AA64MMFR2_EL1,
            matcher: RegisterMatches::RegisterMatch(
                BitRange { start: 40, end: 43 },
                ValueMatcher::Value(0b0001),
            ),
            matcher2: RegisterMatches::Fill,
            category: Category::Unknown,
            description: "Stage 2 forced Write-Back",
        },
        FeatureDescription {
            feature: Feature::FEAT_TTST,
            version: ARMVersion::Armv8_4,
            register: Register::ID_AA64MMFR2_EL1,
            matcher: RegisterMatches::RegisterMatch(
                BitRange { start: 28, end: 31 },
                ValueMatcher::Value(0b0001),
            ),
            matcher2: RegisterMatches::Fill,
            category: Category::Unknown,
            description: "Small translation tables",
        },
        FeatureDescription {
            feature: Feature::FEAT_BBM,
            version: ARMVersion::Armv8_4,
            register: Register::ID_AA64MMFR2_EL1,
            matcher: RegisterMatches::RegisterMatch(
                BitRange { start: 52, end: 55 },
                ValueMatcher::Any(0b0000, 0b0001, 0b0010),
            ),
            matcher2: RegisterMatches::Fill,
            category: Category::Unknown,
            description: "Translation table break-before-make levels",
        },
        FeatureDescription {
            feature: Feature::FEAT_SEL2,
            version: ARMVersion::Armv8_4,
            register: Register::ID_AA64PFR0_EL1,
            matcher: RegisterMatches::RegisterMatch(
                BitRange { start: 36, end: 39 },
                ValueMatcher::Value(0b0001),
            ),
            matcher2: RegisterMatches::Fill,
            category: Category::Unknown,
            description: "Secure EL2",
        },
        FeatureDescription {
            feature: Feature::FEAT_NV2,
            version: ARMVersion::Armv8_4,
            register: Register::ID_AA64MMFR2_EL1,
            matcher: RegisterMatches::RegisterMatch(
                BitRange { start: 24, end: 27 },
                ValueMatcher::Value(0b0010),
            ),
            matcher2: RegisterMatches::Fill,
            category: Category::Virtual,
            description: "Enhanced nested virtualization support",
        },
        FeatureDescription {
            feature: Feature::FEAT_IDST,
            version: ARMVersion::Armv8_4,
            register: Register::ID_AA64MMFR2_EL1,
            matcher: RegisterMatches::RegisterMatch(
                BitRange { start: 36, end: 39 },
                ValueMatcher::Value(0b0001),
            ),
            matcher2: RegisterMatches::Fill,
            category: Category::Unknown,
            description: "ID space trap handling",
        },
        FeatureDescription {
            feature: Feature::FEAT_CNTSC,
            version: ARMVersion::Armv8_4,
            register: Register::CNTID,
            matcher: RegisterMatches::RegisterMatch(
                BitRange { start: 0, end: 3 },
                ValueMatcher::Value(0b0001),
            ),
            matcher2: RegisterMatches::Fill,
            category: Category::Unknown,
            description: "Generic Counter Scaling",
        },
        FeatureDescription {
            feature: Feature::FEAT_Debugv8p4,
            version: ARMVersion::Armv8_4,
            register: Register::ID_AA64DFR0_EL1,
            matcher: RegisterMatches::RegisterMatch(
                BitRange { start: 0, end: 3 },
                ValueMatcher::Value(0b1001),
            ),
            matcher2: RegisterMatches::Fill,
            category: Category::Unknown,
            description: "Debug v8.4",
        },
        FeatureDescription {
            feature: Feature::FEAT_TRF,
            version: ARMVersion::Armv8_4,
            register: Register::ID_AA64DFR0_EL1,
            matcher: RegisterMatches::RegisterMatch(
                BitRange { start: 40, end: 43 },
                ValueMatcher::Value(0b0001),
            ),
            matcher2: RegisterMatches::Fill,
            category: Category::Unknown,
            description: "Self-hosted Trace Extensions",
        },
        FeatureDescription {
            feature: Feature::FEAT_PMUv3p4,
            version: ARMVersion::Armv8_4,
            register: Register::ID_AA64DFR0_EL1,
            matcher: RegisterMatches::RegisterMatch(
                BitRange { start: 8, end: 11 },
                ValueMatcher::Value(0b0101),
            ),
            matcher2: RegisterMatches::Fill,
            category: Category::Unknown,
            description: "PMU Extensions v3.4",
        },
        FeatureDescription {
            feature: Feature::FEAT_RASv1p1,
            version: ARMVersion::Armv8_4,
            register: Register::ID_AA64PFR0_EL1,
            matcher: RegisterMatches::RegisterMatch(
                BitRange { start: 28, end: 31 },
                ValueMatcher::Value(0b0010),
            ),
            matcher2: RegisterMatches::Fill,
            category: Category::Unknown,
            description: "RAS Extension v1.1",
        },
        FeatureDescription {
            feature: Feature::FEAT_DoubleFault,
            version: ARMVersion::Armv8_4,
            register: Register::ID_AA64PFR0_EL1,
            matcher: RegisterMatches::RegisterMatch(
                BitRange { start: 28, end: 31 },
                ValueMatcher::Value(0b0010),
            ),
            matcher2: RegisterMatches::Fill,
            category: Category::Unknown,
            description: "Double Fault Extension",
        },
    ]
}

/// The catalog entries introduced with Armv8.5.
pub open spec fn features_armv8_5() -> Seq<FeatureDescription> {
    seq![
        FeatureDescription {
            feature: Feature::FEAT_FlagM2,
            version: ARMVersion::Armv8_5,
            register: Register::ID_AA64ISAR0_EL1,
            matcher: RegisterMatches::RegisterMatch(
                BitRange { start: 52, end: 55 },
                ValueMatcher::Value(0b0010),
            ),
            matcher2: RegisterMatches::Fill,
            category: Category::Unknown,
            description: "Enhancements to flag manipulation instructions",
        },
        FeatureDescription {
            feature: Feature::FEAT_FRINTTS,
            version: ARMVersion::Armv8_5,
            register: Register::ID_AA64ISAR1_EL1,
            matcher: RegisterMatches::RegisterMatch(
                BitRange { start: 32, end: 35 },
                ValueMatcher::Value(0b0001),
            ),
            matcher2: RegisterMatches::Fill,
            category: Category::Float,
            description: "Floating-point to integer instructions",
        },
        FeatureDescription {
            feature: Feature::FEAT_ExS,
            version: ARMVersion::Armv8_5,
            register: Register::ID_AA64MMFR0_EL1,
            matcher: RegisterMatches::RegisterMatch(
                BitRange { start: 44, end: 47 },
                ValueMatcher::Value(0b0001),
            ),
            matcher2: RegisterMatches::Fill,
            category: Category::Unknown,
            description: "Context synchronization and exception handling",
        },
        FeatureDescription {
            feature: Feature::FEAT_BTI,
            version: ARMVersion::Armv8_5,
            register: Register::ID_AA64PFR1_EL1,
            matcher: RegisterMatches::RegisterMatch(
                BitRange { start: 0, end: 3 },
                ValueMatcher::Value(0b0001),
            ),
            matcher2: RegisterMatches::Fill,
            category: Category::Security,
            description: "Branch Target Identification",
        },
        FeatureDescription {
            feature: Feature::FEAT_E0PD,
            version: ARMVersion::Armv8_5,
            register: Register::ID_AA64MMFR2_EL1,
            matcher: RegisterMatches::RegisterMatch(
                BitRange { start: 60, end: 63 },
                ValueMatcher::Value(0b0001),
            ),
            matcher2: RegisterMatches::Fill,
            category: Category::Unknown,
            description: "Preventing EL0 access to halves of address maps",
        },
        FeatureDescription {
            feature: Feature::FEAT_RNG,
            version: ARMVersion::Armv8_5,
            register: Register::ID_AA64ISAR0_EL1,
            matcher: RegisterMatches::RegisterMatch(
                BitRange { start: 60, end: 63 },
                ValueMatcher::Value(0b0001),
            ),
            matcher2: RegisterMatches::Fill,
            category: Category::Unknown,
            description: "Random number generator",
        },
        FeatureDescription {
            feature: Feature::FEAT_MTE,
            version: ARMVersion::Armv8_5,
            register: Register::ID_AA64PFR1_EL1,
            matcher: RegisterMatches::RegisterMatch(
                BitRange { start: 8, end: 11 },
                ValueMatcher::Value(0b0001),
            ),
            matcher2: RegisterMatches::Fill,
            category: Category::Security,
            description: "Memory Tagging Extension",
        },
        FeatureDescription {
            feature: Feature::FEAT_MTE2,
            version: ARMVersion::Armv8_5,
            register: Register::ID_AA64PFR1_EL1,
            matcher: RegisterMatches::RegisterMatch(
                BitRange { start: 8, end: 11 },
                ValueMatcher::Value(0b0010),
            ),
            matcher2: RegisterMatches::Fill,
            category: Category::Security,
            description: "Memory Tagging Extension",
        },
        FeatureDescription {
            feature: Feature::FEAT_PMUv3p5,
            version: ARMVersion::Armv8_5,
            register: Register::ID_AA64DFR0_EL1,
            matcher: RegisterMatches::RegisterMatch(
                BitRange { start: 8, end: 11 },
                ValueMatcher::Value(0b0110),
            ),
            matcher2: RegisterMatches::Fill,
            category: Category::Unknown,
            description: "PMU Extensions v3.5",
        },
        FeatureDescription {
            feature: Feature::FEAT_MTE3,
            version: ARMVersion::Armv8_5,
            register: Register::ID_AA64PFR1_EL1,
            matcher: RegisterMatches::RegisterMatch(
                BitRange { start: 8, end: 11 },
                ValueMatcher::Value(0b0011),
            ),
            matcher2: RegisterMatches::Fill,
            category: Category::Unknown,
            description: "MTE Asymmetric Fault Handling",
        },
        FeatureDescription {
            feature: Feature::FEAT_RNG_TRAP,
            version: ARMVersion::Armv8_5,
            register: Register::ID_AA64PFR1_EL1,
            matcher: RegisterMatches::RegisterMatch(
                BitRange { start: 28, end: 31 },
                ValueMatcher::Value(0b0001),
            ),
            matcher2: RegisterMatches::Fill,
            category: Category::Unknown,
            description: "Trapping support for RNDR/RNDRRS",
        },
    ]
}

/// The catalog entries introduced with Armv8.6.
pub open spec fn features_armv8_6() -> Seq<FeatureDescription> {
    seq![
        FeatureDescription {
            feature: Feature::FEAT_ECV,
            version: ARMVersion::Armv8_6,
            register: Register::ID_AA64MMFR0_EL1,
            matcher: RegisterMatches::RegisterMatch(
                BitRange { start: 60, end: 63 },
                ValueMatcher::Or(0b0001, 0b0010),
            ),
            matcher2: RegisterMatches::Fill,
            category: Category::Virtual,
            description: "Enhanced Counter Virtualization",
        },
        FeatureDescription {
            feature: Feature::FEAT_FGT,
            version: ARMVersion::Armv8_6,
            register: Register::ID_AA64MMFR0_EL1,
            matcher: RegisterMatches::RegisterMatch(
                BitRange { start: 56, end: 59 },
                ValueMatcher::Value(0b0001),
            ),
            matcher2: RegisterMatches::Fill,
            category: Category::Unknown,
            description: "Fine Grain Traps",
        },
        FeatureDescription {
            feature: Feature::FEAT_TWED,
            version: ARMVersion::Armv8_6,
            register: Register::ID_AA64MMFR1_EL1,
            matcher: RegisterMatches::RegisterMatch(
                BitRange { start: 32, end: 35 },
                ValueMatcher::Value(0b0001),
            ),
            matcher2: RegisterMatches::Fill,
            category: Category::Unknown,
            description: "Delayed Trapping of WFE",
        },
        FeatureDescription {
            feature: Feature::FEAT_AMUv1p1,
            version: ARMVersion::Armv8_6,
            register: Register::ID_AA64PFR0_EL1,
            matcher: RegisterMatches::RegisterMatch(
                BitRange { start: 44, end: 47 },
                ValueMatcher::Value(0b0010),
            ),
            matcher2: RegisterMatches::Fill,
            category: Category::Virtual,
            description: "AMU Extensions v1.1",
        },
        FeatureDescription {
            feature: Feature::FEAT_MTPMU,
            version: ARMVersion::Armv8_6,
            register: Register::ID_AA64DFR0_EL1,
            matcher: RegisterMatches::RegisterMatch(
                BitRange { start: 48, end: 51 },
                ValueMatcher::Value(0b0001),
            ),
            matcher2: RegisterMatches::Fill,
            category: Category::Unknown,
            description: "Multi-threaded PMU Extensions",
        },
    ]
}

/// The catalog entries introduced with Armv8.7.
pub open spec fn features_armv8_7() -> Seq<FeatureDescription> {
    seq![
        FeatureDescription {
            feature: Feature::FEAT_AFP,
            version: ARMVersion::Armv8_7,
            register: Register::ID_AA64MMFR1_EL1,
            matcher: RegisterMatches::RegisterMatch(
                BitRange { start: 44, end: 47 },
                ValueMatcher::Value(0b0001),
            ),
            matcher2: RegisterMatches::Fill,
            category: Category::Float,
            description: "Alternate floating-point behavior",
        },
        FeatureDescription {
            feature: Feature::FEAT_RPRES,
            version: ARMVersion::Armv8_7,
            register: Register::ID_AA64ISAR2_EL1,
            matcher: RegisterMatches::RegisterMatch(
                BitRange { start: 4, end: 7 },
                ValueMatcher::Value(0b0001),
            ),
            matcher2: RegisterMatches::Fill,
            category: Category::Float,
            description: "Increased precision of Reciprocal Estimate and Reciprocal Square Root Estimate",
        },
        FeatureDescription {
            feature: Feature::FEAT_LS64,
            version: ARMVersion::Armv8_7,
            register: Register::ID_AA64ISAR1_EL1,
            matcher: RegisterMatches::RegisterMatch(
                BitRange { start: 60, end: 63 },
                ValueMatcher::Value(0b0001),
            ),
            matcher2: RegisterMatches::Fill,
            category: Category::Unknown,
            description: "Support for 64 byte loads/stores",
        },
        FeatureDescription {
            feature: Feature::FEAT_LS64_V,
            version: ARMVersion::Armv8_7,
            register: Register::ID_AA64ISAR1_EL1,
            matcher: RegisterMatches::RegisterMatch(
                BitRange { start: 60, end: 63 },
                ValueMatcher::Value(0b0010),
            ),
            matcher2: RegisterMatches::Fill,
            category: Category::Unknown,
            description: "Support for 64 byte loads/stores",
        },
        FeatureDescription {
            feature: Feature::FEAT_LS64_ACCDATA,
            version: ARMVersion::Armv8_7,
            register: Register::ID_AA64ISAR1_EL1,
            matcher: RegisterMatches::RegisterMatch(
                BitRange { start: 60, end: 63 },
                ValueMatcher::Value(0b0011),
            ),
            matcher2: RegisterMatches::Fill,
            category: Category::Unknown,
            description: "Support for 64 byte loads/stores",
        },
        FeatureDescription {
            feature: Feature::FEAT_WFxT,
            version: ARMVersion::Armv8_7,
            register: Register::ID_AA64ISAR2_EL1,
            matcher: RegisterMatches::RegisterMatch(
                BitRange { start: 0, end: 3 },
                ValueMatcher::Value(0b0010),
            ),
            matcher2: RegisterMatches::Fill,
            category: Category::Unknown,
            description: "WFE and WFI instructions with timeout",
        },
        FeatureDescription {
            feature: Feature::FEAT_HCX,
            version: ARMVersion::Armv8_7,
            register: Register::ID_AA64MMFR1_EL1,
            matcher: RegisterMatches::RegisterMatch(
                BitRange { start: 40, end: 43 },
                ValueMatcher::Value(0b0001),
            ),
            matcher2: RegisterMatches::Fill,
            category: Category::Unknown,
            description: "Support for the HCRX_EL2 register",
        },
        FeatureDescription {
            feature: Feature::FEAT_XS,
            version: ARMVersion::Armv8_7,
            register: Register::ID_AA64ISAR1_EL1,
            matcher: RegisterMatches::RegisterMatch(
                BitRange { start: 56, end: 59 },
                ValueMatcher::Value(0b0001),
            ),
            matcher2: RegisterMatches::Fill,
            category: Category::Unknown,
            description: "XS attribute",
        },
        FeatureDescription {
            feature: Feature::FEAT_PMUv3p7,
            version: ARMVersion::Armv8_7,
            register: Register::ID_AA64DFR0_EL1,
            matcher: RegisterMatches::RegisterMatch(
                BitRange { start: 8, end: 11 },
                ValueMatcher::Value(0b0111),
            ),
            matcher2: RegisterMatches::Fill,
            category: Category::Unknown,
            description: "Armv8.7 PMU extensions",
        },
        FeatureDescription {
            feature: Feature::FEAT_SPEv1p2,
            version: ARMVersion::Armv8_7,
            register: Register::ID_AA64DFR0_EL1,
            matcher: RegisterMatches::RegisterMatch(
                BitRange { start: 32, end: 35 },
                ValueMatcher::Value(0b0011),
            ),
            matcher2: RegisterMatches::Fill,
            category: Category::Unknown,
            description: "Armv8.7 SPE extensions",
        },
    ]
}

/// The catalog entries introduced with Armv8.8.
pub open spec fn features_armv8_8() -> Seq<FeatureDescription> {
    seq![
        FeatureDescription {
            feature: Feature::FEAT_MOPS,
            version: ARMVersion::Armv8_8,
            register: Register::ID_AA64ISAR2_EL1,
            matcher: RegisterMatches::RegisterMatch(
                BitRange { start: 16, end: 19 },
                ValueMatcher::Value(0b0001),
            ),
            matcher2: RegisterMatches::Fill,
            category: Category::Memory,
            description: "Standardization of memory operations",
        },
        FeatureDescription {
            feature: Feature::FEAT_HBC,
            version: ARMVersion::Armv8_8,
            register: Register::ID_AA64ISAR2_EL1,
            matcher: RegisterMatches::RegisterMatch(
                BitRange { start: 20, end: 23 },
                ValueMatcher::Value(0b0001),
            ),
            matcher2: RegisterMatches::Fill,
            category: Category::Unknown,
            description: "Hinted conditional branches",
        },
        FeatureDescription {
            feature: Feature::FEAT_NMI,
            version: ARMVersion::Armv8_8,
            register: Register::ID_AA64PFR1_EL1,
            matcher: RegisterMatches::RegisterMatch(
                BitRange { start: 36, end: 39 },
                ValueMatcher::Value(0b0001),
            ),
            matcher2: RegisterMatches::Fill,
            category: Category::Unknown,
            description: "Non-maskable Interrupts",
        },
        FeatureDescription {
            feature: Feature::FEAT_TIDCP1,
            version: ARMVersion::Armv8_8,
            register: Register::ID_AA64MMFR1_EL1,
            matcher: RegisterMatches::RegisterMatch(
                BitRange { start: 52, end: 55 },
                ValueMatcher::Value(0b0001),
            ),
            matcher2: RegisterMatches::Fill,
            category: Category::Unknown,
            description: "EL0 use of IMPLEMENTATION DEFINED functionality",
        },
        FeatureDescription {
            feature: Feature::FEAT_CMOW,
            version: ARMVersion::Armv8_8,
            register: Register::ID_AA64MMFR1_EL1,
            matcher: RegisterMatches::RegisterMatch(
                BitRange { start: 56, end: 59 },
                ValueMatcher::Value(0b0001),
            ),
            matcher2: RegisterMatches::Fill,
            category: Category::Unknown,
            description: "Control for cache maintenance permission",
        },
        FeatureDescription {
            feature: Feature::FEAT_PMUv3p8,
            version: ARMVersion::Armv8_8,
            register: Register::ID_AA64DFR0_EL1,
            matcher: RegisterMatches::RegisterMatch(
                BitRange { start: 8, end: 11 },
                ValueMatcher::Value(0b1000),
            ),
            matcher2: RegisterMatches::Fill,
            category: Category::Unknown,
            description: "Armv8.8 PMU extensions",
        },
        FeatureDescription {
            feature: Feature::FEAT_HPMN0,
            version: ARMVersion::Armv8_8,
            register: Register::ID_AA64DFR0_EL1,
            matcher: RegisterMatches::RegisterMatch(
                BitRange { start: 60, end: 63 },
                ValueMatcher::Value(0b0001),
            ),
            matcher2: RegisterMatches::Fill,
            category: Category::Unknown,
            description: "Setting of MDCR_EL2.HPMN to zero",
        },
        FeatureDescription {
            feature: Feature::FEAT_SPEv1p3,
            version: ARMVersion::Armv8_8,
            register: Register::ID_AA64DFR0_EL1,
            matcher: RegisterMatches::RegisterMatch(
                BitRange { start: 32, end: 35 },
                ValueMatcher::Value(0b0100),
            ),
            matcher2: RegisterMatches::Fill,
            category: Category::Unknown,
            description: "Armv8.8 Statistical Profiling Extensions",
        },
        FeatureDescription {
            feature: Feature::FEAT_Debugv8p8,
            version: ARMVersion::Armv8_8,
            register: Register::ID_AA64DFR0_EL1,
            matcher: RegisterMatches::RegisterMatch(
                BitRange { start: 0, end: 3 },
                ValueMatcher::Value(0b1010),
            ),
            matcher2: RegisterMatches::Fill,
            category: Category::Unknown,
            description: "Debug v8.8",
        },
    ]
}

/// The catalog entries introduced with Armv9.0.
pub open spec fn features_armv9_0() -> Seq<FeatureDescription> {
    seq![
        FeatureDescription {
            feature: Feature::FEAT_SVE2,
            version: ARMVersion::Armv9_0,
            register: Register::ID_AA64ZFR0_EL1,
            matcher: RegisterMatches::RegisterMatch(
                BitRange { start: 0, end: 3 },
                ValueMatcher::Value(0b0001),
            ),
            matcher2: RegisterMatches::Fill,
            category: Category::Float,
            description: "Scalable Vector Extension version 2",
        },
        FeatureDescription {
            feature: Feature::FEAT_SVE_AES,
            version: ARMVersion::Armv9_0,
            register: Register::ID_AA64ZFR0_EL1,
            matcher: RegisterMatches::RegisterMatch(
                BitRange { start: 4, end: 7 },
                ValueMatcher::Value(0b0001),
            ),
            matcher2: RegisterMatches::Fill,
            category: Category::Float,
            description: "Scalable Vector AES instructions",
        },
        FeatureDescription {
            feature: Feature::FEAT_SVE_BitPerm,
            version: ARMVersion::Armv9_0,
            register: Register::ID_AA64ZFR0_EL1,
            matcher: RegisterMatches::RegisterMatch(
                BitRange { start: 16, end: 19 },
                ValueMatcher::Value(0b0001),
            ),
            matcher2: RegisterMatches::Fill,
            category: Category::Unknown,
            description: "Scalable Vector Bit Permutes instructions",
        },
        FeatureDescription {
            feature: Feature::FEAT_SVE_PMULL128,
            version: ARMVersion::Armv9_0,
            register: Register::ID_AA64ZFR0_EL1,
            matcher: RegisterMatches::RegisterMatch(
                BitRange { start: 4, end: 7 },
                ValueMatcher::Value(0b0010),
            ),
            matcher2: RegisterMatches::Fill,
            category: Category::Unknown,
            description: "Scalable Vector PMULL instructions",
        },
        FeatureDescription {
            feature: Feature::FEAT_SVE_SHA3,
            version: ARMVersion::Armv9_0,
            register: Register::ID_AA64ZFR0_EL1,
            matcher: RegisterMatches::RegisterMatch(
                BitRange { start: 32, end: 35 },
                ValueMatcher::Value(0b0001),
            ),
            matcher2: RegisterMatches::Fill,
            category: Category::Unknown,
            description: "Scalable Vector SHA3 instructions",
        },
        FeatureDescription {
            feature: Feature::FEAT_SVE_SM4,
            version: ARMVersion::Armv9_0,
            register: Register::ID_AA64ZFR0_EL1,
            matcher: RegisterMatches::RegisterMatch(
                BitRange { start: 40, end: 43 },
                ValueMatcher::Value(0b0001),
            ),
            matcher2: RegisterMatches::Fill,
            category: Category::Unknown,
            description: "Scalable Vector SM4 instructions",
        },
        FeatureDescription {
            feature: Feature::FEAT_ETE,
            version: ARMVersion::Armv9_0,
            register: Register::ID_AA64DFR0_EL1,
            matcher: RegisterMatches::RegisterMatch(
                BitRange { start: 4, end: 7 },
                ValueMatcher::Value(0b0001),
            ),
            matcher2: RegisterMatches::Fill,
            category: Category::Unknown,
            description: "Embedded Trace Extension",
        },
        FeatureDescription {
            feature: Feature::FEAT_TRBE,
            version: ARMVersion::Armv9_0,
            register: Register::ID_AA64DFR0_EL1,
            matcher: RegisterMatches::RegisterMatch(
                BitRange { start: 44, end: 47 },
                ValueMatcher::Value(0b0001),
            ),
            matcher2: RegisterMatches::Fill,
            category: Category::Unknown,
            description: "Trace Buffer Extension",
        },
    ]
}

/// The catalog entries introduced with Armv9.1.
pub open spec fn features_armv9_1() -> Seq<FeatureDescription> {
    seq![
        FeatureDescription {
            feature: Feature::FEAT_ETEv1p1,
            version: ARMVersion::Armv9_1,
            register: Register::TRCDEVARCH,
            matcher: RegisterMatches::RegisterMatch(
                BitRange { start: 16, end: 19 },
                ValueMatcher::Value(0b0001),
            ),
            matcher2: RegisterMatches::Fill,
            category: Category::Unknown,
            description: "Embedded Trace Extension",
        },
    ]
}

/// The catalog entries introduced with Armv9.2.
pub open spec fn features_armv9_2() -> Seq<FeatureDescription> {
    seq![
        FeatureDescription {
            feature: Feature::FEAT_BRBE,
            version: ARMVersion::Armv9_2,
            register: Register::ID_AA64DFR0_EL1,
            matcher: RegisterMatches::RegisterMatch(
                BitRange { start: 52, end: 55 },
                ValueMatcher::Value(0b0001),
            ),
            matcher2: RegisterMatches::Fill,
            category: Category::Jump,
            description: "Branch Record Buffer Extension",
        },
        FeatureDescription {
            feature: Feature::FEAT_ETEv1p2,
            version: ARMVersion::Armv9_2,
            register: Register::TRCDEVARCH,
            matcher: RegisterMatches::RegisterMatch(
                BitRange { start: 16, end: 19 },
                ValueMatcher::Value(0b0010),
            ),
            matcher2: RegisterMatches::Fill,
            category: Category::Unknown,
            description: "Embedded Trace Extension",
        },
        FeatureDescription {
            feature: Feature::FEAT_SME,
            version: ARMVersion::Armv9_2,
            register: Register::ID_AA64PFR1_EL1,
            matcher: RegisterMatches::RegisterMatch(
                BitRange { start: 24, end: 27 },
                ValueMatcher::Value(0b0001),
            ),
            matcher2: RegisterMatches::Fill,
            category: Category::Sme,
            description: "Scalable Matrix Extension",
        },
        FeatureDescription {
            feature: Feature::FEAT_SME_FA64,
            version: ARMVersion::Armv9_2,
            register: Register::ID_AA64SMFR0_EL1,
            matcher: RegisterMatches::RegisterMatch(
                BitRange { start: 63, end: 63 },
                ValueMatcher::Value(0b1),
            ),
            matcher2: RegisterMatches::Fill,
            category: Category::Sme,
            description: "Full Streaming SVE mode instructions",
        },
        FeatureDescription {
            feature: Feature::FEAT_EBF16,
            version: ARMVersion::Armv9_2,
            register: Register::ID_AA64ISAR1_EL1,
            matcher: RegisterMatches::RegisterMatch(
                BitRange { start: 44, end: 47 },
                ValueMatcher::Value(0b0010),
            ),
            matcher2: RegisterMatches::Fill,
            category: Category::Float,
            description: "AArch64 Extended BFloat16 instructions",
        },
        FeatureDescription {
            feature: Feature::FEAT_SME_F64F64,
            version: ARMVersion::Armv9_2,
            register: Register::ID_AA64SMFR0_EL1,
            matcher: RegisterMatches::RegisterMatch(
                BitRange { start: 48, end: 48 },
                ValueMatcher::Value(0b1),
            ),
            matcher2: RegisterMatches::Fill,
            category: Category::Sme,
            description: "Double-precision floating-point outer product instructions",
        },
        FeatureDescription {
            feature: Feature::FEAT_SME_I16I64,
            version: ARMVersion::Armv9_2,
            register: Register::ID_AA64SMFR0_EL1,
            matcher: RegisterMatches::RegisterMatch(
                BitRange { start: 52, end: 55 },
                ValueMatcher::Value(0b1111),
            ),
            matcher2: RegisterMatches::Fill,
            category: Category::Sme,
            description: "16-bit to 64-bit integer widening outer product instructions",
        },
    ]
}

/// The catalog entries introduced with Armv9.3.
pub open spec fn features_armv9_3() -> Seq<FeatureDescription> {
    seq![
        FeatureDescription {
            feature: Feature::FEAT_BRBEv1p1,
            version: ARMVersion::Armv9_3,
            register: Register::ID_AA64DFR0_EL1,
            matcher: RegisterMatches::RegisterMatch(
                BitRange { start: 52, end: 55 },
                ValueMatcher::Value(0b0010),
            ),
            matcher2: RegisterMatches::Fill,
            category: Category::Jump,
            description: "Branch Record Buffer Extension",
        },
    ]
}

/// The feature catalog: every entry the detector evaluates, in the order
/// the architecture versions introduced them.
pub open spec fn aarch64_features() -> Seq<FeatureDescription> {
    features_armv8_0()
        + features_armv8_1()
        + features_armv8_2()
        + features_armv8_3()
        + features_armv8_4()
        + features_armv8_5()
        + features_armv8_6()
        + features_armv8_7()
        + features_armv8_8()
        + features_armv9_0()
        + features_armv9_1()
        + features_armv9_2()
        + features_armv9_3()
}

/// The Armv8.0 entries as a vector, in catalog order.
fn build_features_armv8_0() -> (v: Vec<FeatureDescription>)
    ensures
        v@ == features_armv8_0(),
{
    let mut v: Vec<FeatureDescription> = Vec::new();
    v.push(
        FeatureDescription {
            feature: Feature::FEAT_AdvSIMD,
            version: ARMVersion::Armv8_0,
            register: Register::ID_AA64PFR0_EL1,
            matcher: RegisterMatches::RegisterMatch(
                BitRange { start: 20, end: 23 },
                ValueMatcher::Or(0b000, 0b0001),
            ),
            matcher2: RegisterMatches::Fill,
            category: Category::Float,
            description: "AdvSIMD",
        },
    );
    v.push(
        FeatureDescription {
            feature: Feature::FEAT_SB,
            version: ARMVersion::Armv8_0,
            register: Register::ID_AA64ISAR1_EL1,
            matcher: RegisterMatches::RegisterMatch(
                BitRange { start: 36, end: 39 },
                ValueMatcher::Value(0b0001),
            ),
            matcher2: RegisterMatches::Fill,
            category: Category::Unknown,
            description: "Speculation Barrier",
        },
    );
    v.push(
        FeatureDescription {
            feature: Feature::FEAT_SSBS,
            version: ARMVersion::Armv8_0,
            register: Register::ID_AA64PFR1_EL1,
            matcher: RegisterMatches::RegisterMatch(
                BitRange { start: 4, end: 7 },
                ValueMatcher::Or(0b0001, 0b0010),
            ),
            matcher2: RegisterMatches::Fill,
            category: Category::Unknown,
            description: "Speculative Store Bypass Safe",
        },
    );
    v.push(
        FeatureDescription {
            feature: Feature::FEAT_CSV2,
            version: ARMVersion::Armv8_0,
            register: Register::ID_AA64PFR0_EL1,
            matcher: RegisterMatches::RegisterMatch(
                BitRange { start: 56, end: 59 },
                ValueMatcher::Value(0b0001),
            ),
            matcher2: RegisterMatches::Fill,
            category: Category::Caches,
            description: "Cache Speculation Variant 2",
        },
    );
    v.push(
        FeatureDescription {
            feature: Feature::FEAT_CSV2_2,
            version: ARMVersion::Armv8_0,
            register: Register::ID_AA64PFR0_EL1,
            matcher: RegisterMatches::RegisterMatch(
                BitRange { start: 56, end: 59 },
                ValueMatcher::Value(0b0010),
            ),
            matcher2: RegisterMatches::Fill,
            category: Category::Caches,
            description: "Cache Speculation Variant 2",
        },
    );
    v.push(
        FeatureDescription {
            feature: Feature::FEAT_CSV2_1p1,
            version: ARMVersion::Armv8_0,
            register: Register::ID_AA64PFR1_EL1,
            matcher: RegisterMatches::RegisterMatch(
                BitRange { start: 32, end: 35 },
                ValueMatcher::Value(0b0001),
            ),
            matcher2: RegisterMatches::Fill,
            category: Category::Caches,
            description: "Cache Speculation Variant 2",
        },
    );
    v.push(
        FeatureDescription {
            feature: Feature::FEAT_CSV2_1p2,
            version: ARMVersion::Armv8_0,
            register: Register::ID_AA64PFR1_EL1,
            matcher: RegisterMatches::RegisterMatch(
                BitRange { start: 32, end: 35 },
                ValueMatcher::Value(0b0010),
            ),
            matcher2: RegisterMatches::Fill,
            category: Category::Caches,
            description: "Cache Speculation Variant 2",
        },
    );
    v.push(
        FeatureDescription {
            feature: Feature::FEAT_CSV3,
            version: ARMVersion::Armv8_0,
            register: Register::ID_AA64PFR0_EL1,
            matcher: RegisterMatches::RegisterMatch(
                BitRange { start: 60, end: 63 },
                ValueMatcher::Value(0b0001),
            ),
            matcher2: RegisterMatches::Fill,
            category: Category::Caches,
            description: "Cache Speculation Variant 3",
        },
    );
    v.push(
        FeatureDescription {
            feature: Feature::FEAT_SPECRES,
            version: ARMVersion::Armv8_0,
            register: Register::ID_AA64ISAR1_EL1,
            matcher: RegisterMatches::RegisterMatch(
                BitRange { start: 40, end: 43 },
                ValueMatcher::Value(0b0001),
            ),
            matcher2: RegisterMatches::Fill,
            category: Category::Unknown,
            description: "Speculation restriction instructions",
        },
    );
    v.push(
        FeatureDescription {
            feature: Feature::FEAT_DoubleLock,
            version: ARMVersion::Armv8_0,
            register: Register::ID_AA64DFR0_EL1,
            matcher: RegisterMatches::RegisterMatch(
                BitRange { start: 36, end: 39 },
                ValueMatcher::Value(0b0000),
            ),
            matcher2: RegisterMatches::Fill,
            category: Category::Unknown,
            description: "Double Lock",
        },
    );
    v.push(
        FeatureDescription {
            feature: Feature::FEAT_DGH,
            version: ARMVersion::Armv8_0,
            register: Register::ID_AA64ISAR1_EL1,
            matcher: RegisterMatches::RegisterMatch(
                BitRange { start: 48, end: 51 },
                ValueMatcher::Value(0b0001),
            ),
            matcher2: RegisterMatches::Fill,
            category: Category::Unknown,
            description: "Data Gathering Hint",
        },
    );
    v.push(
        FeatureDescription {
            feature: Feature::FEAT_ETS,
            version: ARMVersion::Armv8_0,
            register: Register::ID_AA64MMFR1_EL1,
            matcher: RegisterMatches::RegisterMatch(
                BitRange { start: 36, end: 39 },
                ValueMatcher::Value(0b0001),
            ),
            matcher2: RegisterMatches::Fill,
            category: Category::Unknown,
            description: "Enhanced Translation Synchronization",
        },
    );
    v.push(
        FeatureDescription {
            feature: Feature::FEAT_nTLBPA,
            version: ARMVersion::Armv8_0,
            register: Register::ID_AA64MMFR1_EL1,
            matcher: RegisterMatches::RegisterMatch(
                BitRange { start: 48, end: 51 },
                ValueMatcher::Value(0b0001),
            ),
            matcher2: RegisterMatches::Fill,
            category: Category::Unknown,
            description: "Intermediate caching of translation table walks",
        },
    );
    v.push(
        FeatureDescription {
            feature: Feature::FEAT_AES,
            version: ARMVersion::Armv8_0,
            register: Register::ID_AA64ISAR0_EL1,
            matcher: RegisterMatches::RegisterMatch(
                BitRange { start: 4, end: 7 },
                ValueMatcher::Value(0b0001),
            ),
            matcher2: RegisterMatches::Fill,
            category: Category::Crypto,
            description: "Advanced SIMD AES instructions",
        },
    );
    v.push(
        FeatureDescription {
            feature: Feature::FEAT_PMULL,
            version: ARMVersion::Armv8_0,
            register: Register::ID_AA64ISAR0_EL1,
            matcher: RegisterMatches::RegisterMatch(
                BitRange { start: 4, end: 7 },
                ValueMatcher::Value(0b0010),
            ),
            matcher2: RegisterMatches::Fill,
            category: Category::Unknown,
            description: "Advanced SIMD PMULL instructions",
        },
    );
    v.push(
        FeatureDescription {
            feature: Feature::FEAT_SHA1,
            version: ARMVersion::Armv8_0,
            register: Register::ID_AA64ISAR0_EL1,
            matcher: RegisterMatches::RegisterMatch(
                BitRange { start: 8, end: 11 },
                ValueMatcher::Value(0b0001),
            ),
            matcher2: RegisterMatches::Fill,
            category: Category::Crypto,
            description: "Advanced SIMD SHA1 instructions",
        },
    );
    v.push(
        FeatureDescription {
            feature: Feature::FEAT_SHA256,
            version: ARMVersion::Armv8_0,
            register: Register::ID_AA64ISAR0_EL1,
            matcher: RegisterMatches::RegisterMatch(
                BitRange { start: 12, end: 15 },
                ValueMatcher::Value(0b0001),
            ),
            matcher2: RegisterMatches::Fill,
            category: Category::Crypto,
            description: "Advanced SIMD SHA256 instructions",
        },
    );
    assert(v@ =~= features_armv8_0());
    v
}

/// The Armv8.1 entries as a vector, in catalog order.
fn build_features_armv8_1() -> (v: Vec<FeatureDescription>)
    ensures
        v@ == features_armv8_1(),
{
    let mut v: Vec<FeatureDescription> = Vec::new();
    v.push(
        FeatureDescription {
            feature: Feature::FEAT_LSE,
            version: ARMVersion::Armv8_1,
            register: Register::ID_AA64ISAR0_EL1,
            matcher: RegisterMatches::RegisterMatch(
                BitRange { start: 20, end: 23 },
                ValueMatcher::Value(0b0010),
            ),
            matcher2: RegisterMatches::Fill,
            category: Category::Atomics,
            description: "Large System Extensions",
        },
    );
    v.push(
        FeatureDescription {
            feature: Feature::FEAT_RDM,
            version: ARMVersion::Armv8_1,
            register: Register::ID_AA64ISAR0_EL1,
            matcher: RegisterMatches::RegisterMatch(
                BitRange { start: 28, end: 31 },
                ValueMatcher::Value(0b0001),
            ),
            matcher2: RegisterMatches::Fill,
            category: Category::Float,
            description: "Advanced SIMD rounding double multiply accumulate instructions",
        },
    );
    v.push(
        FeatureDescription {
            feature: Feature::FEAT_LOR,
            version: ARMVersion::Armv8_1,
            register: Register::ID_AA64MMFR1_EL1,
            matcher: RegisterMatches::RegisterMatch(
                BitRange { start: 16, end: 19 },
                ValueMatcher::Value(0b0001),
            ),
            matcher2: RegisterMatches::Fill,
            category: Category::Atomics,
            description: "Limited ordering regions",
        },
    );
    v.push(
        FeatureDescription {
            feature: Feature::FEAT_HAFDBS,
            version: ARMVersion::Armv8_1,
            register: Register::ID_AA64MMFR1_EL1,
            matcher: RegisterMatches::RegisterMatch(
                BitRange { start: 12, end: 15 },
                ValueMatcher::Value(0b0001),
            ),
            matcher2: RegisterMatches::Fill,
            category: Category::Unknown,
            description: "Hardware management of the Access flag and dirty state",
        },
    );
    v.push(
        FeatureDescription {
            feature: Feature::FEAT_PAN,
            version: ARMVersion::Armv8_1,
            register: Register::ID_AA64MMFR1_EL1,
            matcher: RegisterMatches::RegisterMatch(
                BitRange { start: 20, end: 23 },
                ValueMatcher::Value(0b0001),
            ),
            matcher2: RegisterMatches::Fill,
            category: Category::Unknown,
            description: "Privileged access never",
        },
    );
    v.push(
        FeatureDescription {
            feature: Feature::FEAT_VMID16,
            version: ARMVersion::Armv8_1,
            register: Register::ID_AA64MMFR1_EL1,
            matcher: RegisterMatches::RegisterMatch(
                BitRange { start: 4, end: 7 },
                ValueMatcher::Value(0b0010),
            ),
            matcher2: RegisterMatches::Fill,
            category: Category::Unknown,
            description: "16-bit VMID",
        },
    );
    v.push(
        FeatureDescription {
            feature: Feature::FEAT_VHE,
            version: ARMVersion::Armv8_1,
            register: Register::ID_AA64DFR0_EL1,
            matcher: RegisterMatches::RegisterMatch(
                BitRange { start: 8, end: 11 },
                ValueMatcher::Value(0b0001),
            ),
            matcher2: RegisterMatches::Fill,
            category: Category::Virtual,
            description: "Virtualization Host Extensions",
        },
    );
    v.push(
        FeatureDescription {
            feature: Feature::FEAT_PMUv3p1,
            version: ARMVersion::Armv8_1,
            register: Register::ID_AA64DFR0_EL1,
            matcher: RegisterMatches::RegisterMatch(
                BitRange { start: 8, end: 11 },
                ValueMatcher::Value(0b0010),
            ),
            matcher2: RegisterMatches::Fill,
            category: Category::Unknown,
            description: "PMU Extensions v3.1",
        },
    );
    v.push(
        FeatureDescription {
            feature: Feature::FEAT_PAN3,
            version: ARMVersion::Armv8_1,
            register: Register::ID_AA64MMFR1_EL1,
            matcher: RegisterMatches::RegisterMatch(
                BitRange { start: 20, end: 23 },
                ValueMatcher::Value(0b0011),
            ),
            matcher2: RegisterMatches::Fill,
            category: Category::Unknown,
            description: "Support for SCTLR_ELx.EPAN",
        },
    );
    assert(v@ =~= features_armv8_1());
    v
}

/// The Armv8.2 entries as a vector, in catalog order.
fn build_features_armv8_2() -> (v: Vec<FeatureDescription>)
    ensures
        v@ == features_armv8_2(),
{
    let mut v: Vec<FeatureDescription> = Vec::new();
    v.push(
        FeatureDescription {
            feature: Feature::FEAT_SHA512,
            version: ARMVersion::Armv8_2,
            register: Register::ID_AA64ISAR0_EL1,
            matcher: RegisterMatches::RegisterMatch(
                BitRange { start: 12, end: 15 },
                ValueMatcher::Value(0b0010),
            ),
            matcher2: RegisterMatches::Fill,
            category: Category::Crypto,
            description: "Advanced SIMD SHA512 instructions",
        },
    );
    v.push(
        FeatureDescription {
            feature: Feature::FEAT_SHA3,
            version: ARMVersion::Armv8_2,
            register: Register::ID_AA64ISAR0_EL1,
            matcher: RegisterMatches::RegisterMatch(
                BitRange { start: 32, end: 35 },
                ValueMatcher::Value(0b0001),
            ),
            matcher2: RegisterMatches::Fill,
            category: Category::Crypto,
            description: "Advanced SIMD SHA3 instructions",
        },
    );
    v.push(
        FeatureDescription {
            feature: Feature::FEAT_SM3,
            version: ARMVersion::Armv8_2,
            register: Register::ID_AA64ISAR0_EL1,
            matcher: RegisterMatches::RegisterMatch(
                BitRange { start: 36, end: 39 },
                ValueMatcher::Value(0b0001),
            ),
            matcher2: RegisterMatches::Fill,
            category: Category::Crypto,
            description: "Advanced SIMD SM3 instructions",
        },
    );
    v.push(
        FeatureDescription {
            feature: Feature::FEAT_SM4,
            version: ARMVersion::Armv8_2,
            register: Register::ID_AA64ISAR0_EL1,
            matcher: RegisterMatches::RegisterMatch(
                BitRange { start: 40, end: 43 },
                ValueMatcher::Value(0b0001),
            ),
            matcher2: RegisterMatches::Fill,
            category: Category::Crypto,
            description: "Advanced SIMD SM4 instructions",
        },
    );
    v.push(
        FeatureDescription {
            feature: Feature::FEAT_PAN2,
            version: ARMVersion::Armv8_2,
            register: Register::ID_AA64MMFR1_EL1,
            matcher: RegisterMatches::RegisterMatch(
                BitRange { start: 20, end: 23 },
                ValueMatcher::Value(0b0010),
            ),
            matcher2: RegisterMatches::Fill,
            category: Category::Unknown,
            description: "AT S1E1R and AT S1E1W instruction variants affected by PSTATE.PAN",
        },
    );
    v.push(
        FeatureDescription {
            feature: Feature::FEAT_FP16,
            version: ARMVersion::Armv8_2,
            register: Register::ID_AA64PFR0_EL1,
            matcher: RegisterMatches::RegisterMatch(
                BitRange { start: 16, end: 19 },
                ValueMatcher::Value(0b0001),
            ),
            matcher2: RegisterMatches::Fill,
            category: Category::Float,
            description: "Half-precision floating-point data processing",
        },
    );
    v.push(
        FeatureDescription {
            feature: Feature::FEAT_DotProd,
            version: ARMVersion::Armv8_2,
            register: Register::ID_AA64ISAR0_EL1,
            matcher: RegisterMatches::RegisterMatch(
                BitRange { start: 44, end: 47 },
                ValueMatcher::Value(0b0001),
            ),
            matcher2: RegisterMatches::Fill,
            category: Category::Float,
            description: "Advanced SIMD dot product instructions",
        },
    );
    v.push(
        FeatureDescription {
            feature: Feature::FEAT_FHM,
            version: ARMVersion::Armv8_2,
            register: Register::ID_AA64ISAR0_EL1,
            matcher: RegisterMatches::RegisterMatch(
                BitRange { start: 48, end: 51 },
                ValueMatcher::Value(0b0001),
            ),
            matcher2: RegisterMatches::Fill,
            category: Category::Float,
            description: "Floating-point half-precision multiplication instructions",
        },
    );
    v.push(
        FeatureDescription {
            feature: Feature::FEAT_UAO,
            version: ARMVersion::Armv8_2,
            register: Register::ID_AA64MMFR2_EL1,
            matcher: RegisterMatches::RegisterMatch(
                BitRange { start: 4, end: 7 },
                ValueMatcher::Value(0b0001),
            ),
            matcher2: RegisterMatches::Fill,
            category: Category::Unknown,
            description: "Unprivileged Access Override control",
        },
    );
    v.push(
        FeatureDescription {
            feature: Feature::FEAT_DPB,
            version: ARMVersion::Armv8_2,
            register: Register::ID_AA64ISAR1_EL1,
            matcher: RegisterMatches::RegisterMatch(
                BitRange { start: 0, end: 3 },
                ValueMatcher::Value(0b0001),
            ),
            matcher2: RegisterMatches::Fill,
            category: Category::Caches,
            description: "DC CVAP instruction",
        },
    );
    v.push(
        FeatureDescription {
            feature: Feature::FEAT_VPIPT,
            version: ARMVersion::Armv8_2,
            register: Register::CTR_EL0,
            matcher: RegisterMatches::RegisterMatch(
                BitRange { start: 14, end: 15 },
                ValueMatcher::Value(0b0000),
            ),
            matcher2: RegisterMatches::Fill,
            category: Category::Unknown,
            description: "VMID-aware PIPT instruction cache",
        },
    );
    v.push(
        FeatureDescription {
            feature: Feature::FEAT_HPDS2,
            version: ARMVersion::Armv8_2,
            register: Register::ID_AA64MMFR1_EL1,
            matcher: RegisterMatches::RegisterMatch(
                BitRange { start: 12, end: 15 },
                ValueMatcher::Value(0b0010),
            ),
            matcher2: RegisterMatches::Fill,
            category: Category::Unknown,
            description: "Translation table page-based hardware attributes",
        },
    );
    v.push(
        FeatureDescription {
            feature: Feature::FEAT_LPA,
            version: ARMVersion::Armv8_2,
            register: Register::ID_AA64MMFR0_EL1,
            matcher: RegisterMatches::RegisterMatch(
                BitRange { start: 0, end: 3 },
                ValueMatcher::Value(0b0110),
            ),
            matcher2: RegisterMatches::Fill,
            category: Category::Unknown,
            description: "Large PA and IPA support",
        },
    );
    v.push(
        FeatureDescription {
            feature: Feature::FEAT_LVA,
            version: ARMVersion::Armv8_2,
            register: Register::ID_AA64MMFR2_EL1,
            matcher: RegisterMatches::RegisterMatch(
                BitRange { start: 16, end: 19 },
                ValueMatcher::Value(0b0001),
            ),
            matcher2: RegisterMatches::Fill,
            category: Category::Unknown,
            description: "Large VA support",
        },
    );
    v.push(
        FeatureDescription {
            feature: Feature::FEAT_TTCNP,
            version: ARMVersion::Armv8_2,
            register: Register::ID_AA64MMFR2_EL1,
            matcher: RegisterMatches::RegisterMatch(
                BitRange { start: 0, end: 3 },
                ValueMatcher::Value(0b0001),
            ),
            matcher2: RegisterMatches::Fill,
            category: Category::Unknown,
            description: "Translation table Common not private translations",
        },
    );
    v.push(
        FeatureDescription {
            feature: Feature::FEAT_XNX,
            version: ARMVersion::Armv8_2,
            register: Register::ID_AA64MMFR1_EL1,
            matcher: RegisterMatches::RegisterMatch(
                BitRange { start: 28, end: 31 },
                ValueMatcher::Value(0b0001),
            ),
            matcher2: RegisterMatches::Fill,
            category: Category::Unknown,
            description: "Translation table stage 2 Unprivileged Execute-never",
        },
    );
    v.push(
        FeatureDescription {
            feature: Feature::FEAT_Debugv8p2,
            version: ARMVersion::Armv8_2,
            register: Register::ID_AA64DFR0_EL1,
            matcher: RegisterMatches::RegisterMatch(
                BitRange { start: 0, end: 3 },
                ValueMatcher::Value(0b1000),
            ),
            matcher2: RegisterMatches::Fill,
            category: Category::Unknown,
            description: "Debug v8.2",
        },
    );
    v.push(
        FeatureDescription {
            feature: Feature::FEAT_PCSRv8p2,
            version: ARMVersion::Armv8_2,
            register: Register::EDDEVID,
            matcher: RegisterMatches::RegisterMatch(
                BitRange { start: 0, end: 3 },
                ValueMatcher::Value(0b0000),
            ),
            matcher2: RegisterMatches::Fill,
            category: Category::Unknown,
            description: "PC Sample-based profiling",
        },
    );
    v.push(
        FeatureDescription {
            feature: Feature::FEAT_IESB,
            version: ARMVersion::Armv8_2,
            register: Register::ID_AA64MMFR2_EL1,
            matcher: RegisterMatches::RegisterMatch(
                BitRange { start: 12, end: 15 },
                ValueMatcher::Value(0b0001),
            ),
            matcher2: RegisterMatches::Fill,
            category: Category::Unknown,
            description: "Implicit Error Synchronization event",
        },
    );
    v.push(
        FeatureDescription {
            feature: Feature::FEAT_EVT,
            version: ARMVersion::Armv8_2,
            register: Register::ID_AA64MMFR2_EL1,
            matcher: RegisterMatches::RegisterMatch(
                BitRange { start: 56, end: 59 },
                ValueMatcher::Value(0b0010),
            ),
            matcher2: RegisterMatches::Fill,
            category: Category::Unknown,
            description: "Enhanced Virtualization Traps",
        },
    );
    v.push(
        FeatureDescription {
            feature: Feature::FEAT_DPB2,
            version: ARMVersion::Armv8_2,
            register: Register::ID_AA64ISAR1_EL1,
            matcher: RegisterMatches::RegisterMatch(
                BitRange { start: 0, end: 3 },
                ValueMatcher::Value(0b0010),
            ),
            matcher2: RegisterMatches::Fill,
            category: Category::Caches,
            description: "DC CVADP instruction",
        },
    );
    v.push(
        FeatureDescription {
            feature: Feature::FEAT_BF16,
            version: ARMVersion::Armv8_2,
            register: Register::ID_AA64ISAR1_EL1,
            matcher: RegisterMatches::RegisterMatch(
                BitRange { start: 44, end: 47 },
                ValueMatcher::Value(0b0001),
            ),
            matcher2: RegisterMatches::Fill,
            category: Category::Float,
            description: "BFloat16 instructions",
        },
    );
    v.push(
        FeatureDescription {
            feature: Feature::FEAT_I8MM,
            version: ARMVersion::Armv8_2,
            register: Register::ID_AA64ISAR1_EL1,
            matcher: RegisterMatches::RegisterMatch(
                BitRange { start: 52, end: 55 },
                ValueMatcher::Value(0b0001),
            ),
            matcher2: RegisterMatches::Fill,
            category: Category::Float,
            description: "Int8 matrix multiplication instructions",
        },
    );
    assert(v@ =~= features_armv8_2());
    v
}

/// The Armv8.3 entries as a vector, in catalog order.
fn build_features_armv8_3() -> (v: Vec<FeatureDescription>)
    ensures
        v@ == features_armv8_3(),
{
    let mut v: Vec<FeatureDescription> = Vec::new();
    v.push(
        FeatureDescription {
            feature: Feature::FEAT_FCMA,
            version: ARMVersion::Armv8_3,
            register: Register::ID_AA64ISAR1_EL1,
            matcher: RegisterMatches::RegisterMatch(
                BitRange { start: 16, end: 19 },
                ValueMatcher::Value(0b0001),
            ),
            matcher2: RegisterMatches::Fill,
            category: Category::Float,
            description: "Floating-point complex number instructions",
        },
    );
    v.push(
        FeatureDescription {
            feature: Feature::FEAT_JSCVT,
            version: ARMVersion::Armv8_3,
            register: Register::ID_AA64ISAR1_EL1,
            matcher: RegisterMatches::RegisterMatch(
                BitRange { start: 12, end: 15 },
                ValueMatcher::Value(0b0001),
            ),
            matcher2: RegisterMatches::Fill,
            category: Category::Float,
            description: "JavaScript conversion instructions",
        },
    );
    v.push(
        FeatureDescription {
            feature: Feature::FEAT_LRCPC,
            version: ARMVersion::Armv8_3,
            register: Register::ID_AA64ISAR1_EL1,
            matcher: RegisterMatches::RegisterMatch(
                BitRange { start: 20, end: 23 },
                ValueMatcher::Value(0b0001),
            ),
            matcher2: RegisterMatches::Fill,
            category: Category::Atomics,
            description: "Load-acquire RCpc instructions",
        },
    );
    v.push(
        FeatureDescription {
            feature: Feature::FEAT_NV,
            version: ARMVersion::Armv8_3,
            register: Register::ID_AA64MMFR2_EL1,
            matcher: RegisterMatches::RegisterMatch(
                BitRange { start: 24, end: 27 },
                ValueMatcher::Value(0b0001),
            ),
            matcher2: RegisterMatches::Fill,
            category: Category::Virtual,
            description: "Nested virtualization support",
        },
    );
    v.push(
        FeatureDescription {
            feature: Feature::FEAT_CCIDX,
            version: ARMVersion::Armv8_3,
            register: Register::ID_AA64MMFR2_EL1,
            matcher: RegisterMatches::RegisterMatch(
                BitRange { start: 20, end: 23 },
                ValueMatcher::Value(0b0001),
            ),
            matcher2: RegisterMatches::Fill,
            category: Category::Caches,
            description: "Extended cache index",
        },
    );
    v.push(
        FeatureDescription {
            feature: Feature::FEAT_PAuth,
            version: ARMVersion::Armv8_3,
            register: Register::ID_AA64ISAR1_EL1,
            matcher: RegisterMatches::RegisterMatch(
                BitRange { start: 4, end: 7 },
                ValueMatcher::Or(0b0001, 0b0010),
            ),
            matcher2: RegisterMatches::RegisterMatch(
                BitRange { start: 8, end: 11 },
                ValueMatcher::Or(0b0001, 0b0010),
            ),
            category: Category::Security,
            description: "Pointer authentication",
        },
    );
    v.push(
        FeatureDescription {
            feature: Feature::FEAT_SPEv1p1,
            version: ARMVersion::Armv8_3,
            register: Register::ID_AA64DFR0_EL1,
            matcher: RegisterMatches::RegisterMatch(
                BitRange { start: 32, end: 35 },
                ValueMatcher::Value(0b0010),
            ),
            matcher2: RegisterMatches::Fill,
            category: Category::Profiling,
            description: "Armv8.3 Statistical Profiling Extensions",
        },
    );
    v.push(
        FeatureDescription {
            feature: Feature::FEAT_DoPD,
            version: ARMVersion::Armv8_3,
            register: Register::EDDEVID,
            matcher: RegisterMatches::RegisterMatch(
                BitRange { start: 4, end: 7 },
                ValueMatcher::Value(0b0001),
            ),
            matcher2: RegisterMatches::Fill,
            category: Category::Debug,
            description: "Debug over Powerdown",
        },
    );
    v.push(
        FeatureDescription {
            feature: Feature::FEAT_PAuth2,
            version: ARMVersion::Armv8_3,
            register: Register::ID_AA64ISAR1_EL1,
            matcher: RegisterMatches::RegisterMatch(
                BitRange { start: 4, end: 7 },
                ValueMatcher::Value(0b0011),
            ),
            matcher2: RegisterMatches::RegisterMatch(
                BitRange { start: 8, end: 11 },
                ValueMatcher::Value(0b0011),
            ),
            category: Category::Security,
            description: "Enhancements to pointer authentication",
        },
    );
    v.push(
        FeatureDescription {
            feature: Feature::FEAT_FPAC,
            version: ARMVersion::Armv8_3,
            register: Register::ID_AA64ISAR1_EL1,
            matcher: RegisterMatches::RegisterMatch(
                BitRange { start: 4, end: 7 },
                ValueMatcher::Or(0b0100, 0b0101),
            ),
            matcher2: RegisterMatches::RegisterMatch(
                BitRange { start: 8, end: 11 },
                ValueMatcher::Or(0b0100, 0b0101),
            ),
            category: Category::Security,
            description: "Faulting on AUT* instructions",
        },
    );
    assert(v@ =~= features_armv8_3());
    v
}

/// The Armv8.4 entries as a vector, in catalog order.
fn build_features_armv8_4() -> (v: Vec<FeatureDescription>)
    ensures
        v@ == features_armv8_4(),
{
    let mut v: Vec<FeatureDescription> = Vec::new();
    v.push(
        FeatureDescription {
            feature: Feature::FEAT_DIT,
            version: ARMVersion::Armv8_4,
            register: Register::ID_AA64PFR0_EL1,
            matcher: RegisterMatches::RegisterMatch(
                BitRange { start: 48, end: 51 },
                ValueMatcher::Value(0b0010),
            ),
            matcher2: RegisterMatches::Fill,
            category: Category::Unknown,
            description: "Data Independent Timing instructions",
        },
    );
    v.push(
        FeatureDescription {
            feature: Feature::FEAT_FlagM,
            version: ARMVersion::Armv8_4,
            register: Register::ID_AA64ISAR0_EL1,
            matcher: RegisterMatches::RegisterMatch(
                BitRange { start: 52, end: 55 },
                ValueMatcher::Value(0b0001),
            ),
            matcher2: RegisterMatches::Fill,
            category: Category::Unknown,
            description: "Flag manipulation instructions v2",
        },
    );
    v.push(
        FeatureDescription {
            feature: Feature::FEAT_LRCPC2,
            version: ARMVersion::Armv8_4,
            register: Register::ID_AA64ISAR1_EL1,
            matcher: RegisterMatches::RegisterMatch(
                BitRange { start: 20, end: 23 },
                ValueMatcher::Value(0b0010),
            ),
            matcher2: RegisterMatches::Fill,
            category: Category::Atomics,
            description: "Load-Acquire RCpc instructions v2",
        },
    );
    v.push(
        FeatureDescription {
            feature: Feature::FEAT_LSE2,
            version: ARMVersion::Armv8_4,
            register: Register::ID_AA64MMFR2_EL1,
            matcher: RegisterMatches::RegisterMatch(
                BitRange { start: 32, end: 35 },
                ValueMatcher::Value(0b0001),
            ),
            matcher2: RegisterMatches::Fill,
            category: Category::Atomics,
            description: "Large System Extensions v2",
        },
    );
    v.push(
        FeatureDescription {
            feature: Feature::FEAT_TLBIOS,
            version: ARMVersion::Armv8_4,
            register: Register::ID_AA64ISAR0_EL1,
            matcher: RegisterMatches::RegisterMatch(
                BitRange { start: 56, end: 59 },
                ValueMatcher::Or(0b0001, 0b0010),
            ),
            matcher2: RegisterMatches::Fill,
            category: Category::Unknown,
            description: "TLB invalidate instructions in Outer Shareable domain",
        },
    );
    v.push(
        FeatureDescription {
            feature: Feature::FEAT_TLBIRANGE,
            version: ARMVersion::Armv8_4,
            register: Register::ID_AA64ISAR0_EL1,
            matcher: RegisterMatches::RegisterMatch(
                BitRange { start: 56, end: 59 },
                ValueMatcher::Value(0b0010),
            ),
            matcher2: RegisterMatches::Fill,
            category: Category::Unknown,
            description: "TLB invalidate range instructions",
        },
    );
    v.push(
        FeatureDescription {
            feature: Feature::FEAT_TTL,
            version: ARMVersion::Armv8_4,
            register: Register::ID_AA64MMFR2_EL1,
            matcher: RegisterMatches::RegisterMatch(
                BitRange { start: 48, end: 51 },
                ValueMatcher::Value(0b0001),
            ),
            matcher2: RegisterMatches::Fill,
            category: Category::Unknown,
            description: "Translation Table Level",
        },
    );
    v.push(
        FeatureDescription {
            feature: Feature::FEAT_S2FWB,
            version: ARMVersion::Armv8_4,
            register: Register::ID_AA64MMFR2_EL1,
            matcher: RegisterMatches::RegisterMatch(
                BitRange { start: 40, end: 43 },
                ValueMatcher::Value(0b0001),
            ),
            matcher2: RegisterMatches::Fill,
            category: Category::Unknown,
            description: "Stage 2 forced Write-Back",
        },
    );
    v.push(
        FeatureDescription {
            feature: Feature::FEAT_TTST,
            version: ARMVersion::Armv8_4,
            register: Register::ID_AA64MMFR2_EL1,
            matcher: RegisterMatches::RegisterMatch(
                BitRange { start: 28, end: 31 },
                ValueMatcher::Value(0b0001),
            ),
            matcher2: RegisterMatches::Fill,
            category: Category::Unknown,
            description: "Small translation tables",
        },
    );
    v.push(
        FeatureDescription {
            feature: Feature::FEAT_BBM,
            version: ARMVersion::Armv8_4,
            register: Register::ID_AA64MMFR2_EL1,
            matcher: RegisterMatches::RegisterMatch(
                BitRange { start: 52, end: 55 },
                ValueMatcher::Any(0b0000, 0b0001, 0b0010),
            ),
            matcher2: RegisterMatches::Fill,
            category: Category::Unknown,
            description: "Translation table break-before-make levels",
        },
    );
    v.push(
        FeatureDescription {
            feature: Feature::FEAT_SEL2,
            version: ARMVersion::Armv8_4,
            register: Register::ID_AA64PFR0_EL1,
            matcher: RegisterMatches::RegisterMatch(
                BitRange { start: 36, end: 39 },
                ValueMatcher::Value(0b0001),
            ),
            matcher2: RegisterMatches::Fill,
            category: Category::Unknown,
            description: "Secure EL2",
        },
    );
    v.push(
        FeatureDescription {
            feature: Feature::FEAT_NV2,
            version: ARMVersion::Armv8_4,
            register: Register::ID_AA64MMFR2_EL1,
            matcher: RegisterMatches::RegisterMatch(
                BitRange { start: 24, end: 27 },
                ValueMatcher::Value(0b0010),
            ),
            matcher2: RegisterMatches::Fill,
            category: Category::Virtual,
            description: "Enhanced nested virtualization support",
        },
    );
    v.push(
        FeatureDescription {
            feature: Feature::FEAT_IDST,
            version: ARMVersion::Armv8_4,
            register: Register::ID_AA64MMFR2_EL1,
            matcher: RegisterMatches::RegisterMatch(
                BitRange { start: 36, end: 39 },
                ValueMatcher::Value(0b0001),
            ),
            matcher2: RegisterMatches::Fill,
            category: Category::Unknown,
            description: "ID space trap handling",
        },
    );
    v.push(
        FeatureDescription {
            feature: Feature::FEAT_CNTSC,
            version: ARMVersion::Armv8_4,
            register: Register::CNTID,
            matcher: RegisterMatches::RegisterMatch(
                BitRange { start: 0, end: 3 },
                ValueMatcher::Value(0b0001),
            ),
            matcher2: RegisterMatches::Fill,
            category: Category::Unknown,
            description: "Generic Counter Scaling",
        },
    );
    v.push(
        FeatureDescription {
            feature: Feature::FEAT_Debugv8p4,
            version: ARMVersion::Armv8_4,
            register: Register::ID_AA64DFR0_EL1,
            matcher: RegisterMatches::RegisterMatch(
                BitRange { start: 0, end: 3 },
                ValueMatcher::Value(0b1001),
            ),
            matcher2: RegisterMatches::Fill,
            category: Category::Unknown,
            description: "Debug v8.4",
        },
    );
    v.push(
        FeatureDescription {
            feature: Feature::FEAT_TRF,
            version: ARMVersion::Armv8_4,
            register: Register::ID_AA64DFR0_EL1,
            matcher: RegisterMatches::RegisterMatch(
                BitRange { start: 40, end: 43 },
                ValueMatcher::Value(0b0001),
            ),
            matcher2: RegisterMatches::Fill,
            category: Category::Unknown,
            description: "Self-hosted Trace Extensions",
        },
    );
    v.push(
        FeatureDescription {
            feature: Feature::FEAT_PMUv3p4,
            version: ARMVersion::Armv8_4,
            register: Register::ID_AA64DFR0_EL1,
            matcher: RegisterMatches::RegisterMatch(
                BitRange { start: 8, end: 11 },
                ValueMatcher::Value(0b0101),
            ),
            matcher2: RegisterMatches::Fill,
            category: Category::Unknown,
            description: "PMU Extensions v3.4",
        },
    );
    v.push(
        FeatureDescription {
            feature: Feature::FEAT_RASv1p1,
            version: ARMVersion::Armv8_4,
            register: Register::ID_AA64PFR0_EL1,
            matcher: RegisterMatches::RegisterMatch(
                BitRange { start: 28, end: 31 },
                ValueMatcher::Value(0b0010),
            ),
            matcher2: RegisterMatches::Fill,
            category: Category::Unknown,
            description: "RAS Extension v1.1",
        },
    );
    v.push(
        FeatureDescription {
            feature: Feature::FEAT_DoubleFault,
            version: ARMVersion::Armv8_4,
            register: Register::ID_AA64PFR0_EL1,
            matcher: RegisterMatches::RegisterMatch(
                BitRange { start: 28, end: 31 },
                ValueMatcher::Value(0b0010),
            ),
            matcher2: RegisterMatches::Fill,
            category: Category::Unknown,
            description: "Double Fault Extension",
        },
    );
    assert(v@ =~= features_armv8_4());
    v
}

/// The Armv8.5 entries as a vector, in catalog order.
fn build_features_armv8_5() -> (v: Vec<FeatureDescription>)
    ensures
        v@ == features_armv8_5(),
{
    let mut v: Vec<FeatureDescription> = Vec::new();
    v.push(
        FeatureDescription {
            feature: Feature::FEAT_FlagM2,
            version: ARMVersion::Armv8_5,
            register: Register::ID_AA64ISAR0_EL1,
            matcher: RegisterMatches::RegisterMatch(
                BitRange { start: 52, end: 55 },
                ValueMatcher::Value(0b0010),
            ),
            matcher2: RegisterMatches::Fill,
            category: Category::Unknown,
            description: "Enhancements to flag manipulation instructions",
        },
    );
    v.push(
        FeatureDescription {
            feature: Feature::FEAT_FRINTTS,
            version: ARMVersion::Armv8_5,
            register: Register::ID_AA64ISAR1_EL1,
            matcher: RegisterMatches::RegisterMatch(
                BitRange { start: 32, end: 35 },
                ValueMatcher::Value(0b0001),
            ),
            matcher2: RegisterMatches::Fill,
            category: Category::Float,
            description: "Floating-point to integer instructions",
        },
    );
    v.push(
        FeatureDescription {
            feature: Feature::FEAT_ExS,
            version: ARMVersion::Armv8_5,
            register: Register::ID_AA64MMFR0_EL1,
            matcher: RegisterMatches::RegisterMatch(
                BitRange { start: 44, end: 47 },
                ValueMatcher::Value(0b0001),
            ),
            matcher2: RegisterMatches::Fill,
            category: Category::Unknown,
            description: "Context synchronization and exception handling",
        },
    );
    v.push(
        FeatureDescription {
            feature: Feature::FEAT_BTI,
            version: ARMVersion::Armv8_5,
            register: Register::ID_AA64PFR1_EL1,
            matcher: RegisterMatches::RegisterMatch(
                BitRange { start: 0, end: 3 },
                ValueMatcher::Value(0b0001),
            ),
            matcher2: RegisterMatches::Fill,
            category: Category::Security,
            description: "Branch Target Identification",
        },
    );
    v.push(
        FeatureDescription {
            feature: Feature::FEAT_E0PD,
            version: ARMVersion::Armv8_5,
            register: Register::ID_AA64MMFR2_EL1,
            matcher: RegisterMatches::RegisterMatch(
                BitRange { start: 60, end: 63 },
                ValueMatcher::Value(0b0001),
            ),
            matcher2: RegisterMatches::Fill,
            category: Category::Unknown,
            description: "Preventing EL0 access to halves of address maps",
        },
    );
    v.push(
        FeatureDescription {
            feature: Feature::FEAT_RNG,
            version: ARMVersion::Armv8_5,
            register: Register::ID_AA64ISAR0_EL1,
            matcher: RegisterMatches::RegisterMatch(
                BitRange { start: 60, end: 63 },
                ValueMatcher::Value(0b0001),
            ),
            matcher2: RegisterMatches::Fill,
            category: Category::Unknown,
            description: "Random number generator",
        },
    );
    v.push(
        FeatureDescription {
            feature: Feature::FEAT_MTE,
            version: ARMVersion::Armv8_5,
            register: Register::ID_AA64PFR1_EL1,
            matcher: RegisterMatches::RegisterMatch(
                BitRange { start: 8, end: 11 },
                ValueMatcher::Value(0b0001),
            ),
            matcher2: RegisterMatches::Fill,
            category: Category::Security,
            description: "Memory Tagging Extension",
        },
    );
    v.push(
        FeatureDescription {
            feature: Feature::FEAT_MTE2,
            version: ARMVersion::Armv8_5,
            register: Register::ID_AA64PFR1_EL1,
            matcher: RegisterMatches::RegisterMatch(
                BitRange { start: 8, end: 11 },
                ValueMatcher::Value(0b0010),
            ),
            matcher2: RegisterMatches::Fill,
            category: Category::Security,
            description: "Memory Tagging Extension",
        },
    );
    v.push(
        FeatureDescription {
            feature: Feature::FEAT_PMUv3p5,
            version: ARMVersion::Armv8_5,
            register: Register::ID_AA64DFR0_EL1,
            matcher: RegisterMatches::RegisterMatch(
                BitRange { start: 8, end: 11 },
                ValueMatcher::Value(0b0110),
            ),
            matcher2: RegisterMatches::Fill,
            category: Category::Unknown,
            description: "PMU Extensions v3.5",
        },
    );
    v.push(
        FeatureDescription {
            feature: Feature::FEAT_MTE3,
            version: ARMVersion::Armv8_5,
            register: Register::ID_AA64PFR1_EL1,
            matcher: RegisterMatches::RegisterMatch(
                BitRange { start: 8, end: 11 },
                ValueMatcher::Value(0b0011),
            ),
            matcher2: RegisterMatches::Fill,
            category: Category::Unknown,
            description: "MTE Asymmetric Fault Handling",
        },
    );
    v.push(
        FeatureDescription {
            feature: Feature::FEAT_RNG_TRAP,
            version: ARMVersion::Armv8_5,
            register: Register::ID_AA64PFR1_EL1,
            matcher: RegisterMatches::RegisterMatch(
                BitRange { start: 28, end: 31 },
                ValueMatcher::Value(0b0001),
            ),
            matcher2: RegisterMatches::Fill,
            category: Category::Unknown,
            description: "Trapping support for RNDR/RNDRRS",
        },
    );
    assert(v@ =~= features_armv8_5());
    v
}

/// The Armv8.6 entries as a vector, in catalog order.
fn build_features_armv8_6() -> (v: Vec<FeatureDescription>)
    ensures
        v@ == features_armv8_6(),
{
    let mut v: Vec<FeatureDescription> = Vec::new();
    v.push(
        FeatureDescription {
            feature: Feature::FEAT_ECV,
            version: ARMVersion::Armv8_6,
            register: Register::ID_AA64MMFR0_EL1,
            matcher: RegisterMatches::RegisterMatch(
                BitRange { start: 60, end: 63 },
                ValueMatcher::Or(0b0001, 0b0010),
            ),
            matcher2: RegisterMatches::Fill,
            category: Category::Virtual,
            description: "Enhanced Counter Virtualization",
        },
    );
    v.push(
        FeatureDescription {
            feature: Feature::FEAT_FGT,
            version: ARMVersion::Armv8_6,
            register: Register::ID_AA64MMFR0_EL1,
            matcher: RegisterMatches::RegisterMatch(
                BitRange { start: 56, end: 59 },
                ValueMatcher::Value(0b0001),
            ),
            matcher2: RegisterMatches::Fill,
            category: Category::Unknown,
            description: "Fine Grain Traps",
        },
    );
    v.push(
        FeatureDescription {
            feature: Feature::FEAT_TWED,
            version: ARMVersion::Armv8_6,
            register: Register::ID_AA64MMFR1_EL1,
            matcher: RegisterMatches::RegisterMatch(
                BitRange { start: 32, end: 35 },
                ValueMatcher::Value(0b0001),
            ),
            matcher2: RegisterMatches::Fill,
            category: Category::Unknown,
            description: "Delayed Trapping of WFE",
        },
    );
    v.push(
        FeatureDescription {
            feature: Feature::FEAT_AMUv1p1,
            version: ARMVersion::Armv8_6,
            register: Register::ID_AA64PFR0_EL1,
            matcher: RegisterMatches::RegisterMatch(
                BitRange { start: 44, end: 47 },
                ValueMatcher::Value(0b0010),
            ),
            matcher2: RegisterMatches::Fill,
            category: Category::Virtual,
            description: "AMU Extensions v1.1",
        },
    );
    v.push(
        FeatureDescription {
            feature: Feature::FEAT_MTPMU,
            version: ARMVersion::Armv8_6,
            register: Register::ID_AA64DFR0_EL1,
            matcher: RegisterMatches::RegisterMatch(
                BitRange { start: 48, end: 51 },
                ValueMatcher::Value(0b0001),
            ),
            matcher2: RegisterMatches::Fill,
            category: Category::Unknown,
            description: "Multi-threaded PMU Extensions",
        },
    );
    assert(v@ =~= features_armv8_6());
    v
}

/// The Armv8.7 entries as a vector, in catalog order.
fn build_features_armv8_7() -> (v: Vec<FeatureDescription>)
    ensures
        v@ == features_armv8_7(),
{
    let mut v: Vec<FeatureDescription> = Vec::new();
    v.push(
        FeatureDescription {
            feature: Feature::FEAT_AFP,
            version: ARMVersion::Armv8_7,
            register: Register::ID_AA64MMFR1_EL1,
            matcher: RegisterMatches::RegisterMatch(
                BitRange { start: 44, end: 47 },
                ValueMatcher::Value(0b0001),
            ),
            matcher2: RegisterMatches::Fill,
            category: Category::Float,
            description: "Alternate floating-point behavior",
        },
    );
    v.push(
        FeatureDescription {
            feature: Feature::FEAT_RPRES,
            version: ARMVersion::Armv8_7,
            register: Register::ID_AA64ISAR2_EL1,
            matcher: RegisterMatches::RegisterMatch(
                BitRange { start: 4, end: 7 },
                ValueMatcher::Value(0b0001),
            ),
            matcher2: RegisterMatches::Fill,
            category: Category::Float,
            description: "Increased precision of Reciprocal Estimate and Reciprocal Square Root Estimate",
        },
    );
    v.push(
        FeatureDescription {
            feature: Feature::FEAT_LS64,
            version: ARMVersion::Armv8_7,
            register: Register::ID_AA64ISAR1_EL1,
            matcher: RegisterMatches::RegisterMatch(
                BitRange { start: 60, end: 63 },
                ValueMatcher::Value(0b0001),
            ),
            matcher2: RegisterMatches::Fill,
            category: Category::Unknown,
            description: "Support for 64 byte loads/stores",
        },
    );
    v.push(
        FeatureDescription {
            feature: Feature::FEAT_LS64_V,
            version: ARMVersion::Armv8_7,
            register: Register::ID_AA64ISAR1_EL1,
            matcher: RegisterMatches::RegisterMatch(
                BitRange { start: 60, end: 63 },
                ValueMatcher::Value(0b0010),
            ),
            matcher2: RegisterMatches::Fill,
            category: Category::Unknown,
            description: "Support for 64 byte loads/stores",
        },
    );
    v.push(
        FeatureDescription {
            feature: Feature::FEAT_LS64_ACCDATA,
            version: ARMVersion::Armv8_7,
            register: Register::ID_AA64ISAR1_EL1,
            matcher: RegisterMatches::RegisterMatch(
                BitRange { start: 60, end: 63 },
                ValueMatcher::Value(0b0011),
            ),
            matcher2: RegisterMatches::Fill,
            category: Category::Unknown,
            description: "Support for 64 byte loads/stores",
        },
    );
    v.push(
        FeatureDescription {
            feature: Feature::FEAT_WFxT,
            version: ARMVersion::Armv8_7,
            register: Register::ID_AA64ISAR2_EL1,
            matcher: RegisterMatches::RegisterMatch(
                BitRange { start: 0, end: 3 },
                ValueMatcher::Value(0b0010),
            ),
            matcher2: RegisterMatches::Fill,
            category: Category::Unknown,
            description: "WFE and WFI instructions with timeout",
        },
    );
    v.push(
        FeatureDescription {
            feature: Feature::FEAT_HCX,
            version: ARMVersion::Armv8_7,
            register: Register::ID_AA64MMFR1_EL1,
            matcher: RegisterMatches::RegisterMatch(
                BitRange { start: 40, end: 43 },
                ValueMatcher::Value(0b0001),
            ),
            matcher2: RegisterMatches::Fill,
            category: Category::Unknown,
            description: "Support for the HCRX_EL2 register",
        },
    );
    v.push(
        FeatureDescription {
            feature: Feature::FEAT_XS,
            version: ARMVersion::Armv8_7,
            register: Register::ID_AA64ISAR1_EL1,
            matcher: RegisterMatches::RegisterMatch(
                BitRange { start: 56, end: 59 },
                ValueMatcher::Value(0b0001),
            ),
            matcher2: RegisterMatches::Fill,
            category: Category::Unknown,
            description: "XS attribute",
        },
    );
    v.push(
        FeatureDescription {
            feature: Feature::FEAT_PMUv3p7,
            version: ARMVersion::Armv8_7,
            register: Register::ID_AA64DFR0_EL1,
            matcher: RegisterMatches::RegisterMatch(
                BitRange { start: 8, end: 11 },
                ValueMatcher::Value(0b0111),
            ),
            matcher2: RegisterMatches::Fill,
            category: Category::Unknown,
            description: "Armv8.7 PMU extensions",
        },
    );
    v.push(
        FeatureDescription {
            feature: Feature::FEAT_SPEv1p2,
            version: ARMVersion::Armv8_7,
            register: Register::ID_AA64DFR0_EL1,
            matcher: RegisterMatches::RegisterMatch(
                BitRange { start: 32, end: 35 },
                ValueMatcher::Value(0b0011),
            ),
            matcher2: RegisterMatches::Fill,
            category: Category::Unknown,
            description: "Armv8.7 SPE extensions",
        },
    );
    assert(v@ =~= features_armv8_7());
    v
}

/// The Armv8.8 entries as a vector, in catalog order.
fn build_features_armv8_8() -> (v: Vec<FeatureDescription>)
    ensures
        v@ == features_armv8_8(),
{
    let mut v: Vec<FeatureDescription> = Vec::new();
    v.push(
        FeatureDescription {
            feature: Feature::FEAT_MOPS,
            version: ARMVersion::Armv8_8,
            register: Register::ID_AA64ISAR2_EL1,
            matcher: RegisterMatches::RegisterMatch(
                BitRange { start: 16, end: 19 },
                ValueMatcher::Value(0b0001),
            ),
            matcher2: RegisterMatches::Fill,
            category: Category::Memory,
            description: "Standardization of memory operations",
        },
    );
    v.push(
        FeatureDescription {
            feature: Feature::FEAT_HBC,
            version: ARMVersion::Armv8_8,
            register: Register::ID_AA64ISAR2_EL1,
            matcher: RegisterMatches::RegisterMatch(
                BitRange { start: 20, end: 23 },
                ValueMatcher::Value(0b0001),
            ),
            matcher2: RegisterMatches::Fill,
            category: Category::Unknown,
            description: "Hinted conditional branches",
        },
    );
    v.push(
        FeatureDescription {
            feature: Feature::FEAT_NMI,
            version: ARMVersion::Armv8_8,
            register: Register::ID_AA64PFR1_EL1,
            matcher: RegisterMatches::RegisterMatch(
                BitRange { start: 36, end: 39 },
                ValueMatcher::Value(0b0001),
            ),
            matcher2: RegisterMatches::Fill,
            category: Category::Unknown,
            description: "Non-maskable Interrupts",
        },
    );
    v.push(
        FeatureDescription {
            feature: Feature::FEAT_TIDCP1,
            version: ARMVersion::Armv8_8,
            register: Register::ID_AA64MMFR1_EL1,
            matcher: RegisterMatches::RegisterMatch(
                BitRange { start: 52, end: 55 },
                ValueMatcher::Value(0b0001),
            ),
            matcher2: RegisterMatches::Fill,
            category: Category::Unknown,
            description: "EL0 use of IMPLEMENTATION DEFINED functionality",
        },
    );
    v.push(
        FeatureDescription {
            feature: Feature::FEAT_CMOW,
            version: ARMVersion::Armv8_8,
            register: Register::ID_AA64MMFR1_EL1,
            matcher: RegisterMatches::RegisterMatch(
                BitRange { start: 56, end: 59 },
                ValueMatcher::Value(0b0001),
            ),
            matcher2: RegisterMatches::Fill,
            category: Category::Unknown,
            description: "Control for cache maintenance permission",
        },
    );
    v.push(
        FeatureDescription {
            feature: Feature::FEAT_PMUv3p8,
            version: ARMVersion::Armv8_8,
            register: Register::ID_AA64DFR0_EL1,
            matcher: RegisterMatches::RegisterMatch(
                BitRange { start: 8, end: 11 },
                ValueMatcher::Value(0b1000),
            ),
            matcher2: RegisterMatches::Fill,
            category: Category::Unknown,
            description: "Armv8.8 PMU extensions",
        },
    );
    v.push(
        FeatureDescription {
            feature: Feature::FEAT_HPMN0,
            version: ARMVersion::Armv8_8,
            register: Register::ID_AA64DFR0_EL1,
            matcher: RegisterMatches::RegisterMatch(
                BitRange { start: 60, end: 63 },
                ValueMatcher::Value(0b0001),
            ),
            matcher2: RegisterMatches::Fill,
            category: Category::Unknown,
            description: "Setting of MDCR_EL2.HPMN to zero",
        },
    );
    v.push(
        FeatureDescription {
            feature: Feature::FEAT_SPEv1p3,
            version: ARMVersion::Armv8_8,
            register: Register::ID_AA64DFR0_EL1,
            matcher: RegisterMatches::RegisterMatch(
                BitRange { start: 32, end: 35 },
                ValueMatcher::Value(0b0100),
            ),
            matcher2: RegisterMatches::Fill,
            category: Category::Unknown,
            description: "Armv8.8 Statistical Profiling Extensions",
        },
    );
    v.push(
        FeatureDescription {
            feature: Feature::FEAT_Debugv8p8,
            version: ARMVersion::Armv8_8,
            register: Register::ID_AA64DFR0_EL1,
            matcher: RegisterMatches::RegisterMatch(
                BitRange { start: 0, end: 3 },
                ValueMatcher::Value(0b1010),
            ),
            matcher2: RegisterMatches::Fill,
            category: Category::Unknown,
            description: "Debug v8.8",
        },
    );
    assert(v@ =~= features_armv8_8());
    v
}

/// The Armv9.0 entries as a vector, in catalog order.
fn build_features_armv9_0() -> (v: Vec<FeatureDescription>)
    ensures
        v@ == features_armv9_0(),
{
    let mut v: Vec<FeatureDescription> = Vec::new();
    v.push(
        FeatureDescription {
            feature: Feature::FEAT_SVE2,
            version: ARMVersion::Armv9_0,
            register: Register::ID_AA64ZFR0_EL1,
            matcher: RegisterMatches::RegisterMatch(
                BitRange { start: 0, end: 3 },
                ValueMatcher::Value(0b0001),
            ),
            matcher2: RegisterMatches::Fill,
            category: Category::Float,
            description: "Scalable Vector Extension version 2",
        },
    );
    v.push(
        FeatureDescription {
            feature: Feature::FEAT_SVE_AES,
            version: ARMVersion::Armv9_0,
            register: Register::ID_AA64ZFR0_EL1,
            matcher: RegisterMatches::RegisterMatch(
                BitRange { start: 4, end: 7 },
                ValueMatcher::Value(0b0001),
            ),
            matcher2: RegisterMatches::Fill,
            category: Category::Float,
            description: "Scalable Vector AES instructions",
        },
    );
    v.push(
        FeatureDescription {
            feature: Feature::FEAT_SVE_BitPerm,
            version: ARMVersion::Armv9_0,
            register: Register::ID_AA64ZFR0_EL1,
            matcher: RegisterMatches::RegisterMatch(
                BitRange { start: 16, end: 19 },
                ValueMatcher::Value(0b0001),
            ),
            matcher2: RegisterMatches::Fill,
            category: Category::Unknown,
            description: "Scalable Vector Bit Permutes instructions",
        },
    );
    v.push(
        FeatureDescription {
            feature: Feature::FEAT_SVE_PMULL128,
            version: ARMVersion::Armv9_0,
            register: Register::ID_AA64ZFR0_EL1,
            matcher: RegisterMatches::RegisterMatch(
                BitRange { start: 4, end: 7 },
                ValueMatcher::Value(0b0010),
            ),
            matcher2: RegisterMatches::Fill,
            category: Category::Unknown,
            description: "Scalable Vector PMULL instructions",
        },
    );
    v.push(
        FeatureDescription {
            feature: Feature::FEAT_SVE_SHA3,
            version: ARMVersion::Armv9_0,
            register: Register::ID_AA64ZFR0_EL1,
            matcher: RegisterMatches::RegisterMatch(
                BitRange { start: 32, end: 35 },
                ValueMatcher::Value(0b0001),
            ),
            matcher2: RegisterMatches::Fill,
            category: Category::Unknown,
            description: "Scalable Vector SHA3 instructions",
        },
    );
    v.push(
        FeatureDescription {
            feature: Feature::FEAT_SVE_SM4,
            version: ARMVersion::Armv9_0,
            register: Register::ID_AA64ZFR0_EL1,
            matcher: RegisterMatches::RegisterMatch(
                BitRange { start: 40, end: 43 },
                ValueMatcher::Value(0b0001),
            ),
            matcher2: RegisterMatches::Fill,
            category: Category::Unknown,
            description: "Scalable Vector SM4 instructions",
        },
    );
    v.push(
        FeatureDescription {
            feature: Feature::FEAT_ETE,
            version: ARMVersion::Armv9_0,
            register: Register::ID_AA64DFR0_EL1,
            matcher: RegisterMatches::RegisterMatch(
                BitRange { start: 4, end: 7 },
                ValueMatcher::Value(0b0001),
            ),
            matcher2: RegisterMatches::Fill,
            category: Category::Unknown,
            description: "Embedded Trace Extension",
        },
    );
    v.push(
        FeatureDescription {
            feature: Feature::FEAT_TRBE,
            version: ARMVersion::Armv9_0,
            register: Register::ID_AA64DFR0_EL1,
            matcher: RegisterMatches::RegisterMatch(
                BitRange { start: 44, end: 47 },
                ValueMatcher::Value(0b0001),
            ),
            matcher2: RegisterMatches::Fill,
            category: Category::Unknown,
            description: "Trace Buffer Extension",
        },
    );
    assert(v@ =~= features_armv9_0());
    v
}

/// The Armv9.1 entries as a vector, in catalog order.
fn build_features_armv9_1() -> (v: Vec<FeatureDescription>)
    ensures
        v@ == features_armv9_1(),
{
    let mut v: Vec<FeatureDescription> = Vec::new();
    v.push(
        FeatureDescription {
            feature: Feature::FEAT_ETEv1p1,
            version: ARMVersion::Armv9_1,
            register: Register::TRCDEVARCH,
            matcher: RegisterMatches::RegisterMatch(
                BitRange { start: 16, end: 19 },
                ValueMatcher::Value(0b0001),
            ),
            matcher2: RegisterMatches::Fill,
            category: Category::Unknown,
            description: "Embedded Trace Extension",
        },
    );
    assert(v@ =~= features_armv9_1());
    v
}

/// The Armv9.2 entries as a vector, in catalog order.
fn build_features_armv9_2() -> (v: Vec<FeatureDescription>)
    ensures
        v@ == features_armv9_2(),
{
    let mut v: Vec<FeatureDescription> = Vec::new();
    v.push(
        FeatureDescription {
            feature: Feature::FEAT_BRBE,
            version: ARMVersion::Armv9_2,
            register: Register::ID_AA64DFR0_EL1,
            matcher: RegisterMatches::RegisterMatch(
                BitRange { start: 52, end: 55 },
                ValueMatcher::Value(0b0001),
            ),
            matcher2: RegisterMatches::Fill,
            category: Category::Jump,
            description: "Branch Record Buffer Extension",
        },
    );
    v.push(
        FeatureDescription {
            feature: Feature::FEAT_ETEv1p2,
            version: ARMVersion::Armv9_2,
            register: Register::TRCDEVARCH,
            matcher: RegisterMatches::RegisterMatch(
                BitRange { start: 16, end: 19 },
                ValueMatcher::Value(0b0010),
            ),
            matcher2: RegisterMatches::Fill,
            category: Category::Unknown,
            description: "Embedded Trace Extension",
        },
    );
    v.push(
        FeatureDescription {
            feature: Feature::FEAT_SME,
            version: ARMVersion::Armv9_2,
            register: Register::ID_AA64PFR1_EL1,
            matcher: RegisterMatches::RegisterMatch(
                BitRange { start: 24, end: 27 },
                ValueMatcher::Value(0b0001),
            ),
            matcher2: RegisterMatches::Fill,
            category: Category::Sme,
            description: "Scalable Matrix Extension",
        },
    );
    v.push(
        FeatureDescription {
            feature: Feature::FEAT_SME_FA64,
            version: ARMVersion::Armv9_2,
            register: Register::ID_AA64SMFR0_EL1,
            matcher: RegisterMatches::RegisterMatch(
                BitRange { start: 63, end: 63 },
                ValueMatcher::Value(0b1),
            ),
            matcher2: RegisterMatches::Fill,
            category: Category::Sme,
            description: "Full Streaming SVE mode instructions",
        },
    );
    v.push(
        FeatureDescription {
            feature: Feature::FEAT_EBF16,
            version: ARMVersion::Armv9_2,
            register: Register::ID_AA64ISAR1_EL1,
            matcher: RegisterMatches::RegisterMatch(
                BitRange { start: 44, end: 47 },
                ValueMatcher::Value(0b0010),
            ),
            matcher2: RegisterMatches::Fill,
            category: Category::Float,
            description: "AArch64 Extended BFloat16 instructions",
        },
    );
    v.push(
        FeatureDescription {
            feature: Feature::FEAT_SME_F64F64,
            version: ARMVersion::Armv9_2,
            register: Register::ID_AA64SMFR0_EL1,
            matcher: RegisterMatches::RegisterMatch(
                BitRange { start: 48, end: 48 },
                ValueMatcher::Value(0b1),
            ),
            matcher2: RegisterMatches::Fill,
            category: Category::Sme,
            description: "Double-precision floating-point outer product instructions",
        },
    );
    v.push(
        FeatureDescription {
            feature: Feature::FEAT_SME_I16I64,
            version: ARMVersion::Armv9_2,
            register: Register::ID_AA64SMFR0_EL1,
            matcher: RegisterMatches::RegisterMatch(
                BitRange { start: 52, end: 55 },
                ValueMatcher::Value(0b1111),
            ),
            matcher2: RegisterMatches::Fill,
            category: Category::Sme,
            description: "16-bit to 64-bit integer widening outer product instructions",
        },
    );
    assert(v@ =~= features_armv9_2());
    v
}

/// The Armv9.3 entries as a vector, in catalog order.
fn build_features_armv9_3() -> (v: Vec<FeatureDescription>)
    ensures
        v@ == features_armv9_3(),
{
    let mut v: Vec<FeatureDescription> = Vec::new();
    v.push(
        FeatureDescription {
            feature: Feature::FEAT_BRBEv1p1,
            version: ARMVersion::Armv9_3,
            register: Register::ID_AA64DFR0_EL1,
            matcher: RegisterMatches::RegisterMatch(
                BitRange { start: 52, end: 55 },
                ValueMatcher::Value(0b0010),
            ),
            matcher2: RegisterMatches::Fill,
            category: Category::Jump,
            description: "Branch Record Buffer Extension",
        },
    );
    assert(v@ =~= features_armv9_3());
    v
}

/// The feature catalog as a vector, for evaluation.
pub fn build_aarch64_features() -> (v: Vec<FeatureDescription>)
    ensures
        v@ == aarch64_features(),
{
    let mut v = build_features_armv8_0();
    let mut part = build_features_armv8_1();
    v.append(&mut part);
    let mut part = build_features_armv8_2();
    v.append(&mut part);
    let mut part = build_features_armv8_3();
    v.append(&mut part);
    let mut part = build_features_armv8_4();
    v.append(&mut part);
    let mut part = build_features_armv8_5();
    v.append(&mut part);
    let mut part = build_features_armv8_6();
    v.append(&mut part);
    let mut part = build_features_armv8_7();
    v.append(&mut part);
    let mut part = build_features_armv8_8();
    v.append(&mut part);
    let mut part = build_features_armv9_0();
    v.append(&mut part);
    let mut part = build_features_armv9_1();
    v.append(&mut part);
    let mut part = build_features_armv9_2();
    v.append(&mut part);
    let mut part = build_features_armv9_3();
    v.append(&mut part);
    assert(v@ =~= aarch64_features());
    v
}

proof fn lemma_features_armv8_0_wf()
    ensures
        forall|i: int| 0 <= i < features_armv8_0().len() ==> (#[trigger] features_armv8_0()[i]).wf(),
{
}

proof fn lemma_features_armv8_1_wf()
    ensures
        forall|i: int| 0 <= i < features_armv8_1().len() ==> (#[trigger] features_armv8_1()[i]).wf(),
{
}

proof fn lemma_features_armv8_2_wf()
    ensures
        forall|i: int| 0 <= i < features_armv8_2().len() ==> (#[trigger] features_armv8_2()[i]).wf(),
{
}

proof fn lemma_features_armv8_3_wf()
    ensures
        forall|i: int| 0 <= i < features_armv8_3().len() ==> (#[trigger] features_armv8_3()[i]).wf(),
{
}

proof fn lemma_features_armv8_4_wf()
    ensures
        forall|i: int| 0 <= i < features_armv8_4().len() ==> (#[trigger] features_armv8_4()[i]).wf(),
{
}

proof fn lemma_features_armv8_5_wf()
    ensures
        forall|i: int| 0 <= i < features_armv8_5().len() ==> (#[trigger] features_armv8_5()[i]).wf(),
{
}

proof fn lemma_features_armv8_6_wf()
    ensures
        forall|i: int| 0 <= i < features_armv8_6().len() ==> (#[trigger] features_armv8_6()[i]).wf(),
{
}

proof fn lemma_features_armv8_7_wf()
    ensures
        forall|i: int| 0 <= i < features_armv8_7().len() ==> (#[trigger] features_armv8_7()[i]).wf(),
{
}

proof fn lemma_features_armv8_8_wf()
    ensures
        forall|i: int| 0 <= i < features_armv8_8().len() ==> (#[trigger] features_armv8_8()[i]).wf(),
{
}

proof fn lemma_features_armv9_0_wf()
    ensures
        forall|i: int| 0 <= i < features_armv9_0().len() ==> (#[trigger] features_armv9_0()[i]).wf(),
{
}

proof fn lemma_features_armv9_1_wf()
    ensures
        forall|i: int| 0 <= i < features_armv9_1().len() ==> (#[trigger] features_armv9_1()[i]).wf(),
{
}

proof fn lemma_features_armv9_2_wf()
    ensures
        forall|i: int| 0 <= i < features_armv9_2().len() ==> (#[trigger] features_armv9_2()[i]).wf(),
{
}

proof fn lemma_features_armv9_3_wf()
    ensures
        forall|i: int| 0 <= i < features_armv9_3().len() ==> (#[trigger] features_armv9_3()[i]).wf(),
{
}

/// Every catalog entry is well formed: its bit ranges lie within a
/// 64-bit value and have one of the supported widths.
pub proof fn lemma_aarch64_features_wf()
    ensures
        forall|i: int| 0 <= i < aarch64_features().len() ==> (#[trigger] aarch64_features()[i]).wf(),
{
    lemma_features_armv8_0_wf();
    lemma_features_armv8_1_wf();
    lemma_features_armv8_2_wf();
    lemma_features_armv8_3_wf();
    lemma_features_armv8_4_wf();
    lemma_features_armv8_5_wf();
    lemma_features_armv8_6_wf();
    lemma_features_armv8_7_wf();
    lemma_features_armv8_8_wf();
    lemma_features_armv9_0_wf();
    lemma_features_armv9_1_wf();
    lemma_features_armv9_2_wf();
    lemma_features_armv9_3_wf();
}

/// Some catalog entry for feature `f`, among the first `n`, matches the
/// snapshot.
pub open spec fn spec_matched_up_to(regs: RegistersInfo, n: int, f: Feature) -> bool {
    exists|j: int|
        0 <= j < n && (#[trigger] aarch64_features()[j]).feature == f
            && aarch64_features()[j].spec_matches(regs)
}

/// Some catalog entry for feature `f` matches the snapshot.
pub open spec fn spec_catalog_matched(regs: RegistersInfo, f: Feature) -> bool {
    spec_matched_up_to(regs, aarch64_features().len() as int, f)
}

/// Extending the scanned prefix by one entry adds exactly that entry's
/// feature, when it matches.
proof fn lemma_matched_up_to_step(regs: RegistersInfo, i: int, f: Feature)
    requires
        0 <= i < aarch64_features().len(),
    ensures
        spec_matched_up_to(regs, i + 1, f) <==> (spec_matched_up_to(regs, i, f) || (
        aarch64_features()[i].feature == f && aarch64_features()[i].spec_matches(regs))),
{
    if spec_matched_up_to(regs, i + 1, f) {
        let j = choose|j: int|
            0 <= j < i + 1 && (#[trigger] aarch64_features()[j]).feature == f
                && aarch64_features()[j].spec_matches(regs);
        if j < i {
            assert(spec_matched_up_to(regs, i, f));
        }
    }
    if spec_matched_up_to(regs, i, f) {
        let j = choose|j: int|
            0 <= j < i && (#[trigger] aarch64_features()[j]).feature == f
                && aarch64_features()[j].spec_matches(regs);
        assert(spec_matched_up_to(regs, i + 1, f));
    }
}

/// Pushing a fresh feature keeps a feature vector free of duplicates.
proof fn lemma_push_no_duplicates(s: Seq<Feature>, x: Feature)
    requires
        s.no_duplicates(),
        !s.contains(x),
    ensures
        s.push(x).no_duplicates(),
{
    assert forall|i: int, j: int|
        0 <= i < s.push(x).len() && 0 <= j < s.push(x).len() && i != j implies s.push(x)[i]
        != s.push(x)[j] by {
        if i == s.len() {
            if s[j] == x {
                assert(s.contains(x));
            }
        } else if j == s.len() {
            if s[i] == x {
                assert(s.contains(x));
            }
        }
    }
}

/// One detection pass over an already-taken snapshot: every catalog entry
/// that matches contributes its feature, and the result is filtered down to
/// the features the platform exposes to userspace. The returned vector is a
/// set: no feature appears twice, and membership is exactly "some catalog
/// entry matches, and the platform exposes the feature".
pub fn get_features(regs: &RegistersInfo, platform: Platform) -> (r: Vec<Feature>)
    ensures
        r@.no_duplicates(),
        forall|f: Feature| #[trigger]
            r@.contains(f) <==> (spec_catalog_matched(*regs, f) && spec_is_exposed(platform, f)),
{
    let catalog = build_aarch64_features();
    proof {
        lemma_aarch64_features_wf();
    }
    let mut features: Vec<Feature> = Vec::new();

    let mut i: usize = 0;
    while i < catalog.len()
        invariant
            0 <= i <= catalog.len(),
            catalog@ == aarch64_features(),
            features@.no_duplicates(),
            forall|i2: int|
                0 <= i2 < aarch64_features().len() ==> (#[trigger] aarch64_features()[i2]).wf(),
            forall|f: Feature| #[trigger]
                features@.contains(f) <==> (spec_matched_up_to(*regs, i as int, f)
                    && spec_is_exposed(platform, f)),
        decreases catalog.len() - i,
    {
        let entry = &catalog[i];

        if let Some(feat) = entry.matches(regs) {
            if is_exposed_to_userspace(platform, feat) {
                if !contains_feature(&features, feat) {
                    proof {
                        lemma_push_no_duplicates(features@, feat);
                    }
                    features.push(feat);
                }
            }
        }

        proof {
            assert forall|f: Feature| #[trigger]
                features@.contains(f) <==> (spec_matched_up_to(*regs, i as int + 1, f)
                    && spec_is_exposed(platform, f)) by {
                lemma_matched_up_to_step(*regs, i as int, f);
            }
        }
        i = i + 1;
    }
    features
}

/// The description of a feature, looked up in the catalog: `None` when no
/// entry announces the feature, else the description of the first entry
/// that does.
pub fn get_feature_description(feature: &Feature) -> (r: Option<String>)
    ensures
        r is Some <==> (exists|i: int|
            0 <= i < aarch64_features().len() && (#[trigger] aarch64_features()[i]).feature
                == *feature),
        r matches Some(d) ==> (exists|i: int|
            0 <= i < aarch64_features().len() && (#[trigger] aarch64_features()[i]).feature
                == *feature && d@ == aarch64_features()[i].description@ && (forall|j: int|
                0 <= j < i ==> (#[trigger] aarch64_features()[j]).feature != *feature)),
{
    let catalog = build_aarch64_features();

    let mut i: usize = 0;
    while i < catalog.len()
        invariant
            0 <= i <= catalog.len(),
            catalog@ == aarch64_features(),
            forall|j: int| 0 <= j < i ==> (#[trigger] aarch64_features()[j]).feature != *feature,
        decreases catalog.len() - i,
    {
        let entry = &catalog[i];
        if entry.get_feature() == *feature {
            return Some(String::from_str(entry.get_description()));
        }
        i = i + 1;
    }
    None
}

} // verus!
