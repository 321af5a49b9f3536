//! Runtime identification of AArch64 processor capabilities and core models.
//!
//! The library decodes a snapshot of the AArch64 identification registers:
//! a catalog of bitfield patterns maps register contents to symbolic
//! [`Feature`] values, and a second catalog maps the main ID register to a
//! [`cpu_type::Core`] model. Reading the registers themselves is privileged,
//! platform-specific work that callers perform before handing the raw values
//! in; everything in this crate is pure computation over those values.
//!
//! One detection pass takes a [`registers_info::RegistersInfo`] snapshot and
//! an availability verdict from the host platform, evaluates every catalog
//! entry against the snapshot, filters the matches down to the features the
//! host operating system exposes to unprivileged code, and returns the
//! resulting feature set. A snapshot on which nothing is available degrades
//! to the empty set rather than failing.

use vstd::prelude::*;

/// Detector for core kinds
pub mod cpu_type;

/// The catalog of feature bitfield patterns and its evaluation
pub mod features_list;

/// The features the Linux kernel exposes to userspace
pub mod linux_exported_features;

/// Representation of the MIDR_EL1 register
pub mod midr;

/// The snapshot of identification registers that detection evaluates
pub mod registers_info;

/// Vector-length helpers for the scalable vector and matrix extensions
pub mod sve_sme;

verus! {

/// aarch64 features
#[allow(non_camel_case_types)]
#[derive(Debug, PartialEq, Eq, Structural, PartialOrd, Ord, Copy, Clone, Hash)]
#[non_exhaustive]
pub enum Feature {
    /// Speculation Barrier
    FEAT_SB,
    /// Speculative Store Bypass Safe
    FEAT_SSBS,
    /// Cache Speculation Variant 2
    FEAT_CSV2,
    /// Cache Speculation Variant 2
    FEAT_CSV2_2,
    /// Cache Speculation Variant 2
    FEAT_CSV2_1p1,
    /// Cache Speculation Variant 2
    FEAT_CSV2_1p2,
    /// Cache Speculation Variant 3
    FEAT_CSV3,
    /// Speculation restriction instructions
    FEAT_SPECRES,
    /// CP15SDISABLE2
    FEAT_CP15SDISABLE2,
    /// Double Lock
    FEAT_DoubleLock,
    /// Data Gathering Hint
    FEAT_DGH,
    /// Enhanced Translation Synchronization
    FEAT_ETS,
    /// Intermediate caching of translation table walks
    FEAT_nTLBPA,
    /// PC Sample-based Profiling Extension
    FEAT_PCSRv8,
    /// Advanced SIMD AES instructions
    FEAT_AES,
    /// Advanced SIMD PMULL instructions
    FEAT_PMULL,
    /// Advanced SIMD SHA1 instructions
    FEAT_SHA1,
    /// Advanced SIMD SHA256 instructions
    FEAT_SHA256,

    /// Large System Extensions
    FEAT_LSE,
    /// Advanced SIMD rounding double multiply accumulate instructions
    FEAT_RDM,
    /// Limited ordering regions
    FEAT_LOR,
    /// Hierarchical permission disables
    FEAT_HPDS,
    ///  Hardware management of the Access flag and dirty state
    FEAT_HAFDBS,
    /// Privileged access never
    FEAT_PAN,
    /// 16-bit VMID
    FEAT_VMID16,
    /// Virtualization Host Extensions
    FEAT_VHE,
    /// PMU Extensions v3.1
    FEAT_PMUv3p1,
    /// Support for SCTLR_ELx.EPAN
    FEAT_PAN3,

    /// Advanced SIMD SHA512 instructions
    FEAT_SHA512,
    /// Advanced SIMD SHA3 instructions
    FEAT_SHA3,
    /// Advanced SIMD SM3 instructions
    FEAT_SM3,
    /// Advanced SIMD SM4 instructions
    FEAT_SM4,
    /// Armv8.2 changes to the A64 ISA
    FEAT_ASMv8p2,
    /// AT S1E1R and AT S1E1W instruction variants affected by PSTATE.PAN
    FEAT_PAN2,
    /// Half-precision floating-point data processing
    FEAT_FP16,
    /// Advanced SIMD dot product instructions
    FEAT_DotProd,
    /// Floating-point half-precision multiplication instructions
    FEAT_FHM,
    /// Unprivileged Access Override control
    FEAT_UAO,
    /// DC CVAP instruction
    FEAT_DPB,
    /// VMID-aware PIPT instruction cache
    FEAT_VPIPT,
    /// Translation table page-based hardware attributes
    FEAT_HPDS2,
    /// Large PA and IPA support
    FEAT_LPA,
    /// Large VA support
    FEAT_LVA,
    /// Translation table Common not private translations
    FEAT_TTCNP,
    /// Translation table stage 2 Unprivileged Execute-never
    FEAT_XNX,
    /// Debug v8.2
    FEAT_Debugv8p2,
    /// PC Sample-based profiling
    FEAT_PCSRv8p2,
    /// Implicit Error Synchronization event
    FEAT_IESB,
    /// Single-precision Matrix Multiplication
    FEAT_F32MM,
    /// Single-precision Matrix Multiplication,
    FEAT_F64MM,

    /// Enhanced Virtualization Traps
    FEAT_EVT,
    /// DC CVADP instruction
    FEAT_DPB2,
    /// BFloat16 instructions
    FEAT_BF16,
    /// Int8 matrix multiplication instructions
    FEAT_I8MM,
    /// Scalable Vector Extension (SVE)
    FEAT_SVE,

    /// Floating-point complex number instructions
    FEAT_FCMA,
    /// JavaScript conversion instructions
    FEAT_JSCVT,
    /// Load-acquire RCpc instructions
    FEAT_LRCPC,
    /// Nested virtualization support
    FEAT_NV,
    /// Extended cache index
    FEAT_CCIDX,
    /// Pointer authentication
    FEAT_PAuth,

    /// Armv8.3 Statistical Profiling Extensions
    FEAT_SPEv1p1,
    /// Debug over Powerdown
    FEAT_DoPD,
    /// Enhancements to pointer authentication
    FEAT_PAuth2,
    /// Faulting on AUT* instructions and combined pointer authentication instructions
    FEAT_FPAC,
    /// Faulting on AUT* instructions and combined pointer authentication instructions
    FEAT_FPACCOMBINE,
    /// Pointer authentication - QARMA3 algorithm
    FEAT_PACQARMA3,
    /// PAC algorithm enhancement
    FEAT_CONSTPACFIELD,

    /// Data Independent Timing instructions
    FEAT_DIT,
    /// Flag manipulation instructions v2
    FEAT_FlagM,
    /// Load-acquire RCpc instructions v2
    FEAT_LRCPC2,
    /// Large System Extensions v2
    FEAT_LSE2,
    /// TLB invalidate instructions in Outer Shareable domain
    FEAT_TLBIOS,
    /// TLB invalidate range instructions
    FEAT_TLBIRANGE,
    /// Translation Table Level
    FEAT_TTL,
    /// Stage 2 forced Write-Back
    FEAT_S2FWB,
    /// Small translation tables
    FEAT_TTST,
    /// Translation table break-before-make levels
    FEAT_BBM,
    /// Secure EL2
    FEAT_SEL2,
    /// Enhanced nested virtualization support
    FEAT_NV2,
    /// ID space trap handling
    FEAT_IDST,
    /// Generic Counter Scaling
    FEAT_CNTSC,
    /// Debug v8.4
    FEAT_Debugv8p4,
    /// Self-hosted Trace Extensions
    FEAT_TRF,
    /// PMU Extensions v3.4
    FEAT_PMUv3p4,
    /// RAS Extension v1.1
    FEAT_RASv1p1,
    /// Double Fault Extension
    FEAT_DoubleFault,

    /// Enhancements to flag manipulation instructions
    FEAT_FlagM2,
    /// Floating-point to integer instructions
    FEAT_FRINTTS,
    /// Context synchronization and exception handling
    FEAT_ExS,
    /// Guest translation granule size
    FEAT_GTG,
    /// Branch Target Identification
    FEAT_BTI,
    /// Preventing EL0 access to halves of address maps
    FEAT_E0PD,
    /// Random number generator
    FEAT_RNG,
    /// Memory Tagging Extension
    FEAT_MTE,
    /// Memory Tagging Extension
    FEAT_MTE2,
    /// PMU Extensions v3.5
    FEAT_PMUv3p5,

    /// MTE Asymmetric Fault Handling
    FEAT_MTE3,
    /// Trapping support for RNDR/RNDRRS
    FEAT_RNG_TRAP,

    /// Enhanced Counter Virtualization
    FEAT_ECV,
    /// Fine Grain Traps
    FEAT_FGT,
    /// Delayed Trapping of WFE
    FEAT_TWED,
    /// AMU Extensions v1.1
    FEAT_AMUv1p1,
    /// Multi-threaded PMU Extensions
    FEAT_MTPMU,

    /// Alternate floating-point behavior
    FEAT_AFP,
    /// Increased precision of Reciprocal Estimate and Reciprocal Square Root Estimate
    FEAT_RPRES,
    /// Support for 64 byte loads/stores
    FEAT_LS64,
    /// Support for 64 byte loads/stores
    FEAT_LS64_V,
    /// Support for 64 byte loads/stores
    FEAT_LS64_ACCDATA,
    /// WFE and WFI instructions with timeout
    FEAT_WFxT,
    ////// WFE and WFI instructions with timeout
    /// Support for the HCRX_EL2 register
    FEAT_HCX,
    /// Larger physical address for 4KB and 16KB translation granules
    FEAT_LPA2,
    /// XS attribute
    FEAT_XS,
    /// Armv8.7 PMU extensions
    FEAT_PMUv3p7,
    /// Armv8.7 SPE features
    FEAT_SPEv1p2,

    /// Standardization of memory operations
    FEAT_MOPS,
    /// Hinted conditional branches
    FEAT_HBC,
    /// Non-maskable Interrupts
    FEAT_NMI,
    /// EL0 use of IMPLEMENTATION DEFINED functionality
    FEAT_TIDCP1,
    /// Control for cache maintenance permission
    FEAT_CMOW,
    /// Armv8.8 PMU extensions
    FEAT_PMUv3p8,
    /// Setting of MDCR_EL2.HPMN to zero
    FEAT_HPMN0,
    /// Event counting threshold
    FEAT_PMUv3_TH,
    /// Statistical Profiling Extensions
    FEAT_SPEv1p3,
    /// Debug v8.8
    FEAT_Debugv8p8,
    /// Reliability, Availability, and Serviceability Extension
    FEAT_RAS,
    /// Statistical Profiling Extension
    FEAT_SPE,

    /// Common Short Sequence Compression instructions
    FEAT_CSSC,
    /// Load-Acquire RCpc instructions version 3
    FEAT_LRCPC3,

    /// Scalable Vector Extension version 2
    FEAT_SVE2,
    /// Scalable Vector AES instructions
    FEAT_SVE_AES,
    /// Scalable Vector Bit Permutes instructions
    FEAT_SVE_BitPerm,
    /// Scalable Vector PMULL instructions
    FEAT_SVE_PMULL128,
    ///  Scalable Vector SHA3 instructions
    FEAT_SVE_SHA3,
    /// Scalable Vector SM4 instructions
    FEAT_SVE_SM4,
    /// Embedded Trace Extension
    FEAT_ETE,
    /// Trace Buffer Extension
    FEAT_TRBE,

    /// Embedded Trace Extension
    FEAT_ETEv1p1,

    /// Branch Record Buffer Extension
    FEAT_BRBE,
    /// Embedded Trace Extension
    FEAT_ETEv1p2,
    /// Realm Management Extension
    FEAT_RME,
    /// Scalable Matrix Extension
    FEAT_SME,
    /// Full Streaming SVE mode instructions
    FEAT_SME_FA64,
    /// AArch64 Extended BFloat16 instructions
    FEAT_EBF16,
    /// Double-precision floating-point outer product instructions
    FEAT_SME_F64F64,
    /// 16-bit to 64-bit integer widening outer product instructions
    FEAT_SME_I16I64,

    /// Scalable Matrix Extensions version 2
    FEAT_SME2,
    /// Branch Record Buffer Extension
    FEAT_BRBEv1p1,

    /// 128-bit Atomics
    FEAT_LSE128,
    /// Scalable Matrix Extension version 2.1
    FEAT_SME2p1,
    /// Scalable Vector Extensions version 2.1
    FEAT_SVE2p1,

    /// Advanced SIMD Extension
    FEAT_AdvSIMD,

    /// Address Breakpoint Linking extension
    FEAT_ABLE,
    /// RASv2 Additional Error syndrome reporting, for Device and Normal memory
    FEAT_ADERR,
    /// RASv2 Additional Error syndrome reporting, for Device and Normal memory
    FEAT_ANERR,
    /// Memory Attribute Index Enhancement
    FEAT_AIE,
    /// Non-widening BFloat16 to BFloat16 arithmetic for SVE2.1 and SME2.1
    FEAT_B16B16,
    /// A new instruction CLRBHB is added in HINT space
    FEAT_CLRBHB,
    /// New identification mechanism for Branch History information
    FEAT_CSV2_3,
    /// 128-bit Translation Tables, 56 bit PA
    FEAT_D128,
    /// Debug 2022
    FEAT_Debugv8p9,
    /// Imposes restrictions on branch hisory speculation around exceptions
    FEAT_ECBHB,
    /// ETE support for v9.3
    FEAT_ETEv1p3,
    /// Fine-grained traps 2
    FEAT_FGT2,
    /// Hardware managed Access Flag for Table descriptors
    FEAT_HAFT,
    /// Instrumentation trace extension
    FEAT_ITE,
    /// 56-bit VA
    FEAT_LVA3,
    /// Memory Encryption Contexts
    FEAT_MEC,
    /// Memory Tagging Extension
    FEAT_MTE4,
    /// Support for Canonical tag checking
    FEAT_MTE_CANONICAL_TAGS,
    /// Reporting of all non-address bits on a fault
    FEAT_MTE_TAGGED_FAR,
    /// Store-only Tag checking
    FEAT_MTE_STORE_ONLY,
    /// Memory tagging with Address tagging disabled
    FEAT_MTE_NO_ADDRESS_TAGS,
    /// Asymmetric Tag Check Fault handling
    FEAT_MTE_ASYM_FAULT,
    /// Asynchronous Tag Check Fault handling
    FEAT_MTE_ASYNC,
    /// Allocation tag access permission
    FEAT_MTE_PERM,
    /// PCSR disable control
    FEAT_PCSRv8p9,
    /// Permission model enhancements
    FEAT_PIE,
    /// Permission model enhancements
    FEAT_POE,
    /// Permission model enhancements
    FEAT_S1PIE,
    /// Permission model enhancements
    FEAT_S2PIE,
    /// Permission model enhancements
    FEAT_S1POE,
    /// Permission model enhancements
    FEAT_S2POE,
    /// EL0 access controls for PMU event counters
    FEAT_PMUv3p9,
    /// PMU event edge detection
    FEAT_PMUv3_EDGE,
    /// PMU instruction counter
    FEAT_PMUv3_ICNTR,
    /// PMU snapshot
    FEAT_PMUv3_SS,
    /// Prefetching enhancements
    FEAT_PRFMSLC,
    /// Reliability, Availability, and Serviceability (RAS) Extension version 2
    FEAT_RASv2,
    /// RPRFM range prefetch hint instruction
    FEAT_RPRFM,
    /// Extension to SCTLR_ELx
    FEAT_SCTLR2,
    /// Synchronous Exception-based event profiling
    FEAT_SEBEP,
    /// Non-widening half-precision FP16 to FP16 arithmetic for SME2.1
    FEAT_SME_F16F16,
    /// System PMU
    FEAT_SPMU,
    /// Addtional SPE events
    FEAT_SPEv1p4,
    /// SPE filtering by data source
    FEAT_SPE_FDS,
    /// 128-bit System instructions
    FEAT_SYSINSTR128,
    /// 128-bit System registers
    FEAT_SYSREG128,
    /// Extension to TCR_ELx
    FEAT_TCR2,
    /// Translation Hardening Extension
    FEAT_THE,
    /// TRBE external mode
    FEAT_TRBE_EXT,}

impl Feature {
    /// The number of feature identifiers the enumeration declares.
    pub fn count() -> (n: usize)
        ensures
            n == 201,
    {
        201
    }
}

/// The broad capability family a catalog entry belongs to.
#[derive(Copy, Clone, Hash, Eq, PartialEq, Structural, Debug)]
pub enum Category {
    /// Atomic read-modify-write operations
    Atomics,
    /// Branch instructions
    Branch,
    /// Floating-point and SIMD arithmetic
    Float,
    /// Cache maintenance and speculation
    Caches,
    /// Cryptographic instructions
    Crypto,
    /// Scalable matrix extension
    Sme,
    /// Scalable vector extension
    Sve,
    /// Virtualization support
    Virtual,
    /// Profiling and tracing
    Profiling,
    /// Security mechanisms
    Security,
    /// Debug support
    Debug,
    /// Memory operations
    Memory,
    /// Jumps and hints
    Jump,
    /// Not yet categorized
    Unknown,
}

/// The architecture version that introduced a catalog entry.
#[allow(non_camel_case_types)]
#[derive(Copy, Clone, Hash, Eq, PartialEq, Structural, Debug)]
pub enum ARMVersion {
    /// Armv8.0
    Armv8_0,
    /// Armv8.1
    Armv8_1,
    /// Armv8.2
    Armv8_2,
    /// Armv8.3
    Armv8_3,
    /// Armv8.4
    Armv8_4,
    /// Armv8.5
    Armv8_5,
    /// Armv8.6
    Armv8_6,
    /// Armv8.7
    Armv8_7,
    /// Armv8.8
    Armv8_8,
    /// Armv8.9
    Armv8_9,
    /// Armv9.0
    Armv9_0,
    /// Armv9.1
    Armv9_1,
    /// Armv9.2
    Armv9_2,
    /// Armv9.3
    Armv9_3,
    /// Armv9.4
    Armv9_4,
    /// Armv9.5
    Armv9_5,
    /// Armv9.6
    Armv9_6,
}

/// The host platform whose rules decide which detected features userspace
/// may rely on. The platform also supplies the availability probe and the
/// register reads; both happen outside this crate.
#[derive(Copy, Clone, Hash, Eq, PartialEq, Structural, Debug)]
pub enum Platform {
    /// Linux on an AArch64 processor
    LinuxAarch64,
    /// macOS on an AArch64 processor
    MacosAarch64,
    /// Windows on an AArch64 processor
    WindowsAarch64,
    /// Any host without AArch64 identification registers
    Generic,
}

/// Does the platform expose a feature to unprivileged code? Linux exposes
/// its documented allow-list, macOS masks nothing, Windows and hosts
/// without AArch64 registers expose nothing.
pub open spec fn spec_is_exposed(platform: Platform, feat: Feature) -> bool {
    match platform {
        Platform::LinuxAarch64 => linux_exported_features::spec_exported_features().contains(feat),
        Platform::MacosAarch64 => true,
        Platform::WindowsAarch64 => false,
        Platform::Generic => false,
    }
}

/// Test whether the platform exposes a feature to unprivileged code.
pub fn is_exposed_to_userspace(platform: Platform, feat: Feature) -> (r: bool)
    ensures
        r == spec_is_exposed(platform, feat),
{
    match platform {
        Platform::LinuxAarch64 => linux_exported_features::is_exported(feat),
        Platform::MacosAarch64 => true,
        Platform::WindowsAarch64 => false,
        Platform::Generic => false,
    }
}

/// The set of features one detection pass yields: the features some catalog
/// entry announces in the snapshot, restricted to those the platform
/// exposes — or nothing at all when the platform reports the registers
/// unavailable.
pub open spec fn spec_detected_features(
    available: bool,
    regs: registers_info::RegistersInfo,
    platform: Platform,
) -> Set<Feature> {
    if available {
        Set::new(
            |f: Feature|
                features_list::spec_catalog_matched(regs, f) && spec_is_exposed(platform, f),
        )
    } else {
        Set::<Feature>::empty()
    }
}

/// One detection pass. The caller probes the platform first: when the probe
/// failed, the pass returns the empty set without touching the snapshot.
/// Otherwise every catalog entry is evaluated against the snapshot and the
/// matches are filtered by the platform's exposure rules. The result is a
/// set — no feature appears twice — and is a pure function of the
/// arguments, so a second pass over the same snapshot yields the same set.
pub fn detect_features(
    available: bool,
    regs: &registers_info::RegistersInfo,
    platform: Platform,
) -> (r: Vec<Feature>)
    ensures
        r@.no_duplicates(),
        r@.to_set() == spec_detected_features(available, *regs, platform),
        !available ==> r@ == Seq::<Feature>::empty(),
{
    if !available {
        let r: Vec<Feature> = Vec::new();
        proof {
            assert(r@.to_set() =~= Set::<Feature>::empty());
        }
        return r;
    }

    let r = features_list::get_features(regs, platform);
    proof {
        assert(r@.to_set() =~= spec_detected_features(available, *regs, platform));
    }
    r
}

/// find a description of the given feature, see [`Feature`]: `None` for a
/// feature no catalog entry announces, else the description of the first
/// entry that does.
pub fn get_description(feature: &Feature) -> (r: Option<String>)
    ensures
        r is Some <==> (exists|i: int|
            0 <= i < features_list::aarch64_features().len() && (
            #[trigger] features_list::aarch64_features()[i]).feature == *feature),
        r matches Some(d) ==> (exists|i: int|
            0 <= i < features_list::aarch64_features().len() && (
            #[trigger] features_list::aarch64_features()[i]).feature == *feature && d@
                == features_list::aarch64_features()[i].description@ && (forall|j: int|
                0 <= j < i ==> (#[trigger] features_list::aarch64_features()[j]).feature
                    != *feature)),
{
    features_list::get_feature_description(feature)
}

/// Two detection passes over one unchanged snapshot agree: the detected set
/// is a function of the probe verdict, the snapshot and the platform, so
/// any two result vectors hold the same features.
pub proof fn lemma_detect_features_idempotent(
    r1: Seq<Feature>,
    r2: Seq<Feature>,
    available: bool,
    regs: registers_info::RegistersInfo,
    platform: Platform,
)
    requires
        r1.to_set() == spec_detected_features(available, regs, platform),
        r2.to_set() == spec_detected_features(available, regs, platform),
    ensures
        r1.to_set() == r2.to_set(),
        forall|f: Feature| r1.contains(f) <==> r2.contains(f),
{
    assert forall|f: Feature| r1.contains(f) <==> r2.contains(f) by {
        assert(r1.contains(f) == r1.to_set().contains(f));
        assert(r2.contains(f) == r2.to_set().contains(f));
    }
}

/// A pass on an unavailable platform detects nothing, whatever the snapshot
/// holds.
pub proof fn lemma_detect_features_degrades_to_empty(
    regs: registers_info::RegistersInfo,
    platform: Platform,
)
    ensures
        spec_detected_features(false, regs, platform) == Set::<Feature>::empty(),
{
}

} // verus!
