use aarch64_features::cpu_type::Core;
use aarch64_features::cpu_type::DetectionError;
use aarch64_features::cpu_type::PartNumMatcher;
use aarch64_features::cpu_type::APPLE_CPU_PART_M1_FIRESTORM;
use aarch64_features::cpu_type::APPLE_CPU_PART_M1_ICESTORM;
use aarch64_features::cpu_type::ARM_NEOVERSE_N2_PART_NUM;
use aarch64_features::cpu_type::MICROSOFT_AZURE_COBALT100_PART_NUM;
use aarch64_features::midr::Implementer;
use aarch64_features::midr::MidrBuilder;
use aarch64_features::midr::MidrEL1;

fn try_from(value: &MidrEL1) -> Option<Core> {
    match Core::try_from(*value) {
        Ok(core) => Some(core),
        Err(_) => None,
    }
}

#[test]
fn cpu_type_test_apple_m1() {
    let midr = MidrBuilder::new()
        .implementer(Implementer::Apple)
        .part_num(APPLE_CPU_PART_M1_FIRESTORM)
        .build();
    let midr_el1 = MidrEL1::Known(midr.clone());

    assert!(midr.check_part_num(APPLE_CPU_PART_M1_FIRESTORM));
    assert!(midr.check_implementer(Implementer::Apple));

    assert!(
        PartNumMatcher::Or(APPLE_CPU_PART_M1_FIRESTORM, APPLE_CPU_PART_M1_ICESTORM)
            .check_match(&midr_el1)
    );

    let core_option = try_from(&midr_el1);
    assert!(core_option.is_some());

    assert!(core_option.unwrap_or(Core::AppleM1Max) == Core::AppleM1);

    let midr = MidrBuilder::new()
        .implementer(Implementer::Apple)
        .part_num(APPLE_CPU_PART_M1_ICESTORM)
        .build();
    let midr_el1 = MidrEL1::Known(midr);

    let core_option = try_from(&midr_el1);
    assert!(core_option.is_some());
    assert!(core_option.unwrap_or(Core::AppleM1Max) == Core::AppleM1);
}

#[test]
fn test_resolve_neoverse_n2_and_cobalt_100() {
    // The same part number resolves differently under the two implementers:
    // the implementer check is load-bearing, not incidental.
    assert_eq!(ARM_NEOVERSE_N2_PART_NUM, MICROSOFT_AZURE_COBALT100_PART_NUM);

    let arm = MidrBuilder::new()
        .implementer(Implementer::Arm)
        .part_num(ARM_NEOVERSE_N2_PART_NUM)
        .build();
    assert_eq!(Core::try_from(MidrEL1::Known(arm)), Ok(Core::NeoverseN2));

    let microsoft = MidrBuilder::new()
        .implementer(Implementer::Microsoft)
        .part_num(MICROSOFT_AZURE_COBALT100_PART_NUM)
        .build();
    assert_eq!(
        Core::try_from(MidrEL1::Known(microsoft)),
        Ok(Core::MicrosoftAzureCobalt100)
    );
}

#[test]
fn test_unsupported_architecture() {
    assert_eq!(
        Core::try_from(MidrEL1::Unknown),
        Err(DetectionError::UnsupportedArchitecture)
    );
}

#[test]
fn test_unknown_core() {
    // A real implementer with an uncataloged part number is a distinct
    // outcome from a non-AArch64 host.
    let midr = MidrBuilder::new()
        .implementer(Implementer::Arm)
        .part_num(0x123)
        .build();
    assert_eq!(
        Core::try_from(MidrEL1::Known(midr)),
        Err(DetectionError::UnknownCore)
    );

    // An unknown implementer matches no entry either.
    let midr = MidrBuilder::new().part_num(ARM_NEOVERSE_N2_PART_NUM).build();
    assert_eq!(
        Core::try_from(MidrEL1::Known(midr)),
        Err(DetectionError::UnknownCore)
    );
}
