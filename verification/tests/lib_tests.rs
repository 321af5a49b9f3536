use aarch64_features::detect_features;
use aarch64_features::get_description;
use aarch64_features::is_exposed_to_userspace;
use aarch64_features::Feature;
use aarch64_features::Platform;
use aarch64_features::registers_info::Register;
use aarch64_features::registers_info::RegistersInfo;

#[test]
fn it_works() {
    assert_eq!(2 + 2, 4);
}

#[test]
fn check_number_of_variant() {
    assert_eq!(Feature::count(), 201);
}

#[test]
fn test_neoverse_n1() {
    assert_eq!(2 + 2, 4);
}

#[test]
fn test_neoverse_n2() {
    assert_eq!(2 + 2, 4);
}

#[test]
fn lib_test_apple_m1() {
    assert_eq!(2 + 2, 4);
}

#[test]
fn test_apple_m2() {
    assert_eq!(2 + 2, 4);
}

fn snapshot_with_lse() -> RegistersInfo {
    let mut regs = RegistersInfo::zeroed();
    // Atomics occupy bits 23:20 of ID_AA64ISAR0_EL1; 0b0010 announces FEAT_LSE.
    regs.id_aa64isar0 = 0b0010 << 20;
    regs
}

#[test]
fn test_evaluate_large_system_extension() {
    let regs = snapshot_with_lse();
    let features = detect_features(true, &regs, Platform::LinuxAarch64);

    assert!(features.contains(&Feature::FEAT_LSE));
    // Features whose defining bits are zero stay out.
    assert!(!features.contains(&Feature::FEAT_AES));
    assert!(!features.contains(&Feature::FEAT_SHA1));
    assert!(!features.contains(&Feature::FEAT_RDM));
    assert!(!features.contains(&Feature::FEAT_SVE));
}

#[test]
fn test_detect_features_idempotent() {
    let regs = snapshot_with_lse();
    let first = detect_features(true, &regs, Platform::LinuxAarch64);
    let second = detect_features(true, &regs, Platform::LinuxAarch64);

    // Set equality, independent of order.
    assert_eq!(first.len(), second.len());
    for feature in &first {
        assert!(second.contains(feature));
    }
    for feature in &second {
        assert!(first.contains(feature));
    }
}

#[test]
fn test_detect_features_degrades_to_empty() {
    // Even a snapshot full of matches yields nothing when the availability
    // probe said no.
    let regs = snapshot_with_lse();
    let features = detect_features(false, &regs, Platform::LinuxAarch64);
    assert!(features.is_empty());
}

#[test]
fn test_exposure_filter() {
    let regs = snapshot_with_lse();

    // An all-zero ID_AA64DFR0_EL1 announces FEAT_DoubleLock, which Linux
    // does not export; macOS masks nothing.
    let linux = detect_features(true, &regs, Platform::LinuxAarch64);
    assert!(!linux.contains(&Feature::FEAT_DoubleLock));
    let macos = detect_features(true, &regs, Platform::MacosAarch64);
    assert!(macos.contains(&Feature::FEAT_DoubleLock));
    assert!(macos.contains(&Feature::FEAT_LSE));

    // Windows and non-AArch64 hosts expose nothing.
    let windows = detect_features(true, &regs, Platform::WindowsAarch64);
    assert!(windows.is_empty());
    let generic = detect_features(true, &regs, Platform::Generic);
    assert!(generic.is_empty());
}

#[test]
fn test_is_exposed_to_userspace() {
    assert!(is_exposed_to_userspace(Platform::LinuxAarch64, Feature::FEAT_LSE));
    assert!(is_exposed_to_userspace(Platform::LinuxAarch64, Feature::FEAT_AdvSIMD));
    assert!(!is_exposed_to_userspace(Platform::LinuxAarch64, Feature::FEAT_DoubleLock));
    assert!(is_exposed_to_userspace(Platform::MacosAarch64, Feature::FEAT_DoubleLock));
    assert!(!is_exposed_to_userspace(Platform::WindowsAarch64, Feature::FEAT_LSE));
    assert!(!is_exposed_to_userspace(Platform::Generic, Feature::FEAT_LSE));
}

#[test]
fn test_read_register() {
    let mut regs = RegistersInfo::zeroed();
    regs.id_aa64isar0 = 7;
    regs.trcdevarch = 9;

    assert_eq!(regs.read_register(Register::ID_AA64ISAR0_EL1), 7);
    assert_eq!(regs.read_register(Register::TRCDEVARCH), 9);
    assert_eq!(regs.read_register(Register::ID_AA64PFR0_EL1), 0);
    // the placeholder register always reads as zero
    assert_eq!(regs.read_register(Register::NoRegister), 0);
}

#[test]
fn test_get_description() {
    assert_eq!(
        get_description(&Feature::FEAT_LOR),
        Some(String::from("Limited ordering regions"))
    );
    assert_eq!(get_description(&Feature::FEAT_AdvSIMD), Some(String::from("AdvSIMD")));
    assert_eq!(
        get_description(&Feature::FEAT_LSE),
        Some(String::from("Large System Extensions"))
    );
    // A feature the catalog does not announce has no description.
    assert_eq!(get_description(&Feature::FEAT_CP15SDISABLE2), None);
}
