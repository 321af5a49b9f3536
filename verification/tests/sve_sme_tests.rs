use aarch64_features::sve_sme::get_sve_len;
use aarch64_features::sve_sme::get_za_size;
use aarch64_features::sve_sme::has_sme;
use aarch64_features::sve_sme::has_sve;
use aarch64_features::sve_sme::is_streaming_sve_mode;

#[test]
fn test_has_sve_and_sme() {
    assert!(has_sve(1u64 << 32));
    assert!(!has_sve(0));
    assert!(!has_sve(2u64 << 32));

    assert!(has_sme(1u64 << 24));
    assert!(!has_sme(0));
    assert!(!has_sme(2u64 << 24));
}

#[test]
fn test_streaming_mode() {
    assert!(is_streaming_sve_mode(1));
    assert!(is_streaming_sve_mode(0b11));
    assert!(!is_streaming_sve_mode(0));
    assert!(!is_streaming_sve_mode(0b10));
}

#[test]
fn test_sve_len() {
    let sve = 1u64 << 32;
    // LEN 0 gives the minimum vector length, 128 bits
    assert_eq!(get_sve_len(sve, 0), Some(128));
    // LEN 3 gives (3 + 1) * 128 = 512 bits
    assert_eq!(get_sve_len(sve, 0x3), Some(512));
    // LEN 15 gives the architectural maximum, 2048 bits
    assert_eq!(get_sve_len(sve, 0xf), Some(2048));
    // without SVE there is no vector length
    assert_eq!(get_sve_len(0, 0x3), None);
}

#[test]
fn test_za_size() {
    let sve = 1u64 << 32;
    // 128-bit vectors: (128 / 8) squared = 256 bytes of ZA storage
    assert_eq!(get_za_size(1, sve, 0), Some(256));
    // 2048-bit vectors: (2048 / 8) squared = 65536 bytes
    assert_eq!(get_za_size(1, sve, 0xf), Some(65536));
    // not in streaming mode
    assert_eq!(get_za_size(0, sve, 0), None);
    // streaming but no SVE
    assert_eq!(get_za_size(1, 0, 0), None);
}
