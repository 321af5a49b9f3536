use aarch64_features::features_list::extract;
use aarch64_features::features_list::BitRange;
use aarch64_features::features_list::ValueMatcher;
use aarch64_features::midr::Architecture;
use aarch64_features::midr::Implementer;
use aarch64_features::midr::Midr;
use aarch64_features::midr::MidrBuilder;

#[test]
fn test_arm_implementer() {
    let midr = MidrBuilder::new().implementer(Implementer::Arm).build();

    assert!(midr.check_implementer(Implementer::Arm));
    assert!(!midr.check_implementer(Implementer::Ampere));
}

#[test]
fn test_variant() {
    let midr = MidrBuilder::new().variant(0x7).build();

    assert!(midr.check_variant(0x7));

    let midr = MidrBuilder::new().build();

    assert!(midr.check_variant(0x0));
}

#[test]
fn test_builder_defaults() {
    let midr = MidrBuilder::new().build();

    assert!(midr.check_implementer(Implementer::Unknown));
    assert!(midr.check_architecture(Architecture::Unknown));
    assert!(midr.check_part_num(0x0));
    assert!(midr.check_revision(0x0));
    assert!(!midr.is_arm());
    assert!(!midr.is_apple());
}

#[test]
fn test_extract_parts() {
    // implementer 0x61 (Apple), variant 0x2, architecture 0xf (uncataloged),
    // part number 0x023, revision 0x1.
    let raw: u64 = (0x61 << 24) | (0x2 << 20) | (0xf << 16) | (0x023 << 4) | 0x1;
    let midr = Midr::extract_parts(raw);

    assert!(midr.check_implementer(Implementer::Apple));
    assert!(midr.is_apple());
    assert!(midr.check_variant(0x2));
    assert!(midr.check_architecture(Architecture::Unknown));
    assert!(midr.check_part_num(0x023));
    assert!(midr.check_revision(0x1));

    // architecture tag 0x7 names the ID register scheme
    let raw: u64 = (0x41 << 24) | (0x7 << 16) | (0xD49 << 4);
    let midr = Midr::extract_parts(raw);
    assert!(midr.is_arm());
    assert!(midr.check_architecture(Architecture::IDRegisters));
    assert!(midr.check_part_num(0xD49));
}

#[test]
fn test_part_num_or_and_getters() {
    let midr = MidrBuilder::new()
        .implementer(Implementer::Apple)
        .variant(0x3)
        .architecture(Architecture::IDRegisters)
        .part_num(0x22)
        .revision(0x5)
        .build();

    assert!(midr.check_part_num_or(0x22, 0x23));
    assert!(midr.check_part_num_or(0x23, 0x22));
    assert!(!midr.check_part_num_or(0x23, 0x24));

    assert_eq!(midr.implementer(), Implementer::Apple);
    assert_eq!(midr.variant(), 0x3);
    assert_eq!(midr.architecture(), Architecture::IDRegisters);
    assert_eq!(midr.part_num(), 0x22);
    assert_eq!(midr.revision(), 0x5);
}

#[test]
fn test_implementer_try_from() {
    assert_eq!(Implementer::try_from(0x41), Ok(Implementer::Arm));
    assert_eq!(Implementer::try_from(0x46), Ok(Implementer::Fujitsu));
    assert_eq!(Implementer::try_from(0x61), Ok(Implementer::Apple));
    assert_eq!(Implementer::try_from(0xc0), Ok(Implementer::Ampere));
    assert_eq!(Implementer::try_from(0x6d), Ok(Implementer::Microsoft));
    assert_eq!(Implementer::try_from(0x4e), Ok(Implementer::Nvidia));
    assert!(Implementer::try_from(0x99).is_err());
    assert_eq!(Implementer::try_from(0x41).unwrap().as_str(), "Arm");
    assert_eq!(Implementer::Unknown.as_str(), "Unknown");
}

#[test]
fn test_architecture_try_from() {
    assert_eq!(Architecture::try_from(0x01), Ok(Architecture::Armv4));
    assert_eq!(Architecture::try_from(0x07), Ok(Architecture::IDRegisters));
    assert!(Architecture::try_from(0x08).is_err());
    assert_eq!(Architecture::IDRegisters.as_str(), "ID Registers");
}

#[test]
fn test_extract_bit_ranges() {
    // width 4: the Atomics field of a value with bits 23:20 set to 0b0010
    let range = BitRange { start: 20, end: 23 };
    assert_eq!(extract(0b0010 << 20, range), 0b0010);
    assert_eq!(extract(0, range), 0);
    assert_eq!(extract(u64::MAX, range), 0b1111);

    // width 2
    let range = BitRange { start: 14, end: 15 };
    assert_eq!(extract(0b10 << 14, range), 0b10);
    assert_eq!(extract(0, range), 0);
    assert_eq!(extract(u64::MAX, range), 0b11);

    // width 1, at both ends of the register
    let range = BitRange { start: 0, end: 0 };
    assert_eq!(extract(1, range), 1);
    assert_eq!(extract(u64::MAX, range), 1);
    let range = BitRange { start: 63, end: 63 };
    assert_eq!(extract(1u64 << 63, range), 1);
    assert_eq!(extract(0, range), 0);
    assert_eq!(extract(u64::MAX, range), 1);

    // the formula (value >> start) & ((1 << width) - 1) on a fuzz-style mix
    let values = [0u64, u64::MAX, 0x0123_4567_89ab_cdef, 0xdead_beef_dead_beef];
    let ranges = [(0u64, 3u64), (4, 7), (20, 23), (32, 35), (60, 63), (14, 15), (63, 63)];
    for &value in values.iter() {
        for &(start, end) in ranges.iter() {
            let width = end - start + 1;
            let expected = (value >> start) & ((1u64 << width) - 1);
            assert_eq!(extract(value, BitRange { start, end }), expected);
        }
    }
}

#[test]
fn test_value_matcher() {
    let exactly = ValueMatcher::Value(0b0010);
    assert!(exactly.check_match(0b0010));
    assert!(!exactly.check_match(0b0001));
    assert!(!exactly.check_match(0));

    let either = ValueMatcher::Or(0b0001, 0b0010);
    assert!(either.check_match(0b0001));
    assert!(either.check_match(0b0010));
    assert!(!either.check_match(0b0011));
    assert!(!either.check_match(0));

    let any = ValueMatcher::Any(0b0000, 0b0001, 0b0010);
    assert!(any.check_match(0b0000));
    assert!(any.check_match(0b0001));
    assert!(any.check_match(0b0010));
    assert!(!any.check_match(0b0011));
    assert!(!any.check_match(0b1111));

    // every other field value of a 4-bit domain fails an exact matcher
    for field in 0u64..16 {
        assert_eq!(exactly.check_match(field), field == 0b0010);
        assert_eq!(either.check_match(field), field == 0b0001 || field == 0b0010);
        assert_eq!(
            any.check_match(field),
            field == 0b0000 || field == 0b0001 || field == 0b0010
        );
    }
}
