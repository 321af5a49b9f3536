//! Vector-length arithmetic for the scalable vector (SVE) and scalable
//! matrix (SME) extensions.
//!
//! The callers read ID_AA64PFR0_EL1, SVCR and ZCR and hand the raw values
//! in; these functions only decode bitfields and compute the documented
//! lengths. The SVE vector length is `(LEN + 1) * 128` bits, where LEN is
//! the low four bits of ZCR; the streaming ZA array holds one byte per pair
//! of vector-length octets, `(len / 8) * (len / 8)` bytes in all.

use vstd::prelude::*;

use crate::midr::spec_extract;

verus! {

/// Does the processor feature register report SVE? SVE occupies bits 35:32
/// of ID_AA64PFR0_EL1 and the value 1 means implemented.
pub fn has_sve(pfr0: u64) -> (r: bool)
    ensures
        r == (spec_extract(pfr0, 32, 0xf) == 1),
{
    let shifted_bits = pfr0 >> 32;
    let shifted_bits = shifted_bits & 0b1111;
    shifted_bits == 0b0001
}

/// Does the processor feature register report SME? SME occupies bits 27:24
/// of ID_AA64PFR0_EL1 and the value 1 means implemented.
pub fn has_sme(pfr0: u64) -> (r: bool)
    ensures
        r == (spec_extract(pfr0, 24, 0xf) == 1),
{
    let shifted_bits = pfr0 >> 24;
    let shifted_bits = shifted_bits & 0b1111;
    shifted_bits == 0b0001
}

/// Is the core in streaming SVE mode? The SM flag is bit 0 of SVCR.
pub fn is_streaming_sve_mode(svcr: u64) -> (r: bool)
    ensures
        r == (spec_extract(svcr, 0, 0b1) == 1),
{
    let shifted_bits = svcr & 0b0001;
    proof {
        assert(svcr & 0b1 == (svcr >> 0) & 0b1) by (bit_vector);
    }
    shifted_bits == 0b1
}

/// The SVE vector length in bits that the given registers describe: none
/// without SVE, else `(LEN + 1) * 128` for the low four bits LEN of ZCR.
pub fn get_sve_len(pfr0: u64, zcr: u64) -> (r: Option<u64>)
    ensures
        r == (if spec_extract(pfr0, 32, 0xf) == 1 {
            Some((((zcr & 0xf) + 1) * 128) as u64)
        } else {
            None::<u64>
        }),
{
    if !has_sve(pfr0) {
        return None;
    }
    let len = zcr & 0b1111;
    proof {
        assert(zcr & 0b1111 < 16) by (bit_vector);
        assert(zcr & 0b1111 == zcr & 0xf) by (bit_vector);
    }
    Some((len + 1) * 128)
}

/// The size of the streaming ZA array in bytes: defined only in streaming
/// SVE mode and with SVE present, and then `(len / 8) * (len / 8)` for the
/// vector length `len` in bits.
pub fn get_za_size(svcr: u64, pfr0: u64, zcr: u64) -> (r: Option<u64>)
    ensures
        r == (if spec_extract(svcr, 0, 0b1) == 1 && spec_extract(pfr0, 32, 0xf) == 1 {
            Some(
                (((((zcr & 0xf) + 1) * 128) as u64 / 8) * ((((zcr & 0xf) + 1) * 128) as u64
                    / 8)) as u64,
            )
        } else {
            None::<u64>
        }),
{
    if !is_streaming_sve_mode(svcr) {
        return None;
    }

    if let Some(sve_len) = get_sve_len(pfr0, zcr) {
        proof {
            assert(zcr & 0xf < 16) by (bit_vector);
        }
        let quarter = sve_len / 8;
        proof {
            assert(quarter <= 256);
            assert(quarter * quarter <= 65536) by (nonlinear_arith)
                requires
                    0 <= quarter <= 256,
            ;
        }
        return Some(quarter * quarter);
    }

    None
}

} // verus!
