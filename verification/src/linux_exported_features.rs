//! The features that the Linux kernel exports to userspace.
//!
//! The kernel masks most identification-register fields before userspace
//! may read them; only the features on this allow-list are documented as
//! visible to unprivileged code. The list is a snapshot and deliberately
//! non-exhaustive: it follows the kernel's cpu-feature-registers document.

use vstd::prelude::*;

use crate::Feature;

verus! {

/// The allow-list of features the kernel exports, in the order of the
/// kernel documentation's register walk.
pub open spec fn spec_exported_features() -> Seq<Feature> {
    seq![
        Feature::FEAT_RNG,
        Feature::FEAT_FlagM2,
        Feature::FEAT_FHM,
        Feature::FEAT_DotProd,
        Feature::FEAT_SM4,
        Feature::FEAT_SM3,
        Feature::FEAT_SHA3,
        Feature::FEAT_RDM,
        Feature::FEAT_LSE,
        Feature::FEAT_SHA256,
        Feature::FEAT_SHA1,
        Feature::FEAT_PMULL,
        Feature::FEAT_AES,
        Feature::FEAT_DIT,
        Feature::FEAT_SVE,
        Feature::FEAT_AdvSIMD,
        Feature::FEAT_MTE,
    ]
}

/// The allow-list as a vector, for scanning.
pub fn exported_features() -> (v: Vec<Feature>)
    ensures
        v@ == spec_exported_features(),
{
    let mut v: Vec<Feature> = Vec::new();
    v.push(Feature::FEAT_RNG);
    v.push(Feature::FEAT_FlagM2);
    v.push(Feature::FEAT_FHM);
    v.push(Feature::FEAT_DotProd);
    v.push(Feature::FEAT_SM4);
    v.push(Feature::FEAT_SM3);
    v.push(Feature::FEAT_SHA3);
    v.push(Feature::FEAT_RDM);
    v.push(Feature::FEAT_LSE);
    v.push(Feature::FEAT_SHA256);
    v.push(Feature::FEAT_SHA1);
    v.push(Feature::FEAT_PMULL);
    v.push(Feature::FEAT_AES);
    v.push(Feature::FEAT_DIT);
    v.push(Feature::FEAT_SVE);
    v.push(Feature::FEAT_AdvSIMD);
    v.push(Feature::FEAT_MTE);
    assert(v@ =~= spec_exported_features());
    v
}

/// Does a feature vector hold the given feature?
pub fn contains_feature(features: &Vec<Feature>, feat: Feature) -> (r: bool)
    ensures
        r == features@.contains(feat),
{
    let mut i: usize = 0;
    while i < features.len()
        invariant
            0 <= i <= features.len(),
            forall|j: int| 0 <= j < i ==> features@[j] != feat,
        decreases features.len() - i,
    {
        if features[i] == feat {
            return true;
        }
        i = i + 1;
    }
    false
}

/// Is a feature on the kernel's export allow-list?
pub fn is_exported(feat: Feature) -> (r: bool)
    ensures
        r == spec_exported_features().contains(feat),
{
    let list = exported_features();
    contains_feature(&list, feat)
}

} // verus!
