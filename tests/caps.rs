use placebo::{FmtCap, FmtCaps};

#[test]
fn capability_bitset() {
    let set = FmtCaps::of(FmtCap::FMT_CAP_SAMPLEABLE).union(&FmtCaps::of(FmtCap::FMT_CAP_RENDERABLE));
    let more = set.union(&FmtCaps::of(FmtCap::FMT_CAP_BLITTABLE));
    assert!(more.has(FmtCap::FMT_CAP_SAMPLEABLE));
    assert!(more.has(FmtCap::FMT_CAP_RENDERABLE));
    assert!(more.has(FmtCap::FMT_CAP_BLITTABLE));
    assert!(!more.has(FmtCap::FMT_CAP_STORABLE));
    assert!(more.contains(&set));
    assert_eq!(FmtCaps::from_native(set.to_native()), set);
    assert_eq!(FmtCaps::from_native(more.to_native()), more);
}

#[test]
fn capability_native_values() {
    assert_eq!(FmtCaps::empty().to_native(), 0);
    assert_eq!(FmtCaps::of(FmtCap::FMT_CAP_SAMPLEABLE).to_native(), 1);
    assert_eq!(FmtCaps::of(FmtCap::FMT_CAP_RENDERABLE).to_native(), 8);
    assert_eq!(FmtCaps::of(FmtCap::FMT_CAP_TEXEL_STORAGE).to_native(), 256);
    let set = FmtCaps::of(FmtCap::FMT_CAP_SAMPLEABLE).union(&FmtCaps::of(FmtCap::FMT_CAP_RENDERABLE));
    assert_eq!(set.to_native(), 9);
}

#[test]
fn capability_unknown_bits_dropped() {
    let set = FmtCaps::from_native(0xffff_ffff);
    assert_eq!(set.to_native(), 511);
    assert!(set.has(FmtCap::FMT_CAP_VERTEX));
    assert_eq!(FmtCaps::from_native(1024), FmtCaps::empty());
}

#[test]
fn capability_union_laws() {
    let a = FmtCaps::of(FmtCap::FMT_CAP_LINEAR);
    let b = FmtCaps::of(FmtCap::FMT_CAP_BLENDABLE).union(&FmtCaps::of(FmtCap::FMT_CAP_VERTEX));
    let c = FmtCaps::of(FmtCap::FMT_CAP_TEXEL_UNIFORM);
    assert_eq!(a.union(&b), b.union(&a));
    assert_eq!(a.union(&b).union(&c), a.union(&b.union(&c)));
    assert!(b.is_subset_of(&b));
    assert!(b.contains(&b));
    assert!(a.is_subset_of(&a.union(&c)));
    assert!(!a.union(&c).is_subset_of(&a));
}
