use drink::bundle::{check_bundle_enum, BundleEnumError};

#[test]
fn plain_enum_is_accepted() {
    assert_eq!(check_bundle_enum(0, 0), Ok(()));
}

#[test]
fn generic_enum_is_refused_first() {
    assert_eq!(check_bundle_enum(1, 3), Err(BundleEnumError::Generic));
    assert_eq!(BundleEnumError::Generic.message(), "ContractBundleProvider must not be generic");
}

#[test]
fn enum_with_variants_is_refused() {
    assert_eq!(check_bundle_enum(0, 2), Err(BundleEnumError::HasVariants));
    assert_eq!(BundleEnumError::HasVariants.message(), "ContractBundleProvider must not have variants");
}
