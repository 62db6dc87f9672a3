//! The shape that an enum marked as a contract bundle provider must have.

use vstd::prelude::*;

verus! {

/// Why an enum cannot provide contract bundles.
#[derive(Clone, Copy, Debug, PartialEq, Eq, Structural)]
pub enum BundleEnumError {
    /// The enum has generic parameters.
    Generic,
    /// The enum declares variants of its own.
    HasVariants,
}

impl BundleEnumError {
    /// The message shown where the enum is declared.
    pub fn message(&self) -> (r: &'static str)
        ensures
            self == BundleEnumError::Generic ==> r@ == "ContractBundleProvider must not be generic"@,
            self == BundleEnumError::HasVariants ==> r@ == "ContractBundleProvider must not have variants"@,
    {
        match self {
            BundleEnumError::Generic => "ContractBundleProvider must not be generic",
            BundleEnumError::HasVariants => "ContractBundleProvider must not have variants",
        }
    }
}

/// Checks an enum by its number of generic parameters and of variants: it
/// must have neither, and generics are reported first.
pub fn check_bundle_enum(generic_params: usize, variants: usize) -> (r: Result<(), BundleEnumError>)
    ensures
        generic_params > 0 ==> r == Err::<(), BundleEnumError>(BundleEnumError::Generic),
        generic_params == 0 && variants > 0 ==> r == Err::<(), BundleEnumError>(BundleEnumError::HasVariants),
        generic_params == 0 && variants == 0 ==> r is Ok,
{
    if generic_params > 0 {
        Err(BundleEnumError::Generic)
    } else if variants > 0 {
        Err(BundleEnumError::HasVariants)
    } else {
        Ok(())
    }
}

} // verus!
