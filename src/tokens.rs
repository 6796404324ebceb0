//! Local currency identifiers and the metadata that the asset registry keeps.
use vstd::prelude::*;

verus! {

/// Identifier of an asset held in the external asset registry.
pub type ForeignAssetId = u32;

/// The assets that this chain knows locally.
#[derive(Clone, Copy, PartialOrd, Ord, PartialEq, Eq, Debug, Structural)]
pub enum CurrencyId {
    Native,
    /// KSM, the relay chain's asset.
    KSM,
    /// Karura Dollar.
    AUSD,
    KAR,
    MGX,
    ForeignAsset(ForeignAssetId),
}

impl Default for CurrencyId {
    fn default() -> (r: CurrencyId)
        ensures
            r == CurrencyId::Native,
    {
        CurrencyId::Native
    }
}

/// Decimal places of each statically known asset.
pub const NATIVE_DECIMALS: u32 = 12;
pub const AUSD_DECIMALS: u32 = 12;
pub const KAR_DECIMALS: u32 = 12;
pub const KSM_DECIMALS: u32 = 12;
pub const MGX_DECIMALS: u32 = 18;

/// Cross-chain metadata of a registered asset.
#[derive(Clone, Copy, PartialEq, Eq, Debug, Structural)]
pub struct XcmMetadata {
    /// The fee charged for every second that a message takes to execute,
    /// where the asset sets its own.
    pub fee_per_second: Option<u128>,
}

/// The metadata that this chain adds to a registered asset.
#[derive(Clone, Copy, PartialEq, Eq, Debug, Structural)]
pub struct CustomMetadata {
    pub xcm: XcmMetadata,
}

/// Admits an asset for checking in only while some of it is issued.
#[derive(Clone, Copy, PartialEq, Eq, Debug, Structural)]
pub struct NonZeroIssuance;

impl NonZeroIssuance {
    /// Whether an asset whose total issuance is `total_issuance` is admitted.
    pub fn contains(total_issuance: u128) -> (r: bool)
        ensures
            r == (total_issuance != 0),
    {
        total_issuance != 0
    }
}

} // verus!
