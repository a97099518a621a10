use vstd::prelude::*;

use crate::identity::Identity;

verus! {

/// Mathematical value of an asset record.
pub struct AssetModel {
    pub name: Seq<char>,
    pub code: Seq<char>,
    pub asset_type: Seq<char>,
    pub decimals: u8,
    pub initial_supply: u64,
    pub limit: Option<u64>,
    pub authorize_required: bool,
    pub freeze_enabled: bool,
    pub clawback_enabled: bool,
    pub regulated: bool,
    pub owner: Seq<u8>,
}

/// The declared parameters of one asset, and the identity that created it.
#[derive(Clone, Debug, PartialEq, Eq)]
pub struct AssetMetadata {
    /// Display name.
    pub name: String,
    /// Short symbol.
    pub code: String,
    /// Free-form classification.
    pub asset_type: String,
    /// Number of fractional digits.
    pub decimals: u8,
    /// Supply at creation.
    pub initial_supply: u64,
    /// Supply limit; `None` means unlimited.
    pub limit: Option<u64>,
    /// Holding the asset requires authorization.
    pub authorize_required: bool,
    /// Holdings may be frozen.
    pub freeze_enabled: bool,
    /// Holdings may be clawed back.
    pub clawback_enabled: bool,
    /// The asset is regulated.
    pub regulated: bool,
    /// The identity that created the record.
    pub owner: Identity,
}

impl View for AssetMetadata {
    type V = AssetModel;

    open spec fn view(&self) -> AssetModel {
        AssetModel {
            name: self.name@,
            code: self.code@,
            asset_type: self.asset_type@,
            decimals: self.decimals,
            initial_supply: self.initial_supply,
            limit: self.limit,
            authorize_required: self.authorize_required,
            freeze_enabled: self.freeze_enabled,
            clawback_enabled: self.clawback_enabled,
            regulated: self.regulated,
            owner: self.owner@,
        }
    }
}

} // verus!
