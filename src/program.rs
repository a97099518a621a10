use vstd::prelude::*;
use vstd::slice::*;

use crate::error::{AssetError, CustomError};
use crate::identity::Identity;
use crate::layout::{
    account_discriminator, account_image, decode, discriminator, parse_record, record_fits,
    DISCRIMINATOR_LEN,
};
use crate::record::{AssetMetadata, AssetModel};

verus! {

/// Storage for one account: empty until an account is allocated in it.
pub struct AccountSlot {
    pub data: Vec<u8>,
}

impl AccountSlot {
    /// A slot in which no account has been allocated.
    pub fn empty() -> (r: AccountSlot)
        ensures
            r.data@.len() == 0,
    {
        AccountSlot { data: Vec::new() }
    }

    /// A slot that holds the given bytes.
    pub fn with_data(data: Vec<u8>) -> (r: AccountSlot)
        ensures
            r.data@ == data@,
    {
        AccountSlot { data }
    }

    /// Whether an account has been allocated in the slot.
    pub fn is_allocated(&self) -> (r: bool)
        ensures
            r == (self.data@.len() != 0),
    {
        self.data.len() != 0
    }
}

/// What creating an asset works on: the slot of the new account, and the
/// caller who creates it and pays for it.
pub struct CreateAsset {
    pub asset_metadata: AccountSlot,
    pub user: Identity,
}

/// What reading an asset works on: the account, and the caller who reads.
pub struct GetAsset {
    pub asset_metadata: AccountSlot,
    pub user: Identity,
}

/// The account that creating record `m` leaves in a slot holding `slot`, or
/// the error. An allocated slot is never written again, and a text longer
/// than its reserved space is refused, never cut.
pub open spec fn create_outcome(slot: Seq<u8>, m: AssetModel) -> Result<Seq<u8>, AssetError> {
    if slot.len() != 0 {
        Err(AssetError::AccountAlreadyInUse)
    } else if !record_fits(m) {
        Err(AssetError::AccountDidNotSerialize)
    } else {
        Ok(account_image(m))
    }
}

/// What reading the account `slot` as `user` yields: the account is loaded
/// first, then only its owner may see the record.
pub open spec fn read_outcome(slot: Seq<u8>, user: Seq<u8>) -> Result<AssetModel, AssetError> {
    if slot.len() < DISCRIMINATOR_LEN {
        Err(AssetError::AccountDiscriminatorNotFound)
    } else if slot.take(DISCRIMINATOR_LEN as int) != account_discriminator() {
        Err(AssetError::AccountDiscriminatorMismatch)
    } else {
        match parse_record(slot.skip(DISCRIMINATOR_LEN as int)) {
            None => Err(AssetError::AccountDidNotDeserialize),
            Some(m) => if m.owner != user {
                Err(AssetError::Custom(CustomError::UnauthorizedAccess))
            } else {
                Ok(m)
            },
        }
    }
}

/// The record that a create call with these arguments describes.
pub open spec fn new_model(
    name: Seq<char>,
    code: Seq<char>,
    asset_type: Seq<char>,
    decimals: u8,
    initial_supply: u64,
    limit: Option<u64>,
    authorize_required: bool,
    freeze_enabled: bool,
    clawback_enabled: bool,
    regulated: bool,
    owner: Seq<u8>,
) -> AssetModel {
    AssetModel {
        name,
        code,
        asset_type,
        decimals,
        initial_supply,
        limit,
        authorize_required,
        freeze_enabled,
        clawback_enabled,
        regulated,
        owner,
    }
}

/// Creates an asset record in the slot of `ctx`, owned by `ctx.user`.
pub fn create_asset(
    ctx: &mut CreateAsset,
    name: String,
    code: String,
    asset_type: String,
    decimals: u8,
    initial_supply: u64,
    limit: Option<u64>,
    authorize_required: bool,
    freeze_enabled: bool,
    clawback_enabled: bool,
    regulated: bool,
) -> (r: Result<(), AssetError>)
    ensures
        final(ctx).user == old(ctx).user,
        match create_outcome(
            old(ctx).asset_metadata.data@,
            new_model(
                name@,
                code@,
                asset_type@,
                decimals,
                initial_supply,
                limit,
                authorize_required,
                freeze_enabled,
                clawback_enabled,
                regulated,
                old(ctx).user@,
            ),
        ) {
            Ok(d) => r is Ok && final(ctx).asset_metadata.data@ == d,
            Err(e) => r == Err::<(), AssetError>(e) && final(ctx).asset_metadata.data@ == old(
                ctx,
            ).asset_metadata.data@,
        },
{
    if ctx.asset_metadata.is_allocated() {
        return Err(AssetError::AccountAlreadyInUse);
    }
    let record = AssetMetadata {
        name,
        code,
        asset_type,
        decimals,
        initial_supply,
        limit,
        authorize_required,
        freeze_enabled,
        clawback_enabled,
        regulated,
        owner: ctx.user,
    };
    if !record.fits() {
        return Err(AssetError::AccountDidNotSerialize);
    }
    ctx.asset_metadata.data = record.account_data();
    Ok(())
}

/// Reads the asset record of `ctx`; only its owner may.
pub fn get_asset(ctx: &GetAsset) -> (r: Result<AssetMetadata, AssetError>)
    ensures
        match r {
            Ok(m) => read_outcome(ctx.asset_metadata.data@, ctx.user@) == Ok::<
                AssetModel,
                AssetError,
            >(m@),
            Err(e) => read_outcome(ctx.asset_metadata.data@, ctx.user@) == Err::<
                AssetModel,
                AssetError,
            >(e),
        },
{
    let data = ctx.asset_metadata.data.as_slice();
    if data.len() < DISCRIMINATOR_LEN {
        return Err(AssetError::AccountDiscriminatorNotFound);
    }
    let expected = discriminator();
    let mut i: usize = 0;
    while i < DISCRIMINATOR_LEN
        invariant
            0 <= i <= DISCRIMINATOR_LEN <= data@.len(),
            data@ == ctx.asset_metadata.data@,
            expected@ == account_discriminator(),
            forall|j: int| 0 <= j < i ==> data@[j] == expected@[j],
        decreases DISCRIMINATOR_LEN - i,
    {
        if data[i] != expected[i] {
            assert(data@.take(DISCRIMINATOR_LEN as int)[i as int] != account_discriminator()[i as int]);
            return Err(AssetError::AccountDiscriminatorMismatch);
        }
        i = i + 1;
    }
    assert(data@.take(DISCRIMINATOR_LEN as int) =~= account_discriminator());
    let body = slice_subrange(data, DISCRIMINATOR_LEN, data.len());
    assert(body@ =~= data@.skip(DISCRIMINATOR_LEN as int));
    match decode(body) {
        None => Err(AssetError::AccountDidNotDeserialize),
        Some(m) => {
            if !m.owner.same_as(&ctx.user) {
                Err(AssetError::Custom(CustomError::UnauthorizedAccess))
            } else {
                Ok(m)
            }
        },
    }
}

} // verus!
