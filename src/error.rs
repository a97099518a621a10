use vstd::prelude::*;

verus! {

/// The one error that this program raises itself.
#[derive(Clone, Copy, Debug, PartialEq, Eq, Structural)]
pub enum CustomError {
    /// The caller is not the owner of the record it asked for.
    UnauthorizedAccess,
}

impl CustomError {
    /// The human-readable message of the error.
    pub fn message(&self) -> (r: String)
        ensures
            r@ == "You are not authorized to access this asset"@,
    {
        match self {
            CustomError::UnauthorizedAccess => "You are not authorized to access this asset".to_owned(),
        }
    }
}

/// Why an operation on an asset account failed.
#[derive(Clone, Copy, Debug, PartialEq, Eq, Structural)]
pub enum AssetError {
    /// The account to create already holds data: accounts are written once.
    AccountAlreadyInUse,
    /// The record does not fit in the space reserved for the account.
    AccountDidNotSerialize,
    /// The account is too short to hold a discriminator.
    AccountDiscriminatorNotFound,
    /// The account's discriminator is not that of an asset record.
    AccountDiscriminatorMismatch,
    /// The bytes after the discriminator are not a well-formed record.
    AccountDidNotDeserialize,
    /// An error raised by the program itself.
    Custom(CustomError),
}

} // verus!
