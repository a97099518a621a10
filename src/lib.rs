//! Asset metadata records: a byte-exact account layout, and the two
//! operations that create a record and read it back for its owner.

pub mod error;
pub mod identity;
pub mod layout;
pub mod record;
pub mod program;
pub mod laws;
