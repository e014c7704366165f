//! Column identifiers and the storable-item interface of the persistent
//! repository.

use vstd::prelude::*;

verus! {

/// A unique column identifier.
#[derive(Clone, Copy, PartialEq, Eq, Structural, Debug)]
pub enum DBColumn {
    Wallet,
    Keystore,
    BeaconBlock,
    BeaconState,
    BeaconChain,
}

impl DBColumn {
    /// The short name keying this column in a key-value database.
    pub fn as_str(&self) -> (r: &'static str)
        ensures
            r@ == (match self {
                DBColumn::Wallet => "wat"@,
                DBColumn::Keystore => "kst"@,
                DBColumn::BeaconBlock => "blk"@,
                DBColumn::BeaconState => "ste"@,
                DBColumn::BeaconChain => "bch"@,
            }),
    {
        match self {
            DBColumn::Wallet => "wat",
            DBColumn::Keystore => "kst",
            DBColumn::BeaconBlock => "blk",
            DBColumn::BeaconState => "ste",
            DBColumn::BeaconChain => "bch",
        }
    }
}

/// A failure to decode stored bytes.
#[derive(Clone, Copy, PartialEq, Eq, Structural, Debug)]
pub enum DecodeError {
    /// The bytes do not decode to the expected item.
    BytesInvalid,
}

/// An item that may be stored in a column of the repository, for storable
/// types to implement.
pub trait StoreItem: Sized {
    /// Identifies which column this item should be placed in.
    fn db_column() -> DBColumn;

    /// Serialize `self` as bytes.
    fn as_store_bytes(&self) -> Vec<u8>;

    /// De-serialize `self` from bytes.
    fn from_store_bytes(bytes: &[u8]) -> Result<Self, DecodeError>;
}

} // verus!
