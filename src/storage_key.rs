use vstd::prelude::*;

verus! {

/// The persistent collections of the contract, each stored under its own key
/// prefix.
#[derive(Clone, Copy, Debug, PartialEq, Eq, Structural)]
pub enum StorageKey {
    FungibleToken,
    AccontRps,
    FungibleTokenMetadata,
    NonFungibleTokenMetadata,
    InstanceNonFungibleTokenMetadata,
}

impl StorageKey {
    /// Position of the variant in the declaration.
    pub open spec fn index(self) -> u8 {
        match self {
            StorageKey::FungibleToken => 0,
            StorageKey::AccontRps => 1,
            StorageKey::FungibleTokenMetadata => 2,
            StorageKey::NonFungibleTokenMetadata => 3,
            StorageKey::InstanceNonFungibleTokenMetadata => 4,
        }
    }

    /// The collection's key prefix: one byte, the variant's position, as the
    /// binary encoding of a field-less enum writes it. Distinct collections
    /// get distinct prefixes.
    pub fn prefix(&self) -> (r: Vec<u8>)
        ensures
            r@ == seq![self.index()],
    {
        let b: u8 = match self {
            StorageKey::FungibleToken => 0,
            StorageKey::AccontRps => 1,
            StorageKey::FungibleTokenMetadata => 2,
            StorageKey::NonFungibleTokenMetadata => 3,
            StorageKey::InstanceNonFungibleTokenMetadata => 4,
        };
        vec![b]
    }
}

/// Distinct collections never share a key prefix.
pub proof fn lemma_prefixes_distinct(a: StorageKey, b: StorageKey)
    requires
        a != b,
    ensures
        a.index() != b.index(),
{
}

} // verus!
