//! Plain-value models of the chain data that the provider hands around.

use vstd::prelude::*;

verus! {

broadcast use vstd::array::group_array_axioms;

/// A 32-byte word used as a hash: block hash, code hash or storage key.
#[derive(Clone, Copy, Debug, PartialEq, Eq)]
pub struct B256(pub [u8; 32]);

/// A 256-bit unsigned integer, held as its 32 big-endian bytes.
#[derive(Clone, Copy, Debug, PartialEq, Eq)]
pub struct U256(pub [u8; 32]);

impl B256 {
    /// The bytes of the word, most significant first.
    pub open spec fn bytes(self) -> Seq<u8> {
        self.0@
    }

    /// Byte-wise comparison of two words.
    pub fn same_as(&self, other: &B256) -> (same: bool)
        ensures
            same <==> self.bytes() == other.bytes(),
            same <==> *self == *other,
    {
        let mut i: usize = 0;
        while i < 32
            invariant
                0 <= i <= 32,
                self.0@.len() == 32,
                other.0@.len() == 32,
                forall|j: int| 0 <= j < i ==> self.0@[j] == other.0@[j],
            decreases 32 - i,
        {
            if self.0[i] != other.0[i] {
                assert(self.0@[i as int] != other.0@[i as int]);
                return false;
            }
            i = i + 1;
        }
        proof {
            assert(self.0@ =~= other.0@);
            assert(self.0 =~= other.0);
        }
        true
    }
}

/// A block number together with the hash of that block.
#[derive(Clone, Copy, Debug, PartialEq, Eq)]
pub struct BlockNumHash {
    pub number: u64,
    pub hash: B256,
}

/// A block named by its number or by one of the node's tags.
#[derive(Clone, Copy, Debug, PartialEq, Eq)]
pub enum BlockNumberOrTag {
    Latest,
    Finalized,
    Safe,
    Earliest,
    Pending,
    Number(u64),
}

/// A block named by its hash or by its number.
#[derive(Clone, Copy, Debug, PartialEq, Eq)]
pub enum BlockHashOrNumber {
    Hash(B256),
    Number(u64),
}

/// Why a provider request failed. `Other` carries the error of the node's transport.
#[derive(Debug, PartialEq, Eq)]
pub enum ProviderError<E> {
    FinalizedBlockNotFound,
    SafeBlockNotFound,
    BlockHashNotFound(B256),
    BlockBodyIndicesNotFound(u64),
    StateForHashNotFound(B256),
    Other(E),
}

/// What a provider request hands back.
pub type ProviderResult<T, E> = Result<T, ProviderError<E>>;

/// What a lookup that may find nothing becomes: a found value, the given error
/// when the node knows no such item, or the node's own error.
pub open spec fn found_or<T, E>(
    fetched: Result<Option<T>, E>,
    missing: ProviderError<E>,
) -> ProviderResult<Option<T>, E> {
    match fetched {
        Ok(Some(v)) => Ok(Some(v)),
        Ok(None) => Err(missing),
        Err(e) => Err(ProviderError::Other(e)),
    }
}

/// What a read that always yields a value becomes.
pub open spec fn present<T, E>(fetched: Result<T, E>) -> ProviderResult<Option<T>, E> {
    match fetched {
        Ok(v) => Ok(Some(v)),
        Err(e) => Err(ProviderError::Other(e)),
    }
}

/// A lookup hands out the item the node found, unchanged; reports `missing` when the
/// node found nothing; and passes the node's error on as `Other`. A read that always
/// yields a value hands it out unchanged, or passes the node's error on.
pub proof fn lemma_lookup_outcomes<T, E>(v: T, e: E, missing: ProviderError<E>)
    ensures
        found_or(Ok::<Option<T>, E>(Some(v)), missing) == Ok::<Option<T>, ProviderError<E>>(Some(v)),
        found_or(Ok::<Option<T>, E>(None), missing) == Err::<Option<T>, ProviderError<E>>(missing),
        found_or(Err::<Option<T>, E>(e), missing) == Err::<Option<T>, ProviderError<E>>(ProviderError::Other(e)),
        present(Ok::<T, E>(v)) == Ok::<Option<T>, ProviderError<E>>(Some(v)),
        present(Err::<T, E>(e)) == Err::<Option<T>, ProviderError<E>>(ProviderError::Other(e)),
{
}

/// A lookup never reports an empty success: it succeeds exactly when the node found
/// the item, and then with that item; an item the node does not know is an error.
pub proof fn lemma_lookup_never_empty<T, E>(fetched: Result<Option<T>, E>, missing: ProviderError<E>)
    ensures
        found_or(fetched, missing) != Ok::<Option<T>, ProviderError<E>>(None),
        found_or(fetched, missing) is Ok <==> fetched matches Ok(Some(_)),
{
}

/// A read that always yields a value never reports an empty success either.
pub proof fn lemma_read_never_empty<T, E>(fetched: Result<T, E>)
    ensures
        present(fetched) != Ok::<Option<T>, ProviderError<E>>(None),
        present(fetched) is Ok <==> fetched is Ok,
{
}

} // verus!
