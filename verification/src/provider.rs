//! The block-reading side of the provider: what each answer of the node becomes.
//!
//! Every method takes what the node answered to the request that the method
//! stands for, and returns what the provider hands to its caller.

use vstd::prelude::*;
use core::marker::PhantomData;
use crate::primitives::{found_or, BlockHashOrNumber, BlockNumHash, ProviderError, ProviderResult, B256};

verus! {

/// The chain id of the Holesky test network.
pub const HOLESKY_CHAIN_ID: u64 = 17000;

/// The chain id assumed when the node does not tell its own.
pub const DEFAULT_CHAIN_ID: u64 = 1;

/// A provider of chain data backed by a JSON-RPC node client `P` of network `N`.
pub struct AlloyRethProvider<N, P: Send + Sync + Clone + 'static> {
    provider: P,
    _n: PhantomData<N>,
}

impl<N, P: Send + Sync + Clone + 'static> Clone for AlloyRethProvider<N, P> {
    /// A provider reading through a clone of the same node client.
    fn clone(&self) -> (s: Self)
        ensures
            cloned(self.client(), s.client()),
    {
        AlloyRethProvider { provider: self.provider.clone(), _n: PhantomData }
    }
}

/// The chain configuration that the provider reports.
#[derive(Clone, Copy, Debug, PartialEq, Eq)]
pub enum ChainSpecKind {
    Mainnet,
    Holesky,
}

/// The transactions of a block as the node sends them: in full, as hashes only,
/// or the uncle form that has none.
pub enum BlockTransactions<T> {
    Full(Vec<T>),
    Hashes(Vec<B256>),
    Uncle,
}

/// A block as the node sends it, with its header already in the provider's form.
pub struct RpcBlock<H, T, W> {
    pub header: H,
    pub transactions: BlockTransactions<T>,
    pub withdrawals: Option<W>,
}

/// The body of a block: its transactions, ommer headers and withdrawals.
pub struct BlockBody<H, T, W> {
    pub transactions: Vec<T>,
    pub ommers: Vec<H>,
    pub withdrawals: Option<W>,
}

/// A block as the provider hands it out.
pub struct Block<H, T, W> {
    pub header: H,
    pub body: BlockBody<H, T, W>,
}

/// The block that the provider builds from a node block whose transactions came in
/// full: the same header, transactions and withdrawals, and no ommers.
pub open spec fn assembled_from<H, T, W>(block: Block<H, T, W>, rpc: RpcBlock<H, T, W>) -> bool {
    &&& block.header == rpc.header
    &&& rpc.transactions matches BlockTransactions::Full(txs) && block.body.transactions@ == txs@
    &&& block.body.ommers@.len() == 0
    &&& block.body.withdrawals == rpc.withdrawals
}

/// A block is assembled from a node block exactly when it has the node block's
/// header, every one of its transactions in the order the node sent them, its
/// withdrawals, and no ommers.
pub proof fn lemma_assembled_block<H, T, W>(block: Block<H, T, W>, rpc: RpcBlock<H, T, W>)
    ensures
        assembled_from(block, rpc) <==> {
            &&& block.header == rpc.header
            &&& rpc.transactions is Full
            &&& block.body.transactions@.len() == rpc.transactions->Full_0@.len()
            &&& forall|i: int| 0 <= i < block.body.transactions@.len()
                ==> #[trigger] block.body.transactions@[i] == rpc.transactions->Full_0@[i]
            &&& block.body.ommers@.len() == 0
            &&& block.body.withdrawals == rpc.withdrawals
        },
{
    if rpc.transactions is Full && block.body.transactions@.len() == rpc.transactions->Full_0@.len()
        && (forall|i: int| 0 <= i < block.body.transactions@.len()
            ==> #[trigger] block.body.transactions@[i] == rpc.transactions->Full_0@[i]) {
        assert(block.body.transactions@ =~= rpc.transactions->Full_0@);
    }
}

/// A block that the node does not know is reported by the way it was asked for:
/// `BlockBodyIndicesNotFound` with its number, `BlockHashNotFound` with its hash.
pub proof fn lemma_missing_block_error<E>(n: u64, h: B256)
    ensures
        missing_block_error::<E>(BlockHashOrNumber::Number(n)) == ProviderError::<E>::BlockBodyIndicesNotFound(n),
        missing_block_error::<E>(BlockHashOrNumber::Hash(h)) == ProviderError::<E>::BlockHashNotFound(h),
{
}

/// The error for a block that the node does not know, by the way it was named.
pub open spec fn missing_block_error<E>(id: BlockHashOrNumber) -> ProviderError<E> {
    match id {
        BlockHashOrNumber::Number(n) => ProviderError::BlockBodyIndicesNotFound(n),
        BlockHashOrNumber::Hash(h) => ProviderError::BlockHashNotFound(h),
    }
}

/// The chain id that the node reported, or the default one when it could not tell.
pub open spec fn chain_id_or_default<E>(chain_id: Result<u64, E>) -> u64 {
    match chain_id {
        Ok(id) => id,
        Err(_) => DEFAULT_CHAIN_ID,
    }
}

/// The chain configuration for a chain id.
pub open spec fn chain_spec_for(chain_id: u64) -> ChainSpecKind {
    if chain_id == HOLESKY_CHAIN_ID {
        ChainSpecKind::Holesky
    } else {
        ChainSpecKind::Mainnet
    }
}

impl<N, P: Send + Sync + Clone + 'static> AlloyRethProvider<N, P> {
    /// The node client that the provider reads through.
    pub closed spec fn client(&self) -> P {
        self.provider
    }

    /// A provider that reads through `provider`.
    pub fn new(provider: P) -> (s: Self)
        ensures
            s.client() == provider,
    {
        AlloyRethProvider { provider, _n: PhantomData }
    }

    /// The node client, for issuing the requests whose answers the methods take.
    pub fn provider(&self) -> (p: &P)
        ensures
            *p == self.client(),
    {
        &self.provider
    }

    /// The number and hash of the finalized block, from the node's answer to a
    /// request for the finalized block.
    pub fn finalized_block_num_hash<E>(
        &self,
        fetched: Result<Option<BlockNumHash>, E>,
    ) -> (r: ProviderResult<Option<BlockNumHash>, E>)
        ensures
            r == found_or(fetched, ProviderError::FinalizedBlockNotFound),
            match fetched {
                Ok(Some(v)) => r matches Ok(Some(w)) && w == v,
                Ok(None) => r matches Err(err) && err == ProviderError::<E>::FinalizedBlockNotFound,
                Err(e) => r matches Err(err) && err == ProviderError::<E>::Other(e),
            },
    {
        match fetched {
            Ok(Some(block)) => Ok(Some(BlockNumHash { number: block.number, hash: block.hash })),
            Ok(None) => Err(ProviderError::FinalizedBlockNotFound),
            Err(e) => Err(ProviderError::Other(e)),
        }
    }

    /// The number and hash of the safe block, from the node's answer to a request
    /// for the safe block.
    pub fn safe_block_num_hash<E>(
        &self,
        fetched: Result<Option<BlockNumHash>, E>,
    ) -> (r: ProviderResult<Option<BlockNumHash>, E>)
        ensures
            r == found_or(fetched, ProviderError::SafeBlockNotFound),
            match fetched {
                Ok(Some(v)) => r matches Ok(Some(w)) && w == v,
                Ok(None) => r matches Err(err) && err == ProviderError::<E>::SafeBlockNotFound,
                Err(e) => r matches Err(err) && err == ProviderError::<E>::Other(e),
            },
    {
        match fetched {
            Ok(Some(block)) => Ok(Some(BlockNumHash { number: block.number, hash: block.hash })),
            Ok(None) => Err(ProviderError::SafeBlockNotFound),
            Err(e) => Err(ProviderError::Other(e)),
        }
    }

    /// The number of the newest block, from the node's answer.
    pub fn best_block_number<E>(&self, fetched: Result<u64, E>) -> (r: ProviderResult<u64, E>)
        ensures
            r == match fetched {
                Ok(n) => Ok(n),
                Err(e) => Err(ProviderError::<E>::Other(e)),
            },
    {
        match fetched {
            Ok(block_number) => Ok(block_number),
            Err(e) => Err(ProviderError::Other(e)),
        }
    }

    /// The number of the block with hash `hash`, from the node's answer to a
    /// request for that block.
    pub fn block_number<E>(&self, hash: B256, fetched: Result<Option<u64>, E>) -> (r:
        ProviderResult<Option<u64>, E>)
        ensures
            r == found_or(fetched, ProviderError::BlockHashNotFound(hash)),
            match fetched {
                Ok(Some(v)) => r matches Ok(Some(w)) && w == v,
                Ok(None) => r matches Err(err) && err == ProviderError::<E>::BlockHashNotFound(hash),
                Err(e) => r matches Err(err) && err == ProviderError::<E>::Other(e),
            },
    {
        match fetched {
            Ok(Some(number)) => Ok(Some(number)),
            Ok(None) => Err(ProviderError::BlockHashNotFound(hash)),
            Err(e) => Err(ProviderError::Other(e)),
        }
    }

    /// The hash of block `number`, from the node's answer to a request for that block.
    pub fn block_hash<E>(&self, number: u64, fetched: Result<Option<B256>, E>) -> (r:
        ProviderResult<Option<B256>, E>)
        ensures
            r == found_or(fetched, ProviderError::BlockBodyIndicesNotFound(number)),
            match fetched {
                Ok(Some(v)) => r matches Ok(Some(w)) && w == v,
                Ok(None) => r matches Err(err) && err == ProviderError::<E>::BlockBodyIndicesNotFound(number),
                Err(e) => r matches Err(err) && err == ProviderError::<E>::Other(e),
            },
    {
        match fetched {
            Ok(Some(hash)) => Ok(Some(hash)),
            Ok(None) => Err(ProviderError::BlockBodyIndicesNotFound(number)),
            Err(e) => Err(ProviderError::Other(e)),
        }
    }

    /// The chain configuration, from the node's answer to a request for its chain id:
    /// Holesky for its chain id, mainnet for any other and when the node cannot tell.
    pub fn chain_spec<E>(&self, chain_id: Result<u64, E>) -> (r: ChainSpecKind)
        ensures
            r == chain_spec_for(chain_id_or_default(chain_id)),
            r == ChainSpecKind::Holesky <==> chain_id == Ok::<u64, E>(HOLESKY_CHAIN_ID),
    {
        let id = match chain_id {
            Ok(id) => id,
            Err(_) => DEFAULT_CHAIN_ID,
        };
        if id == HOLESKY_CHAIN_ID {
            ChainSpecKind::Holesky
        } else {
            ChainSpecKind::Mainnet
        }
    }

    /// The header of the block with hash `block_hash`, from the node's answer.
    pub fn header<H, E>(&self, block_hash: B256, fetched: Result<Option<H>, E>) -> (r:
        ProviderResult<Option<H>, E>)
        ensures
            r == found_or(fetched, ProviderError::BlockHashNotFound(block_hash)),
            match fetched {
                Ok(Some(v)) => r matches Ok(Some(w)) && w == v,
                Ok(None) => r matches Err(err) && err == ProviderError::<E>::BlockHashNotFound(block_hash),
                Err(e) => r matches Err(err) && err == ProviderError::<E>::Other(e),
            },
    {
        match fetched {
            Ok(Some(header)) => Ok(Some(header)),
            Ok(None) => Err(ProviderError::BlockHashNotFound(block_hash)),
            Err(e) => Err(ProviderError::Other(e)),
        }
    }

    /// The header of block `num`, from the node's answer.
    pub fn header_by_number<H, E>(&self, num: u64, fetched: Result<Option<H>, E>) -> (r:
        ProviderResult<Option<H>, E>)
        ensures
            r == found_or(fetched, ProviderError::BlockBodyIndicesNotFound(num)),
            match fetched {
                Ok(Some(v)) => r matches Ok(Some(w)) && w == v,
                Ok(None) => r matches Err(err) && err == ProviderError::<E>::BlockBodyIndicesNotFound(num),
                Err(e) => r matches Err(err) && err == ProviderError::<E>::Other(e),
            },
    {
        match fetched {
            Ok(Some(header)) => Ok(Some(header)),
            Ok(None) => Err(ProviderError::BlockBodyIndicesNotFound(num)),
            Err(e) => Err(ProviderError::Other(e)),
        }
    }

    /// The block named by `id`, from the node's answer to a request for that block
    /// with its transactions in full.
    pub fn block<H, T, W, E>(&self, id: BlockHashOrNumber, fetched: Result<Option<RpcBlock<H, T, W>>, E>) -> (r:
        ProviderResult<Option<Block<H, T, W>>, E>)
        requires
            fetched matches Ok(Some(b)) ==> b.transactions is Full,
        ensures
            match fetched {
                Ok(Some(b)) => r matches Ok(Some(block)) && block.header == b.header
                    && block.body.transactions@ == b.transactions->Full_0@
                    && block.body.ommers@.len() == 0
                    && block.body.withdrawals == b.withdrawals,
                _ => true,
            },
            match fetched {
                Ok(Some(b)) => r matches Ok(Some(block)) && assembled_from(block, b),
                Ok(None) => r == Err::<Option<Block<H, T, W>>, _>(missing_block_error::<E>(id)),
                Err(e) => r == Err::<Option<Block<H, T, W>>, _>(ProviderError::Other(e)),
            },
    {
        match fetched {
            Ok(Some(block)) => {
                let RpcBlock { header, transactions, withdrawals } = block;
                let transactions = match transactions {
                    BlockTransactions::Full(txs) => txs,
                    _ => vstd::pervasive::unreached(),
                };
                let body = BlockBody { transactions, ommers: Vec::new(), withdrawals };
                Ok(Some(Block { header, body }))
            },
            Ok(None) => match id {
                BlockHashOrNumber::Number(block_number) => Err(ProviderError::BlockBodyIndicesNotFound(block_number)),
                BlockHashOrNumber::Hash(block_hash) => Err(ProviderError::BlockHashNotFound(block_hash)),
            },
            Err(e) => Err(ProviderError::Other(e)),
        }
    }
}

} // verus!
