//! Finding the block whose state a state request asks for.
//!
//! A request for the state at a block number or tag takes up to two answers of the
//! node. Each method below decides, from the request or from the latest answer, what
//! comes next: another question to the node, the block whose state to open, or the
//! error to report. The caller asks the questions and feeds the answers back until
//! the decision is to open a state or to fail.

use vstd::prelude::*;
use crate::primitives::{
    found_or, BlockNumHash, BlockNumberOrTag, ProviderError, ProviderResult, B256,
};
use crate::provider::AlloyRethProvider;

verus! {

/// The block whose state a provider opens: named by its hash, by its number, or the
/// pending block.
#[derive(Clone, Copy, Debug, PartialEq, Eq)]
pub enum StateBlock {
    Hash(B256),
    Number(u64),
    Pending,
}

/// What a state request needs next.
#[derive(Debug, PartialEq, Eq)]
pub enum StateLookup<E> {
    /// Ask the node for the number of its newest block.
    FetchBestBlockNumber,
    /// Ask the node for its finalized block.
    FetchFinalizedBlock,
    /// Ask the node for its safe block.
    FetchSafeBlock,
    /// Ask the node for the block with this number.
    FetchBlockHash(u64),
    /// Open the state at this block.
    OpenState(StateBlock),
    /// Report this error.
    Fail(ProviderError<E>),
}

/// The first step of a request for the state at `tag`: a question to the node for
/// the newest, finalized, safe and numbered blocks; the state at block 0 for the
/// earliest block, and the pending state for the pending one.
pub open spec fn first_step<E>(tag: BlockNumberOrTag) -> StateLookup<E> {
    match tag {
        BlockNumberOrTag::Latest => StateLookup::FetchBestBlockNumber,
        BlockNumberOrTag::Finalized => StateLookup::FetchFinalizedBlock,
        BlockNumberOrTag::Safe => StateLookup::FetchSafeBlock,
        BlockNumberOrTag::Earliest => StateLookup::OpenState(StateBlock::Number(0)),
        BlockNumberOrTag::Pending => StateLookup::OpenState(StateBlock::Pending),
        BlockNumberOrTag::Number(n) => StateLookup::FetchBlockHash(n),
    }
}

/// The step after the node answered the request for its newest block number.
pub open spec fn after_best_number<E>(fetched: Result<u64, E>) -> StateLookup<E> {
    match fetched {
        Ok(n) => StateLookup::FetchBlockHash(n),
        Err(e) => StateLookup::Fail(ProviderError::Other(e)),
    }
}

/// The step after the node answered the request for a tagged block: the state at
/// its hash, `missing` when the node has no such block, or the node's error.
pub open spec fn after_tagged_block<E>(
    fetched: Result<Option<BlockNumHash>, E>,
    missing: ProviderError<E>,
) -> StateLookup<E> {
    match fetched {
        Ok(Some(block)) => StateLookup::OpenState(StateBlock::Hash(block.hash)),
        Ok(None) => StateLookup::Fail(missing),
        Err(e) => StateLookup::Fail(ProviderError::Other(e)),
    }
}

/// The step after the node answered the request for block `number`.
pub open spec fn after_block_hash<E>(number: u64, fetched: Result<Option<B256>, E>) -> StateLookup<E> {
    match fetched {
        Ok(Some(hash)) => StateLookup::OpenState(StateBlock::Hash(hash)),
        Ok(None) => StateLookup::Fail(ProviderError::BlockBodyIndicesNotFound(number)),
        Err(e) => StateLookup::Fail(ProviderError::Other(e)),
    }
}

/// The hash of a tagged block, from the number and hash that the provider found
/// for it.
pub open spec fn tagged_hash<E>(found: ProviderResult<Option<BlockNumHash>, E>) -> ProviderResult<Option<B256>, E> {
    match found {
        Ok(Some(block)) => Ok(Some(block.hash)),
        Ok(None) => Ok(None),
        Err(e) => Err(e),
    }
}

/// How a step ends a request: the block whose state to open, the error to report,
/// or nothing while the request still waits for an answer of the node.
pub open spec fn outcome<E>(step: StateLookup<E>) -> Option<ProviderResult<StateBlock, E>> {
    match step {
        StateLookup::OpenState(block) => Some(Ok(block)),
        StateLookup::Fail(e) => Some(Err(e)),
        _ => None,
    }
}

/// The step after the node answered the question of `step`, when its newest block
/// number is `best`, its finalized block is `finalized`, its safe block is `safe`
/// and block `n` is `hash_at(n)`. A step that asks nothing stays as it is.
pub open spec fn answered<E>(
    step: StateLookup<E>,
    best: Result<u64, E>,
    finalized: Result<Option<BlockNumHash>, E>,
    safe: Result<Option<BlockNumHash>, E>,
    hash_at: spec_fn(u64) -> Result<Option<B256>, E>,
) -> StateLookup<E> {
    match step {
        StateLookup::FetchBestBlockNumber => after_best_number(best),
        StateLookup::FetchFinalizedBlock => after_tagged_block(finalized, ProviderError::FinalizedBlockNotFound),
        StateLookup::FetchSafeBlock => after_tagged_block(safe, ProviderError::SafeBlockNotFound),
        StateLookup::FetchBlockHash(n) => after_block_hash(n, hash_at(n)),
        _ => step,
    }
}

/// The block whose state a request for the state at block `n` opens, or the error
/// it reports, when the node answers `hash_at(n)` for that block.
pub open spec fn resolved_number<E>(n: u64, hash_at: spec_fn(u64) -> Result<Option<B256>, E>) -> ProviderResult<StateBlock, E> {
    match hash_at(n) {
        Ok(Some(hash)) => Ok(StateBlock::Hash(hash)),
        Ok(None) => Err(ProviderError::BlockBodyIndicesNotFound(n)),
        Err(e) => Err(ProviderError::Other(e)),
    }
}

/// The block whose state a request for a tagged block opens, or the error it
/// reports, when the node answers `fetched` for that block.
pub open spec fn resolved_tagged<E>(
    fetched: Result<Option<BlockNumHash>, E>,
    missing: ProviderError<E>,
) -> ProviderResult<StateBlock, E> {
    match fetched {
        Ok(Some(block)) => Ok(StateBlock::Hash(block.hash)),
        Ok(None) => Err(missing),
        Err(e) => Err(ProviderError::Other(e)),
    }
}

/// The block whose state a request for `tag` opens, or the error it reports, for a
/// node that answers as `best`, `finalized`, `safe` and `hash_at` say.
pub open spec fn resolved_block<E>(
    tag: BlockNumberOrTag,
    best: Result<u64, E>,
    finalized: Result<Option<BlockNumHash>, E>,
    safe: Result<Option<BlockNumHash>, E>,
    hash_at: spec_fn(u64) -> Result<Option<B256>, E>,
) -> ProviderResult<StateBlock, E> {
    match tag {
        BlockNumberOrTag::Latest => match best {
            Ok(n) => resolved_number(n, hash_at),
            Err(e) => Err(ProviderError::Other(e)),
        },
        BlockNumberOrTag::Finalized => resolved_tagged(finalized, ProviderError::FinalizedBlockNotFound),
        BlockNumberOrTag::Safe => resolved_tagged(safe, ProviderError::SafeBlockNotFound),
        BlockNumberOrTag::Earliest => Ok(StateBlock::Number(0)),
        BlockNumberOrTag::Pending => Ok(StateBlock::Pending),
        BlockNumberOrTag::Number(n) => resolved_number(n, hash_at),
    }
}

/// A request for the state at any tag ends after at most two answers of the node:
/// with the state of the block that the tag names at the node, or with the error of
/// the first answer that fails.
pub proof fn lemma_state_lookup_resolves<E>(
    tag: BlockNumberOrTag,
    best: Result<u64, E>,
    finalized: Result<Option<BlockNumHash>, E>,
    safe: Result<Option<BlockNumHash>, E>,
    hash_at: spec_fn(u64) -> Result<Option<B256>, E>,
)
    ensures
        outcome(
            answered(
                answered(first_step::<E>(tag), best, finalized, safe, hash_at),
                best,
                finalized,
                safe,
                hash_at,
            ),
        ) == Some(resolved_block(tag, best, finalized, safe, hash_at)),
{
}

/// The newest state is the state at the newest block number: a request for the
/// latest state resolves as a request for the state at the number that the node
/// reports as its newest.
pub proof fn lemma_latest_is_state_at_best_number<E>(
    n: u64,
    finalized: Result<Option<BlockNumHash>, E>,
    safe: Result<Option<BlockNumHash>, E>,
    hash_at: spec_fn(u64) -> Result<Option<B256>, E>,
)
    ensures
        after_best_number::<E>(Ok(n)) == first_step::<E>(BlockNumberOrTag::Number(n)),
        resolved_block(BlockNumberOrTag::Latest, Ok(n), finalized, safe, hash_at)
            == resolved_block(BlockNumberOrTag::Number(n), Ok(n), finalized, safe, hash_at),
{
}

/// The first step of each request: the newest block number is asked for the latest
/// state, the finalized and safe blocks for theirs, block `n` for the state at `n`;
/// the earliest state is the state at block 0 and the pending state is opened as it
/// is, without a question.
pub proof fn lemma_first_steps<E>(n: u64)
    ensures
        first_step::<E>(BlockNumberOrTag::Latest) == StateLookup::<E>::FetchBestBlockNumber,
        first_step::<E>(BlockNumberOrTag::Finalized) == StateLookup::<E>::FetchFinalizedBlock,
        first_step::<E>(BlockNumberOrTag::Safe) == StateLookup::<E>::FetchSafeBlock,
        first_step::<E>(BlockNumberOrTag::Earliest) == StateLookup::<E>::OpenState(StateBlock::Number(0)),
        first_step::<E>(BlockNumberOrTag::Pending) == StateLookup::<E>::OpenState(StateBlock::Pending),
        first_step::<E>(BlockNumberOrTag::Number(n)) == StateLookup::<E>::FetchBlockHash(n),
{
}

/// The hash of a tagged block is the hash of the block that the node sent for the
/// tag, and the steps after an answer open the state at the very block the node
/// named: a tagged block by its hash, block `n` by the hash the node gave for it.
pub proof fn lemma_answers_open_the_named_block<E>(b: BlockNumHash, h: B256, n: u64, e: E)
    ensures
        tagged_hash(found_or(Ok::<Option<BlockNumHash>, E>(Some(b)), ProviderError::FinalizedBlockNotFound))
            == Ok::<Option<B256>, ProviderError<E>>(Some(b.hash)),
        tagged_hash(found_or(Ok::<Option<BlockNumHash>, E>(Some(b)), ProviderError::SafeBlockNotFound))
            == Ok::<Option<B256>, ProviderError<E>>(Some(b.hash)),
        tagged_hash(found_or(Ok::<Option<BlockNumHash>, E>(None), ProviderError::SafeBlockNotFound))
            == Err::<Option<B256>, ProviderError<E>>(ProviderError::SafeBlockNotFound),
        tagged_hash(found_or(Err::<Option<BlockNumHash>, E>(e), ProviderError::SafeBlockNotFound))
            == Err::<Option<B256>, ProviderError<E>>(ProviderError::Other(e)),
        after_tagged_block(Ok::<Option<BlockNumHash>, E>(Some(b)), ProviderError::FinalizedBlockNotFound)
            == StateLookup::<E>::OpenState(StateBlock::Hash(b.hash)),
        after_block_hash(n, Ok::<Option<B256>, E>(Some(h))) == StateLookup::<E>::OpenState(StateBlock::Hash(h)),
        after_best_number(Ok::<u64, E>(n)) == StateLookup::<E>::FetchBlockHash(n),
        outcome(StateLookup::<E>::OpenState(StateBlock::Hash(h))) == Some(Ok::<StateBlock, ProviderError<E>>(StateBlock::Hash(h))),
{
}

impl<N, P: Send + Sync + Clone + 'static> AlloyRethProvider<N, P> {
    /// The hash of the finalized block, from the node's answer to a request for it.
    pub fn finalized_block_hash<E>(&self, fetched: Result<Option<BlockNumHash>, E>) -> (r:
        ProviderResult<Option<B256>, E>)
        ensures
            r == tagged_hash(found_or(fetched, ProviderError::FinalizedBlockNotFound)),
            match fetched {
                Ok(Some(b)) => r == Ok::<Option<B256>, ProviderError<E>>(Some(b.hash)),
                Ok(None) => r == Err::<Option<B256>, ProviderError<E>>(ProviderError::FinalizedBlockNotFound),
                Err(e) => r == Err::<Option<B256>, ProviderError<E>>(ProviderError::Other(e)),
            },
    {
        match self.finalized_block_num_hash(fetched) {
            Ok(Some(block)) => Ok(Some(block.hash)),
            Ok(None) => Ok(None),
            Err(e) => Err(e),
        }
    }

    /// The hash of the safe block, from the node's answer to a request for it.
    pub fn safe_block_hash<E>(&self, fetched: Result<Option<BlockNumHash>, E>) -> (r:
        ProviderResult<Option<B256>, E>)
        ensures
            r == tagged_hash(found_or(fetched, ProviderError::SafeBlockNotFound)),
            match fetched {
                Ok(Some(b)) => r == Ok::<Option<B256>, ProviderError<E>>(Some(b.hash)),
                Ok(None) => r == Err::<Option<B256>, ProviderError<E>>(ProviderError::SafeBlockNotFound),
                Err(e) => r == Err::<Option<B256>, ProviderError<E>>(ProviderError::Other(e)),
            },
    {
        match self.safe_block_num_hash(fetched) {
            Ok(Some(block)) => Ok(Some(block.hash)),
            Ok(None) => Ok(None),
            Err(e) => Err(e),
        }
    }

    /// The first step of a request for the state at `number_or_tag`.
    pub fn state_by_block_number_or_tag<E>(&self, number_or_tag: BlockNumberOrTag) -> (r:
        StateLookup<E>)
        ensures
            r == first_step::<E>(number_or_tag),
    {
        match number_or_tag {
            BlockNumberOrTag::Latest => StateLookup::FetchBestBlockNumber,
            BlockNumberOrTag::Finalized => StateLookup::FetchFinalizedBlock,
            BlockNumberOrTag::Safe => StateLookup::FetchSafeBlock,
            BlockNumberOrTag::Earliest => match self.history_by_block_number::<E>(0) {
                Ok(block) => StateLookup::OpenState(block),
                Err(e) => StateLookup::Fail(e),
            },
            BlockNumberOrTag::Pending => match self.pending::<E>() {
                Ok(block) => StateLookup::OpenState(block),
                Err(e) => StateLookup::Fail(e),
            },
            BlockNumberOrTag::Number(num) => StateLookup::FetchBlockHash(num),
        }
    }

    /// The state of the newest block: from the node's answer to a request for the
    /// newest block number, the step of a request for the state at that number.
    pub fn latest<E>(&self, fetched: Result<u64, E>) -> (r: StateLookup<E>)
        ensures
            r == after_best_number(fetched),
            match fetched {
                Ok(n) => r == StateLookup::<E>::FetchBlockHash(n),
                Err(e) => r == StateLookup::<E>::Fail(ProviderError::Other(e)),
            },
    {
        match self.best_block_number(fetched) {
            Ok(block_number) => self.state_by_block_number_or_tag(
                BlockNumberOrTag::Number(block_number),
            ),
            Err(e) => StateLookup::Fail(e),
        }
    }

    /// The step of a request for the finalized state after the node answered the
    /// request for its finalized block.
    pub fn state_by_finalized_block<E>(&self, fetched: Result<Option<BlockNumHash>, E>) -> (r:
        StateLookup<E>)
        ensures
            r == after_tagged_block(fetched, ProviderError::FinalizedBlockNotFound),
            match fetched {
                Ok(Some(b)) => r == StateLookup::<E>::OpenState(StateBlock::Hash(b.hash)),
                Ok(None) => r == StateLookup::<E>::Fail(ProviderError::FinalizedBlockNotFound),
                Err(e) => r == StateLookup::<E>::Fail(ProviderError::Other(e)),
            },
    {
        match self.finalized_block_hash(fetched) {
            Ok(Some(hash)) => self.state_at_hash(hash),
            Ok(None) => StateLookup::Fail(ProviderError::FinalizedBlockNotFound),
            Err(e) => StateLookup::Fail(e),
        }
    }

    /// The step of a request for the safe state after the node answered the request
    /// for its safe block.
    pub fn state_by_safe_block<E>(&self, fetched: Result<Option<BlockNumHash>, E>) -> (r:
        StateLookup<E>)
        ensures
            r == after_tagged_block(fetched, ProviderError::SafeBlockNotFound),
            match fetched {
                Ok(Some(b)) => r == StateLookup::<E>::OpenState(StateBlock::Hash(b.hash)),
                Ok(None) => r == StateLookup::<E>::Fail(ProviderError::SafeBlockNotFound),
                Err(e) => r == StateLookup::<E>::Fail(ProviderError::Other(e)),
            },
    {
        match self.safe_block_hash(fetched) {
            Ok(Some(hash)) => self.state_at_hash(hash),
            Ok(None) => StateLookup::Fail(ProviderError::SafeBlockNotFound),
            Err(e) => StateLookup::Fail(e),
        }
    }

    /// The step of a request for the state at block `number` after the node
    /// answered the request for that block.
    pub fn state_by_block_number<E>(&self, number: u64, fetched: Result<Option<B256>, E>) -> (r:
        StateLookup<E>)
        ensures
            r == after_block_hash(number, fetched),
            match fetched {
                Ok(Some(h)) => r == StateLookup::<E>::OpenState(StateBlock::Hash(h)),
                Ok(None) => r == StateLookup::<E>::Fail(ProviderError::BlockBodyIndicesNotFound(number)),
                Err(e) => r == StateLookup::<E>::Fail(ProviderError::Other(e)),
            },
    {
        match self.block_hash(number, fetched) {
            Ok(Some(hash)) => self.state_at_hash(hash),
            Ok(None) => vstd::pervasive::unreached(),
            Err(e) => StateLookup::Fail(e),
        }
    }

    /// The step that opens the state at the block with hash `hash`.
    fn state_at_hash<E>(&self, hash: B256) -> (r: StateLookup<E>)
        ensures
            r == StateLookup::<E>::OpenState(StateBlock::Hash(hash)),
    {
        match self.state_by_block_hash::<E>(hash) {
            Ok(block) => StateLookup::OpenState(block),
            Err(e) => StateLookup::Fail(e),
        }
    }

    /// The state at the block with hash `block`: opening it never fails.
    pub fn history_by_block_hash<E>(&self, block: B256) -> (r: ProviderResult<StateBlock, E>)
        ensures
            r == Ok::<StateBlock, ProviderError<E>>(StateBlock::Hash(block)),
    {
        Ok(StateBlock::Hash(block))
    }

    /// The state at block number `block`: opening it never fails.
    pub fn history_by_block_number<E>(&self, block: u64) -> (r: ProviderResult<StateBlock, E>)
        ensures
            r == Ok::<StateBlock, ProviderError<E>>(StateBlock::Number(block)),
    {
        Ok(StateBlock::Number(block))
    }

    /// The pending state: opening it never fails.
    pub fn pending<E>(&self) -> (r: ProviderResult<StateBlock, E>)
        ensures
            r == Ok::<StateBlock, ProviderError<E>>(StateBlock::Pending),
    {
        Ok(StateBlock::Pending)
    }

    /// The state at the block with hash `hash`, as `history_by_block_hash` opens it;
    /// `StateForHashNotFound` if that failed, which it never does.
    pub fn state_by_block_hash<E>(&self, hash: B256) -> (r: ProviderResult<StateBlock, E>)
        ensures
            r == Ok::<StateBlock, ProviderError<E>>(StateBlock::Hash(hash)),
    {
        match self.history_by_block_hash::<E>(hash) {
            Ok(state) => Ok(state),
            Err(_) => Err(ProviderError::StateForHashNotFound(hash)),
        }
    }
}

} // verus!
