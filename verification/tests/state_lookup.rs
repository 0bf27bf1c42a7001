use alloy_reth_provider::primitives::{B256, BlockNumHash, BlockNumberOrTag, ProviderError};
use alloy_reth_provider::provider::AlloyRethProvider;
use alloy_reth_provider::state_lookup::{StateBlock, StateLookup};

type Provider = AlloyRethProvider<(), String>;

fn provider() -> Provider {
    AlloyRethProvider::new("http://node".to_string())
}

fn hash(byte: u8) -> B256 {
    B256([byte; 32])
}

#[test]
fn first_steps_by_tag() {
    let p = provider();
    assert_eq!(p.state_by_block_number_or_tag::<String>(BlockNumberOrTag::Latest), StateLookup::FetchBestBlockNumber);
    assert_eq!(p.state_by_block_number_or_tag::<String>(BlockNumberOrTag::Finalized), StateLookup::FetchFinalizedBlock);
    assert_eq!(
        p.state_by_block_number_or_tag::<String>(BlockNumberOrTag::Number(16148323)),
        StateLookup::FetchBlockHash(16148323)
    );
}

#[test]
fn latest_continues_as_the_best_number() {
    let p = provider();
    assert_eq!(p.latest::<String>(Ok(77)), p.state_by_block_number_or_tag::<String>(BlockNumberOrTag::Number(77)));
    assert_eq!(
        p.latest(Err("down".to_string())),
        StateLookup::Fail(ProviderError::Other("down".to_string()))
    );
}

#[test]
fn latest_resolves_like_its_number() {
    let p = provider();
    let via_latest = match p.latest::<String>(Ok(12)) {
        StateLookup::FetchBlockHash(n) => p.state_by_block_number(n, Ok(Some(hash(5)))),
        other => other,
    };
    let via_number = match p.state_by_block_number_or_tag::<String>(BlockNumberOrTag::Number(12)) {
        StateLookup::FetchBlockHash(n) => p.state_by_block_number(n, Ok(Some(hash(5)))),
        other => other,
    };
    assert_eq!(via_latest, StateLookup::OpenState(StateBlock::Hash(hash(5))));
    assert_eq!(via_latest, via_number);
}

#[test]
fn state_by_block_number_outcomes() {
    let p = provider();
    assert_eq!(p.state_by_block_number::<String>(3, Ok(Some(hash(4)))), StateLookup::OpenState(StateBlock::Hash(hash(4))));
    assert_eq!(
        p.state_by_block_number::<String>(3, Ok(None)),
        StateLookup::Fail(ProviderError::BlockBodyIndicesNotFound(3))
    );
    assert_eq!(
        p.state_by_block_number(3, Err(8u16)),
        StateLookup::Fail(ProviderError::Other(8u16))
    );
}

#[test]
fn state_by_finalized_block_outcomes() {
    let p = provider();
    let block = BlockNumHash { number: 10, hash: hash(9) };
    assert_eq!(p.state_by_finalized_block::<String>(Ok(Some(block))), StateLookup::OpenState(StateBlock::Hash(hash(9))));
    assert_eq!(
        p.state_by_finalized_block::<String>(Ok(None)),
        StateLookup::Fail(ProviderError::FinalizedBlockNotFound)
    );
    assert_eq!(
        p.state_by_finalized_block(Err("x".to_string())),
        StateLookup::Fail(ProviderError::Other("x".to_string()))
    );
}

#[test]
fn finalized_block_hash_outcomes() {
    let p = provider();
    let block = BlockNumHash { number: 10, hash: hash(9) };
    assert_eq!(p.finalized_block_hash::<String>(Ok(Some(block))), Ok(Some(hash(9))));
    assert_eq!(p.finalized_block_hash::<String>(Ok(None)), Err(ProviderError::FinalizedBlockNotFound));
}

#[test]
fn state_by_block_hash_never_fails() {
    let p = provider();
    assert_eq!(p.history_by_block_hash::<String>(hash(1)), Ok(StateBlock::Hash(hash(1))));
    assert_eq!(p.state_by_block_hash::<String>(hash(1)), Ok(StateBlock::Hash(hash(1))));
}

#[test]
fn earliest_and_pending_open_without_asking() {
    let p = provider();
    assert_eq!(
        p.state_by_block_number_or_tag::<String>(BlockNumberOrTag::Earliest),
        StateLookup::OpenState(StateBlock::Number(0))
    );
    assert_eq!(
        p.state_by_block_number_or_tag::<String>(BlockNumberOrTag::Pending),
        StateLookup::OpenState(StateBlock::Pending)
    );
    assert_eq!(p.history_by_block_number::<String>(0), Ok(StateBlock::Number(0)));
    assert_eq!(p.pending::<String>(), Ok(StateBlock::Pending));
}

#[test]
fn safe_state_outcomes() {
    let p = provider();
    assert_eq!(p.state_by_block_number_or_tag::<String>(BlockNumberOrTag::Safe), StateLookup::FetchSafeBlock);
    let block = BlockNumHash { number: 11, hash: hash(3) };
    assert_eq!(p.state_by_safe_block::<String>(Ok(Some(block))), StateLookup::OpenState(StateBlock::Hash(hash(3))));
    assert_eq!(
        p.state_by_safe_block::<String>(Ok(None)),
        StateLookup::Fail(ProviderError::SafeBlockNotFound)
    );
    assert_eq!(
        p.state_by_safe_block(Err("x".to_string())),
        StateLookup::Fail(ProviderError::Other("x".to_string()))
    );
    assert_eq!(p.safe_block_hash::<String>(Ok(Some(block))), Ok(Some(hash(3))));
    assert_eq!(p.safe_block_hash::<String>(Ok(None)), Err(ProviderError::SafeBlockNotFound));
    assert_eq!(p.safe_block_num_hash::<String>(Ok(Some(block))), Ok(Some(block)));
}
