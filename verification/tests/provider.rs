use alloy_reth_provider::primitives::{
    B256, BlockHashOrNumber, BlockNumHash, ProviderError,
};
use alloy_reth_provider::provider::{
    AlloyRethProvider, BlockTransactions, ChainSpecKind, RpcBlock,
};

type Provider = AlloyRethProvider<(), String>;

fn provider() -> Provider {
    AlloyRethProvider::new("http://node".to_string())
}

fn hash(byte: u8) -> B256 {
    B256([byte; 32])
}

#[test]
fn new_keeps_the_client() {
    let p = provider();
    assert_eq!(p.provider(), "http://node");
}

#[test]
fn finalized_block_num_hash_found() {
    let found = BlockNumHash { number: 42, hash: hash(7) };
    let r = provider().finalized_block_num_hash::<String>(Ok(Some(found)));
    assert_eq!(r, Ok(Some(BlockNumHash { number: 42, hash: hash(7) })));
}

#[test]
fn finalized_block_num_hash_missing_is_an_error() {
    let r = provider().finalized_block_num_hash::<String>(Ok(None));
    assert_eq!(r, Err(ProviderError::FinalizedBlockNotFound));
}

#[test]
fn finalized_block_num_hash_passes_node_errors_on() {
    let r = provider().finalized_block_num_hash(Err("timeout".to_string()));
    assert_eq!(r, Err(ProviderError::Other("timeout".to_string())));
}

#[test]
fn best_block_number_is_the_node_answer() {
    assert_eq!(provider().best_block_number::<String>(Ok(16148323)), Ok(16148323));
    assert_eq!(
        provider().best_block_number::<String>(Err("down".to_string())),
        Err(ProviderError::Other("down".to_string()))
    );
}

#[test]
fn block_number_of_unknown_hash() {
    let p = provider();
    assert_eq!(p.block_number::<String>(hash(3), Ok(Some(9))), Ok(Some(9)));
    assert_eq!(p.block_number::<String>(hash(3), Ok(None)), Err(ProviderError::BlockHashNotFound(hash(3))));
    assert_eq!(
        p.block_number(hash(3), Err("e".to_string())),
        Err(ProviderError::Other("e".to_string()))
    );
}

#[test]
fn block_hash_of_unknown_number() {
    let p = provider();
    assert_eq!(p.block_hash::<String>(5, Ok(Some(hash(1)))), Ok(Some(hash(1))));
    assert_eq!(p.block_hash::<String>(5, Ok(None)), Err(ProviderError::BlockBodyIndicesNotFound(5)));
    assert_eq!(p.block_hash(5, Err(1u8)), Err(ProviderError::Other(1u8)));
}

#[test]
fn chain_spec_follows_the_chain_id() {
    let p = provider();
    assert_eq!(p.chain_spec::<String>(Ok(17000)), ChainSpecKind::Holesky);
    assert_eq!(p.chain_spec::<String>(Ok(1)), ChainSpecKind::Mainnet);
    assert_eq!(p.chain_spec::<String>(Ok(11155111)), ChainSpecKind::Mainnet);
    assert_eq!(p.chain_spec(Err("no chain id".to_string())), ChainSpecKind::Mainnet);
}

#[test]
fn header_lookups() {
    let p = provider();
    assert_eq!(p.header::<&str, String>(hash(2), Ok(Some("h"))), Ok(Some("h")));
    assert_eq!(p.header::<&str, String>(hash(2), Ok(None)), Err(ProviderError::BlockHashNotFound(hash(2))));
    assert_eq!(p.header_by_number::<&str, String>(8, Ok(Some("h"))), Ok(Some("h")));
    assert_eq!(
        p.header_by_number::<&str, String>(8, Ok(None)),
        Err(ProviderError::BlockBodyIndicesNotFound(8))
    );
    assert_eq!(
        p.header_by_number::<&str, u32>(8, Err(4)),
        Err(ProviderError::Other(4))
    );
}

#[test]
fn block_is_assembled_without_ommers() {
    let p = provider();
    let rpc = RpcBlock { header: "head", transactions: BlockTransactions::Full(vec![1u32, 2, 3]), withdrawals: Some(9u8) };
    let r = p.block::<&str, u32, u8, String>(BlockHashOrNumber::Number(4), Ok(Some(rpc)));
    let block = match r {
        Ok(Some(block)) => block,
        _ => panic!("block expected"),
    };
    assert_eq!(block.header, "head");
    assert_eq!(block.body.transactions, vec![1, 2, 3]);
    assert!(block.body.ommers.is_empty());
    assert_eq!(block.body.withdrawals, Some(9));
}

#[test]
fn block_missing_by_number_or_hash() {
    let p = provider();
    let by_number = p.block::<&str, u32, u8, String>(BlockHashOrNumber::Number(4), Ok(None));
    assert!(matches!(by_number, Err(ProviderError::BlockBodyIndicesNotFound(4))));
    let by_hash = p.block::<&str, u32, u8, String>(BlockHashOrNumber::Hash(hash(6)), Ok(None));
    assert!(matches!(by_hash, Err(ProviderError::BlockHashNotFound(h)) if h == hash(6)));
    let failed = p.block::<&str, u32, u8, String>(BlockHashOrNumber::Hash(hash(6)), Err("x".to_string()));
    assert!(matches!(failed, Err(ProviderError::Other(e)) if e == "x"));
}

#[test]
fn b256_same_as() {
    assert!(hash(1).same_as(&hash(1)));
    let mut other = [1u8; 32];
    other[31] = 2;
    assert!(!hash(1).same_as(&B256(other)));
}
