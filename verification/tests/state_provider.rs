use alloy_reth_provider::primitives::{B256, ProviderError, U256};
use alloy_reth_provider::state_provider::{Account, AccountInfo, AlloyRethStateProvider};

type StateProvider = AlloyRethStateProvider<&'static str, u32>;

fn state() -> StateProvider {
    AlloyRethStateProvider::new("runtime", 7)
}

fn hash(byte: u8) -> B256 {
    B256([byte; 32])
}

fn keccak_empty() -> B256 {
    let mut bytes = [0u8; 32];
    let hex = "c5d2460186f7233c927e7db2dcc703c0e500b653ca82273b7bfad8045d85a470";
    for i in 0..32 {
        bytes[i] = u8::from_str_radix(&hex[2 * i..2 * i + 2], 16).unwrap();
    }
    B256(bytes)
}

fn balance(v: u8) -> U256 {
    let mut bytes = [0u8; 32];
    bytes[31] = v;
    U256(bytes)
}

fn info(code_hash: B256, code: Option<Vec<u8>>) -> AccountInfo {
    AccountInfo { balance: balance(5), nonce: 1, code_hash, code }
}

#[test]
fn new_state_has_runtime_db_and_no_code() {
    let mut s = state();
    assert_eq!(*s.alloy_db(), 7);
    assert_eq!(s.bytecode_by_hash::<String>(&hash(1)), Ok(None));
    assert_eq!(s.take_runtime(), Some("runtime"));
    assert_eq!(s.take_runtime(), None);
}

#[test]
fn block_hash_and_storage_are_always_present() {
    let s = state();
    assert_eq!(s.block_hash::<String>(Ok(hash(4))), Ok(Some(hash(4))));
    assert_eq!(s.block_hash(Err("e".to_string())), Err(ProviderError::Other("e".to_string())));
    assert_eq!(s.storage::<U256, String>(Ok(balance(3))), Ok(Some(balance(3))));
    assert_eq!(s.storage::<U256, u8>(Err(2)), Err(ProviderError::Other(2)));
}

#[test]
fn account_with_code_keeps_it_for_bytecode_by_hash() {
    let mut s = state();
    let code = vec![0x60u8, 0x00, 0x60, 0x00, 0xf3];
    let r = s.try_basic_account::<String>(Ok(Some(info(hash(8), Some(code.clone())))));
    assert_eq!(
        r,
        Some(Ok(Some(Account { nonce: 1, balance: balance(5), bytecode_hash: Some(hash(8)) })))
    );
    let served = s.bytecode_by_hash::<String>(&hash(8)).unwrap().unwrap();
    assert_eq!(served.original_bytes().to_vec(), code);
    assert_eq!(s.bytecode_by_hash::<String>(&hash(9)), Ok(None));
}

#[test]
fn a_second_read_replaces_the_code() {
    let mut s = state();
    s.try_basic_account::<String>(Ok(Some(info(hash(8), Some(vec![0x01])))));
    s.try_basic_account::<String>(Ok(Some(info(hash(8), Some(vec![0x02, 0x03])))));
    s.try_basic_account::<String>(Ok(Some(info(hash(6), Some(vec![0x04])))));
    let served = s.bytecode_by_hash::<String>(&hash(8)).unwrap().unwrap();
    assert_eq!(served.original_bytes().to_vec(), vec![0x02, 0x03]);
    let other = s.bytecode_by_hash::<String>(&hash(6)).unwrap().unwrap();
    assert_eq!(other.original_bytes().to_vec(), vec![0x04]);
}

#[test]
fn account_with_empty_code_hash_has_no_code() {
    let mut s = state();
    let r = s.try_basic_account::<String>(Ok(Some(info(keccak_empty(), Some(vec![])))));
    assert_eq!(r, Some(Ok(Some(Account { nonce: 1, balance: balance(5), bytecode_hash: None }))));
    assert_eq!(s.bytecode_by_hash::<String>(&keccak_empty()), Ok(None));
}

#[test]
fn account_without_code_sent_has_no_code() {
    let mut s = state();
    let r = s.basic_account::<String>(Ok(Some(info(hash(8), None))));
    assert_eq!(r, Ok(Some(Account { nonce: 1, balance: balance(5), bytecode_hash: None })));
    assert_eq!(s.bytecode_by_hash::<String>(&hash(8)), Ok(None));
}

#[test]
fn missing_account_and_node_error() {
    let mut s = state();
    assert_eq!(s.basic_account::<String>(Ok(None)), Ok(None));
    assert_eq!(
        s.basic_account(Err("gone".to_string())),
        Err(ProviderError::Other("gone".to_string()))
    );
}

#[test]
fn malformed_eof_code_is_refused() {
    let mut s = state();
    let r = s.try_basic_account::<String>(Ok(Some(info(hash(8), Some(vec![0xef, 0x00, 0x01])))));
    assert_eq!(r, None);
    assert_eq!(s.bytecode_by_hash::<String>(&hash(8)), Ok(None));
}

#[test]
fn delegation_code_is_accepted_only_when_well_formed() {
    let mut s = state();
    let mut good = vec![0xefu8, 0x01, 0x00];
    good.extend_from_slice(&[0x11u8; 20]);
    let r = s.try_basic_account::<String>(Ok(Some(info(hash(8), Some(good.clone())))));
    assert!(matches!(r, Some(Ok(Some(_)))));
    let served = s.bytecode_by_hash::<String>(&hash(8)).unwrap().unwrap();
    assert_eq!(served.original_bytes().to_vec(), good);
    let short = vec![0xefu8, 0x01, 0x00, 0x11];
    assert_eq!(s.try_basic_account::<String>(Ok(Some(info(hash(9), Some(short))))), None);
}
