//! The state of one block, read from the node: accounts, storage slots, block
//! hashes, and the contract code met while reading accounts.

use vstd::prelude::*;
use revm::primitives::Bytecode;
use crate::bytecode::{
    bytecode_new_raw, bytecode_new_raw_checked, keccak_empty, keccak_empty_bytes, raw_bytecode,
    raw_bytecode_decodes,
};
use crate::bytecode_cache::{cached, BytecodeCache};
use crate::primitives::{present, ProviderError, ProviderResult, B256, U256};

verus! {

/// An account as the node's state database reports it.
#[derive(Clone, Debug, PartialEq, Eq)]
pub struct AccountInfo {
    pub balance: U256,
    pub nonce: u64,
    pub code_hash: B256,
    /// The raw contract code, when the database sent it along.
    pub code: Option<Vec<u8>>,
}

/// An account as the provider reports it.
#[derive(Clone, Copy, Debug, PartialEq, Eq)]
pub struct Account {
    pub nonce: u64,
    pub balance: U256,
    /// The hash of the account's code; `None` for an account without code.
    pub bytecode_hash: Option<B256>,
}

/// Whether reading `info` stores code: the database sent code along, and its hash
/// is not the hash of empty code.
pub open spec fn keeps_code(info: AccountInfo) -> bool {
    info.code is Some && info.code_hash.bytes() != keccak_empty_bytes()
}

/// The account that the provider reports for `info`.
pub open spec fn account_from(info: AccountInfo) -> Account {
    Account {
        nonce: info.nonce,
        balance: info.balance,
        bytecode_hash: if keeps_code(info) {
            Some(info.code_hash)
        } else {
            None
        },
    }
}

/// What an account read becomes, from the database's answer.
pub open spec fn account_result<E>(fetched: Result<Option<AccountInfo>, E>) -> ProviderResult<Option<Account>, E> {
    match fetched {
        Ok(Some(info)) => Ok(Some(account_from(info))),
        Ok(None) => Ok(None),
        Err(e) => Err(ProviderError::Other(e)),
    }
}

/// Whether the code that an account read would store is code that revm accepts.
pub open spec fn code_decodes<E>(fetched: Result<Option<AccountInfo>, E>) -> bool {
    match fetched {
        Ok(Some(info)) => keeps_code(info) ==> raw_bytecode_decodes(info.code->0@),
        _ => true,
    }
}

/// The code hash under which reading `info` stores code, if it stores any.
pub open spec fn stored_code_hash(info: AccountInfo) -> Option<B256> {
    if keeps_code(info) {
        Some(info.code_hash)
    } else {
        None
    }
}

/// The code that reading `info` stores under its code hash, if it stores any: the
/// code that revm builds from the bytes that the database sent.
pub open spec fn stored_code(info: AccountInfo) -> Option<Bytecode> {
    if keeps_code(info) {
        Some(raw_bytecode(info.code->0@))
    } else {
        None
    }
}

/// The code cache after reading `info` on `cache`: the code that the read stores is
/// put under its code hash, in place of any code held there before; nothing else
/// changes.
pub open spec fn record_account(cache: Map<B256, Bytecode>, info: AccountInfo) -> Map<B256, Bytecode> {
    if keeps_code(info) {
        cache.insert(info.code_hash, raw_bytecode(info.code->0@))
    } else {
        cache
    }
}

/// The code cache after an account read whose answer was `fetched`.
pub open spec fn record_read<E>(
    cache: Map<B256, Bytecode>,
    fetched: Result<Option<AccountInfo>, E>,
) -> Map<B256, Bytecode> {
    match fetched {
        Ok(Some(info)) => record_account(cache, info),
        _ => cache,
    }
}

/// The accounts read so far, after an account read whose answer was `fetched`: an
/// account found is added at the end.
pub open spec fn accounts_after<E>(
    accounts: Seq<AccountInfo>,
    fetched: Result<Option<AccountInfo>, E>,
) -> Seq<AccountInfo> {
    match fetched {
        Ok(Some(info)) => accounts.push(info),
        _ => accounts,
    }
}

/// The code cache of a provider that has read the accounts `accounts`, in order,
/// since it was created.
pub open spec fn cache_after_accounts(accounts: Seq<AccountInfo>) -> Map<B256, Bytecode>
    decreases accounts.len(),
{
    if accounts.len() == 0 {
        Map::empty()
    } else {
        record_account(cache_after_accounts(accounts.drop_last()), accounts.last())
    }
}

/// The code stored under `hash` by the last of the accounts `accounts` whose read
/// stored code under it, if one did.
pub open spec fn last_stored_code(accounts: Seq<AccountInfo>, hash: B256) -> Option<Bytecode>
    decreases accounts.len(),
{
    if accounts.len() == 0 {
        None
    } else if stored_code_hash(accounts.last()) == Some(hash) {
        stored_code(accounts.last())
    } else {
        last_stored_code(accounts.drop_last(), hash)
    }
}

/// Whether `hash` is the hash of empty code.
pub open spec fn is_empty_code_hash(hash: B256) -> bool {
    hash.bytes() == keccak_empty_bytes()
}

/// A provider of the state of one block, reading through the database handle `Db`
/// and keeping the runtime `Rt` that drives it.
/// The code cache is kept together with the accounts read so far.
pub struct AlloyRethStateProvider<Rt, Db> {
    rt: Option<Rt>,
    alloy_db: Db,
    bytecode: (BytecodeCache, Ghost<Seq<AccountInfo>>),
}

impl<Rt, Db> AlloyRethStateProvider<Rt, Db> {
    /// The code cache holds what the accounts read so far stored in it.
    #[verifier::type_invariant]
    spec fn cache_follows_reads(self) -> bool {
        self.bytecode.0.contents() == cache_after_accounts(self.bytecode.1@)
    }

    /// The accounts that reads have found since the provider was created, in order.
    pub closed spec fn accounts_read(&self) -> Seq<AccountInfo> {
        self.bytecode.1@
    }

    /// The runtime that drives the database handle, until it is shut down.
    pub closed spec fn runtime(&self) -> Option<Rt> {
        self.rt
    }

    /// The database handle.
    pub closed spec fn db(&self) -> Db {
        self.alloy_db
    }

    /// The code met so far, by code hash.
    pub closed spec fn bytecodes(&self) -> Map<B256, Bytecode> {
        self.bytecode.0.contents()
    }

    /// A provider reading through `alloy_db`, driven by `rt`, that has met no code yet.
    pub fn new(rt: Rt, alloy_db: Db) -> (s: Self)
        ensures
            s.runtime() == Some(rt),
            s.db() == alloy_db,
            s.bytecodes() == Map::<B256, Bytecode>::empty(),
            s.accounts_read() == Seq::<AccountInfo>::empty(),
    {
        AlloyRethStateProvider {
            rt: Some(rt),
            alloy_db,
            bytecode: (BytecodeCache::new(), Ghost(Seq::empty())),
        }
    }

    /// The database handle, for issuing the reads whose answers the methods take.
    pub fn alloy_db(&self) -> (db: &Db)
        ensures
            *db == self.db(),
    {
        &self.alloy_db
    }

    /// Hands out the runtime for shutting it down, once: afterwards there is none.
    pub fn take_runtime(&mut self) -> (rt: Option<Rt>)
        ensures
            rt == old(self).runtime(),
            final(self).runtime() is None,
            final(self).db() == old(self).db(),
            final(self).bytecodes() == old(self).bytecodes(),
            final(self).accounts_read() == old(self).accounts_read(),
    {
        proof {
            use_type_invariant(&*self);
        }
        let mut rt = None;
        std::mem::swap(&mut rt, &mut self.rt);
        rt
    }

    /// The hash of a block, from the database's answer to a request for it.
    pub fn block_hash<E>(&self, fetched: Result<B256, E>) -> (r: ProviderResult<Option<B256>, E>)
        ensures
            r == present(fetched),
    {
        match fetched {
            Ok(value) => Ok(Some(value)),
            Err(e) => Err(ProviderError::Other(e)),
        }
    }

    /// The value of a storage slot, from the database's answer.
    pub fn storage<V, E>(&self, fetched: Result<V, E>) -> (r: ProviderResult<Option<V>, E>)
        ensures
            r == present(fetched),
    {
        match fetched {
            Ok(value) => Ok(Some(value)),
            Err(e) => Err(ProviderError::Other(e)),
        }
    }

    /// The code with hash `code_hash`, if an account read has met it: the code stored
    /// by the last account read that stored code under that hash, and none when no
    /// read did. There is never code under the hash of empty code.
    pub fn bytecode_by_hash<E>(&self, code_hash: &B256) -> (r: ProviderResult<Option<Bytecode>, E>)
        ensures
            r == Ok::<Option<Bytecode>, ProviderError<E>>(cached(self.bytecodes(), *code_hash)),
            r == Ok::<Option<Bytecode>, ProviderError<E>>(last_stored_code(self.accounts_read(), *code_hash)),
            is_empty_code_hash(*code_hash) ==> r == Ok::<Option<Bytecode>, ProviderError<E>>(None),
            r is Ok,
            r matches Ok(Some(c)) ==> self.bytecodes().dom().contains(*code_hash)
                && c == self.bytecodes()[*code_hash],
            r == Ok::<Option<Bytecode>, ProviderError<E>>(None) <==> !self.bytecodes().dom().contains(*code_hash),
    {
        proof {
            use_type_invariant(self);
            lemma_cache_after_accounts(self.accounts_read(), *code_hash);
        }
        Ok(self.bytecode.0.get(code_hash))
    }

    /// An account, from the database's answer; an account's code that the database
    /// sent along, unless its hash is the hash of empty code, is kept for
    /// `bytecode_by_hash`.
    pub fn basic_account<E>(&mut self, fetched: Result<Option<AccountInfo>, E>) -> (r:
        ProviderResult<Option<Account>, E>)
        requires
            code_decodes(fetched),
        ensures
            r == account_result(fetched),
            final(self).bytecodes() == record_read(old(self).bytecodes(), fetched),
            final(self).accounts_read() == accounts_after(old(self).accounts_read(), fetched),
            match fetched {
                Ok(Some(info)) => {
                    &&& r matches Ok(Some(acc)) && acc.nonce == info.nonce && acc.balance == info.balance
                        && (acc.bytecode_hash is Some <==> (info.code is Some
                            && info.code_hash.bytes() != keccak_empty_bytes()))
                        && (acc.bytecode_hash is Some ==> acc.bytecode_hash == Some(info.code_hash))
                    &&& final(self).accounts_read() == old(self).accounts_read().push(info)
                    &&& (info.code is Some && info.code_hash.bytes() != keccak_empty_bytes()) ==> {
                        &&& final(self).bytecodes().dom().contains(info.code_hash)
                        &&& final(self).bytecodes()[info.code_hash] == raw_bytecode(info.code->0@)
                        &&& forall|k: B256| k != info.code_hash ==>
                            cached(#[trigger] final(self).bytecodes(), k) == cached(old(self).bytecodes(), k)
                    }
                    &&& !(info.code is Some && info.code_hash.bytes() != keccak_empty_bytes())
                        ==> final(self).bytecodes() == old(self).bytecodes()
                },
                Ok(None) => r == Ok::<Option<Account>, ProviderError<E>>(None)
                    && final(self).bytecodes() == old(self).bytecodes()
                    && final(self).accounts_read() == old(self).accounts_read(),
                Err(e) => r == Err::<Option<Account>, ProviderError<E>>(ProviderError::Other(e))
                    && final(self).bytecodes() == old(self).bytecodes()
                    && final(self).accounts_read() == old(self).accounts_read(),
            },
            final(self).runtime() == old(self).runtime(),
            final(self).db() == old(self).db(),
    {
        proof {
            use_type_invariant(&*self);
        }
        match fetched {
            Ok(Some(account)) => {
                let ghost info = account;
                let AccountInfo { balance, nonce, code_hash, code } = account;
                let mut codes = (BytecodeCache::new(), Ghost(Seq::<AccountInfo>::empty()));
                std::mem::swap(&mut codes, &mut self.bytecode);
                let ghost accounts = codes.1@;
                let mut cache = codes.0;
                let bytecode_hash = match code {
                    Some(code) => {
                        if code_hash.same_as(&keccak_empty()) {
                            None
                        } else {
                            cache.insert(code_hash, bytecode_new_raw(code));
                            Some(code_hash)
                        }
                    },
                    None => None,
                };
                proof {
                    assert(accounts.push(info).drop_last() =~= accounts);
                }
                self.bytecode = (cache, Ghost(accounts.push(info)));
                Ok(Some(Account { nonce, balance, bytecode_hash }))
            },
            Ok(None) => Ok(None),
            Err(e) => Err(ProviderError::Other(e)),
        }
    }

    /// An account read as `basic_account` does it, when the code it would keep is
    /// code that revm accepts; otherwise `None`, and nothing changes.
    pub fn try_basic_account<E>(&mut self, fetched: Result<Option<AccountInfo>, E>) -> (r: Option<
        ProviderResult<Option<Account>, E>,
    >)
        ensures
            r is None <==> !code_decodes(fetched),
            match fetched {
                Ok(Some(info)) => r is None <==> (info.code is Some
                    && info.code_hash.bytes() != keccak_empty_bytes()
                    && !raw_bytecode_decodes(info.code->0@)),
                _ => r is Some,
            },
            r matches Some(res) ==> res == account_result(fetched),
            r is Some ==> final(self).bytecodes() == record_read(old(self).bytecodes(), fetched),
            r is None ==> final(self).bytecodes() == old(self).bytecodes(),
            r is Some ==> final(self).accounts_read() == accounts_after(old(self).accounts_read(), fetched),
            r is None ==> final(self).accounts_read() == old(self).accounts_read(),
            r matches Some(res) ==> match fetched {
                Ok(Some(info)) => {
                    &&& res matches Ok(Some(acc)) && acc.nonce == info.nonce && acc.balance == info.balance
                        && (acc.bytecode_hash is Some <==> (info.code is Some
                            && info.code_hash.bytes() != keccak_empty_bytes()))
                        && (acc.bytecode_hash is Some ==> acc.bytecode_hash == Some(info.code_hash))
                    &&& final(self).accounts_read() == old(self).accounts_read().push(info)
                    &&& (info.code is Some && info.code_hash.bytes() != keccak_empty_bytes()) ==> {
                        &&& final(self).bytecodes().dom().contains(info.code_hash)
                        &&& final(self).bytecodes()[info.code_hash] == raw_bytecode(info.code->0@)
                        &&& forall|k: B256| k != info.code_hash ==>
                            cached(#[trigger] final(self).bytecodes(), k) == cached(old(self).bytecodes(), k)
                    }
                },
                Ok(None) => res == Ok::<Option<Account>, ProviderError<E>>(None),
                Err(e) => res == Err::<Option<Account>, ProviderError<E>>(ProviderError::Other(e)),
            },
            final(self).runtime() == old(self).runtime(),
            final(self).db() == old(self).db(),
    {
        let accepted = match &fetched {
            Ok(Some(info)) => match &info.code {
                Some(code) => {
                    if info.code_hash.same_as(&keccak_empty()) {
                        true
                    } else {
                        bytecode_new_raw_checked(code).is_some()
                    }
                },
                None => true,
            },
            _ => true,
        };
        if accepted {
            Some(self.basic_account(fetched))
        } else {
            None
        }
    }
}

/// An account read reports the account that the database sent: its nonce and its
/// whole balance unchanged, and its code hash exactly when the database sent code
/// whose hash is not the hash of empty code.
pub proof fn lemma_account_read_reports_account<E>(info: AccountInfo, e: E)
    ensures
        account_from(info).nonce == info.nonce,
        account_from(info).balance == info.balance,
        account_from(info).balance.0@ == info.balance.0@,
        (info.code is Some && info.code_hash.bytes() != keccak_empty_bytes())
            ==> account_from(info).bytecode_hash == Some(info.code_hash),
        !(info.code is Some && info.code_hash.bytes() != keccak_empty_bytes())
            ==> account_from(info).bytecode_hash is None,
        account_result::<E>(Ok(Some(info))) == Ok::<Option<Account>, ProviderError<E>>(Some(account_from(info))),
        account_result::<E>(Ok(None)) == Ok::<Option<Account>, ProviderError<E>>(None),
        account_result::<E>(Err(e)) == Err::<Option<Account>, ProviderError<E>>(ProviderError::Other(e)),
{
}

/// Reading an account whose code the database sent, under a hash that is not the
/// hash of empty code, keeps that code under that very hash: the hash the read
/// reports is the hash under which `bytecode_by_hash` then serves the code revm
/// builds from the bytes the read saw. Every other hash keeps what it had. A read
/// that keeps no code changes nothing.
pub proof fn lemma_read_keeps_code_under_its_hash(
    cache: Map<B256, Bytecode>,
    accounts: Seq<AccountInfo>,
    info: AccountInfo,
    other: B256,
)
    ensures
        info.code is Some && info.code_hash.bytes() != keccak_empty_bytes() ==> {
            &&& account_from(info).bytecode_hash == Some(info.code_hash)
            &&& cached(record_account(cache, info), info.code_hash) == Some(raw_bytecode(info.code->0@))
            &&& last_stored_code(accounts.push(info), info.code_hash) == Some(raw_bytecode(info.code->0@))
            &&& other != info.code_hash ==> cached(record_account(cache, info), other) == cached(cache, other)
            &&& other != info.code_hash ==> last_stored_code(accounts.push(info), other)
                == last_stored_code(accounts, other)
        },
        !(info.code is Some && info.code_hash.bytes() != keccak_empty_bytes()) ==> {
            &&& record_account(cache, info) == cache
            &&& last_stored_code(accounts.push(info), other) == last_stored_code(accounts, other)
        },
        last_stored_code(Seq::<AccountInfo>::empty(), other) is None,
{
    assert(accounts.push(info).drop_last() =~= accounts);
    assert(accounts.push(info).last() == info);
}

/// What an account read stores is what `bytecode_by_hash` serves afterwards: under
/// the code hash of an account that keeps code, the code revm builds from the bytes
/// the read saw, in place of any code there before; under every other hash, the code
/// it had before.
pub proof fn lemma_recorded_code_is_served(before: Map<B256, Bytecode>, info: AccountInfo, key: B256)
    ensures
        stored_code_hash(info) == Some(key) ==> cached(record_account(before, info), key) == stored_code(info),
        stored_code_hash(info) != Some(key) ==> cached(record_account(before, info), key) == cached(before, key),
{
}

/// The code cache after any account reads holds, under each hash, the code stored
/// by the last read that stored code under it; never anything under the hash of
/// empty code.
pub proof fn lemma_cache_after_accounts(accounts: Seq<AccountInfo>, hash: B256)
    ensures
        cached(cache_after_accounts(accounts), hash) == last_stored_code(accounts, hash),
        is_empty_code_hash(hash) ==> last_stored_code(accounts, hash) is None,
    decreases accounts.len(),
{
    if accounts.len() > 0 {
        let rest = accounts.drop_last();
        lemma_cache_after_accounts(rest, hash);
        lemma_recorded_code_is_served(cache_after_accounts(rest), accounts.last(), hash);
    }
}

/// Of the accounts read so far, the last one whose read stored code under `hash`
/// decides what `bytecode_by_hash` serves for it: the code that revm built from the
/// bytes that read saw. When no read stored code under `hash`, nothing is served.
pub proof fn lemma_last_stored_code(accounts: Seq<AccountInfo>, hash: B256, i: int)
    ensures
        (forall|j: int| 0 <= j < accounts.len() ==> stored_code_hash(#[trigger] accounts[j]) != Some(hash))
            ==> last_stored_code(accounts, hash) is None,
        0 <= i < accounts.len() && stored_code_hash(accounts[i]) == Some(hash)
            && (forall|j: int| i < j < accounts.len() ==> stored_code_hash(#[trigger] accounts[j]) != Some(hash))
            ==> last_stored_code(accounts, hash) == stored_code(accounts[i]),
    decreases accounts.len(),
{
    if accounts.len() > 0 {
        let rest = accounts.drop_last();
        let n = accounts.len() - 1;
        lemma_last_stored_code(rest, hash, i);
        assert forall|j: int| 0 <= j < rest.len() implies #[trigger] rest[j] == accounts[j] by {}
        if (forall|j: int| 0 <= j < accounts.len() ==> stored_code_hash(#[trigger] accounts[j]) != Some(hash)) {
            assert(stored_code_hash(accounts[n]) != Some(hash));
            assert forall|j: int| 0 <= j < rest.len() implies stored_code_hash(#[trigger] rest[j]) != Some(hash) by {
                assert(rest[j] == accounts[j]);
            }
        }
        if 0 <= i < accounts.len() && stored_code_hash(accounts[i]) == Some(hash)
            && (forall|j: int| i < j < accounts.len() ==> stored_code_hash(#[trigger] accounts[j]) != Some(hash)) {
            if i < n {
                assert(stored_code_hash(accounts[n]) != Some(hash));
                assert(rest[i] == accounts[i]);
                assert forall|j: int| i < j < rest.len() implies stored_code_hash(#[trigger] rest[j]) != Some(hash) by {
                    assert(rest[j] == accounts[j]);
                }
            }
        }
    }
}

} // verus!
