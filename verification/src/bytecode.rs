//! Contract code as revm holds it, and the few outside items that the provider uses
//! on it.
//!
//! Everything in this file is trusted: the contracts below are taken without proof
//! from what the revm and alloy items do.

use vstd::prelude::*;
use revm::primitives::Bytecode;
use crate::primitives::B256;

verus! {

/// revm's `Bytecode`: contract code, raw or analysed, carried through unopened.
#[verifier::external_type_specification]
#[verifier::external_body]
pub struct ExBytecode(revm::primitives::Bytecode);

/// The Keccak-256 hash of the empty byte string, most significant byte first.
pub open spec fn keccak_empty_bytes() -> Seq<u8> {
    seq![
        0xc5u8, 0xd2u8, 0x46u8, 0x01u8, 0x86u8, 0xf7u8, 0x23u8, 0x3cu8,
        0x92u8, 0x7eu8, 0x7du8, 0xb2u8, 0xdcu8, 0xc7u8, 0x03u8, 0xc0u8,
        0xe5u8, 0x00u8, 0xb6u8, 0x53u8, 0xcau8, 0x82u8, 0x27u8, 0x3bu8,
        0x7bu8, 0xfau8, 0xd8u8, 0x04u8, 0x5du8, 0x85u8, 0xa4u8, 0x70u8,
    ]
}

/// Whether `code` opens with the two magic bytes of an EOF container (`0xEF 0x00`).
pub open spec fn has_eof_magic(code: Seq<u8>) -> bool {
    code.len() >= 2 && code[0] == 0xEFu8 && code[1] == 0x00u8
}

/// Whether `code` opens with the two magic bytes of an EIP-7702 delegation (`0xEF 0x01`).
pub open spec fn has_eip7702_magic(code: Seq<u8>) -> bool {
    code.len() >= 2 && code[0] == 0xEFu8 && code[1] == 0x01u8
}

/// Whether revm's `Bytecode::new_raw_checked` accepts the raw code `code`.
pub uninterp spec fn raw_bytecode_decodes(code: Seq<u8>) -> bool;

/// alloy-consensus's constant `KECCAK_EMPTY`, the hash that marks an account without
/// code. The contract gives the 32 bytes of its definition.
#[verifier::external_body]
pub(crate) fn keccak_empty() -> (h: B256)
    ensures
        h.bytes() == keccak_empty_bytes(),
{
    B256(alloy_consensus::constants::KECCAK_EMPTY.0)
}

/// revm's `Bytecode::new_raw_checked` on a copy of `code`, its error dropped.
/// As the function is written: code without a magic prefix is
/// taken as legacy code and always accepted; code with the EIP-7702 prefix is
/// accepted exactly when it is 23 bytes long with version byte 0; whether code
/// with the EOF prefix is accepted is left to the name `raw_bytecode_decodes`.
#[verifier::external_body]
pub(crate) fn bytecode_new_raw_checked(code: &Vec<u8>) -> (r: Option<Bytecode>)
    ensures
        r is Some <==> raw_bytecode_decodes(code@),
        !has_eof_magic(code@) && !has_eip7702_magic(code@) ==> r is Some,
        has_eip7702_magic(code@) ==> (r is Some <==> (code@.len() == 23 && code@[2] == 0u8)),
{
    Bytecode::new_raw_checked(revm::primitives::Bytes::copy_from_slice(code.as_slice())).ok()
}

/// The code that revm's `Bytecode::new_raw` builds from the raw bytes `code`.
pub uninterp spec fn raw_bytecode(code: Seq<u8>) -> Bytecode;

/// revm's `Bytecode::new_raw` on `code`. It panics on the code that
/// `new_raw_checked` refuses, which `requires` leaves out. Its result depends on the
/// bytes alone, and is named `raw_bytecode`.
#[verifier::external_body]
pub(crate) fn bytecode_new_raw(code: Vec<u8>) -> (b: Bytecode)
    requires
        raw_bytecode_decodes(code@),
    ensures
        b == raw_bytecode(code@),
{
    Bytecode::new_raw(revm::primitives::Bytes::from(code))
}

/// revm's derived `Clone` for `Bytecode`: the copy is the same value.
#[verifier::external_body]
pub(crate) fn bytecode_clone(b: &Bytecode) -> (c: Bytecode)
    ensures
        c == *b,
{
    b.clone()
}

} // verus!
