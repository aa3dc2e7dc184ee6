//! Instructions as they are handed to a transaction builder, and the byte
//! encodings of their parameters.

use vstd::prelude::*;
use vstd::string::{StrSliceExecFns, StringSliceAdditionalSpecFns};
use crate::address::Address;

verus! {

/// One account of an instruction, with its signer and writable flags.
#[derive(Clone, Copy, Debug)]
pub struct AccountMeta {
    pub pubkey: Address,
    pub is_signer: bool,
    pub is_writable: bool,
}

impl View for AccountMeta {
    type V = (Seq<u8>, bool, bool);

    open spec fn view(&self) -> (Seq<u8>, bool, bool) {
        (self.pubkey@, self.is_signer, self.is_writable)
    }
}

impl AccountMeta {
    /// A writable account.
    pub fn new(pubkey: Address, is_signer: bool) -> (r: AccountMeta)
        ensures
            r@ == (pubkey@, is_signer, true),
    {
        AccountMeta { pubkey, is_signer, is_writable: true }
    }

    /// A read-only account.
    pub fn new_readonly(pubkey: Address, is_signer: bool) -> (r: AccountMeta)
        ensures
            r@ == (pubkey@, is_signer, false),
    {
        AccountMeta { pubkey, is_signer, is_writable: false }
    }
}

/// An instruction to a program: its ordered accounts and its data.
#[derive(Clone, Debug)]
pub struct Instruction {
    pub program_id: Address,
    pub accounts: Vec<AccountMeta>,
    pub data: Vec<u8>,
}

/// The accounts' views, in order.
pub open spec fn metas(accounts: Seq<AccountMeta>) -> Seq<(Seq<u8>, bool, bool)> {
    accounts.map_values(|m: AccountMeta| m@)
}

/// The `n` low bytes of `x`, least significant first.
pub open spec fn le_bytes(x: nat, n: nat) -> Seq<u8>
    decreases n,
{
    if n == 0 {
        Seq::empty()
    } else {
        seq![(x % 256) as u8] + le_bytes(x / 256, (n - 1) as nat)
    }
}

/// A string: its UTF-8 byte length as four little-endian bytes, then the bytes.
pub open spec fn string_bytes(s: Seq<u8>) -> Seq<u8> {
    le_bytes(s.len(), 4) + s
}

/// An optional value: a presence byte, then the value's bytes if present.
pub open spec fn optional_bytes(v: Option<Seq<u8>>) -> Seq<u8> {
    match v {
        Some(b) => seq![1u8] + b,
        None => seq![0u8],
    }
}

/// Appends the `n` low bytes of `x`, least significant first.
pub fn push_le(v: &mut Vec<u8>, x: u64, n: usize)
    ensures
        final(v)@ == old(v)@ + le_bytes(x as nat, n as nat),
    decreases n,
{
    if n == 0 {
        assert(old(v)@ + le_bytes(x as nat, 0) =~= old(v)@);
        return;
    }
    let ghost before = v@;
    v.push((x % 256) as u8);
    push_le(v, x / 256, n - 1);
    assert(v@ =~= before + le_bytes(x as nat, n as nat));
}

/// Appends `s` as a length-prefixed string.
pub fn push_string(v: &mut Vec<u8>, s: &str)
    ensures
        final(v)@ == old(v)@ + string_bytes(s.spec_bytes()),
{
    let ghost before = v@;
    let mut bytes = s.as_bytes_vec();
    push_le(v, bytes.len() as u64, 4);
    v.append(&mut bytes);
    assert(v@ =~= before + string_bytes(s.spec_bytes()));
}

} // verus!
