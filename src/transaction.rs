//! Decoding a signed transaction: base64 text to bytes, bytes to a transaction,
//! and its message to the plain form the validator reads.
//!
//! Every decoded value keeps the bytes it came from, so that what is said of a
//! later step can be said of those bytes.

use vstd::prelude::*;
use base64::Engine;
use solana_sdk::message::v0::LoadedAddresses;
use solana_sdk::message::{SanitizedMessage, SanitizedVersionedMessage, SimpleAddressLoader};
#[allow(deprecated)]
use solana_sdk::transaction::{MessageHash, SanitizedTransaction, VersionedTransaction};
use crate::address::Address;
use crate::validation::{keys_view, CompiledInstruction, Message};

verus! {

#[verifier::external_type_specification]
#[verifier::external_body]
pub struct ExVersionedTransaction(VersionedTransaction);

#[verifier::external_type_specification]
#[verifier::external_body]
pub struct ExSanitizedVersionedMessage(SanitizedVersionedMessage);

#[verifier::external_type_specification]
#[verifier::external_body]
pub struct ExSanitizedMessage(SanitizedMessage);

#[verifier::external_type_specification]
#[verifier::external_body]
pub struct ExSanitizedTransaction(SanitizedTransaction);

/// What standard base64 (with padding) decodes `s` to; `None` for text that is
/// not valid base64.
pub uninterp spec fn standard_base64_decode(s: Seq<char>) -> Option<Seq<u8>>;

/// Whether `b` is the serialization of a signed transaction.
pub uninterp spec fn transaction_decodes(b: Seq<u8>) -> bool;

/// Whether the message of the transaction that `b` serializes passes
/// `SanitizedVersionedMessage::try_new` (header and index checks).
pub uninterp spec fn message_sanitizes(b: Seq<u8>) -> bool;

/// Whether that sanitized message passes `SanitizedMessage::try_new`, with no
/// address-table lookups loaded.
pub uninterp spec fn message_loads(b: Seq<u8>) -> bool;

/// Whether the transaction that `b` serializes passes
/// `SanitizedTransaction::try_create`.
pub uninterp spec fn transaction_sanitizes(b: Seq<u8>) -> bool;

/// The account keys and the instructions (program index, account indexes,
/// data) of the sanitized message of the transaction that `b` serializes.
pub uninterp spec fn sanitized_message_contents(b: Seq<u8>) -> (Seq<Seq<u8>>, Seq<(u8, Seq<u8>, Seq<u8>)>);

/// The instructions as plain values.
pub open spec fn instructions_view(s: Seq<CompiledInstruction>) -> Seq<(u8, Seq<u8>, Seq<u8>)> {
    s.map_values(|ix: CompiledInstruction| (ix.program_id_index, ix.accounts@, ix.data@))
}

/// A deserialized transaction and the bytes it came from.
pub struct DecodedTransaction {
    transaction: VersionedTransaction,
    bytes: Vec<u8>,
}

impl DecodedTransaction {
    pub closed spec fn source(&self) -> Seq<u8> {
        self.bytes@
    }
}

/// A transaction's message once its header and indexes check out, and the
/// bytes of the transaction it came from.
pub struct CheckedMessage {
    message: SanitizedVersionedMessage,
    bytes: Vec<u8>,
}

/// A decoded transaction, its sanitized message, and the bytes they came from.
pub struct TransactionDetails {
    versioned_transaction: VersionedTransaction,
    sanitized_message: SanitizedMessage,
    bytes: Vec<u8>,
}

/// Relies on base64's `STANDARD.decode`: the bytes `s` encodes, or an error.
#[verifier::external_body]
fn decode_base64(s: &str) -> (r: Option<Vec<u8>>)
    ensures
        r matches Some(b) ==> standard_base64_decode(s@) == Some(b@),
        r is None ==> standard_base64_decode(s@) is None,
{
    base64::engine::general_purpose::STANDARD.decode(s).ok()
}

/// Relies on `bincode::deserialize::<VersionedTransaction>`: the transaction
/// that `bytes` serializes, or an error.
#[verifier::external_body]
fn deserialize_versioned_transaction(bytes: Vec<u8>) -> (r: Option<DecodedTransaction>)
    ensures
        r is Some <==> transaction_decodes(bytes@),
        r matches Some(d) ==> d.source() == bytes@,
{
    let transaction = bincode::deserialize::<VersionedTransaction>(&bytes).ok()?;
    Some(DecodedTransaction { transaction, bytes })
}

/// Relies on `SanitizedVersionedMessage::try_new` on the transaction's message.
#[verifier::external_body]
fn sanitize_versioned_message(d: &DecodedTransaction) -> (r: Option<CheckedMessage>)
    ensures
        r is Some <==> message_sanitizes(d.source()),
        r matches Some(m) ==> m.bytes@ == d.source(),
{
    let message = SanitizedVersionedMessage::try_new(d.transaction.message.clone()).ok()?;
    Some(CheckedMessage { message, bytes: d.bytes.clone() })
}

/// Relies on `SanitizedMessage::try_new`, with no address-table lookups loaded
/// and no reserved keys.
#[verifier::external_body]
fn sanitized_message(d: DecodedTransaction, m: CheckedMessage) -> (r: Option<TransactionDetails>)
    requires
        m.bytes@ == d.source(),
    ensures
        r is Some <==> message_loads(d.source()),
        r matches Some(t) ==> t.bytes@ == d.source(),
{
    let loader = SimpleAddressLoader::Enabled(LoadedAddresses::default());
    let keys = std::collections::HashSet::new();
    let sanitized_message = SanitizedMessage::try_new(m.message, loader, &keys).ok()?;
    Some(TransactionDetails { versioned_transaction: d.transaction, sanitized_message, bytes: d.bytes })
}

/// Relies on `SanitizedTransaction::try_create`, computing the message hash and
/// the vote flag, with no address-table lookups and no reserved keys.
#[verifier::external_body]
#[allow(deprecated)]
fn create_sanitized_transaction(d: DecodedTransaction) -> (r: Option<SanitizedTransaction>)
    ensures
        r is Some <==> transaction_sanitizes(d.source()),
{
    let keys = std::collections::HashSet::new();
    SanitizedTransaction::try_create(d.transaction, MessageHash::Compute, None, SimpleAddressLoader::Disabled, &keys).ok()
}

/// Relies on `SanitizedMessage::account_keys` and `instructions`: the keys and
/// instructions copied field for field.
#[verifier::external_body]
fn plain_message(d: &TransactionDetails) -> (r: Message)
    ensures
        (keys_view(r.account_keys@), instructions_view(r.instructions@)) == sanitized_message_contents(d.bytes@),
{
    let m = &d.sanitized_message;
    Message {
        account_keys: m.account_keys().iter().map(|k| Address { bytes: k.to_bytes() }).collect(),
        instructions: m.instructions().iter().map(|ix| CompiledInstruction {
            program_id_index: ix.program_id_index,
            accounts: ix.accounts.clone(),
            data: ix.data.clone(),
        }).collect(),
    }
}

/// Relies on `SanitizedTransaction::message`, then `account_keys` and
/// `instructions`: the keys and instructions copied field for field.
#[verifier::external_body]
fn plain_transaction_message(tx: &SanitizedTransaction) -> Message {
    let m = tx.message();
    Message {
        account_keys: m.account_keys().iter().map(|k| Address { bytes: k.to_bytes() }).collect(),
        instructions: m.instructions().iter().map(|ix| CompiledInstruction {
            program_id_index: ix.program_id_index,
            accounts: ix.accounts.clone(),
            data: ix.data.clone(),
        }).collect(),
    }
}

/// Why a transaction could not be decoded.
#[derive(Clone, Copy, Debug, PartialEq, Eq, Structural)]
pub enum DecodeError {
    /// The text is not base64, or its bytes are not a transaction.
    InvalidTransaction,
    /// The message's header or indexes do not check out.
    SanitizeFailed,
    /// The sanitized message could not be built.
    MessageFailed,
    /// The sanitized transaction could not be built.
    TransactionFailed,
}

impl DecodeError {
    /// A short description of the error.
    pub fn message(&self) -> (r: &'static str)
        ensures
            *self == DecodeError::InvalidTransaction ==> r@ == "Invalid transaction"@,
            *self == DecodeError::SanitizeFailed ==> r@ == "Failed to sanitize versioned message"@,
            *self == DecodeError::MessageFailed ==> r@ == "Failed to create sanitized message"@,
            *self == DecodeError::TransactionFailed ==> r@ == "Failed to create sanitized transaction"@,
    {
        match self {
            DecodeError::InvalidTransaction => "Invalid transaction",
            DecodeError::SanitizeFailed => "Failed to sanitize versioned message",
            DecodeError::MessageFailed => "Failed to create sanitized message",
            DecodeError::TransactionFailed => "Failed to create sanitized transaction",
        }
    }
}

impl TransactionDetails {
    /// The bytes the transaction was decoded from.
    pub closed spec fn source(&self) -> Seq<u8> {
        self.bytes@
    }

    /// The decoded transaction.
    pub fn versioned_transaction(&self) -> &VersionedTransaction {
        &self.versioned_transaction
    }

    /// Its sanitized message.
    pub fn sanitized_message(&self) -> &SanitizedMessage {
        &self.sanitized_message
    }

    /// The sanitized message's keys and instructions.
    pub fn message(&self) -> (r: Message)
        ensures
            (keys_view(r.account_keys@), instructions_view(r.instructions@)) == sanitized_message_contents(self.source()),
    {
        plain_message(self)
    }
}

/// The bytes that base64 text decodes to, where it decodes.
pub open spec fn base64_bytes(s: Seq<char>) -> Seq<u8> {
    standard_base64_decode(s)->Some_0
}

/// The text decodes to the bytes of a transaction.
pub open spec fn decodes_to_transaction(s: Seq<char>) -> bool {
    standard_base64_decode(s) matches Some(b) && transaction_decodes(b)
}

/// Decodes base64 text into a transaction and its sanitized message. Text that
/// is not base64, or whose bytes are not a transaction, is an
/// `InvalidTransaction`; a message that fails its checks is `SanitizeFailed`,
/// one that cannot be built `MessageFailed`; otherwise the details hold what the
/// text's bytes decode to.
pub fn deserialize_transaction_base64_into_transaction_details(transaction: &str) -> (r: Result<
    TransactionDetails,
    DecodeError,
>)
    ensures
        !decodes_to_transaction(transaction@) ==> (r matches Err(e) && e == DecodeError::InvalidTransaction),
        decodes_to_transaction(transaction@) && !message_sanitizes(base64_bytes(transaction@))
            ==> (r matches Err(e) && e == DecodeError::SanitizeFailed),
        decodes_to_transaction(transaction@) && message_sanitizes(base64_bytes(transaction@))
            && !message_loads(base64_bytes(transaction@)) ==> (r matches Err(e) && e == DecodeError::MessageFailed),
        decodes_to_transaction(transaction@) && message_sanitizes(base64_bytes(transaction@))
            && message_loads(base64_bytes(transaction@))
            ==> (r matches Ok(d) && d.source() == base64_bytes(transaction@)),
{
    let bytes = match decode_base64(transaction) {
        Some(b) => b,
        None => return Err(DecodeError::InvalidTransaction),
    };
    let decoded = match deserialize_versioned_transaction(bytes) {
        Some(d) => d,
        None => return Err(DecodeError::InvalidTransaction),
    };
    let checked = match sanitize_versioned_message(&decoded) {
        Some(m) => m,
        None => return Err(DecodeError::SanitizeFailed),
    };
    match sanitized_message(decoded, checked) {
        Some(details) => Ok(details),
        None => Err(DecodeError::MessageFailed),
    }
}

/// Decodes base64 text into a sanitized transaction: `InvalidTransaction` for
/// text that is not base64 or bytes that are not a transaction,
/// `TransactionFailed` for a transaction that fails sanitizing, else the
/// sanitized transaction.
pub fn sanitized_transaction_from_base64(data: &str) -> (r: Result<SanitizedTransaction, DecodeError>)
    ensures
        !decodes_to_transaction(data@) ==> (r matches Err(e) && e == DecodeError::InvalidTransaction),
        decodes_to_transaction(data@) && !transaction_sanitizes(base64_bytes(data@))
            ==> (r matches Err(e) && e == DecodeError::TransactionFailed),
        decodes_to_transaction(data@) && transaction_sanitizes(base64_bytes(data@)) ==> r is Ok,
{
    let bytes = match decode_base64(data) {
        Some(b) => b,
        None => return Err(DecodeError::InvalidTransaction),
    };
    let decoded = match deserialize_versioned_transaction(bytes) {
        Some(d) => d,
        None => return Err(DecodeError::InvalidTransaction),
    };
    match create_sanitized_transaction(decoded) {
        Some(tx) => Ok(tx),
        None => Err(DecodeError::TransactionFailed),
    }
}

/// The keys and instructions of a sanitized transaction's message.
pub fn transaction_message(transaction: &SanitizedTransaction) -> Message {
    plain_transaction_message(transaction)
}

} // verus!
