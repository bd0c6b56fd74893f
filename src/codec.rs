//! Decoding of the base64 XDR texts that a simulation request carries:
//! base64 first, then the XDR structure of the expected type.
use vstd::prelude::*;
use vstd::string::*;
use base64::Engine;
use soroban_env_host::xdr::{
    LedgerEntry, LedgerKey, Limits, ReadXdr, TransactionEnvelope, TransactionMeta,
};

verus! {

broadcast use vstd::string::group_string_axioms;

#[verifier::external_type_specification]
#[verifier::external_body]
pub struct ExTransactionEnvelope(TransactionEnvelope);

#[verifier::external_type_specification]
#[verifier::external_body]
pub struct ExLedgerKey(LedgerKey);

#[verifier::external_type_specification]
#[verifier::external_body]
pub struct ExLedgerEntry(LedgerEntry);

#[verifier::external_type_specification]
#[verifier::external_body]
pub struct ExTransactionMeta(TransactionMeta);

/// Which input a decode step reads.
#[derive(PartialEq, Eq, Structural, Clone, Copy, Debug)]
pub enum Field {
    Envelope,
    LedgerKey,
    LedgerEntry,
    ResultMeta,
}

/// Which layer of a decode step failed.
#[derive(PartialEq, Eq, Structural, Clone, Copy, Debug)]
pub enum DecodeStage {
    /// The text is not valid base64.
    Base64,
    /// The bytes are not a valid XDR encoding of the expected type.
    Xdr,
}

/// A failed decode step: where it failed, on which input, and the decoder's
/// own description of the failure.
#[derive(Debug)]
pub struct DecodeError {
    pub stage: DecodeStage,
    pub field: Field,
    pub detail: String,
}

/// The bytes that base64's standard engine decodes `s` to, if it accepts it.
pub uninterp spec fn base64_decoded(s: Seq<char>) -> Option<Seq<u8>>;

/// Whether stellar-xdr reads `b` as exactly one `TransactionEnvelope`.
pub uninterp spec fn envelope_xdr_ok(b: Seq<u8>) -> bool;

/// The `TransactionEnvelope` that stellar-xdr reads from `b`, where it
/// accepts `b`.
pub uninterp spec fn envelope_of(b: Seq<u8>) -> TransactionEnvelope;

/// Whether stellar-xdr reads `b` as exactly one `LedgerKey`.
pub uninterp spec fn key_xdr_ok(b: Seq<u8>) -> bool;

/// Whether stellar-xdr reads `b` as exactly one `LedgerEntry`.
pub uninterp spec fn entry_xdr_ok(b: Seq<u8>) -> bool;

/// Whether stellar-xdr reads `b` as exactly one `TransactionMeta`.
pub uninterp spec fn meta_xdr_ok(b: Seq<u8>) -> bool;

/// Relies on base64's `Engine::decode` with the standard engine (padded
/// standard alphabet): whether it accepts, and the bytes, depend on the text
/// alone.
#[verifier::external_body]
fn base64_decode(s: &str) -> (r: Result<Vec<u8>, String>)
    ensures
        r is Ok <==> base64_decoded(s@) is Some,
        r is Ok ==> base64_decoded(s@) == Some(r->Ok_0@),
{
    base64::engine::general_purpose::STANDARD.decode(s).map_err(|e| e.to_string())
}

/// Relies on stellar-xdr's `ReadXdr::from_xdr` for `TransactionEnvelope`,
/// without limits: whether it accepts, and the value read, depend on the
/// bytes alone.
#[verifier::external_body]
fn envelope_from_xdr(b: &Vec<u8>) -> (r: Result<TransactionEnvelope, String>)
    ensures
        r is Ok <==> envelope_xdr_ok(b@),
        r is Ok ==> r->Ok_0 == envelope_of(b@),
{
    TransactionEnvelope::from_xdr(b, Limits::none()).map_err(|e| e.to_string())
}

/// Relies on stellar-xdr's `ReadXdr::from_xdr` for `LedgerKey`, without
/// limits: whether it accepts depends on the bytes alone.
#[verifier::external_body]
fn key_from_xdr(b: &Vec<u8>) -> (r: Result<LedgerKey, String>)
    ensures
        r is Ok <==> key_xdr_ok(b@),
{
    LedgerKey::from_xdr(b, Limits::none()).map_err(|e| e.to_string())
}

/// Relies on stellar-xdr's `ReadXdr::from_xdr` for `LedgerEntry`, without
/// limits: whether it accepts depends on the bytes alone.
#[verifier::external_body]
fn entry_from_xdr(b: &Vec<u8>) -> (r: Result<LedgerEntry, String>)
    ensures
        r is Ok <==> entry_xdr_ok(b@),
{
    LedgerEntry::from_xdr(b, Limits::none()).map_err(|e| e.to_string())
}

/// Relies on stellar-xdr's `ReadXdr::from_xdr` for `TransactionMeta`,
/// without limits: whether it accepts depends on the bytes alone.
#[verifier::external_body]
fn meta_from_xdr(b: &Vec<u8>) -> (r: Result<TransactionMeta, String>)
    ensures
        r is Ok <==> meta_xdr_ok(b@),
{
    TransactionMeta::from_xdr(b, Limits::none()).map_err(|e| e.to_string())
}

/// Whether `b` is a valid XDR encoding of the type that `field` holds.
pub open spec fn xdr_ok(field: Field, b: Seq<u8>) -> bool {
    match field {
        Field::Envelope => envelope_xdr_ok(b),
        Field::LedgerKey => key_xdr_ok(b),
        Field::LedgerEntry => entry_xdr_ok(b),
        Field::ResultMeta => meta_xdr_ok(b),
    }
}

/// The layer at which decoding `text` as `field` fails, or `None` when it
/// decodes.
pub open spec fn decode_failure(field: Field, text: Seq<char>) -> Option<DecodeStage> {
    match base64_decoded(text) {
        None => Some(DecodeStage::Base64),
        Some(b) => if xdr_ok(field, b) {
            None
        } else {
            Some(DecodeStage::Xdr)
        },
    }
}

/// The name under which a field appears in messages.
pub open spec fn field_name(field: Field) -> Seq<char> {
    match field {
        Field::Envelope => "Envelope"@,
        Field::LedgerKey => "LedgerKey"@,
        Field::LedgerEntry => "LedgerEntry"@,
        Field::ResultMeta => "ResultMeta"@,
    }
}

/// The fixed start of the message for a failure at `stage` on `field`; the
/// decoder's description follows it.
pub open spec fn failure_head(stage: DecodeStage, field: Field) -> Seq<char> {
    match stage {
        DecodeStage::Base64 => "Failed to decode "@ + field_name(field) + " Base64: "@,
        DecodeStage::Xdr => "Failed to parse "@ + field_name(field) + " XDR: "@,
    }
}

fn field_text(field: Field) -> (r: &'static str)
    ensures
        r@ == field_name(field),
{
    match field {
        Field::Envelope => "Envelope",
        Field::LedgerKey => "LedgerKey",
        Field::LedgerEntry => "LedgerEntry",
        Field::ResultMeta => "ResultMeta",
    }
}

impl DecodeError {
    /// The message reported for this failure: its fixed head, then the
    /// decoder's description.
    pub fn message(&self) -> (r: String)
        ensures
            r@ == failure_head(self.stage, self.field) + self.detail@,
    {
        let mut s = match self.stage {
            DecodeStage::Base64 => String::from_str("Failed to decode "),
            DecodeStage::Xdr => String::from_str("Failed to parse "),
        };
        s.append(field_text(self.field));
        match self.stage {
            DecodeStage::Base64 => s.append(" Base64: "),
            DecodeStage::Xdr => s.append(" XDR: "),
        }
        s.append(self.detail.as_str());
        s
    }
}

/// Base64-decodes `text` as the input `field`.
fn decode_bytes(text: &str, field: Field) -> (r: Result<Vec<u8>, DecodeError>)
    ensures
        r is Ok <==> base64_decoded(text@) is Some,
        r is Ok ==> base64_decoded(text@) == Some(r->Ok_0@),
        r is Err ==> r->Err_0.stage == DecodeStage::Base64 && r->Err_0.field == field,
{
    match base64_decode(text) {
        Ok(b) => Ok(b),
        Err(detail) => Err(DecodeError { stage: DecodeStage::Base64, field, detail }),
    }
}

/// Decodes a base64 XDR transaction envelope, of any of its three variants.
pub fn decode_envelope(text: &str) -> (r: Result<TransactionEnvelope, DecodeError>)
    ensures
        r is Ok <==> decode_failure(Field::Envelope, text@) is None,
        r is Ok ==> r->Ok_0 == envelope_of(base64_decoded(text@)->Some_0),
        r is Err ==> Some(r->Err_0.stage) == decode_failure(Field::Envelope, text@)
            && r->Err_0.field == Field::Envelope,
{
    let b = decode_bytes(text, Field::Envelope)?;
    match envelope_from_xdr(&b) {
        Ok(e) => Ok(e),
        Err(detail) => Err(DecodeError { stage: DecodeStage::Xdr, field: Field::Envelope, detail }),
    }
}

/// Decodes a base64 XDR ledger key.
pub fn decode_key(text: &str) -> (r: Result<LedgerKey, DecodeError>)
    ensures
        r is Ok <==> decode_failure(Field::LedgerKey, text@) is None,
        r is Err ==> Some(r->Err_0.stage) == decode_failure(Field::LedgerKey, text@)
            && r->Err_0.field == Field::LedgerKey,
{
    let b = decode_bytes(text, Field::LedgerKey)?;
    match key_from_xdr(&b) {
        Ok(k) => Ok(k),
        Err(detail) => Err(DecodeError { stage: DecodeStage::Xdr, field: Field::LedgerKey, detail }),
    }
}

/// Decodes a base64 XDR ledger entry.
pub fn decode_entry(text: &str) -> (r: Result<LedgerEntry, DecodeError>)
    ensures
        r is Ok <==> decode_failure(Field::LedgerEntry, text@) is None,
        r is Err ==> Some(r->Err_0.stage) == decode_failure(Field::LedgerEntry, text@)
            && r->Err_0.field == Field::LedgerEntry,
{
    let b = decode_bytes(text, Field::LedgerEntry)?;
    match entry_from_xdr(&b) {
        Ok(e) => Ok(e),
        Err(detail) => Err(
            DecodeError { stage: DecodeStage::Xdr, field: Field::LedgerEntry, detail },
        ),
    }
}

/// Decodes base64 XDR transaction result metadata.
pub fn decode_result_metadata(text: &str) -> (r: Result<TransactionMeta, DecodeError>)
    ensures
        r is Ok <==> decode_failure(Field::ResultMeta, text@) is None,
        r is Err ==> Some(r->Err_0.stage) == decode_failure(Field::ResultMeta, text@)
            && r->Err_0.field == Field::ResultMeta,
{
    let b = decode_bytes(text, Field::ResultMeta)?;
    match meta_from_xdr(&b) {
        Ok(m) => Ok(m),
        Err(detail) => Err(DecodeError { stage: DecodeStage::Xdr, field: Field::ResultMeta, detail }),
    }
}

} // verus!
