//! Carrying payloads between their wire form and their on-disk form.
//!
//! Pipelines travel as JSON and are kept on disk as TOML; detector models and
//! labels are the same bytes in both places.
use vstd::prelude::*;
use vstd::slice::slice_to_vec;
use vstd::utf8::decode_utf8;
use vstd::utf8::encode_utf8;
use vstd::utf8::valid_utf8;

use crate::error::FormatError;
use crate::resource::ResourceId;

verus! {

#[verifier::external_type_specification]
#[verifier::external_body]
pub struct ExJsonError(serde_json::Error);

#[verifier::external_type_specification]
#[verifier::external_body]
pub struct ExTomlDeError(toml::de::Error);

#[verifier::external_type_specification]
#[verifier::external_body]
pub struct ExTomlSerError(toml::ser::Error);

#[verifier::external_type_specification]
#[verifier::external_body]
pub struct ExUtf8Error(core::str::Utf8Error);

/// Whether `serde_json::from_slice` reads the bytes as a `serde_json::Value`.
pub uninterp spec fn json_accepts(b: Seq<u8>) -> bool;

/// Whether `toml::from_str` reads the text as a `serde_json::Value`.
pub uninterp spec fn toml_accepts(s: Seq<char>) -> bool;

/// The text `toml::to_string_pretty` gives for the value that
/// `serde_json::from_slice` reads from the bytes; `None` where it refuses it.
pub uninterp spec fn toml_rendering(b: Seq<u8>) -> Option<Seq<char>>;

/// The bytes `serde_json::to_vec_pretty` gives for the value that
/// `toml::from_str` reads from the text.
pub uninterp spec fn json_rendering(s: Seq<char>) -> Seq<u8>;

/// The bytes `serde_json::to_vec_pretty` gives for the value that
/// `serde_json::from_slice` reads from the bytes.
pub uninterp spec fn json_pretty_of(b: Seq<u8>) -> Seq<u8>;

/// Relies on `std::str::from_utf8`: succeeds exactly on UTF-8 bytes, and the
/// text is their decoding.
#[verifier::external_body]
fn utf8_text(b: &[u8]) -> (r: Result<&str, core::str::Utf8Error>)
    ensures
        r is Ok <==> valid_utf8(b@),
        r matches Ok(s) ==> s@ == decode_utf8(b@),
{
    std::str::from_utf8(b)
}

/// Relies on `serde_json::from_slice` into a `serde_json::Value`, then
/// `toml::to_string_pretty` of that value.
#[verifier::external_body]
fn json_as_toml(b: &[u8]) -> (r: Result<Result<String, toml::ser::Error>, serde_json::Error>)
    ensures
        r is Ok <==> json_accepts(b@),
        r matches Ok(inner) ==> (inner is Ok <==> toml_rendering(b@) is Some),
        r matches Ok(inner) ==> (inner matches Ok(t) ==> toml_rendering(b@) == Some(t@)),
{
    let v: serde_json::Value = serde_json::from_slice(b)?;
    Ok(toml::to_string_pretty(&v))
}

/// Relies on `toml::from_str` into a `serde_json::Value`, then
/// `serde_json::to_vec_pretty` of that value, which cannot fail on a
/// `serde_json::Value` (its map keys are strings).
#[verifier::external_body]
fn toml_as_json(s: &str) -> (r: Result<Result<Vec<u8>, serde_json::Error>, toml::de::Error>)
    ensures
        r is Ok <==> toml_accepts(s@),
        r matches Ok(inner) ==> (inner matches Ok(b) && b@ == json_rendering(s@)),
{
    let v: serde_json::Value = toml::from_str(s)?;
    Ok(serde_json::to_vec_pretty(&v))
}

/// Relies on `serde_json::from_slice` into a `serde_json::Value`, then
/// `serde_json::to_vec_pretty` of that value, which cannot fail on a
/// `serde_json::Value`.
#[verifier::external_body]
pub(crate) fn json_reformat(b: &[u8]) -> (r: Result<Result<Vec<u8>, serde_json::Error>, serde_json::Error>)
    ensures
        r is Ok <==> json_accepts(b@),
        r matches Ok(inner) ==> (inner matches Ok(t) && t@ == json_pretty_of(b@)),
{
    let v: serde_json::Value = serde_json::from_slice(b)?;
    Ok(serde_json::to_vec_pretty(&v))
}

/// The on-disk form of a payload received from the appliance.
pub open spec fn disk_form(id: ResourceId, wire: Seq<u8>) -> Result<Seq<u8>, FormatError> {
    match id {
        ResourceId::Pipeline(_) => if !json_accepts(wire) {
            Err(FormatError::BadJson)
        } else {
            match toml_rendering(wire) {
                Some(t) => Ok(encode_utf8(t)),
                None => Err(FormatError::Unencodable),
            }
        },
        _ => Ok(wire),
    }
}

/// The wire form of a payload read from disk.
pub open spec fn wire_form(id: ResourceId, disk: Seq<u8>) -> Result<Seq<u8>, FormatError> {
    match id {
        ResourceId::Pipeline(_) => if !valid_utf8(disk) {
            Err(FormatError::NotUtf8)
        } else if !toml_accepts(decode_utf8(disk)) {
            Err(FormatError::BadToml)
        } else {
            Ok(json_rendering(decode_utf8(disk)))
        },
        _ => Ok(disk),
    }
}

/// The bytes of a result, as a mathematical value.
pub open spec fn bytes_view<E>(r: Result<Vec<u8>, E>) -> Result<Seq<u8>, E> {
    match r {
        Ok(b) => Ok(b@),
        Err(e) => Err(e),
    }
}

/// Turns a payload as the appliance sends it into what is kept on disk.
///
/// A pipeline's JSON document becomes a TOML document (UTF-8 text); the other
/// kinds are kept byte for byte.
pub fn to_disk(id: &ResourceId, wire: &[u8]) -> (r: Result<Vec<u8>, FormatError>)
    ensures
        bytes_view(r) == disk_form(*id, wire@),
{
    match id {
        ResourceId::Pipeline(_) => match json_as_toml(wire) {
            Err(_) => Err(FormatError::BadJson),
            Ok(Err(_)) => Err(FormatError::Unencodable),
            Ok(Ok(text)) => Ok(slice_to_vec(text.as_str().as_bytes())),
        },
        _ => Ok(slice_to_vec(wire)),
    }
}

/// Turns what is kept on disk into the payload the appliance receives.
///
/// A pipeline's TOML document becomes an indented JSON document; the other
/// kinds are sent byte for byte.
pub fn to_wire(id: &ResourceId, disk: &[u8]) -> (r: Result<Vec<u8>, FormatError>)
    ensures
        bytes_view(r) == wire_form(*id, disk@),
{
    match id {
        ResourceId::Pipeline(_) => {
            let text = match utf8_text(disk) {
                Ok(t) => t,
                Err(_) => return Err(FormatError::NotUtf8),
            };
            match toml_as_json(text) {
                Err(_) => Err(FormatError::BadToml),
                Ok(Ok(b)) => Ok(b),
                Ok(Err(_)) => Err(FormatError::Unencodable),
            }
        },
        _ => Ok(slice_to_vec(disk)),
    }
}

/// A pipeline written to disk from a wire payload is carried back to the wire
/// as the JSON rendering of the TOML text it was stored as; detector payloads
/// come back byte for byte.
pub proof fn lemma_round_trip(id: ResourceId, wire: Seq<u8>)
    requires
        disk_form(id, wire) is Ok,
    ensures
        id is Pipeline ==> wire_form(id, disk_form(id, wire)->Ok_0) == if toml_accepts(
            toml_rendering(wire)->Some_0,
        ) {
            Ok::<Seq<u8>, FormatError>(json_rendering(toml_rendering(wire)->Some_0))
        } else {
            Err(FormatError::BadToml)
        },
        !(id is Pipeline) ==> wire_form(id, disk_form(id, wire)->Ok_0) == Ok::<Seq<u8>, FormatError>(
            wire,
        ),
{
    if id is Pipeline {
        let t = toml_rendering(wire)->Some_0;
        vstd::utf8::encode_utf8_valid_utf8(t);
        vstd::utf8::encode_utf8_decode_utf8(t);
    }
}

} // verus!
