//! One flat error taxonomy for every call site: local schema violations,
//! local codec violations, transport failures, server-reported failures,
//! and uninterpretable outcomes.

use vstd::prelude::*;

use crate::common::ErrorCode;
use crate::data::CodecError;
use crate::schema::SchemaError;

verus! {

/// The unified error type every fallible operation of this library returns.
///
/// - `Schema`: a pre-flight structural violation in a collection schema.
/// - `Codec`: an encode/decode violation raised locally, before any request
///   is sent or while a response is interpreted.
/// - `Transport`: the channel failed before the server reported any status;
///   the payload is an opaque diagnostic from the transport layer.
/// - `Server`: the operation reached the server and was rejected; carries
///   the recognized code and the server's reason string.
/// - `Unknown`: a status that was absent or carried an unrecognized code.
#[derive(Debug, Clone, PartialEq, Eq)]
pub enum Error {
    Schema(SchemaError),
    Codec(CodecError),
    Transport(String),
    Server(ErrorCode, String),
    Unknown,
}

} // verus!
