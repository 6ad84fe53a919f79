//! The module of a submission, which travels as base64 text.

use base64::engine::general_purpose::STANDARD;
use base64::{DecodeError, Engine};
use vstd::prelude::*;
use vstd::utf8::encode_utf8;

verus! {

#[verifier::external_type_specification]
#[verifier::external_body]
pub struct ExDecodeError(DecodeError);

/// The bytes that `text` stands for in standard base64 with padding; `None`
/// where it is no such text.
pub uninterp spec fn base64_decoded(text: Seq<u8>) -> Option<Seq<u8>>;

/// `Engine::decode` of `base64`'s `STANDARD` engine: the decoded bytes, or the
/// reason why the text is not base64.
#[verifier::external_body]
fn decode(text: &[u8]) -> (decoded: Result<Vec<u8>, DecodeError>)
    ensures
        match decoded {
            Ok(bytes) => base64_decoded(text@) == Some(bytes@),
            Err(_) => base64_decoded(text@) is None,
        },
{
    STANDARD.decode(text)
}

/// The module that the text of a submission stands for.
pub open spec fn module_of(wasm: Seq<char>) -> Option<Seq<u8>> {
    base64_decoded(encode_utf8(wasm))
}

/// The bytes of the module that a submission carries as base64 text; `None`
/// where the text is not base64.
pub fn decode_module(wasm: &str) -> (module: Option<Vec<u8>>)
    ensures
        match module {
            Some(bytes) => module_of(wasm@) == Some(bytes@),
            None => module_of(wasm@) is None,
        },
{
    match decode(wasm.as_bytes()) {
        Ok(bytes) => Some(bytes),
        Err(_) => None,
    }
}

} // verus!
