//! Reading attributes of the transaction out of what the host returned for
//! them.

use crate::codes::{result_view, PamResult, PamResultCode};
use vstd::prelude::*;
use vstd::string::*;
use vstd::utf8::*;

verus! {

/// Stands in for a remote host that the host framework reports as empty.
pub const UNKNOWN_HOST: &'static str = "<unknown>";

/// The text that `String::from_utf8_lossy` makes of a byte string.
pub uninterp spec fn lossy_text(bytes: Seq<u8>) -> Seq<char>;

/// Calls `String::from_utf8_lossy` and takes ownership of the text. The
/// result depends on the bytes alone. Well-formed UTF-8 is decoded as it
/// stands; what else comes out, with a replacement character for each
/// malformed stretch, is left to the standard library. Malformed bytes are
/// replaced and never dropped, so bytes that are there give text that is
/// there.
#[verifier::external_body]
fn from_utf8_lossy(bytes: &[u8]) -> (text: String)
    ensures
        text@ == lossy_text(bytes@),
        valid_utf8(bytes@) ==> text@ == decode_utf8(bytes@),
        bytes@.len() > 0 ==> text@.len() > 0,
{
    String::from_utf8_lossy(bytes).into_owned()
}

/// The text of an attribute: the decoding where the bytes are well-formed
/// UTF-8, else the lossy reading of them.
pub open spec fn spec_decode(bytes: Seq<u8>) -> Seq<char> {
    if valid_utf8(bytes) {
        decode_utf8(bytes)
    } else {
        lossy_text(bytes)
    }
}

/// What the host's answer to an item request amounts to. A value that is
/// there is taken, whatever code came with it. A missing value fails with
/// the host's code, or with `PAM_NO_MODULE_DATA` where the host claimed
/// success and yet supplied nothing.
pub open spec fn spec_get_item(code: PamResultCode, value: Option<Seq<u8>>) -> PamResult<Seq<u8>> {
    match value {
        Some(bytes) => Ok(bytes),
        None => if code == PamResultCode::PAM_SUCCESS {
            Err(PamResultCode::PAM_NO_MODULE_DATA)
        } else {
            Err(code)
        },
    }
}

/// The user name in the host's answer: the item, decoded.
pub open spec fn spec_get_user(code: PamResultCode, value: Option<Seq<u8>>) -> PamResult<Seq<char>> {
    match spec_get_item(code, value) {
        Ok(bytes) => Ok(spec_decode(bytes)),
        Err(failure) => Err(failure),
    }
}

/// An empty remote host becomes `<unknown>`; any other stays as it is.
pub open spec fn spec_normalize_rhost(text: Seq<char>) -> Seq<char> {
    if text.len() == 0 {
        UNKNOWN_HOST@
    } else {
        text
    }
}

/// The remote host in the host's answer: the item, decoded and normalized.
pub open spec fn spec_get_rhost(code: PamResultCode, value: Option<Seq<u8>>) -> PamResult<Seq<char>> {
    match spec_get_item(code, value) {
        Ok(bytes) => Ok(spec_normalize_rhost(spec_decode(bytes))),
        Err(failure) => Err(failure),
    }
}

/// The bytes of an optional value.
pub open spec fn bytes_of(value: Option<Vec<u8>>) -> Option<Seq<u8>> {
    match value {
        Some(bytes) => Some(bytes@),
        None => None,
    }
}

/// Decodes attribute bytes into text. Every byte string has a text: bytes
/// that are not well-formed UTF-8 are read leniently rather than refused.
pub fn decode(bytes: &[u8]) -> (text: String)
    ensures
        text@ == spec_decode(bytes@),
        bytes@.len() > 0 ==> text@.len() > 0,
{
    from_utf8_lossy(bytes)
}

/// Settles an item request from what the host returned: its result code and
/// the value, `None` where the host supplied none.
pub fn get_item(code: PamResultCode, value: Option<Vec<u8>>) -> (item: PamResult<Vec<u8>>)
    ensures
        result_view(item) == spec_get_item(code, bytes_of(value)),
{
    match value {
        Some(bytes) => Ok(bytes),
        None => match code {
            PamResultCode::PAM_SUCCESS => Err(PamResultCode::PAM_NO_MODULE_DATA),
            _ => Err(code),
        },
    }
}

/// The name of the user who is authenticating, from the host's answer to a
/// request for `PAM_USER`.
pub fn get_user(code: PamResultCode, value: Option<Vec<u8>>) -> (user: PamResult<String>)
    ensures
        result_view(user) == spec_get_user(code, bytes_of(value)),
        value is Some ==> user is Ok,
{
    match get_item(code, value) {
        Ok(bytes) => Ok(decode(bytes.as_slice())),
        Err(failure) => Err(failure),
    }
}

/// Replaces an empty remote host by `<unknown>`.
pub fn normalize_rhost(text: String) -> (host: String)
    ensures
        host@ == spec_normalize_rhost(text@),
        text@.len() == 0 ==> host@ == UNKNOWN_HOST@,
        text@.len() != 0 ==> host@ == text@,
{
    if text.as_str().is_empty() {
        String::from_str(UNKNOWN_HOST)
    } else {
        text
    }
}

/// The host the user connects from, from the host's answer to a request for
/// `PAM_RHOST`. A value that is present but empty is reported as
/// `<unknown>`, so that no message is ever composed with the host left out;
/// a value that holds any bytes at all is reported as its text, well-formed
/// or not.
pub fn get_rhost(code: PamResultCode, value: Option<Vec<u8>>) -> (rhost: PamResult<String>)
    ensures
        result_view(rhost) == spec_get_rhost(code, bytes_of(value)),
        value is Some ==> rhost is Ok,
        value matches Some(bytes) ==> (bytes@.len() > 0 ==> result_view(rhost) == Ok::<
            Seq<char>,
            PamResultCode,
        >(spec_decode(bytes@))),
{
    match get_item(code, value) {
        Ok(bytes) => Ok(normalize_rhost(decode(bytes.as_slice()))),
        Err(failure) => Err(failure),
    }
}

/// An attribute that the host supplies empty decodes to the empty text, so
/// an empty remote host is always reported as `<unknown>`.
pub proof fn empty_rhost_is_unknown(code: PamResultCode)
    ensures
        spec_decode(Seq::<u8>::empty()) == Seq::<char>::empty(),
        spec_get_rhost(code, Some(Seq::<u8>::empty())) == Ok::<Seq<char>, PamResultCode>(
            UNKNOWN_HOST@,
        ),
{
    assert(valid_utf8(Seq::<u8>::empty()));
    assert(decode_utf8(Seq::<u8>::empty()) =~= Seq::<char>::empty());
}

/// A remote host that the host supplies as well-formed, non-empty UTF-8 is
/// reported as the text it encodes.
pub proof fn well_formed_rhost_passes_through(code: PamResultCode, bytes: Seq<u8>)
    requires
        valid_utf8(bytes),
        bytes.len() > 0,
    ensures
        spec_get_rhost(code, Some(bytes)) == Ok::<Seq<char>, PamResultCode>(decode_utf8(bytes)),
{
    assert(decode_utf8(bytes).len() > 0);
}

/// A value that is there always has a text: whatever its bytes and whatever
/// code came with it, reading it as a user name or as a remote host
/// succeeds.
pub proof fn present_value_always_reads(code: PamResultCode, bytes: Seq<u8>)
    ensures
        spec_get_user(code, Some(bytes)) == Ok::<Seq<char>, PamResultCode>(spec_decode(bytes)),
        spec_get_rhost(code, Some(bytes)) is Ok,
{
}

} // verus!
