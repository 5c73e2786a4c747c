//! The raw context form: the bytes of a natively-allocated label string,
//! kept byte-exact and never parsed into fields.
//!
//! The parsed [`crate::context::Context`] is the safe default. This form is
//! for call sites that must hand the native layer back exactly what it gave
//! out: the bytes are copied out of the native buffer (which is then released
//! by its owner, exactly once) and carried here untouched. Decoding to text
//! is explicit and fallible; nothing else inspects the bytes.

use crate::error::Error;
use vstd::prelude::*;
use vstd::utf8::decode_utf8;
use vstd::utf8::valid_utf8;

verus! {

/// A security-context label in its raw form: the exact bytes the native
/// layer produced or will consume.
#[derive(Debug)]
pub struct SCon {
    bytes: Vec<u8>,
}

impl View for SCon {
    type V = Seq<u8>;

    closed spec fn view(&self) -> Seq<u8> {
        self.bytes@
    }
}

/// Relies on String::from_utf8 from std: it succeeds exactly on valid UTF-8
/// input and then decodes it, as vstd's UTF-8 specification states.
#[verifier::external_body]
fn from_utf8_bytes(bytes: &Vec<u8>) -> (r: Option<String>)
    ensures
        r is Some <==> valid_utf8(bytes@),
        r matches Some(s) ==> s@ == decode_utf8(bytes@),
{
    String::from_utf8(bytes.clone()).ok()
}

impl SCon {
    /// Wraps label bytes exactly as the native layer handed them out.
    pub fn from_bytes(bytes: Vec<u8>) -> (r: SCon)
        ensures
            r@ == bytes@,
    {
        SCon { bytes }
    }

    /// The label bytes, exactly as they were wrapped.
    pub fn as_bytes(&self) -> (r: &Vec<u8>)
        ensures
            r@ == self@,
    {
        &self.bytes
    }

    /// Decodes the label into text. Fails exactly when the native bytes are
    /// not valid UTF-8.
    pub fn to_string(&self) -> (r: Result<String, Error>)
        ensures
            r is Ok <==> valid_utf8(self@),
            r matches Ok(s) ==> s@ == decode_utf8(self@),
            r matches Err(e) ==> e == Error::Utf8DecodeFailure,
    {
        match from_utf8_bytes(&self.bytes) {
            Some(s) => Ok(s),
            None => Err(Error::Utf8DecodeFailure),
        }
    }
}

/// Interprets the outcome of a native raw getter: the status it returned,
/// and the bytes copied from its out-parameter when that was non-null. The
/// label is handed back byte-exact; a failed status or a null result yields
/// absence, never an error.
pub fn interpret_raw_get(status: i32, bytes: Option<Vec<u8>>) -> (r: Option<SCon>)
    ensures
        r is Some <==> (status == 0 && bytes is Some),
        r matches Some(c) ==> c@ == bytes->Some_0@,
{
    match bytes {
        Some(b) => {
            if status == 0 {
                Some(SCon { bytes: b })
            } else {
                None
            }
        },
        None => None,
    }
}

/// Whether `text` can be marshaled into the native string form, that is,
/// whether it is free of embedded null characters. A setter must refuse text
/// that fails this test with `Error::NulByteInInput` instead of calling the
/// native layer.
pub fn check_no_nul(text: &str) -> (r: bool)
    ensures
        r <==> (forall|j: int| 0 <= j < text@.len() ==> text@[j] != '\0'),
{
    let n = text.unicode_len();
    let mut i: usize = 0;
    while i < n
        invariant
            i <= n,
            n == text@.len(),
            forall|j: int| 0 <= j < i ==> text@[j] != '\0',
        decreases n - i,
    {
        if text.get_char(i) == '\0' {
            return false;
        }
        i = i + 1;
    }
    true
}

} // verus!
