//! Decoding of native strings into owned host strings.
//!
//! The native layer hands out C strings: the selected device name, the
//! version string, and the entries of the device list.  The runner copies
//! their bytes; here they are decoded as UTF-8.  A decode failure is a
//! reported error, never a silent empty string or a truncated list.

use vstd::prelude::*;

use vstd::utf8::decode_utf8;
use vstd::utf8::valid_utf8;

verus! {

/// Relies on `String::from_utf8` of std: it succeeds exactly on valid
/// UTF-8 input, and then returns the string those bytes encode.
#[verifier::external_body]
pub(crate) fn string_from_utf8(bytes: &Vec<u8>) -> (decoded: Option<String>)
    ensures
        decoded is Some <==> valid_utf8(bytes@),
        decoded matches Some(s) ==> s@ == decode_utf8(bytes@),
{
    match String::from_utf8(bytes.clone()) {
        Ok(s) => Some(s),
        Err(_) => None,
    }
}

/// Decodes every entry of a native device list into an owned string.
///
/// Succeeds exactly when every entry is valid UTF-8, and then yields one
/// decoded name per entry, in native order.  A single undecodable entry
/// fails the whole list: no partial list and no decode-failed entry is
/// ever returned.
pub fn decode_entries(raw: &Vec<Vec<u8>>) -> (decoded: Option<Vec<String>>)
    ensures
        decoded is Some <==> (forall|i: int|
            0 <= i < raw@.len() ==> valid_utf8(#[trigger] raw@[i]@)),
        decoded matches Some(names) ==> {
            &&& names@.len() == raw@.len()
            &&& forall|i: int|
                0 <= i < raw@.len() ==> #[trigger] names@[i]@ == decode_utf8(raw@[i]@)
        },
{
    let mut names: Vec<String> = Vec::new();
    let mut i: usize = 0;
    while i < raw.len()
        invariant
            i <= raw@.len(),
            names@.len() == i as int,
            forall|j: int| 0 <= j < i ==> valid_utf8(#[trigger] raw@[j]@),
            forall|j: int| 0 <= j < i ==> #[trigger] names@[j]@ == decode_utf8(raw@[j]@),
        decreases raw@.len() - i,
    {
        match string_from_utf8(&raw[i]) {
            Some(name) => {
                names.push(name);
            },
            None => {
                return None;
            },
        }
        i = i + 1;
    }
    Some(names)
}

} // verus!
