use vstd::prelude::*;
use vstd::string::*;
use vstd::utf8::encode_utf8;

use crate::error::QueryError;
use crate::error::QueryResult;

verus! {

/// `p` is the offset of the first zero byte of `b`.
pub open spec fn is_first_nul(b: Seq<u8>, p: int) -> bool {
    0 <= p < b.len() && b[p] == 0u8 && forall|j: int| 0 <= j < p ==> b[j] != 0u8
}

/// The zero-terminated encoding of `s`, where its UTF-8 bytes hold no zero.
pub open spec fn c_encoding(s: Seq<char>) -> Option<Seq<u8>> {
    if nul_free(encode_utf8(s)) {
        Some(encode_utf8(s).push(0u8))
    } else {
        None
    }
}

/// `b` holds no zero byte, so that it can travel as a C string.
pub open spec fn nul_free(b: Seq<u8>) -> bool {
    forall|i: int| 0 <= i < b.len() ==> b[i] != 0u8
}

/// Encodes `s` as a zero-terminated byte string: its UTF-8 bytes followed by
/// one terminator. Fails with the offset of the first zero byte where `s`
/// holds one, since the native convention cannot represent it.
pub fn encode_c_string(s: &str) -> (r: Result<Vec<u8>, usize>)
    ensures
        r is Ok <==> c_encoding(s@) is Some,
        r matches Ok(v) ==> c_encoding(s@) == Some(v@),
        r matches Err(p) ==> is_first_nul(encode_utf8(s@), p as int),
{
    let mut bytes = s.as_bytes_vec();
    let n = bytes.len();
    let mut i: usize = 0;
    while i < n
        invariant
            n == bytes@.len(),
            bytes@ == s.spec_bytes(),
            i <= n,
            forall|j: int| 0 <= j < i ==> bytes@[j] != 0u8,
        decreases n - i,
    {
        if bytes[i] == 0u8 {
            return Err(i);
        }
        i = i + 1;
    }
    bytes.push(0u8);
    Ok(bytes)
}

/// Encodes a new passphrase for re-keying the store. Fails with an encoding
/// error at the first zero byte, before any native call.
pub fn encode_passphrase(password: &str) -> (r: QueryResult<Vec<u8>>)
    ensures
        r is Ok <==> c_encoding(password@) is Some,
        r matches Ok(v) ==> c_encoding(password@) == Some(v@),
        r matches Err(e) ==> e matches QueryError::InvalidCString(p) && is_first_nul(encode_utf8(password@), p as int),
{
    match encode_c_string(password) {
        Ok(v) => Ok(v),
        Err(p) => Err(QueryError::InvalidCString(p)),
    }
}

/// The length to report to the native layer for a zero-terminated byte
/// string, terminator included, as the native integer type (truncating, as
/// a C cast does).
pub fn native_len(bytes: &Vec<u8>) -> (r: i32)
    ensures
        r == bytes@.len() as i32,
{
    bytes.len() as i32
}

} // verus!
