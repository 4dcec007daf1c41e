//! Decoding of the fixed-size, NUL-terminated character arrays in which the driver reports
//! device and extension names.

use vstd::prelude::*;
use vstd::slice::slice_subrange;
use vstd::string::StringSliceAdditionalSpecFns;
use vstd::utf8::{decode_utf8, encode_utf8_decode_utf8, valid_utf8};

use super::outside::{chars_as_bytes, utf8_text};

verus! {

/// The byte that shares its bit pattern with `c`.
pub open spec fn byte_value(c: i8) -> u8 {
    if c < 0 {
        (c + 256) as u8
    } else {
        c as u8
    }
}

/// `chars` read byte by byte.
pub open spec fn byte_values(chars: Seq<i8>) -> Seq<u8> {
    chars.map_values(|c: i8| byte_value(c))
}

/// `n` is the position of the first zero byte of `bytes`.
pub open spec fn is_first_nul(bytes: Seq<u8>, n: int) -> bool {
    &&& 0 <= n < bytes.len()
    &&& bytes[n] == 0
    &&& forall|j: int| 0 <= j < n ==> bytes[j] != 0
}

/// The bytes in front of the first zero byte, if there is a zero byte at all.
pub open spec fn until_nul(bytes: Seq<u8>) -> Option<Seq<u8>> {
    if exists|n: int| is_first_nul(bytes, n) {
        Some(bytes.take(choose|n: int| is_first_nul(bytes, n)))
    } else {
        None
    }
}

/// The text held by a NUL-terminated character array: the characters that the bytes in
/// front of the terminator encode, provided there is a terminator and those bytes are
/// well-formed UTF-8.
pub open spec fn c_text(raw: Seq<i8>) -> Option<Seq<char>> {
    match until_nul(byte_values(raw)) {
        Some(bytes) => if valid_utf8(bytes) {
            Some(decode_utf8(bytes))
        } else {
            None
        },
        None => None,
    }
}

/// A sequence has at most one first zero byte.
pub proof fn lemma_first_nul_unique(bytes: Seq<u8>, n: int, m: int)
    requires
        is_first_nul(bytes, n),
        is_first_nul(bytes, m),
    ensures
        n == m,
{
    if n < m {
        assert(bytes[n] != 0);
    } else if m < n {
        assert(bytes[m] != 0);
    }
}

/// The position of the first zero byte of `bytes`, or `bytes.len()` if no byte is zero.
fn nul_position(bytes: &[u8]) -> (n: usize)
    ensures
        n <= bytes@.len(),
        forall|j: int| 0 <= j < n ==> bytes@[j] != 0,
        n < bytes@.len() ==> bytes@[n as int] == 0,
{
    let mut n: usize = 0;
    while n < bytes.len() && bytes[n] != 0
        invariant
            n <= bytes@.len(),
            forall|j: int| 0 <= j < n ==> bytes@[j] != 0,
        decreases bytes@.len() - n,
    {
        n += 1;
    }
    n
}

/// Reads a NUL-terminated character array as text.
///
/// Returns `None` when the array holds no terminator or when the bytes in front of it are
/// not UTF-8.
pub fn as_cstr(vk_str: &[i8]) -> (text: Option<&str>)
    ensures
        match text {
            Some(s) => c_text(vk_str@) == Some(s@),
            None => c_text(vk_str@) is None,
        },
{
    let bytes = chars_as_bytes(vk_str);
    let n: usize = nul_position(bytes);
    if n == bytes.len() {
        assert(forall|m: int| !is_first_nul(bytes@, m));
        return None;
    }
    proof {
        assert(is_first_nul(bytes@, n as int));
        let m = choose|m: int| is_first_nul(bytes@, m);
        lemma_first_nul_unique(bytes@, n as int, m);
        assert(bytes@.take(n as int) == bytes@.subrange(0, n as int));
    }
    let text = utf8_text(slice_subrange(bytes, 0, n));
    proof {
        if let Some(s) = text {
            encode_utf8_decode_utf8(s@);
        }
    }
    text
}

/// Whether two strings hold the same text.
pub fn same_text(a: &str, b: &str) -> (same: bool)
    ensures
        same == (a@ == b@),
{
    let x = a.as_bytes();
    let y = b.as_bytes();
    proof {
        encode_utf8_decode_utf8(a@);
        encode_utf8_decode_utf8(b@);
    }
    if x.len() != y.len() {
        return false;
    }
    let mut i: usize = 0;
    while i < x.len()
        invariant
            i <= x@.len(),
            x@.len() == y@.len(),
            x@ == a.spec_bytes(),
            y@ == b.spec_bytes(),
            forall|j: int| 0 <= j < i ==> x@[j] == y@[j],
        decreases x@.len() - i,
    {
        if x[i] != y[i] {
            return false;
        }
        i += 1;
    }
    assert(x@ =~= y@);
    true
}

/// Whether a NUL-terminated character array holds exactly the text `wanted`.
pub fn holds_text(raw: &[i8], wanted: &str) -> (yes: bool)
    ensures
        yes == (c_text(raw@) == Some(wanted@)),
{
    match as_cstr(raw) {
        Some(found) => same_text(found, wanted),
        None => false,
    }
}

} // verus!
