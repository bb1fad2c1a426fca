//! Comparison of names and decoding of the path strings written by the runtime.
use vstd::prelude::*;
use vstd::utf8::{decode_utf8, valid_utf8};

verus! {

/// Character-wise equality of two strings.
pub fn str_eq(a: &str, b: &str) -> (r: bool)
    ensures
        r == (a@ == b@),
{
    let n = a.unicode_len();
    if n != b.unicode_len() {
        return false;
    }
    let mut i: usize = 0;
    while i < n
        invariant
            n == a@.len(),
            n == b@.len(),
            i <= n,
            forall|j: int| 0 <= j < i ==> a@[j] == b@[j],
        decreases n - i,
    {
        if a.get_char(i) != b.get_char(i) {
            return false;
        }
        i = i + 1;
    }
    proof {
        assert(a@ =~= b@);
    }
    true
}

/// Relies on std::str::from_utf8: it accepts exactly the valid UTF-8 byte
/// sequences, and the text it returns is their decoding.
#[verifier::external_body]
fn utf8_to_str(bytes: &[u8]) -> (r: Option<&str>)
    ensures
        r is Some <==> valid_utf8(bytes@),
        r matches Some(s) ==> s@ == decode_utf8(bytes@),
{
    match std::str::from_utf8(bytes) {
        Ok(s) => Some(s),
        Err(_) => None,
    }
}

/// Position of the first zero byte among the first `n` bytes of `s`, if any.
pub open spec fn first_nul(s: Seq<u8>, n: int) -> Option<int> {
    if exists|i: int| 0 <= i < n && i < s.len() && s[i] == 0 {
        Some(choose|i: int| 0 <= i < n && i < s.len() && s[i] == 0 && (forall|j: int| 0 <= j < i ==> s[j] != 0))
    } else {
        None
    }
}

/// The text before the terminating zero of a string that the runtime wrote
/// into `buffer`, reporting `written` bytes (the terminator included).
/// `None` where no terminator lies within the written bytes, or where the
/// text before it is not UTF-8.
pub fn c_string_from_buffer(buffer: &Vec<u8>, written: u32) -> (r: Option<String>)
    ensures
        r is Some <==> (first_nul(buffer@, written as int) matches Some(p) && valid_utf8(
            buffer@.take(p),
        )),
        r matches Some(t) ==> (first_nul(buffer@, written as int) matches Some(p) && t@
            == decode_utf8(buffer@.take(p))),
{
    let n: usize = if (written as usize) < buffer.len() {
        written as usize
    } else {
        buffer.len()
    };
    let mut i: usize = 0;
    while i < n
        invariant
            n <= buffer@.len(),
            n <= written as int,
            n == written as int || n == buffer@.len(),
            i <= n,
            forall|j: int| 0 <= j < i ==> buffer@[j] != 0,
        decreases n - i,
    {
        if buffer[i] == 0 {
            proof {
                let p = i as int;
                assert(0 <= p < written as int && p < buffer@.len() && buffer@[p] == 0);
                let q = first_nul(buffer@, written as int)->0;
                assert(!(q < p)) by {
                    if q < p {
                        assert(buffer@[q] != 0);
                    }
                }
                assert(!(p < q));
                assert(q == p);
            }
            let text = utf8_to_str(vstd::slice::slice_subrange(buffer.as_slice(), 0, i));
            proof {
                assert(buffer@.subrange(0, i as int) =~= buffer@.take(i as int));
            }
            return match text {
                Some(t) => Some(String::from_str(t)),
                None => None,
            };
        }
        i = i + 1;
    }
    None
}

} // verus!
