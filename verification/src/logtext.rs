//! Preparing diagnostic text for the host's C logging entry point.
//!
//! The host's logging call takes C strings; text with an interior NUL byte
//! cannot cross that boundary, and the caller always pairs the text with a
//! fixed format so that it is never interpreted as a format string itself.

use vstd::prelude::*;

verus! {

/// Whether a byte sequence holds a NUL byte.
pub open spec fn has_nul(s: Seq<u8>) -> bool {
    exists|i: int| 0 <= i < s.len() && s[i] == 0u8
}

/// A NUL-terminated copy of `msg`, or `None` when `msg` holds an interior NUL
/// and therefore cannot be passed as a C string.
pub fn log_c_bytes(msg: &Vec<u8>) -> (r: Option<Vec<u8>>)
    ensures
        r is Some <==> !has_nul(msg@),
        r matches Some(v) ==> v@ == msg@.push(0u8),
{
    let mut out: Vec<u8> = Vec::new();
    let mut i: usize = 0;
    while i < msg.len()
        invariant
            0 <= i <= msg@.len(),
            out@ == msg@.subrange(0, i as int),
            forall|j: int| 0 <= j < i ==> msg@[j] != 0u8,
        decreases msg@.len() - i,
    {
        let b: u8 = msg[i];
        if b == 0 {
            return None;
        }
        out.push(b);
        i = i + 1;
    }
    out.push(0);
    proof {
        assert(out@ =~= msg@.push(0u8));
    }
    Some(out)
}

} // verus!
