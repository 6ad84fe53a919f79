//! The deterministic source of randomness: every request is answered with the
//! same pattern of bytes.

use getrandom::Error;
use vstd::prelude::*;

verus! {

#[verifier::external_type_specification]
#[verifier::external_body]
pub struct ExError(Error);

/// The byte at position `i` of every answer: `i` modulo 256.
pub open spec fn pattern_byte(i: int) -> u8 {
    (i % 256) as u8
}

/// The answer to a request for `len` random bytes.
pub open spec fn pattern(len: nat) -> Seq<u8> {
    Seq::new(len, |i: int| pattern_byte(i))
}

/// Fills `buf` with the pattern 0, 1, ..., 255, 0, 1, ... and never fails.
pub fn deterministic_random(buf: &mut [u8]) -> (filled: Result<(), Error>)
    ensures
        filled is Ok,
        final(buf)@ == pattern(old(buf)@.len()),
{
    let mut state: u8 = 0;
    let len = buf.len();
    let mut i: usize = 0;
    while i < len
        invariant
            i <= len,
            len == buf@.len(),
            len == old(buf)@.len(),
            state == pattern_byte(i as int),
            forall|k: int| 0 <= k < i ==> buf@[k] == pattern_byte(k),
        decreases len - i,
    {
        buf[i] = state;
        state = state.wrapping_add(1);
        i = i + 1;
    }
    assert(buf@ =~= pattern(old(buf)@.len()));
    Ok(())
}

} // verus!
