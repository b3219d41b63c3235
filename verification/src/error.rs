//! The message of the last error, as the C interface keeps it for its
//! caller to fetch.

use vstd::prelude::*;
use vstd::string::StringSliceAdditionalSpecFns;

verus! {

/// The last error message; empty where there is none.
#[derive(Debug, Clone)]
pub struct LastError {
    pub message: Vec<u8>,
}

/// What a caller's buffer of `buffer_size` bytes receives of a message: as
/// much of it as fits in front of a terminating zero.
pub open spec fn copied_spec(message: Seq<u8>, buffer_size: int) -> Seq<u8> {
    if buffer_size <= 0 {
        Seq::empty()
    } else if message.len() <= buffer_size - 1 {
        message + seq![0u8]
    } else {
        message.subrange(0, buffer_size - 1) + seq![0u8]
    }
}

impl LastError {
    /// No error.
    pub fn new() -> (r: LastError)
        ensures
            r.message@ == Seq::<u8>::empty(),
    {
        LastError { message: Vec::new() }
    }
}

/// Sets the last error message.
pub fn set_last_error(slot: &mut LastError, msg: &str)
    ensures
        final(slot).message@ == msg.spec_bytes(),
{
    slot.message = vstd::slice::slice_to_vec(msg.as_bytes());
}

/// Clears the last error message.
pub fn clear_last_error(slot: &mut LastError)
    ensures
        final(slot).message@ == Seq::<u8>::empty(),
{
    slot.message.clear();
}

/// Gets the last error message for a buffer of `buffer_size` bytes: the
/// bytes to store there, a zero at their end, and the length of the whole
/// message, which a truncated copy falls short of. A buffer of no bytes
/// receives nothing.
pub fn get_last_error(slot: &LastError, buffer_size: usize) -> (r: (Vec<u8>, usize))
    ensures
        r.0@ == copied_spec(slot.message@, buffer_size as int),
        r.0@.len() <= buffer_size,
        r.1 == slot.message@.len(),
{
    let len: usize = slot.message.len();
    let mut out: Vec<u8> = Vec::new();
    if buffer_size == 0 {
        return (out, len);
    }
    let copy_len: usize = if len < buffer_size - 1 {
        len
    } else {
        buffer_size - 1
    };
    out.extend_from_slice(&slot.message.as_slice()[0..copy_len]);
    out.push(0);
    assert(slot.message@.subrange(0, len as int) =~= slot.message@);
    (out, len)
}

} // verus!
