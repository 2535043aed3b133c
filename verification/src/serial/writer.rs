//! The bytes that go out for one message.
use vstd::prelude::*;
use crate::linebuf::concat_bytes;

verus! {

/// The message followed by the line ending, as written to the port.
pub fn frame_message(data: &[u8], line_ending: &[u8]) -> (res: Vec<u8>)
    ensures
        res@ == data@ + line_ending@,
{
    concat_bytes(data, line_ending)
}

} // verus!
