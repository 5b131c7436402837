//! The second encoding of keys and messages: a buffer of bytes that ends
//! with the terminator byte and holds it nowhere else. No text encoding is
//! asked of the bytes.

use vstd::prelude::*;
use crate::path::{contains_terminator, has_terminator, to_vec, Rejected, TERMINATOR};

verus! {

/// The bytes that the terminated buffer `buffer` stands for, or why it
/// stands for none: it must end with the terminator, and hold no other.
pub open spec fn unterminated(buffer: Seq<u8>) -> Result<Seq<u8>, Rejected> {
    if buffer.len() == 0 || buffer.last() != TERMINATOR {
        Err(Rejected::MissingTerminator)
    } else if has_terminator(buffer.drop_last()) {
        Err(Rejected::EmbeddedTerminator)
    } else {
        Ok(buffer.drop_last())
    }
}

/// The terminated buffer that stands for `bytes`, or why there is none:
/// the bytes must not hold the terminator.
pub open spec fn terminated(bytes: Seq<u8>) -> Result<Seq<u8>, Rejected> {
    if has_terminator(bytes) {
        Err(Rejected::EmbeddedTerminator)
    } else {
        Ok(bytes.push(TERMINATOR))
    }
}

/// Reads a terminated buffer: hands out the bytes before the terminator.
pub fn strip_terminator(buffer: &[u8]) -> (bytes: Result<Vec<u8>, Rejected>)
    ensures
        match unterminated(buffer@) {
            Ok(content) => bytes is Ok && bytes->Ok_0@ == content,
            Err(reason) => bytes == Err::<Vec<u8>, Rejected>(reason),
        },
{
    let n = buffer.len();
    if n == 0 || buffer[n - 1] != TERMINATOR {
        return Err(Rejected::MissingTerminator);
    }
    let mut content = to_vec(buffer);
    content.pop();
    assert(content@ == buffer@.drop_last());
    if contains_terminator(content.as_slice()) {
        Err(Rejected::EmbeddedTerminator)
    } else {
        Ok(content)
    }
}

/// Writes a terminated buffer: the bytes, then the terminator.
pub fn add_terminator(bytes: &[u8]) -> (buffer: Result<Vec<u8>, Rejected>)
    ensures
        match terminated(bytes@) {
            Ok(content) => buffer is Ok && buffer->Ok_0@ == content,
            Err(reason) => buffer == Err::<Vec<u8>, Rejected>(reason),
        },
{
    if contains_terminator(bytes) {
        Err(Rejected::EmbeddedTerminator)
    } else {
        let mut buffer = to_vec(bytes);
        buffer.push(TERMINATOR);
        Ok(buffer)
    }
}

/// Bytes that were written as a terminated buffer are read back unchanged,
/// and every buffer that can be read is the one that its bytes are written
/// as.
pub proof fn terminated_buffers_round_trip(bytes: Seq<u8>, buffer: Seq<u8>)
    ensures
        !has_terminator(bytes) ==> terminated(bytes) is Ok && unterminated(
            terminated(bytes)->Ok_0,
        ) == Ok::<Seq<u8>, Rejected>(bytes),
        unterminated(buffer) is Ok ==> terminated(unterminated(buffer)->Ok_0) == Ok::<
            Seq<u8>,
            Rejected,
        >(buffer),
{
    if !has_terminator(bytes) {
        assert(bytes.push(TERMINATOR).drop_last() =~= bytes);
    }
    if unterminated(buffer) is Ok {
        assert(buffer.drop_last().push(TERMINATOR) =~= buffer);
    }
}

} // verus!
