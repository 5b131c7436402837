//! Keys, roots and the paths of pipe nodes, all as plain bytes.

use vstd::prelude::*;

verus! {

/// The byte that separates the components of a path, a slash.
pub const SEPARATOR: u8 = 0x2fu8;

/// The byte that ends a C string, which no path can hold.
pub const TERMINATOR: u8 = 0u8;

/// Permission bits of a pipe node: read and write for the owner, nothing else.
pub const NODE_MODE: u32 = 0o600u32;

/// Why a request was turned down before any action was taken.
#[derive(Clone, Copy, Debug, PartialEq, Eq, Structural)]
pub enum Rejected {
    /// The key is empty, so it names no node under the root.
    EmptyKey,
    /// The root or the key holds a terminator byte, or a terminated buffer
    /// holds one before its last byte.
    EmbeddedTerminator,
    /// A buffer that must end with the terminator byte does not.
    MissingTerminator,
}

/// Whether `bytes` holds the terminator byte anywhere.
pub open spec fn has_terminator(bytes: Seq<u8>) -> bool {
    exists|i: int| 0 <= i < bytes.len() && #[trigger] bytes[i] == TERMINATOR
}

/// The verdict on a root and a key: `None` where a node can be named, else
/// the first reason why it cannot. Keys are otherwise taken verbatim: a
/// separator inside a key is not escaped, and a key that names a place
/// outside the root is not turned down.
pub open spec fn admission(root: Seq<u8>, key: Seq<u8>) -> Option<Rejected> {
    if key.len() == 0 {
        Some(Rejected::EmptyKey)
    } else if has_terminator(root) || has_terminator(key) {
        Some(Rejected::EmbeddedTerminator)
    } else {
        None
    }
}

/// The path of the node that `key` names under `root`: the root, one
/// separator unless the root is empty or already ends with one, and the key.
pub open spec fn pipe_path(root: Seq<u8>, key: Seq<u8>) -> Seq<u8> {
    if root.len() == 0 || root.last() == SEPARATOR {
        root + key
    } else {
        root.push(SEPARATOR) + key
    }
}

/// A fresh vector holding the bytes of `bytes`.
pub fn to_vec(bytes: &[u8]) -> (out: Vec<u8>)
    ensures
        out@ == bytes@,
{
    let mut out: Vec<u8> = Vec::new();
    let mut i: usize = 0;
    while i < bytes.len()
        invariant
            i <= bytes.len(),
            out@ == bytes@.take(i as int),
        decreases bytes.len() - i,
    {
        out.push(bytes[i]);
        i += 1;
        assert(bytes@.take(i as int) =~= bytes@.take(i - 1).push(bytes@[i - 1]));
    }
    assert(bytes@.take(i as int) =~= bytes@);
    out
}

/// Appends the bytes of `tail` to `out`.
pub fn extend(out: &mut Vec<u8>, tail: &[u8])
    ensures
        final(out)@ == old(out)@ + tail@,
{
    let mut i: usize = 0;
    while i < tail.len()
        invariant
            i <= tail.len(),
            out@ == old(out)@ + tail@.take(i as int),
        decreases tail.len() - i,
    {
        out.push(tail[i]);
        i += 1;
        assert(tail@.take(i as int) =~= tail@.take(i - 1).push(tail@[i - 1]));
    }
    assert(tail@.take(i as int) =~= tail@);
}

/// Tells whether `bytes` holds the terminator byte.
pub fn contains_terminator(bytes: &[u8]) -> (found: bool)
    ensures
        found == has_terminator(bytes@),
{
    let mut i: usize = 0;
    while i < bytes.len()
        invariant
            i <= bytes.len(),
            forall|j: int| 0 <= j < i ==> bytes@[j] != TERMINATOR,
        decreases bytes.len() - i,
    {
        if bytes[i] == TERMINATOR {
            return true;
        }
        i += 1;
    }
    false
}

/// Checks a root and a key before a node is named.
pub fn screen(root: &[u8], key: &[u8]) -> (verdict: Option<Rejected>)
    ensures
        verdict == admission(root@, key@),
{
    if key.len() == 0 {
        Some(Rejected::EmptyKey)
    } else if contains_terminator(root) || contains_terminator(key) {
        Some(Rejected::EmbeddedTerminator)
    } else {
        None
    }
}

/// Builds the path of the node that `key` names under `root`.
pub fn join(root: &[u8], key: &[u8]) -> (path: Vec<u8>)
    ensures
        path@ == pipe_path(root@, key@),
{
    let mut path = to_vec(root);
    if root.len() != 0 && root[root.len() - 1] != SEPARATOR {
        path.push(SEPARATOR);
    }
    extend(&mut path, key);
    path
}

} // verus!
