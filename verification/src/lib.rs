//! Synchronous, key-addressed message exchange between processes of one user
//! over named pipes.
//!
//! The library holds the protocol: how a key becomes a path, in which order
//! the pipe node is provisioned, opened, written or drained, and retired, and
//! what each operating-system outcome leads to. It performs no system call
//! itself. A caller asks a [`Sender`] or [`Receiver`] which [`Action`] is due,
//! performs it, and hands back the [`Event`] that the system reported.
//!
//! A message is whatever bytes the sender wrote before it closed its end:
//! there is no length prefix and no delimiter, and no byte is special.
//!
//! Keys are joined to the root as they are. An empty key, and a key or root
//! that holds a terminator byte, are turned down; a key with a separator in
//! it is not, and names whatever place the system makes of the joined path.
//!
//! One node serves one sender and one receiver. The library keeps no record
//! of other exchanges under the same key and does not arbitrate between
//! them: each is driven on its own, and one that finds its node gone when it
//! opens or deletes it is given up with the failure of that operation.

pub mod cbuf;
pub mod laws;
pub mod namespace;
pub mod path;
pub mod protocol;
pub mod receiver;
pub mod sender;

use vstd::prelude::*;
use vstd::string::StringSliceAdditionalSpecFns;
use crate::cbuf::{strip_terminator, unterminated};
use crate::path::{admission, has_terminator};
use crate::receiver::receiver_start;
use crate::sender::sender_start;

pub use crate::path::Rejected;
pub use crate::protocol::{Action, Event, Failure};
pub use crate::receiver::{ReceiveStage, Receiver};
pub use crate::sender::{SendStage, Sender};

verus! {

/// The directory that holds the pipe nodes where no other is given:
/// `/tmp/palombe/`, in ASCII.
pub open spec fn default_root() -> Seq<u8> {
    seq![
        0x2fu8, 0x74u8, 0x6du8, 0x70u8, 0x2fu8, 0x70u8, 0x61u8, 0x6cu8, 0x6fu8, 0x6du8, 0x62u8,
        0x65u8, 0x2fu8,
    ]
}

/// The default root holds no terminator byte, so whether a request under it
/// is taken depends on the key alone.
pub proof fn default_root_is_clean()
    ensures
        !has_terminator(default_root()),
{
}

/// The bytes of the default root directory.
pub fn default_root_bytes() -> (root: Vec<u8>)
    ensures
        root@ == default_root(),
{
    let root = vec![
        0x2fu8, 0x74u8, 0x6du8, 0x70u8, 0x2fu8, 0x70u8, 0x61u8, 0x6cu8, 0x6fu8, 0x6du8, 0x62u8,
        0x65u8, 0x2fu8,
    ];
    assert(root@ =~= default_root());
    root
}

/// Starts the send of `value` under `key` in the default root. The key is
/// taken as its bytes.
pub fn send(key: &str, value: &[u8]) -> (made: Result<Sender, Rejected>)
    ensures
        match admission(default_root(), key.spec_bytes()) {
            Some(reason) => made == Err::<Sender, Rejected>(reason),
            None => made is Ok && made->Ok_0@ == sender_start(
                default_root(),
                key.spec_bytes(),
                value@,
            ),
        },
{
    let root = default_root_bytes();
    Sender::new(root.as_slice(), key.as_bytes(), value)
}

/// Starts the receive under `key` in the default root. The key is taken as
/// its bytes.
pub fn receive(key: &str) -> (made: Result<Receiver, Rejected>)
    ensures
        match admission(default_root(), key.spec_bytes()) {
            Some(reason) => made == Err::<Receiver, Rejected>(reason),
            None => made is Ok && made->Ok_0@ == receiver_start(default_root(), key.spec_bytes()),
        },
{
    let root = default_root_bytes();
    Receiver::new(root.as_slice(), key.as_bytes())
}

/// What [`c_send`] makes of two terminated buffers: the first reason why one
/// of them cannot be read, the key's before the value's, else what
/// [`Sender::new`] makes of their bytes under the default root.
pub open spec fn c_send_request(key: Seq<u8>, value: Seq<u8>) -> Result<
    (Seq<u8>, Seq<u8>),
    Rejected,
> {
    match unterminated(key) {
        Err(reason) => Err(reason),
        Ok(k) => match unterminated(value) {
            Err(reason) => Err(reason),
            Ok(v) => match admission(default_root(), k) {
                Some(reason) => Err(reason),
                None => Ok((k, v)),
            },
        },
    }
}

/// What [`c_receive`] makes of a terminated buffer: why it cannot be read or
/// names no node, else the key that it holds.
pub open spec fn c_receive_request(key: Seq<u8>) -> Result<Seq<u8>, Rejected> {
    match unterminated(key) {
        Err(reason) => Err(reason),
        Ok(k) => match admission(default_root(), k) {
            Some(reason) => Err(reason),
            None => Ok(k),
        },
    }
}

/// Starts a send as [`send`] does, with the key and the value each given as
/// a terminated buffer.
pub fn c_send(key: &[u8], value: &[u8]) -> (made: Result<Sender, Rejected>)
    ensures
        match c_send_request(key@, value@) {
            Err(reason) => made == Err::<Sender, Rejected>(reason),
            Ok(request) => made is Ok && made->Ok_0@ == sender_start(
                default_root(),
                request.0,
                request.1,
            ),
        },
{
    let k = match strip_terminator(key) {
        Ok(k) => k,
        Err(reason) => { return Err(reason); },
    };
    let v = match strip_terminator(value) {
        Ok(v) => v,
        Err(reason) => { return Err(reason); },
    };
    let root = default_root_bytes();
    Sender::new(root.as_slice(), k.as_slice(), v.as_slice())
}

/// Starts a receive as [`receive`] does, with the key given as a terminated
/// buffer.
pub fn c_receive(key: &[u8]) -> (made: Result<Receiver, Rejected>)
    ensures
        match c_receive_request(key@) {
            Err(reason) => made == Err::<Receiver, Rejected>(reason),
            Ok(k) => made is Ok && made->Ok_0@ == receiver_start(default_root(), k),
        },
{
    let k = match strip_terminator(key) {
        Ok(k) => k,
        Err(reason) => { return Err(reason); },
    };
    let root = default_root_bytes();
    Receiver::new(root.as_slice(), k.as_slice())
}

} // verus!
