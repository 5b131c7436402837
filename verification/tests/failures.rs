use palombe::cbuf::{add_terminator, strip_terminator};
use palombe::path::{contains_terminator, extend, join, screen, to_vec};
use palombe::protocol::abort;
use palombe::{
    c_receive, c_send, default_root_bytes, receive, send, Action, Event, Failure, ReceiveStage,
    Receiver, Rejected, SendStage, Sender,
};

fn aborted_on(action: Action) -> (Failure, Vec<u8>) {
    match action {
        Action::Abort { failure, path } => (failure, path),
        other => panic!("{:?}", other),
    }
}

#[test]
fn default_root_is_tmp_palombe() {
    assert_eq!(default_root_bytes(), b"/tmp/palombe/");
    assert_eq!(send("foo", b"bar").unwrap().path(), b"/tmp/palombe/foo");
    assert_eq!(send("foo", b"bar").unwrap().root(), b"/tmp/palombe/");
    assert_eq!(receive("foo").unwrap().path(), b"/tmp/palombe/foo");
    assert_eq!(receive("foo").unwrap().root(), b"/tmp/palombe/");
}

#[test]
fn join_puts_one_separator_between_root_and_key() {
    assert_eq!(join(b"/tmp/palombe/", b"foo"), b"/tmp/palombe/foo");
    assert_eq!(join(b"/tmp/palombe", b"foo"), b"/tmp/palombe/foo");
    assert_eq!(join(b"", b"foo"), b"foo");
    assert_eq!(join(b"/", b"foo"), b"/foo");
    assert_eq!(join(b"/r", b"a/b"), b"/r/a/b");
    assert_eq!(join(b"/r/", b"/abs"), b"/r//abs");
    assert_eq!(join(b"/r", b"\xff\xfe"), b"/r/\xff\xfe");
}

#[test]
fn byte_helpers() {
    assert_eq!(to_vec(b"abc"), b"abc");
    assert_eq!(to_vec(b""), b"");
    let mut out = b"ab".to_vec();
    extend(&mut out, b"\ncd");
    assert_eq!(out, b"ab\ncd");
    assert!(contains_terminator(b"a\0b"));
    assert!(contains_terminator(b"\0"));
    assert!(!contains_terminator(b"ab\n"));
    assert!(!contains_terminator(b""));
}

#[test]
fn keys_and_roots_are_screened() {
    assert_eq!(screen(b"/r", b"k"), None);
    assert_eq!(screen(b"", b"k"), None);
    assert_eq!(screen(b"/r", b""), Some(Rejected::EmptyKey));
    assert_eq!(screen(b"/r\0", b""), Some(Rejected::EmptyKey));
    assert_eq!(screen(b"/r", b"a\0b"), Some(Rejected::EmbeddedTerminator));
    assert_eq!(screen(b"/r\0x", b"k"), Some(Rejected::EmbeddedTerminator));
    assert_eq!(screen(b"/r", b"a/../b"), None);
}

#[test]
fn empty_key_is_rejected() {
    assert_eq!(send("", b"v").err(), Some(Rejected::EmptyKey));
    assert_eq!(receive("").err(), Some(Rejected::EmptyKey));
    assert_eq!(Sender::new(b"/r", b"", b"v").err(), Some(Rejected::EmptyKey));
    assert_eq!(Receiver::new(b"/r", b"").err(), Some(Rejected::EmptyKey));
    assert_eq!(c_send(b"\0", b"v\0").err(), Some(Rejected::EmptyKey));
    assert_eq!(c_receive(b"\0").err(), Some(Rejected::EmptyKey));
}

#[test]
fn key_with_terminator_is_rejected() {
    assert_eq!(send("a\0b", b"v").err(), Some(Rejected::EmbeddedTerminator));
    assert_eq!(receive("a\0b").err(), Some(Rejected::EmbeddedTerminator));
    assert_eq!(Sender::new(b"/r\0", b"k", b"v").err(), Some(Rejected::EmbeddedTerminator));
    assert_eq!(Receiver::new(b"/r\0", b"k").err(), Some(Rejected::EmbeddedTerminator));
    assert!(send("a", b"v\0w").is_ok());
}

#[test]
fn terminated_buffers_are_checked() {
    assert_eq!(strip_terminator(b"boop\0"), Ok(b"boop".to_vec()));
    assert_eq!(strip_terminator(b"\0"), Ok(Vec::new()));
    assert_eq!(strip_terminator(b"\xff\xfe\0"), Ok(b"\xff\xfe".to_vec()));
    assert_eq!(strip_terminator(b""), Err(Rejected::MissingTerminator));
    assert_eq!(strip_terminator(b"boop"), Err(Rejected::MissingTerminator));
    assert_eq!(strip_terminator(b"bo\0op"), Err(Rejected::MissingTerminator));
    assert_eq!(strip_terminator(b"bo\0op\0"), Err(Rejected::EmbeddedTerminator));
    assert_eq!(add_terminator(b"boop"), Ok(b"boop\0".to_vec()));
    assert_eq!(add_terminator(b""), Ok(b"\0".to_vec()));
    assert_eq!(add_terminator(b"bo\0op"), Err(Rejected::EmbeddedTerminator));
}

#[test]
fn c_requests_name_the_first_fault() {
    assert_eq!(c_send(b"bip", b"boop\0").err(), Some(Rejected::MissingTerminator));
    assert_eq!(c_send(b"bip\0", b"boop").err(), Some(Rejected::MissingTerminator));
    assert_eq!(c_send(b"b\0p\0", b"boop").err(), Some(Rejected::EmbeddedTerminator));
    assert_eq!(c_send(b"bip\0", b"b\0p\0").err(), Some(Rejected::EmbeddedTerminator));
    assert_eq!(c_send(b"\0", b"boop").err(), Some(Rejected::MissingTerminator));
    assert_eq!(c_receive(b"bip").err(), Some(Rejected::MissingTerminator));
    assert_eq!(c_receive(b"b\0p\0").err(), Some(Rejected::EmbeddedTerminator));
    let s = c_send(b"bip\0", b"\0").unwrap();
    assert_eq!(s.payload(), b"");
    assert_eq!(c_receive(b"bip\0").unwrap().path(), b"/tmp/palombe/bip");
}

#[test]
fn root_that_cannot_be_made_aborts_on_the_root() {
    let s = Sender::new(b"/r", b"k", b"v").unwrap().step(&Event::Failed);
    assert_eq!(s.stage(), SendStage::Aborted(Failure::DirectoryCreation));
    assert_eq!(s.failure(), Some(Failure::DirectoryCreation));
    assert_eq!(aborted_on(s.action()), (Failure::DirectoryCreation, b"/r".to_vec()));
    let r = Receiver::new(b"/r", b"k").unwrap().step(&Event::Bytes(Vec::new()));
    assert_eq!(r.failure(), Some(Failure::DirectoryCreation));
    assert_eq!(aborted_on(r.action()), (Failure::DirectoryCreation, b"/r".to_vec()));
}

#[test]
fn node_that_cannot_be_made_aborts_on_the_node() {
    let s = Sender::new(b"/r", b"k", b"v").unwrap().step(&Event::Done).step(&Event::Failed);
    assert_eq!(s.failure(), Some(Failure::PipeCreation));
    assert_eq!(aborted_on(s.action()), (Failure::PipeCreation, b"/r/k".to_vec()));
    let r = Receiver::new(b"/r", b"k").unwrap().step(&Event::Done).step(&Event::Failed);
    assert_eq!(r.stage(), ReceiveStage::Aborted(Failure::PipeCreation));
    assert_eq!(aborted_on(r.action()), (Failure::PipeCreation, b"/r/k".to_vec()));
}

#[test]
fn open_fails_where_the_node_is_missing() {
    let s = Sender::new(b"/r", b"k", b"v").unwrap().step(&Event::Done).step(&Event::Done);
    let s = s.step(&Event::Failed);
    assert_eq!(aborted_on(s.action()), (Failure::Open, b"/r/k".to_vec()));
    let s = Sender::new(b"/r", b"k", b"v").unwrap().step(&Event::Done).step(&Event::Done);
    let s = s.step(&Event::AlreadyExists);
    assert_eq!(s.failure(), Some(Failure::Open));
    let r = Receiver::new(b"/r", b"k").unwrap().step(&Event::Done).step(&Event::Done);
    let r = r.step(&Event::Failed);
    assert_eq!(aborted_on(r.action()), (Failure::Open, b"/r/k".to_vec()));
}

#[test]
fn write_and_close_failures_abort_the_send() {
    let opened = || {
        Sender::new(b"/r", b"k", b"v").unwrap().step(&Event::Done).step(&Event::Done).step(
            &Event::Done,
        )
    };
    let s = opened().step(&Event::Failed);
    assert_eq!(aborted_on(s.action()), (Failure::Write, b"/r/k".to_vec()));
    assert!(!s.is_finished());
    let s = opened().step(&Event::Done).step(&Event::Failed);
    assert_eq!(s.failure(), Some(Failure::Write));
    assert!(!s.is_finished());
}

#[test]
fn read_failure_aborts_without_a_partial_message() {
    let r = Receiver::new(b"/r", b"k").unwrap();
    let r = r.step(&Event::Done).step(&Event::Done).step(&Event::Done);
    let r = r.step(&Event::Bytes(b"par".to_vec())).step(&Event::Failed);
    assert_eq!(r.failure(), Some(Failure::Read));
    assert_eq!(aborted_on(r.action()), (Failure::Read, b"/r/k".to_vec()));
    assert_eq!(r.into_message(), None);
}

#[test]
fn delete_failure_aborts_the_receive() {
    let r = Receiver::new(b"/r", b"k").unwrap();
    let r = r.step(&Event::Done).step(&Event::Done).step(&Event::Done);
    let r = r.step(&Event::Bytes(b"all".to_vec())).step(&Event::Bytes(Vec::new()));
    let r = r.step(&Event::Failed);
    assert_eq!(r.failure(), Some(Failure::Delete));
    assert_eq!(aborted_on(r.action()), (Failure::Delete, b"/r/k".to_vec()));
    assert_eq!(r.into_message(), None);
}

#[test]
fn finished_and_aborted_exchanges_stay_as_they_are() {
    let s = Sender::new(b"/r", b"k", b"v").unwrap().step(&Event::Failed);
    let s = s.step(&Event::Done).step(&Event::Done).step(&Event::Done);
    assert_eq!(s.failure(), Some(Failure::DirectoryCreation));
    let mut s = Sender::new(b"/r", b"k", b"v").unwrap();
    for _ in 0..5 {
        s = s.step(&Event::Done);
    }
    assert!(s.is_finished());
    let s = s.step(&Event::Failed).step(&Event::Done);
    assert!(s.is_finished());
    let r = Receiver::new(b"/r", b"k").unwrap();
    let r = r.step(&Event::Done).step(&Event::Done).step(&Event::Done);
    let r = r.step(&Event::Bytes(b"m".to_vec())).step(&Event::Bytes(Vec::new()));
    let r = r.step(&Event::Done);
    let r = r.step(&Event::Bytes(b"late".to_vec())).step(&Event::Failed);
    assert!(r.is_finished());
    assert_eq!(r.into_message(), Some(b"m".to_vec()));
}

#[test]
fn events_say_whether_something_is_in_place() {
    assert!(Event::Done.is_in_place());
    assert!(Event::AlreadyExists.is_in_place());
    assert!(!Event::Failed.is_in_place());
    assert!(!Event::Bytes(Vec::new()).is_in_place());
    assert!(Event::Done.is_done());
    assert!(!Event::AlreadyExists.is_done());
    assert!(!Event::Failed.is_done());
    assert!(!Event::Bytes(b"x".to_vec()).is_done());
}

#[test]
fn abort_names_the_root_only_for_the_directory() {
    assert_eq!(
        aborted_on(abort(Failure::DirectoryCreation, b"/r", b"/r/k")),
        (Failure::DirectoryCreation, b"/r".to_vec())
    );
    for failure in [
        Failure::PipeCreation,
        Failure::Open,
        Failure::Write,
        Failure::Read,
        Failure::Delete,
    ] {
        assert_eq!(aborted_on(abort(failure, b"/r", b"/r/k")), (failure, b"/r/k".to_vec()));
    }
}

#[test]
fn replay_takes_the_events_in_order() {
    let events = vec![
        Event::Done,
        Event::AlreadyExists,
        Event::Done,
        Event::Bytes(b"line1\n".to_vec()),
        Event::Bytes(b"line2\n".to_vec()),
        Event::Bytes(Vec::new()),
        Event::Done,
    ];
    let r = Receiver::new(b"/r", b"x").unwrap().replay(&events);
    assert_eq!(r.into_message(), Some(b"line1\nline2\n".to_vec()));
    let r = Receiver::new(b"/r", b"x").unwrap().replay(&events[..6]);
    assert_eq!(r.stage(), ReceiveStage::Removing);
    let r = Receiver::new(b"/r", b"x").unwrap().replay(&[]);
    assert_eq!(r.stage(), ReceiveStage::EnsuringRoot);
    let done = [Event::Done, Event::Done, Event::Done, Event::Done, Event::Done];
    let s = Sender::new(b"/r", b"x", b"v").unwrap().replay(&done);
    assert!(s.is_finished());
    let s = Sender::new(b"/r", b"x", b"v").unwrap().replay(&done[..3]);
    assert_eq!(s.stage(), SendStage::Writing);
    let stumble = [Event::Done, Event::Done, Event::Done, Event::Failed, Event::Done];
    let s = Sender::new(b"/r", b"x", b"v").unwrap().replay(&stumble);
    assert_eq!(s.failure(), Some(Failure::Write));
}
