use framed_reactor::codec::{encode_frame, encode_len};
use framed_reactor::connection::{
    BodyStep, Connection, FatalKind, HeaderStep, HeaderWriteStep, ReadAction, SockRead,
    SockWrite, WriteStep,
};

#[test]
fn new_connection_is_idle() {
    let c = Connection::new(7);
    assert_eq!(c.get_token(), 7);
    assert_eq!(c.read_action(), ReadAction::NeedHeader);
    assert!(c.header_pending());
}

#[test]
fn single_message_read_decodes_hello() {
    // The wire bytes 00 00 00 00 00 00 00 05 'h' 'e' 'l' 'l' 'o' arrive at
    // once: the header step announces a 5-byte body and the body step
    // yields exactly "hello".
    let mut c = Connection::new(0);
    let frame = encode_frame(&b"hello".to_vec());
    assert_eq!(frame.len(), 13);
    let step = c.on_header_read(&SockRead::Data(frame[..8].to_vec()));
    assert_eq!(step, HeaderStep::NeedBody(5));
    let body = c.on_body_read(5, SockRead::Data(frame[8..].to_vec()));
    assert_eq!(body, BodyStep::Msg(b"hello".to_vec()));
    assert_eq!(c.read_action(), ReadAction::NeedHeader);
}

#[test]
fn split_frame_still_decodes_one_message() {
    // Header in one socket read, payload in a later one, with a would-block
    // in between: still one "hello" message.
    let mut c = Connection::new(0);
    let step = c.on_header_read(&SockRead::Data(encode_len(5)));
    assert_eq!(step, HeaderStep::NeedBody(5));
    let blocked = c.on_body_read(5, SockRead::WouldBlock);
    assert_eq!(blocked, BodyStep::NoData);
    // An arbitrary delay later, the next readiness cycle resumes the body.
    assert_eq!(c.read_action(), ReadAction::NeedBody(5));
    let body = c.on_body_read(5, SockRead::Data(b"hello".to_vec()));
    assert_eq!(body, BodyStep::Msg(b"hello".to_vec()));
    assert_eq!(c.read_action(), ReadAction::NeedHeader);
}

#[test]
fn header_wouldblock_is_not_fatal_and_leaves_no_trace() {
    // A blocked header read reports "no data yet"; the same bytes arriving
    // later decode the same length as if they had arrived at once.
    let c = Connection::new(0);
    assert_eq!(c.on_header_read(&SockRead::WouldBlock), HeaderStep::NoData);
    assert_eq!(c.read_action(), ReadAction::NeedHeader);
    let step = c.on_header_read(&SockRead::Data(encode_len(9)));
    assert_eq!(step, HeaderStep::NeedBody(9));
}

#[test]
fn body_wouldblock_caches_length_verbatim() {
    let mut c = Connection::new(0);
    assert_eq!(
        c.on_header_read(&SockRead::Data(encode_len(42))),
        HeaderStep::NeedBody(42)
    );
    assert_eq!(c.on_body_read(42, SockRead::WouldBlock), BodyStep::NoData);
    assert_eq!(c.read_action(), ReadAction::NeedBody(42));
    // Still cached after another blocked attempt.
    assert_eq!(c.on_body_read(42, SockRead::WouldBlock), BodyStep::NoData);
    assert_eq!(c.read_action(), ReadAction::NeedBody(42));
}

#[test]
fn short_header_is_invalid_length() {
    let c = Connection::new(0);
    let step = c.on_header_read(&SockRead::Data(vec![0, 0, 0]));
    assert_eq!(step, HeaderStep::Fatal(FatalKind::InvalidLength));
}

#[test]
fn empty_header_read_is_invalid_length() {
    // A read returning zero bytes without blocking (the peer closed) is a
    // framing fault, not "no data yet".
    let c = Connection::new(0);
    let step = c.on_header_read(&SockRead::Data(Vec::new()));
    assert_eq!(step, HeaderStep::Fatal(FatalKind::InvalidLength));
}

#[test]
fn zero_length_frame_reads_as_no_data() {
    let c = Connection::new(0);
    let step = c.on_header_read(&SockRead::Data(encode_len(0)));
    assert_eq!(step, HeaderStep::NoData);
    assert_eq!(c.read_action(), ReadAction::NeedHeader);
}

#[test]
fn short_body_is_fatal() {
    let mut c = Connection::new(0);
    assert_eq!(
        c.on_header_read(&SockRead::Data(encode_len(5))),
        HeaderStep::NeedBody(5)
    );
    let step = c.on_body_read(5, SockRead::Data(b"hel".to_vec()));
    assert_eq!(step, BodyStep::Fatal(FatalKind::ShortMessage));
}

#[test]
fn io_faults_are_fatal_on_both_read_steps() {
    let mut c = Connection::new(0);
    assert_eq!(
        c.on_header_read(&SockRead::Fault),
        HeaderStep::Fatal(FatalKind::Io)
    );
    assert_eq!(
        c.on_body_read(5, SockRead::Fault),
        BodyStep::Fatal(FatalKind::Io)
    );
}

#[test]
fn send_queue_drains_lifo() {
    let mut c = Connection::new(0);
    c.send_message(b"first".to_vec());
    c.send_message(b"second".to_vec());
    assert_eq!(c.begin_write(), Some(b"second".to_vec()));
    assert_eq!(c.begin_write(), Some(b"first".to_vec()));
    assert_eq!(c.begin_write(), None);
}

#[test]
fn write_whole_frame_goes_out() {
    let mut c = Connection::new(0);
    c.send_message(b"hello".to_vec());
    let msg = c.begin_write().unwrap();
    assert!(c.header_pending());
    let header = encode_len(msg.len() as u64);
    let step = c.on_header_write(msg, &SockWrite::Wrote(8));
    let msg = match step {
        HeaderWriteStep::Proceed(m) => m,
        _ => panic!("header write should proceed"),
    };
    // What went on the wire is the exact 13-byte frame for "hello".
    let mut wire = header;
    wire.extend_from_slice(&msg);
    assert_eq!(wire, encode_frame(&b"hello".to_vec()));
    let done = c.on_body_write(msg, &SockWrite::Wrote(5));
    assert_eq!(done, WriteStep::Done);
    assert!(c.header_pending());
    assert_eq!(c.begin_write(), None);
}

#[test]
fn header_write_wouldblock_requeues_whole_message() {
    let mut c = Connection::new(0);
    c.send_message(b"hi".to_vec());
    let msg = c.begin_write().unwrap();
    let step = c.on_header_write(msg, &SockWrite::WouldBlock);
    assert_eq!(step, HeaderWriteStep::Blocked);
    // The next cycle retries header and payload both.
    assert!(c.header_pending());
    assert_eq!(c.begin_write(), Some(b"hi".to_vec()));
}

#[test]
fn body_write_wouldblock_skips_header_next_time() {
    let mut c = Connection::new(0);
    c.send_message(b"hi".to_vec());
    let msg = c.begin_write().unwrap();
    let msg = match c.on_header_write(msg, &SockWrite::Wrote(8)) {
        HeaderWriteStep::Proceed(m) => m,
        _ => panic!("header write should proceed"),
    };
    assert_eq!(c.on_body_write(msg, &SockWrite::WouldBlock), WriteStep::Blocked);
    // The message is queued again, but the header already went out.
    assert_eq!(c.begin_write(), Some(b"hi".to_vec()));
    assert!(!c.header_pending());
    let done = c.on_body_write(b"hi".to_vec(), &SockWrite::Wrote(2));
    assert_eq!(done, WriteStep::Done);
    assert!(c.header_pending());
}

#[test]
fn header_write_fault_is_fatal() {
    let mut c = Connection::new(0);
    c.send_message(b"hi".to_vec());
    let msg = c.begin_write().unwrap();
    assert_eq!(
        c.on_header_write(msg, &SockWrite::Fault),
        HeaderWriteStep::Fatal
    );
}

#[test]
fn body_write_fault_is_fatal() {
    let mut c = Connection::new(0);
    c.send_message(b"hi".to_vec());
    let msg = c.begin_write().unwrap();
    let msg = match c.on_header_write(msg, &SockWrite::Wrote(8)) {
        HeaderWriteStep::Proceed(m) => m,
        _ => panic!("header write should proceed"),
    };
    assert_eq!(c.on_body_write(msg, &SockWrite::Fault), WriteStep::Fatal);
}

#[test]
fn short_successful_write_counts_as_complete() {
    let mut c = Connection::new(0);
    c.send_message(b"hello".to_vec());
    let msg = c.begin_write().unwrap();
    let msg = match c.on_header_write(msg, &SockWrite::Wrote(8)) {
        HeaderWriteStep::Proceed(m) => m,
        _ => panic!("header write should proceed"),
    };
    // The write reported only 3 of 5 bytes, but a successful write is
    // treated as complete by design.
    assert_eq!(c.on_body_write(msg, &SockWrite::Wrote(3)), WriteStep::Done);
    assert_eq!(c.begin_write(), None);
}
