use framed_reactor::codec::encode_frame;
use framed_reactor::connection::{
    BodyStep, HeaderStep, HeaderWriteStep, SockRead, SockWrite, WriteStep,
};
use framed_reactor::context::Context;
use framed_reactor::serialize::EchoHandler;
use framed_reactor::server::{
    accept_again, classify_event, retire_scheduled, AcceptOutcome, EventInfo,
};

const LISTENER: usize = 1000000;

#[test]
fn error_event_only_tears_down() {
    let plan = classify_event(
        LISTENER,
        &EventInfo { token: 3, error: true, readable: true, writable: true },
    );
    assert!(plan.teardown);
    assert!(!plan.accept && !plan.read && !plan.write);
}

#[test]
fn readable_listener_event_accepts() {
    let plan = classify_event(
        LISTENER,
        &EventInfo { token: LISTENER, error: false, readable: true, writable: false },
    );
    assert!(plan.accept);
    assert!(!plan.teardown && !plan.read && !plan.write);
}

#[test]
fn readable_client_event_reads() {
    let plan = classify_event(
        LISTENER,
        &EventInfo { token: 4, error: false, readable: true, writable: false },
    );
    assert!(plan.read);
    assert!(!plan.teardown && !plan.accept && !plan.write);
}

#[test]
fn one_event_may_ask_for_read_and_write() {
    let plan = classify_event(
        LISTENER,
        &EventInfo { token: 4, error: false, readable: true, writable: true },
    );
    assert!(plan.read && plan.write);
    assert!(!plan.teardown && !plan.accept);
}

#[test]
fn accept_loop_runs_until_would_block() {
    assert!(accept_again(&AcceptOutcome::Accepted));
    assert!(!accept_again(&AcceptOutcome::WouldBlock));
    assert!(!accept_again(&AcceptOutcome::Fault));
}

#[test]
fn retire_scheduled_removes_exactly_the_scheduled_tokens() {
    let mut ctx = Context::new(EchoHandler::new(), 4).unwrap();
    let a = ctx.available_token().unwrap();
    let b = ctx.available_token().unwrap();
    let c = ctx.available_token().unwrap();
    retire_scheduled(&mut ctx, &vec![a, c, a, 999]);
    assert!(!ctx.is_live(a));
    assert!(ctx.is_live(b));
    assert!(!ctx.is_live(c));
}

#[test]
fn echoed_message_comes_back_as_the_identical_frame() {
    // One reactor cycle for the single-message scenario: the client's
    // 13-byte frame arrives, the echoing handler observes "hello", and the
    // bytes put back on the wire are the identical 13-byte frame.
    let mut ctx = Context::new(EchoHandler::new(), 4).unwrap();
    let t = ctx.available_token().unwrap();

    let wire_in = encode_frame(&b"hello".to_vec());
    let step = ctx
        .conn_on_header_read(t, &SockRead::Data(wire_in[..8].to_vec()))
        .unwrap();
    let len = match step {
        HeaderStep::NeedBody(len) => len,
        other => panic!("expected a body length, got {other:?}"),
    };
    assert_eq!(len, 5);
    let msg = match ctx.conn_on_body_read(t, len, SockRead::Data(wire_in[8..].to_vec())) {
        Ok(BodyStep::Msg(m)) => m,
        other => panic!("expected a message, got {other:?}"),
    };
    assert_eq!(msg, b"hello".to_vec());

    // The handler observes the decoded bytes and queues the echo.
    ctx.dispatch_message(t, &msg).unwrap();

    // A writable event drives the echo out.
    let out = ctx.conn_begin_write(t).unwrap().unwrap();
    assert!(ctx.conn_header_pending(t).unwrap());
    let mut wire_out = framed_reactor::codec::encode_len(out.len() as u64);
    let out = match ctx.conn_on_header_write(t, out, &SockWrite::Wrote(8)).unwrap() {
        HeaderWriteStep::Proceed(m) => m,
        other => panic!("expected to proceed, got {other:?}"),
    };
    wire_out.extend_from_slice(&out);
    assert_eq!(
        ctx.conn_on_body_write(t, out, &SockWrite::Wrote(5)).unwrap(),
        WriteStep::Done
    );
    assert_eq!(wire_out, wire_in);
    assert_eq!(ctx.conn_begin_write(t), Ok(None));
}
