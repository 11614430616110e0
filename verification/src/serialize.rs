//! The pluggable message-handling capability, and the default echoing
//! handler.

use vstd::prelude::*;
use crate::connection::Connection;

verus! {

/// Why a handler failed: the one failure class it may report is an I/O
/// failure, which tears its connection down.
#[derive(Debug, PartialEq, Eq)]
pub enum HandlerError {
    Io,
}

/// A codec to pair with the handler: how a message is turned into bytes and
/// back. The frame layer below carries any byte string, so implementations
/// are free to choose; none is required by the reactor core.
pub trait MessageCodec {
    fn encode(&self, msg: &Vec<u8>);

    fn decode(&self, msg: &Vec<u8>);
}

/// The message-handling capability the reactor consumes. Every decoded
/// message is handed, synchronously on the reactor thread that decoded it,
/// to one implementation of this trait together with exclusive access to
/// the connection it arrived on.
///
/// An implementation may only queue responses: the connection's identity
/// and its frame-resumption state are untouched, and messages already
/// queued stay queued in their order. `describes` is each implementation's
/// own statement of what one delivery does.
pub trait MessageHandler: Sized {
    /// What one delivery does: how the connection after the call relates to
    /// the connection before it, given the message bytes and whether the
    /// delivery succeeded.
    spec fn describes(&self, pre: Connection, msg: Seq<u8>, post: Connection, ok: bool) -> bool;

    /// Deliver one decoded message.
    fn on_message_received(&self, conn: &mut Connection, msg: &Vec<u8>) -> (r: Result<
        (),
        HandlerError,
    >)
        ensures
            final(conn).token == old(conn).token,
            final(conn).read_next == old(conn).read_next,
            final(conn).write_next == old(conn).write_next,
            old(conn).send_queue@.is_prefix_of(final(conn).send_queue@),
            self.describes(*old(conn), msg@, *final(conn), r is Ok),
    ;
}

/// The default handler: echo every message back to the connection it came
/// from.
pub struct EchoHandler {}

impl EchoHandler {
    /// An echoing handler.
    pub fn new() -> (h: EchoHandler)
        ensures
            h == (EchoHandler {  }),
    {
        EchoHandler {  }
    }
}

impl MessageHandler for EchoHandler {
    /// Echoing always succeeds and queues exactly the received bytes.
    open spec fn describes(&self, pre: Connection, msg: Seq<u8>, post: Connection, ok: bool) -> bool {
        ok && post.send_queue.deep_view() == pre.send_queue.deep_view().push(msg)
    }

    fn on_message_received(&self, conn: &mut Connection, msg: &Vec<u8>) -> (r: Result<
        (),
        HandlerError,
    >) {
        let reply = msg.clone();
        proof {
            assert(reply@ =~= msg@);
        }
        conn.send_message(reply);
        proof {
            let pre = old(conn).send_queue;
            let post = conn.send_queue;
            assert forall|i: int|
                0 <= i < post.deep_view().len() implies post.deep_view()[i]
                == pre.deep_view().push(msg@)[i] by {
                if i < pre@.len() {
                    assert(post@[i] == pre@[i]);
                } else {
                    assert(post@[i] == reply);
                    assert(reply.deep_view() =~= msg@);
                }
            }
            assert(post.deep_view() =~= pre.deep_view().push(msg@));
        }
        Ok(())
    }
}

} // verus!
