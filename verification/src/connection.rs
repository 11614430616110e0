//! One accepted connection: its token, its outbound queue, and the framed
//! non-blocking read/write state machine.
//!
//! The sockets live with the embedding program. Each socket read or write it
//! performs is reported back here as a [`SockRead`] or [`SockWrite`], and the
//! state machine decides what that outcome means and what to do next, so
//! that a frame interrupted by a would-block condition resumes correctly on
//! a later readiness cycle.

use vstd::prelude::*;
use crate::codec::be_u64_of;
use crate::codec::decode_len;
use crate::codec::frame_of;
use crate::codec::lemma_frame_round_trip;

verus! {

/// The outcome of one non-blocking socket read: the bytes that the one call
/// produced, a would-block condition, or a hard I/O failure.
#[derive(Debug, PartialEq, Eq)]
pub enum SockRead {
    Data(Vec<u8>),
    WouldBlock,
    Fault,
}

/// The outcome of one non-blocking socket write. The byte count of a
/// successful write is carried but never inspected: a short successful
/// write is treated as complete.
#[derive(Debug, PartialEq, Eq)]
pub enum SockWrite {
    Wrote(usize),
    WouldBlock,
    Fault,
}

/// What the connection must read next: the 8-byte header, or the body whose
/// length was decoded earlier and cached when its read would have blocked.
#[derive(Debug, PartialEq, Eq)]
pub enum ReadAction {
    NeedHeader,
    NeedBody(usize),
}

/// Why a connection is torn down.
#[derive(Debug, PartialEq, Eq)]
pub enum FatalKind {
    /// The header read returned fewer than 8 bytes without blocking.
    InvalidLength,
    /// The body read returned fewer bytes than the frame declared.
    ShortMessage,
    /// Any other I/O failure.
    Io,
}

/// What one header read outcome means.
#[derive(Debug, PartialEq, Eq)]
pub enum HeaderStep {
    /// Nothing usable arrived; try again on the next readiness event.
    NoData,
    /// A length was decoded; read that many body bytes now.
    NeedBody(usize),
    /// The connection must be torn down.
    Fatal(FatalKind),
}

/// What one body read outcome means.
#[derive(Debug, PartialEq, Eq)]
pub enum BodyStep {
    /// The body read would have blocked; its length is cached for resumption.
    NoData,
    /// One full message arrived.
    Msg(Vec<u8>),
    /// The connection must be torn down.
    Fatal(FatalKind),
}

/// What one header write outcome means.
#[derive(Debug, PartialEq, Eq)]
pub enum HeaderWriteStep {
    /// The header went out; write the payload now (handed back).
    Proceed(Vec<u8>),
    /// The write would have blocked; the message was re-queued whole.
    Blocked,
    /// The connection must be torn down.
    Fatal,
}

/// What one payload write outcome means.
#[derive(Debug, PartialEq, Eq)]
pub enum WriteStep {
    /// The message went out completely; the caller should flush the stream.
    Done,
    /// The write would have blocked; the message was re-queued and only its
    /// payload will be sent next time.
    Blocked,
    /// The connection must be torn down.
    Fatal,
}

/// A socket read into a buffer of `cap` bytes returns at most `cap` bytes.
pub open spec fn sock_read_bounded(r: SockRead, cap: nat) -> bool {
    match r {
        SockRead::Data(b) => b@.len() <= cap,
        _ => true,
    }
}

/// One live connection: its registry token, the outbound message queue, the
/// cached body length of a read interrupted between header and body, and
/// the flag recording that a header went out while its payload still waits.
///
/// At most one frame is in flight per direction: `read_next` and
/// `write_next` exist precisely so that the frame resumes across poll
/// cycles without re-deriving its header.
pub struct Connection {
    pub token: usize,
    pub send_queue: Vec<Vec<u8>>,
    pub read_next: usize,
    pub write_next: bool,
}

/// What the connection will ask to read next.
pub open spec fn spec_read_action(c: Connection) -> ReadAction {
    if c.read_next > 0 {
        ReadAction::NeedBody(c.read_next)
    } else {
        ReadAction::NeedHeader
    }
}

/// The meaning of one header read outcome. A would-block is "no data yet",
/// not an error; a short header without blocking is a framing fault; a
/// decoded length of zero also reads as "no data yet", so a zero-length
/// frame is indistinguishable from an empty arrival at this layer. The
/// connection itself is never changed by a header read.
pub open spec fn spec_header_step(c: Connection, r: SockRead) -> HeaderStep {
    match r {
        SockRead::WouldBlock => HeaderStep::NoData,
        SockRead::Fault => HeaderStep::Fatal(FatalKind::Io),
        SockRead::Data(b) => if b@.len() < 8 {
            HeaderStep::Fatal(FatalKind::InvalidLength)
        } else {
            if be_u64_of(b@) as usize == 0 {
                HeaderStep::NoData
            } else {
                HeaderStep::NeedBody(be_u64_of(b@) as usize)
            }
        },
    }
}

/// The meaning of one body read outcome, and the connection it leaves
/// behind: a would-block caches `len` for resumption; a short body is a
/// framing fault; a full body clears the cache and carries the message.
pub open spec fn spec_body_step(c: Connection, len: usize, r: SockRead) -> (Connection, BodyStep) {
    match r {
        SockRead::WouldBlock => (Connection { read_next: len, ..c }, BodyStep::NoData),
        SockRead::Fault => (c, BodyStep::Fatal(FatalKind::Io)),
        SockRead::Data(b) => if b@.len() < len {
            (c, BodyStep::Fatal(FatalKind::ShortMessage))
        } else {
            (Connection { read_next: 0, ..c }, BodyStep::Msg(b))
        },
    }
}

impl Connection {
    /// A fresh connection on `token`: empty queue, no frame in flight in
    /// either direction.
    pub fn new(token: usize) -> (c: Connection)
        ensures
            c.token == token,
            c.send_queue@ == Seq::<Vec<u8>>::empty(),
            c.read_next == 0,
            !c.write_next,
    {
        Connection { token, send_queue: Vec::new(), read_next: 0, write_next: false }
    }

    /// The token this connection was registered under.
    pub fn get_token(&self) -> (t: usize)
        ensures
            t == self.token,
    {
        self.token
    }

    /// What to read next for this connection.
    pub fn read_action(&self) -> (a: ReadAction)
        ensures
            a == spec_read_action(*self),
    {
        if self.read_next > 0 {
            ReadAction::NeedBody(self.read_next)
        } else {
            ReadAction::NeedHeader
        }
    }

    /// Interpret the outcome of one socket read of up to 8 header bytes.
    /// Never changes the connection: the header bytes of a read that would
    /// block are not buffered, so the next cycle re-reads the header whole.
    pub fn on_header_read(&self, r: &SockRead) -> (step: HeaderStep)
        requires
            self.read_next == 0,
            sock_read_bounded(*r, 8),
        ensures
            step == spec_header_step(*self, *r),
    {
        match r {
            SockRead::WouldBlock => HeaderStep::NoData,
            SockRead::Fault => HeaderStep::Fatal(FatalKind::Io),
            SockRead::Data(b) => {
                if b.len() < 8 {
                    HeaderStep::Fatal(FatalKind::InvalidLength)
                } else {
                    let n = decode_len(b);
                    let len = #[verifier::truncate] (n as usize);
                    if len == 0 {
                        HeaderStep::NoData
                    } else {
                        HeaderStep::NeedBody(len)
                    }
                }
            },
        }
    }

    /// Interpret the outcome of one socket read meant to fill a body of
    /// `len` bytes.
    pub fn on_body_read(&mut self, len: usize, r: SockRead) -> (step: BodyStep)
        requires
            len > 0,
            sock_read_bounded(r, len as nat),
        ensures
            (*final(self), step) == spec_body_step(*old(self), len, r),
    {
        match r {
            SockRead::WouldBlock => {
                self.read_next = len;
                BodyStep::NoData
            },
            SockRead::Fault => BodyStep::Fatal(FatalKind::Io),
            SockRead::Data(b) => {
                if b.len() < len {
                    BodyStep::Fatal(FatalKind::ShortMessage)
                } else {
                    self.read_next = 0;
                    BodyStep::Msg(b)
                }
            },
        }
    }

    /// Append one message to the outbound queue. The queue drains last-in
    /// first-out: the most recently queued message is written first.
    pub fn send_message(&mut self, msg: Vec<u8>)
        ensures
            final(self).token == old(self).token,
            final(self).read_next == old(self).read_next,
            final(self).write_next == old(self).write_next,
            final(self).send_queue@ == old(self).send_queue@.push(msg),
    {
        self.send_queue.push(msg);
    }

    /// Take the message to send on this cycle: the most recently queued one.
    pub fn begin_write(&mut self) -> (m: Option<Vec<u8>>)
        ensures
            final(self).token == old(self).token,
            final(self).read_next == old(self).read_next,
            final(self).write_next == old(self).write_next,
            old(self).send_queue@.len() == 0 ==> m is None && final(self).send_queue@ == old(self).send_queue@,
            old(self).send_queue@.len() > 0 ==> m == Some(old(self).send_queue@.last()) && final(self).send_queue@ == old(self).send_queue@.drop_last(),
    {
        self.send_queue.pop()
    }

    /// Whether the 8-byte header still has to go out for the message taken
    /// on this cycle, or went out on an earlier, interrupted attempt.
    pub fn header_pending(&self) -> (b: bool)
        ensures
            b == !self.write_next,
    {
        !self.write_next
    }

    /// Interpret the outcome of writing the 8-byte header for `msg`. A
    /// would-block re-queues the message whole, so the next cycle retries
    /// header and payload both; a hard failure is fatal; on success the
    /// message is handed back for its payload write.
    pub fn on_header_write(&mut self, msg: Vec<u8>, r: &SockWrite) -> (step: HeaderWriteStep)
        requires
            !old(self).write_next,
        ensures
            final(self).token == old(self).token,
            final(self).read_next == old(self).read_next,
            final(self).write_next == old(self).write_next,
            match r {
                SockWrite::Wrote(_) => step == HeaderWriteStep::Proceed(msg) && final(self).send_queue@ == old(self).send_queue@,
                SockWrite::WouldBlock => step == HeaderWriteStep::Blocked && final(self).send_queue@ == old(self).send_queue@.push(msg),
                SockWrite::Fault => step == HeaderWriteStep::Fatal && final(self).send_queue@
                    == old(self).send_queue@,
            },
    {
        match r {
            SockWrite::Wrote(_) => HeaderWriteStep::Proceed(msg),
            SockWrite::WouldBlock => {
                self.send_queue.push(msg);
                HeaderWriteStep::Blocked
            },
            SockWrite::Fault => HeaderWriteStep::Fatal,
        }
    }

    /// Interpret the outcome of writing the payload of `msg`. Success
    /// completes the frame and clears the header-sent flag (the caller then
    /// flushes the stream); a would-block records that the header is out and
    /// re-queues the message, so the next cycle sends only the payload; any
    /// other failure is fatal to the connection.
    pub fn on_body_write(&mut self, msg: Vec<u8>, r: &SockWrite) -> (step: WriteStep)
        ensures
            final(self).token == old(self).token,
            final(self).read_next == old(self).read_next,
            match r {
                SockWrite::Wrote(_) => step == WriteStep::Done && !final(self).write_next && final(self).send_queue@ == old(self).send_queue@,
                SockWrite::WouldBlock => step == WriteStep::Blocked && final(self).write_next
                    && final(self).send_queue@ == old(self).send_queue@.push(msg),
                SockWrite::Fault => step == WriteStep::Fatal && final(self).write_next == old(self).write_next && final(self).send_queue@ == old(self).send_queue@,
            },
    {
        match r {
            SockWrite::Wrote(_) => {
                self.write_next = false;
                WriteStep::Done
            },
            SockWrite::WouldBlock => {
                self.write_next = true;
                self.send_queue.push(msg);
                WriteStep::Blocked
            },
            SockWrite::Fault => WriteStep::Fatal,
        }
    }
}

/// Law: a header read that would block leaves no trace. The connection
/// still expects a header, and a later read of the full 8 bytes decodes
/// exactly the length it would have decoded had the bytes arrived at once —
/// the step depends only on the bytes, and the blocked attempt changed
/// nothing.
pub proof fn lemma_header_wouldblock_resumption(c: Connection, b: Vec<u8>)
    requires
        c.read_next == 0,
        b@.len() == 8,
    ensures
        spec_header_step(c, SockRead::WouldBlock) == HeaderStep::NoData,
        spec_read_action(c) == ReadAction::NeedHeader,
        be_u64_of(b@) as usize > 0 ==> spec_header_step(c, SockRead::Data(b))
            == HeaderStep::NeedBody(be_u64_of(b@) as usize),
{
}

/// Law: frame round-trip through the reader. The frame built for a payload
/// `p` is `8 + p.len()` bytes; feeding its first 8 bytes to the header step
/// announces exactly `p.len()`, and feeding the rest to the body step
/// yields `p` itself, with the whole frame consumed and the connection
/// ready for the next header. A zero-length payload is the documented
/// boundary: its header decodes to zero, which reads as "no data yet"
/// rather than as an empty message.
pub proof fn lemma_frame_decode_round_trip(c: Connection, header: Vec<u8>, body: Vec<u8>)
    requires
        c.read_next == 0,
        header@ == frame_of(body@).take(8),
    ensures
        frame_of(body@).len() == 8 + body@.len(),
        frame_of(body@).skip(8) == body@,
        body@.len() > 0 ==> spec_header_step(c, SockRead::Data(header)) == HeaderStep::NeedBody(
            body@.len() as usize,
        ),
        body@.len() > 0 ==> spec_body_step(c, body@.len() as usize, SockRead::Data(body)) == ((
            Connection { read_next: 0, ..c },
            BodyStep::Msg(body),
        )),
        body@.len() == 0 ==> spec_header_step(c, SockRead::Data(header)) == HeaderStep::NoData,
{
    vstd::std_specs::vec::axiom_spec_len(&body);
    assert(body@.len() <= usize::MAX);
    lemma_frame_round_trip(body@);
    assert((body@.len() as u64) as usize == body@.len());
}

/// Law: when the body read blocks with nothing read, the decoded length is
/// cached verbatim, and the next cycle asks for that same body again
/// without re-reading a header.
pub proof fn lemma_body_wouldblock_resumption(c: Connection, len: usize)
    requires
        len > 0,
    ensures
        ({
            let (c1, step) = spec_body_step(c, len, SockRead::WouldBlock);
            step == BodyStep::NoData && c1.read_next == len && spec_read_action(c1)
                == ReadAction::NeedBody(len)
        }),
{
}

} // verus!
