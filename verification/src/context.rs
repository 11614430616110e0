//! The connection registry: a bounded slot table keyed by token, plus the
//! injected message handler.
//!
//! A token is valid exactly while its slot is occupied; removal frees the
//! slot at once and permits reuse. The table's capacity is strictly below
//! the listener's sentinel token, so no client token can ever collide with
//! the listener's registration.

use vstd::prelude::*;
use crate::connection::BodyStep;
use crate::connection::Connection;
use crate::connection::HeaderStep;
use crate::connection::HeaderWriteStep;
use crate::connection::ReadAction;
use crate::connection::SockRead;
use crate::connection::SockWrite;
use crate::connection::WriteStep;
use crate::connection::sock_read_bounded;
use crate::connection::spec_body_step;
use crate::connection::spec_header_step;
use crate::connection::spec_read_action;
use crate::serialize::HandlerError;
use crate::serialize::MessageHandler;

verus! {

/// The reserved token under which every reactor thread registers the shared
/// listening socket; never assigned to a client, so a registry's capacity
/// must stay strictly below it.
pub const SERVER_TOKEN: usize = 1000000;

/// A registry operation was given a token whose slot is empty.
#[derive(Debug, PartialEq, Eq)]
pub enum RegistryError {
    InvalidToken,
}

/// Why delivering a decoded message failed.
#[derive(Debug, PartialEq, Eq)]
pub enum DispatchError {
    /// The token's slot is empty.
    InvalidToken,
    /// The handler itself reported a failure.
    Handler(HandlerError),
}

/// The registry: one slot per possible client token, and the handler that
/// every decoded message is dispatched to.
pub struct Context<H> {
    pub conns: Vec<Option<Connection>>,
    pub handler: H,
    pub capacity: usize,
}

impl<H> Context<H> {
    /// The slot-table invariant: one slot per token up to the capacity, the
    /// capacity strictly below the listener sentinel, and every occupied
    /// slot holding the connection whose token names that slot.
    pub open spec fn wf(self) -> bool {
        &&& self.conns@.len() == self.capacity
        &&& self.capacity < SERVER_TOKEN
        &&& forall|i: int|
            0 <= i < self.conns@.len() ==> ((#[trigger] self.conns@[i]) matches Some(c)
                ==> c.token == i)
    }

    /// A token is live exactly while its slot is occupied.
    pub open spec fn live(self, token: usize) -> bool {
        token < self.conns@.len() && self.conns@[token as int] is Some
    }

    /// The connection a live token names.
    pub open spec fn conn_at(self, token: usize) -> Connection
        recommends
            self.live(token),
    {
        self.conns@[token as int]->Some_0
    }

    /// Whether `token` currently names a live connection.
    pub fn is_live(&self, token: usize) -> (b: bool)
        ensures
            b == self.live(token),
    {
        token < self.conns.len() && self.conns[token].is_some()
    }
}

/// Law: token uniqueness. Under the registry invariant every live token is
/// below the capacity — hence strictly below the listener sentinel — and
/// names exactly one connection: the one stored in its own slot, which
/// carries that token. Two distinct live tokens therefore name distinct
/// connections.
pub proof fn lemma_token_uniqueness<H>(ctx: Context<H>, t1: usize, t2: usize)
    requires
        ctx.wf(),
        ctx.live(t1),
        ctx.live(t2),
    ensures
        t1 < ctx.capacity && t1 < SERVER_TOKEN,
        ctx.conn_at(t1).token == t1,
        t1 != t2 ==> ctx.conn_at(t1) != ctx.conn_at(t2),
{
    assert(ctx.conns@[t1 as int] matches Some(c) ==> c.token == t1);
    assert(ctx.conns@[t2 as int] matches Some(c) ==> c.token == t2);
}

/// A slot update that keeps the stored connection on its own token keeps
/// the whole table well formed.
proof fn lemma_wf_update<H>(pre: Context<H>, post: Context<H>, t: usize, c: Connection)
    requires
        pre.wf(),
        t < pre.conns@.len(),
        c.token == t,
        post.conns@ == pre.conns@.update(t as int, Some(c)),
        post.capacity == pre.capacity,
    ensures
        post.wf(),
{
    assert forall|i: int|
        0 <= i < post.conns@.len() implies (#[trigger] post.conns@[i]) matches Some(x)
        ==> x.token == i by {
        if i != t {
            assert(post.conns@[i] == pre.conns@[i]);
        }
    }
}

impl<H> Context<H> {
    /// Build a registry for at most `max_clients` live connections around
    /// one handler. A bound that does not stay below the listener sentinel
    /// is a startup-time configuration error, reported as `None`.
    pub fn new(handler: H, max_clients: usize) -> (r: Option<Context<H>>)
        ensures
            max_clients < SERVER_TOKEN ==> (r matches Some(ctx) && ctx.wf() && ctx.capacity
                == max_clients && ctx.handler == handler && forall|t: usize| !ctx.live(t)),
            max_clients >= SERVER_TOKEN ==> r is None,
    {
        if max_clients >= SERVER_TOKEN {
            return None;
        }
        let mut conns: Vec<Option<Connection>> = Vec::new();
        let mut i: usize = 0;
        while i < max_clients
            invariant
                i <= max_clients,
                conns@.len() == i,
                forall|j: int| 0 <= j < i ==> conns@[j] is None,
            decreases max_clients - i,
        {
            conns.push(None);
            i += 1;
        }
        Some(Context { conns, handler, capacity: max_clients })
    }

    /// Allocate a free slot: the lowest free token is bound to a fresh
    /// connection and returned. When every slot is live the registry is
    /// full: nothing changes and no token is handed out.
    pub fn available_token(&mut self) -> (r: Option<usize>)
        requires
            old(self).wf(),
        ensures
            final(self).wf(),
            final(self).capacity == old(self).capacity,
            final(self).handler == old(self).handler,
            match r {
                Some(t) => t < old(self).capacity && !old(self).live(t) && (forall|u: usize|
                    u < t ==> old(self).live(u)) && final(self).live(t)
                    && final(self).conn_at(t).token == t && final(self).conn_at(t).send_queue@.len() == 0 && final(self).conn_at(t).read_next == 0 && !final(self).conn_at(t).write_next && final(self).conns@ == old(self).conns@.update(
                    t as int,
                    Some(final(self).conn_at(t)),
                ),
                None => *final(self) == *old(self) && forall|i: int|
                    0 <= i < old(self).conns@.len() ==> old(self).conns@[i] is Some,
            },
    {
        let cap = self.conns.len();
        let mut i: usize = 0;
        while i < cap
            invariant
                old(self).wf(),
                cap == self.conns@.len(),
                i <= cap,
                *self == *old(self),
                forall|j: int| 0 <= j < i ==> self.conns@[j] is Some,
            decreases cap - i,
        {
            if self.conns[i].is_none() {
                let c = Connection::new(i);
                self.conns[i] = Some(c);
                proof {
                    lemma_wf_update(*old(self), *self, i, c);
                }
                return Some(i);
            }
            i += 1;
        }
        None
    }

    /// Free the slot of `token`. Freeing an already-free or out-of-range
    /// token is a no-op; a freed token may be reused by a later allocation.
    pub fn remove_client(&mut self, token: usize)
        requires
            old(self).wf(),
        ensures
            final(self).wf(),
            final(self).capacity == old(self).capacity,
            final(self).handler == old(self).handler,
            !final(self).live(token),
            token < old(self).conns@.len() ==> final(self).conns@ == old(self).conns@.update(
                token as int,
                None,
            ),
            token >= old(self).conns@.len() ==> *final(self) == *old(self),
            !old(self).live(token) ==> final(self).conns@ == old(self).conns@,
    {
        if token < self.conns.len() {
            self.conns[token] = None;
            proof {
                assert forall|i: int|
                    0 <= i < self.conns@.len() implies (#[trigger] self.conns@[i]) matches Some(x)
                    ==> x.token == i by {
                    if i != token {
                        assert(self.conns@[i] == old(self).conns@[i]);
                    }
                }
                if old(self).conns@[token as int] is None {
                    assert(self.conns@ =~= old(self).conns@);
                }
            }
        }
    }

    /// Queue `msg` on the connection `token` names; reports an invalid
    /// token, touching nothing, when the slot is empty or out of range.
    pub fn send_message_to_client(&mut self, token: usize, msg: Vec<u8>) -> (r: Result<
        (),
        RegistryError,
    >)
        requires
            old(self).wf(),
        ensures
            final(self).wf(),
            final(self).capacity == old(self).capacity,
            final(self).handler == old(self).handler,
            !old(self).live(token) ==> r == Err::<(), RegistryError>(RegistryError::InvalidToken)
                && final(self).conns@ == old(self).conns@,
            old(self).live(token) ==> r is Ok && final(self).conn_at(token).send_queue@ == old(self).conn_at(token).send_queue@.push(msg) && final(self).conn_at(token).token == old(self).conn_at(token).token && final(self).conn_at(token).read_next == old(self).conn_at(token).read_next && final(self).conn_at(token).write_next == old(self).conn_at(token).write_next && final(self).conns@ == old(self).conns@.update(
                token as int,
                Some(final(self).conn_at(token)),
            ),
    {
        if token >= self.conns.len() {
            return Err(RegistryError::InvalidToken);
        }
        match &mut self.conns[token] {
            Some(c) => {
                c.send_message(msg);
                proof {
                    lemma_wf_update(*old(self), *self, token, self.conns@[token as int]->Some_0);
                }
                Ok(())
            },
            None => {
                proof {
                    assert(self.conns@ =~= old(self).conns@);
                }
                Err(RegistryError::InvalidToken)
            },
        }
    }

    /// What the connection `token` names must read next; an empty or
    /// out-of-range slot is an invalid token.
    pub fn conn_read_action(&self, token: usize) -> (r: Result<ReadAction, RegistryError>)
        ensures
            self.live(token) ==> r == Ok::<ReadAction, RegistryError>(
                spec_read_action(self.conn_at(token)),
            ),
            !self.live(token) ==> r == Err::<ReadAction, RegistryError>(
                RegistryError::InvalidToken,
            ),
    {
        if token >= self.conns.len() {
            return Err(RegistryError::InvalidToken);
        }
        match &self.conns[token] {
            Some(c) => Ok(c.read_action()),
            None => Err(RegistryError::InvalidToken),
        }
    }

    /// Whether the header still has to go out for the next message of the
    /// connection `token` names.
    pub fn conn_header_pending(&self, token: usize) -> (r: Result<bool, RegistryError>)
        ensures
            self.live(token) ==> r == Ok::<bool, RegistryError>(
                !self.conn_at(token).write_next,
            ),
            !self.live(token) ==> r == Err::<bool, RegistryError>(RegistryError::InvalidToken),
    {
        if token >= self.conns.len() {
            return Err(RegistryError::InvalidToken);
        }
        match &self.conns[token] {
            Some(c) => Ok(c.header_pending()),
            None => Err(RegistryError::InvalidToken),
        }
    }

    /// Hand the outcome of one header read to the connection `token` names.
    /// The connection itself never changes on a header read.
    pub fn conn_on_header_read(&self, token: usize, rd: &SockRead) -> (r: Result<
        HeaderStep,
        RegistryError,
    >)
        requires
            sock_read_bounded(*rd, 8),
            self.live(token) ==> self.conn_at(token).read_next == 0,
        ensures
            self.live(token) ==> r == Ok::<HeaderStep, RegistryError>(
                spec_header_step(self.conn_at(token), *rd),
            ),
            !self.live(token) ==> r == Err::<HeaderStep, RegistryError>(
                RegistryError::InvalidToken,
            ),
    {
        if token >= self.conns.len() {
            return Err(RegistryError::InvalidToken);
        }
        match &self.conns[token] {
            Some(c) => Ok(c.on_header_read(rd)),
            None => Err(RegistryError::InvalidToken),
        }
    }

    /// Hand the outcome of one body read of `len` bytes to the connection
    /// `token` names.
    pub fn conn_on_body_read(&mut self, token: usize, len: usize, rd: SockRead) -> (r: Result<
        BodyStep,
        RegistryError,
    >)
        requires
            old(self).wf(),
            len > 0,
            sock_read_bounded(rd, len as nat),
        ensures
            final(self).wf(),
            final(self).capacity == old(self).capacity,
            final(self).handler == old(self).handler,
            !old(self).live(token) ==> r == Err::<BodyStep, RegistryError>(
                RegistryError::InvalidToken,
            ) && final(self).conns@ == old(self).conns@,
            old(self).live(token) ==> ({
                let (c2, step) = spec_body_step(old(self).conn_at(token), len, rd);
                r == Ok::<BodyStep, RegistryError>(step) && final(self).conns@ == old(
                    self,
                ).conns@.update(token as int, Some(c2))
            }),
    {
        if token >= self.conns.len() {
            return Err(RegistryError::InvalidToken);
        }
        match &mut self.conns[token] {
            Some(c) => {
                let step = c.on_body_read(len, rd);
                proof {
                    lemma_wf_update(
                        *old(self),
                        *self,
                        token,
                        self.conns@[token as int]->Some_0,
                    );
                }
                Ok(step)
            },
            None => {
                proof {
                    assert(self.conns@ =~= old(self).conns@);
                }
                Err(RegistryError::InvalidToken)
            },
        }
    }

    /// Take the message the connection `token` names should send on this
    /// cycle: the most recently queued one.
    pub fn conn_begin_write(&mut self, token: usize) -> (r: Result<
        Option<Vec<u8>>,
        RegistryError,
    >)
        requires
            old(self).wf(),
        ensures
            final(self).wf(),
            final(self).capacity == old(self).capacity,
            final(self).handler == old(self).handler,
            !old(self).live(token) ==> r == Err::<Option<Vec<u8>>, RegistryError>(
                RegistryError::InvalidToken,
            ) && final(self).conns@ == old(self).conns@,
            old(self).live(token) ==> ({
                let pre = old(self).conn_at(token);
                let post = final(self).conn_at(token);
                final(self).live(token) && final(self).conns@ == old(self).conns@.update(
                    token as int,
                    Some(post),
                ) && post.token == pre.token && post.read_next == pre.read_next
                    && post.write_next == pre.write_next && (pre.send_queue@.len() == 0 ==> r
                    == Ok::<Option<Vec<u8>>, RegistryError>(None) && post.send_queue@
                    == pre.send_queue@) && (pre.send_queue@.len() > 0 ==> r == Ok::<
                    Option<Vec<u8>>,
                    RegistryError,
                >(Some(pre.send_queue@.last())) && post.send_queue@
                    == pre.send_queue@.drop_last())
            }),
    {
        if token >= self.conns.len() {
            return Err(RegistryError::InvalidToken);
        }
        match &mut self.conns[token] {
            Some(c) => {
                let m = c.begin_write();
                proof {
                    lemma_wf_update(
                        *old(self),
                        *self,
                        token,
                        self.conns@[token as int]->Some_0,
                    );
                }
                Ok(m)
            },
            None => {
                proof {
                    assert(self.conns@ =~= old(self).conns@);
                }
                Err(RegistryError::InvalidToken)
            },
        }
    }

    /// Hand the outcome of writing the 8-byte header for `msg` to the
    /// connection `token` names.
    pub fn conn_on_header_write(&mut self, token: usize, msg: Vec<u8>, w: &SockWrite) -> (r:
        Result<HeaderWriteStep, RegistryError>)
        requires
            old(self).wf(),
            old(self).live(token) ==> !old(self).conn_at(token).write_next,
        ensures
            final(self).wf(),
            final(self).capacity == old(self).capacity,
            final(self).handler == old(self).handler,
            !old(self).live(token) ==> r == Err::<HeaderWriteStep, RegistryError>(
                RegistryError::InvalidToken,
            ) && final(self).conns@ == old(self).conns@,
            old(self).live(token) ==> ({
                let pre = old(self).conn_at(token);
                let post = final(self).conn_at(token);
                final(self).live(token) && final(self).conns@ == old(self).conns@.update(
                    token as int,
                    Some(post),
                ) && post.token == pre.token && post.read_next == pre.read_next
                    && post.write_next == pre.write_next && match w {
                    SockWrite::Wrote(_) => r == Ok::<HeaderWriteStep, RegistryError>(
                        HeaderWriteStep::Proceed(msg),
                    ) && post.send_queue@ == pre.send_queue@,
                    SockWrite::WouldBlock => r == Ok::<HeaderWriteStep, RegistryError>(
                        HeaderWriteStep::Blocked,
                    ) && post.send_queue@ == pre.send_queue@.push(msg),
                    SockWrite::Fault => r == Ok::<HeaderWriteStep, RegistryError>(
                        HeaderWriteStep::Fatal,
                    ) && post.send_queue@ == pre.send_queue@,
                }
            }),
    {
        if token >= self.conns.len() {
            return Err(RegistryError::InvalidToken);
        }
        match &mut self.conns[token] {
            Some(c) => {
                let step = c.on_header_write(msg, w);
                proof {
                    lemma_wf_update(
                        *old(self),
                        *self,
                        token,
                        self.conns@[token as int]->Some_0,
                    );
                }
                Ok(step)
            },
            None => {
                proof {
                    assert(self.conns@ =~= old(self).conns@);
                }
                Err(RegistryError::InvalidToken)
            },
        }
    }

    /// Hand the outcome of writing the payload of `msg` to the connection
    /// `token` names.
    pub fn conn_on_body_write(&mut self, token: usize, msg: Vec<u8>, w: &SockWrite) -> (r: Result<
        WriteStep,
        RegistryError,
    >)
        requires
            old(self).wf(),
        ensures
            final(self).wf(),
            final(self).capacity == old(self).capacity,
            final(self).handler == old(self).handler,
            !old(self).live(token) ==> r == Err::<WriteStep, RegistryError>(
                RegistryError::InvalidToken,
            ) && final(self).conns@ == old(self).conns@,
            old(self).live(token) ==> ({
                let pre = old(self).conn_at(token);
                let post = final(self).conn_at(token);
                final(self).live(token) && final(self).conns@ == old(self).conns@.update(
                    token as int,
                    Some(post),
                ) && post.token == pre.token && post.read_next == pre.read_next && match w {
                    SockWrite::Wrote(_) => r == Ok::<WriteStep, RegistryError>(WriteStep::Done)
                        && !post.write_next && post.send_queue@ == pre.send_queue@,
                    SockWrite::WouldBlock => r == Ok::<WriteStep, RegistryError>(
                        WriteStep::Blocked,
                    ) && post.write_next && post.send_queue@ == pre.send_queue@.push(msg),
                    SockWrite::Fault => r == Ok::<WriteStep, RegistryError>(WriteStep::Fatal)
                        && post.write_next == pre.write_next && post.send_queue@
                        == pre.send_queue@,
                }
            }),
    {
        if token >= self.conns.len() {
            return Err(RegistryError::InvalidToken);
        }
        match &mut self.conns[token] {
            Some(c) => {
                let step = c.on_body_write(msg, w);
                proof {
                    lemma_wf_update(
                        *old(self),
                        *self,
                        token,
                        self.conns@[token as int]->Some_0,
                    );
                }
                Ok(step)
            },
            None => {
                proof {
                    assert(self.conns@ =~= old(self).conns@);
                }
                Err(RegistryError::InvalidToken)
            },
        }
    }
}

impl<H: MessageHandler> Context<H> {
    /// Deliver one decoded message to the handler, synchronously, with
    /// exclusive access to the connection it arrived on. A handler failure
    /// is reported so the caller can tear the connection down; the handler's
    /// own `describes` relation states what the delivery did to the
    /// connection.
    pub fn dispatch_message(&mut self, token: usize, msg: &Vec<u8>) -> (r: Result<
        (),
        DispatchError,
    >)
        requires
            old(self).wf(),
        ensures
            final(self).wf(),
            final(self).capacity == old(self).capacity,
            final(self).handler == old(self).handler,
            !old(self).live(token) ==> r == Err::<(), DispatchError>(DispatchError::InvalidToken)
                && final(self).conns@ == old(self).conns@,
            old(self).live(token) ==> ({
                let pre = old(self).conn_at(token);
                let post = final(self).conn_at(token);
                final(self).live(token) && final(self).conns@ == old(self).conns@.update(
                    token as int,
                    Some(post),
                ) && post.token == pre.token && post.read_next == pre.read_next
                    && post.write_next == pre.write_next && pre.send_queue@.is_prefix_of(
                    post.send_queue@,
                ) && old(self).handler.describes(pre, msg@, post, r is Ok) && (!(r is Ok) ==> r
                    == Err::<(), DispatchError>(DispatchError::Handler(HandlerError::Io)))
            }),
    {
        if token >= self.conns.len() {
            return Err(DispatchError::InvalidToken);
        }
        match &mut self.conns[token] {
            Some(c) => {
                let out = self.handler.on_message_received(c, msg);
                proof {
                    lemma_wf_update(
                        *old(self),
                        *self,
                        token,
                        self.conns@[token as int]->Some_0,
                    );
                }
                match out {
                    Ok(()) => Ok(()),
                    Err(HandlerError::Io) => Err(DispatchError::Handler(HandlerError::Io)),
                }
            },
            None => {
                proof {
                    assert(self.conns@ =~= old(self).conns@);
                }
                Err(DispatchError::InvalidToken)
            },
        }
    }
}

} // verus!
