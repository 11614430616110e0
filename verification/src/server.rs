//! The reactor's dispatch rules: what one readiness event demands, when the
//! accept loop keeps going, and how a batch's scheduled teardowns are
//! retired.
//!
//! Each reactor thread owns its poller and blocks on it; this module holds
//! the decisions it applies to every event the poller hands back. The poll,
//! accept, read and write calls themselves stay with the embedding program.

use vstd::prelude::*;
use crate::context::Context;

verus! {

/// One readiness event as the poller reports it: the token it names and
/// the readiness classes it carries.
#[derive(Debug, PartialEq, Eq)]
pub struct EventInfo {
    pub token: usize,
    pub error: bool,
    pub readable: bool,
    pub writable: bool,
}

/// What the reactor must do for one event. Read and write handling are
/// independent, so one event may ask for both.
#[derive(Debug, PartialEq, Eq)]
pub struct EventPlan {
    /// Tear the token down at once; nothing else is done for this event.
    pub teardown: bool,
    /// Accept waiting clients until the listener would block.
    pub accept: bool,
    /// Drain the connection's readable frames.
    pub read: bool,
    /// Drive one write attempt on the connection.
    pub write: bool,
}

/// The plan one event calls for: an error-class event only tears its token
/// down; a readable event on the listener token accepts; a readable event
/// on any other token drains that connection; a writable event drives one
/// write attempt.
pub open spec fn spec_event_plan(listener_token: usize, ev: EventInfo) -> EventPlan {
    EventPlan {
        teardown: ev.error,
        accept: !ev.error && ev.readable && ev.token == listener_token,
        read: !ev.error && ev.readable && ev.token != listener_token,
        write: !ev.error && ev.writable,
    }
}

/// Classify one readiness event against the listener's token.
pub fn classify_event(listener_token: usize, ev: &EventInfo) -> (p: EventPlan)
    ensures
        p == spec_event_plan(listener_token, *ev),
{
    EventPlan {
        teardown: ev.error,
        accept: !ev.error && ev.readable && ev.token == listener_token,
        read: !ev.error && ev.readable && ev.token != listener_token,
        write: !ev.error && ev.writable,
    }
}

/// The outcome of one `accept` call on the listening socket.
#[derive(Debug, PartialEq, Eq)]
pub enum AcceptOutcome {
    /// A client was handed over; the caller allocates it a token.
    Accepted,
    /// Every waiting client is taken; the cycle is done.
    WouldBlock,
    /// The accept failed some other way; accepting stops for this cycle.
    Fault,
}

/// Whether the accept loop keeps going after one outcome: only an accepted
/// stream does. Would-block means the listener is drained, as the
/// edge-triggered poller requires; any other failure also ends the cycle.
pub fn accept_again(r: &AcceptOutcome) -> (b: bool)
    ensures
        b == (*r == AcceptOutcome::Accepted),
{
    match r {
        AcceptOutcome::Accepted => true,
        AcceptOutcome::WouldBlock => false,
        AcceptOutcome::Fault => false,
    }
}

/// After the whole event batch is processed, retire every token scheduled
/// for teardown: each is removed from the registry (its poller
/// registration is taken down by the caller, which owns the poller).
/// Tokens already free, or never allocated, are skipped harmlessly, and no
/// unscheduled slot is touched.
pub fn retire_scheduled<H>(ctx: &mut Context<H>, tokens: &Vec<usize>)
    requires
        old(ctx).wf(),
    ensures
        final(ctx).wf(),
        final(ctx).capacity == old(ctx).capacity,
        final(ctx).handler == old(ctx).handler,
        forall|i: int| 0 <= i < tokens@.len() ==> !final(ctx).live(tokens@[i]),
        forall|j: int|
            0 <= j < old(ctx).conns@.len() && !tokens@.contains(j as usize) ==> final(ctx).conns@[j] == old(ctx).conns@[j],
        final(ctx).conns@.len() == old(ctx).conns@.len(),
{
    let n = tokens.len();
    let mut i: usize = 0;
    while i < n
        invariant
            old(ctx).wf(),
            ctx.wf(),
            n == tokens@.len(),
            i <= n,
            ctx.capacity == old(ctx).capacity,
            ctx.handler == old(ctx).handler,
            ctx.conns@.len() == old(ctx).conns@.len(),
            forall|k: int| 0 <= k < i ==> !ctx.live(tokens@[k]),
            forall|j: int|
                0 <= j < old(ctx).conns@.len() && !tokens@.take(i as int).contains(j as usize)
                    ==> ctx.conns@[j] == old(ctx).conns@[j],
        decreases n - i,
    {
        let t = tokens[i];
        let ghost pre_ctx = *ctx;
        ctx.remove_client(t);
        proof {
            assert forall|j: int|
                0 <= j < pre_ctx.conns@.len() && j != t as int implies ctx.conns@[j]
                == pre_ctx.conns@[j] by {
                if (t as int) < pre_ctx.conns@.len() {
                    assert(ctx.conns@ == pre_ctx.conns@.update(t as int, None));
                }
            }
            assert forall|k: int| 0 <= k < i + 1 implies !ctx.live(tokens@[k]) by {
                let tk = tokens@[k];
                if k < i {
                    assert(!pre_ctx.live(tk));
                    if tk != t && (tk as int) < pre_ctx.conns@.len() {
                        assert(ctx.conns@[tk as int] == pre_ctx.conns@[tk as int]);
                    }
                } else {
                    assert(!ctx.live(t));
                }
            }
            assert forall|j: int|
                0 <= j < old(ctx).conns@.len() && !tokens@.take(i + 1).contains(j as usize)
                    implies ctx.conns@[j] == old(ctx).conns@[j] by {
                assert(!tokens@.take(i as int).contains(j as usize)) by {
                    if tokens@.take(i as int).contains(j as usize) {
                        let w = choose|w: int|
                            0 <= w < i && tokens@.take(i as int)[w] == j as usize;
                        assert(tokens@.take(i + 1)[w] == j as usize);
                    }
                };
                assert(tokens@.take(i + 1)[i as int] == tokens@[i as int]);
                assert(j as usize != t);
                assert(pre_ctx.conns@[j] == old(ctx).conns@[j]);
            }
        }
        i += 1;
    }
    proof {
        assert(tokens@.take(n as int) =~= tokens@);
    }
}

} // verus!
