//! The session state machine: a client-side handle to one control-socket
//! connection is either detached (the initial state after `open`) or
//! attached (receiving unsolicited notifications).
//!
//! The two states are two types, so that a transition consumes the old
//! state and there is never a window with two live handles: the embedding
//! application wraps [`DetachedSession`] or [`AttachedSession`] together
//! with the socket it owns.  The `ATTACH` / `DETACH` handshakes are
//! ordinary commands on the wire; their replies are judged here, against
//! the daemon-defined literal success text `"OK\n"`.
//!
//! An attached session owns the pending queue: notifications that arrived
//! while a command was in flight, in strict arrival order, held until
//! `recv` consumes them.

use std::collections::VecDeque;
use vstd::prelude::*;

use crate::error::Error;
use crate::text::str_eq;

verus! {

/// The abstract state of a session: which of the two states it is in and,
/// when attached, the pending notifications in arrival order.
#[verifier::ext_equal]
pub enum SessionView {
    Detached,
    Attached { pending: Seq<Seq<char>> },
}

/// The literal reply with which the daemon acknowledges `ATTACH` and
/// `DETACH`.
pub open spec fn ok_reply() -> Seq<char> {
    "OK\n"@
}

/// The state a fresh `open` produces.
pub open spec fn spec_open_state() -> SessionView {
    SessionView::Detached
}

/// The attach transition, as a function of the handshake's reply: exactly
/// the literal success text enters the attached state, with nothing
/// pending; any other reply is an attach error.
pub open spec fn spec_attach(reply: Seq<char>) -> Result<SessionView, Error> {
    if reply == ok_reply() {
        Ok(SessionView::Attached { pending: Seq::empty() })
    } else {
        Err(Error::Attach)
    }
}

/// The detach transition, as a function of the handshake's reply: exactly
/// the literal success text returns to the detached state, discarding any
/// still-pending notifications; any other reply is a detach error.
pub open spec fn spec_detach(reply: Seq<char>) -> Result<SessionView, Error> {
    if reply == ok_reply() {
        Ok(SessionView::Detached)
    } else {
        Err(Error::Detach)
    }
}

/// A successful attach followed by a successful detach ends in exactly the
/// state a fresh `open` produces, whatever notifications were pending in
/// between: a detached session's behaviour is a function of its state, so
/// the round trip is behaviourally a fresh session.
pub proof fn lemma_attach_detach_round_trip()
    ensures
        spec_attach(ok_reply()) == Ok::<SessionView, Error>(
            SessionView::Attached { pending: Seq::empty() },
        ),
        spec_detach(ok_reply()) == Ok::<SessionView, Error>(spec_open_state()),
{
}

/// The protocol state of a detached session.  Beyond being detached it has
/// none: the socket and its bound path live with the embedding application.
#[derive(Debug)]
pub struct DetachedSession;

/// The protocol state of an attached session: the queue of notifications
/// received incidentally during request/response calls, oldest first.
#[derive(Debug)]
pub struct AttachedSession {
    pending: VecDeque<String>,
}

impl View for DetachedSession {
    type V = SessionView;

    open spec fn view(&self) -> SessionView {
        SessionView::Detached
    }
}

impl View for AttachedSession {
    type V = SessionView;

    closed spec fn view(&self) -> SessionView {
        SessionView::Attached { pending: self.pending@.map_values(|s: String| s@) }
    }
}

/// The pending queue of an abstract session state; a detached session has
/// nothing pending.
pub open spec fn spec_pending(v: SessionView) -> Seq<Seq<char>> {
    match v {
        SessionView::Detached => Seq::empty(),
        SessionView::Attached { pending } => pending,
    }
}

impl DetachedSession {
    /// The session state right after a successful `open`.
    pub fn new() -> (r: Self)
        ensures
            r@ == spec_open_state(),
    {
        DetachedSession
    }

    /// Judges the reply of the `ATTACH` handshake, consuming the detached
    /// state.  On the literal success text the session becomes attached
    /// with an empty pending queue; on any other reply the session is
    /// consumed and the caller must re-open.
    pub fn attach_reply(self, reply: &str) -> (r: Result<AttachedSession, Error>)
        ensures
            match r {
                Ok(a) => spec_attach(reply@) == Ok::<SessionView, Error>(a@),
                Err(e) => spec_attach(reply@) == Err::<SessionView, Error>(e),
            },
    {
        if str_eq(reply, "OK\n") {
            let a = AttachedSession { pending: VecDeque::new() };
            proof {
                assert(a@->Attached_pending =~= Seq::<Seq<char>>::empty());
                assert(a@ =~= SessionView::Attached { pending: Seq::empty() });
            }
            Ok(a)
        } else {
            Err(Error::Attach)
        }
    }
}

impl AttachedSession {
    /// Judges the reply of the `DETACH` handshake, consuming the attached
    /// state.  On the literal success text the session is detached again
    /// and whatever was still pending is discarded; on any other reply the
    /// session is consumed and the caller must re-open.
    pub fn detach_reply(self, reply: &str) -> (r: Result<DetachedSession, Error>)
        ensures
            match r {
                Ok(d) => spec_detach(reply@) == Ok::<SessionView, Error>(d@),
                Err(e) => spec_detach(reply@) == Err::<SessionView, Error>(e),
            },
    {
        if str_eq(reply, "OK\n") {
            Ok(DetachedSession)
        } else {
            Err(Error::Detach)
        }
    }

    /// Takes the oldest pending notification, if any.  The pending queue is
    /// served strictly first-in first-out, and the caller reads the socket
    /// only when this returns `None`, so a buffered notification is always
    /// delivered before anything newer.
    pub fn pop_pending(&mut self) -> (r: Option<String>)
        ensures
            match r {
                Some(s) => spec_pending(old(self)@).len() > 0 && s@ == spec_pending(old(self)@)[0]
                    && spec_pending(final(self)@) == spec_pending(old(self)@).drop_first(),
                None => spec_pending(old(self)@).len() == 0 && final(self)@ == old(self)@,
            },
    {
        let r = self.pending.pop_front();
        proof {
            if r is Some {
                assert(spec_pending(self@) =~= spec_pending(old(self)@).drop_first());
            } else {
                assert(spec_pending(self@) =~= spec_pending(old(self)@));
                assert(self@ =~= old(self)@);
            }
        }
        r
    }

    /// Appends the notifications one exchange routed aside to the tail of
    /// the pending queue, preserving arrival order.
    pub fn absorb(&mut self, notes: Vec<String>)
        ensures
            spec_pending(final(self)@) == spec_pending(old(self)@) + notes@.map_values(
                |s: String| s@,
            ),
    {
        let n = notes.len();
        let mut i: usize = 0;
        while i < n
            invariant
                n == notes@.len(),
                0 <= i <= n,
                spec_pending(self@) =~= spec_pending(old(self)@) + notes@.take(i as int).map_values(
                    |s: String| s@,
                ),
            decreases n - i,
        {
            let s = notes[i].clone();
            let ghost pre = self.pending@;
            self.pending.push_back(s);
            proof {
                assert(self.pending@ == pre.push(notes@[i as int]));
                assert(self.pending@.map_values(|s: String| s@) =~= pre.map_values(
                    |s: String| s@,
                ).push(notes@[i as int]@));
                assert(notes@.take(i + 1).map_values(|s: String| s@) =~= notes@.take(
                    i as int,
                ).map_values(|s: String| s@).push(notes@[i as int]@));
                assert(spec_pending(self@) =~= spec_pending(old(self)@) + notes@.take(
                    i + 1,
                ).map_values(|s: String| s@));
            }
            i += 1;
        }
        proof {
            assert(notes@.take(n as int) =~= notes@);
            assert(spec_pending(self@) =~= spec_pending(old(self)@) + notes@.map_values(
                |s: String| s@,
            ));
        }
    }

    /// How many notifications are pending.
    pub fn pending_len(&self) -> (r: usize)
        ensures
            r == spec_pending(self@).len(),
    {
        self.pending.len()
    }
}

} // verus!
