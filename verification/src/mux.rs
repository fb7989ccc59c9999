//! The request/response multiplexer: the protocol-correctness core.
//!
//! The daemon interleaves unsolicited status notifications with command
//! replies on one socket; the only distinguishing signal is the leading
//! sentinel character `<`.  One command exchange is therefore a loop: send
//! the command, then receive datagrams one by one, routing each notification
//! aside and stopping at the first non-notification datagram, which is the
//! reply.
//!
//! [`Exchange`] is that loop's state.  The embedding application performs
//! the socket calls and feeds each receive outcome into
//! [`Exchange::on_recv`]; every classification and routing decision is made
//! and verified here, against the abstract machine [`mux_step`] /
//! [`mux_run`].

use vstd::prelude::*;
use vstd::string::*;
use vstd::utf8::{decode_utf8, valid_utf8};

use crate::error::Error;

verus! {

/// A datagram is a notification exactly when its first character is the
/// sentinel `<`.
pub open spec fn spec_is_notification(s: Seq<char>) -> bool {
    s.len() > 0 && s[0] == '<'
}

/// Relies on `core::str::from_utf8`: it returns `Ok` exactly on valid UTF-8
/// input, and the returned slice is the decoding of those bytes.
#[verifier::external_body]
fn bytes_to_str(b: &[u8]) -> (r: Result<&str, core::str::Utf8Error>)
    ensures
        r is Ok <==> valid_utf8(b@),
        r matches Ok(s) ==> s@ == decode_utf8(b@),
{
    core::str::from_utf8(b)
}

/// Classifies one decoded datagram by the framing rule.
pub fn is_notification(s: &str) -> (r: bool)
    ensures
        r == spec_is_notification(s@),
{
    if s.is_empty() {
        false
    } else {
        s.get_char(0) == '<'
    }
}

/// Decodes one received datagram as UTF-8 text.  Every datagram of the wire
/// protocol is text; a datagram that is not valid UTF-8 is a decode error.
pub fn decode_datagram(data: &[u8]) -> (r: Result<String, Error>)
    ensures
        valid_utf8(data@) ==> (r matches Ok(s) && s@ == decode_utf8(data@)),
        !valid_utf8(data@) ==> (r matches Err(e) && e is Utf8ToStr),
{
    match bytes_to_str(data) {
        Ok(s) => Ok(s.to_owned()),
        Err(e) => Err(Error::Utf8ToStr(e)),
    }
}

/// The abstract state of one exchange: the notifications routed so far, in
/// arrival order, and the reply once it has arrived.
#[verifier::ext_equal]
pub struct ExchangeView {
    pub notifications: Seq<Seq<char>>,
    pub reply: Option<Seq<char>>,
}

/// The state of an exchange that has not yet seen any datagram.
pub open spec fn empty_exchange() -> ExchangeView {
    ExchangeView { notifications: Seq::empty(), reply: None }
}

/// One step of the multiplexer on one decoded datagram: before the reply
/// has arrived, a notification is appended to the routed sequence and
/// anything else becomes the reply; after the reply nothing changes.
pub open spec fn mux_step(st: ExchangeView, d: Seq<char>) -> ExchangeView {
    if st.reply is Some {
        st
    } else if spec_is_notification(d) {
        ExchangeView { notifications: st.notifications.push(d), reply: st.reply }
    } else {
        ExchangeView { notifications: st.notifications, reply: Some(d) }
    }
}

/// The multiplexer run over a sequence of decoded datagrams, in arrival
/// order.
pub open spec fn mux_run(st: ExchangeView, ds: Seq<Seq<char>>) -> ExchangeView
    decreases ds.len(),
{
    if ds.len() == 0 {
        st
    } else {
        mux_run(mux_step(st, ds[0]), ds.drop_first())
    }
}

/// The framing rule, as a law of one step: a datagram whose first character
/// is `<` is routed to the notification sequence and never becomes the
/// reply; any other datagram becomes the reply and routing stops.
pub proof fn lemma_mux_framing(st: ExchangeView, d: Seq<char>)
    requires
        st.reply is None,
    ensures
        spec_is_notification(d) ==> mux_step(st, d).notifications == st.notifications.push(d)
            && mux_step(st, d).reply is None,
        !spec_is_notification(d) ==> mux_step(st, d).notifications == st.notifications && mux_step(
            st,
            d,
        ).reply == Some(d),
{
}

proof fn lemma_mux_run_prefix(st: ExchangeView, ds: Seq<Seq<char>>, n: int)
    requires
        st.reply is None,
        0 <= n < ds.len(),
        forall|i: int| 0 <= i < n ==> spec_is_notification(ds[i]),
        !spec_is_notification(ds[n]),
    ensures
        mux_run(st, ds.take(n + 1)) == (ExchangeView {
            notifications: st.notifications + ds.take(n),
            reply: Some(ds[n]),
        }),
    decreases n,
{
    let pre = ds.take(n + 1);
    if n == 0 {
        assert(pre.len() == 1 && pre[0] == ds[0]);
        assert(pre.drop_first() =~= Seq::<Seq<char>>::empty());
        assert(st.notifications + ds.take(0) =~= st.notifications);
        assert(mux_run(mux_step(st, ds[0]), Seq::<Seq<char>>::empty()) == mux_step(st, ds[0]));
        assert(mux_run(st, pre) == mux_step(st, ds[0]));
    } else {
        let st1 = mux_step(st, ds[0]);
        assert(st1.notifications =~= st.notifications.push(ds[0]));
        let rest = ds.drop_first();
        assert(forall|i: int| 0 <= i < n - 1 ==> rest[i] == ds[i + 1] && spec_is_notification(
            ds[i + 1],
        ));
        assert(rest[n - 1] == ds[n]);
        lemma_mux_run_prefix(st1, rest, n - 1);
        assert(pre.drop_first() =~= rest.take(n));
        assert(mux_run(st, pre) == mux_run(st1, rest.take(n)));
        assert(st1.notifications + rest.take(n - 1) =~= st.notifications + ds.take(n));
    }
}

/// The ordering law of a whole exchange: when `n` notifications arrive on
/// the wire followed by one non-notification datagram, the run routes
/// exactly those `n` notifications, in arrival order, and returns the
/// `n + 1`-th datagram as the reply.
pub proof fn lemma_mux_ordering(ds: Seq<Seq<char>>, n: int)
    requires
        0 <= n < ds.len(),
        forall|i: int| 0 <= i < n ==> spec_is_notification(ds[i]),
        !spec_is_notification(ds[n]),
    ensures
        mux_run(empty_exchange(), ds.take(n + 1)).notifications == ds.take(n),
        mux_run(empty_exchange(), ds.take(n + 1)).reply == Some(ds[n]),
{
    lemma_mux_run_prefix(empty_exchange(), ds, n);
    assert(empty_exchange().notifications + ds.take(n) =~= ds.take(n));
}

/// What one readiness wait on the socket produced, as reported by the
/// embedding application.
#[derive(Clone, Copy, Debug, PartialEq, Eq, Structural)]
pub enum WaitOutcome {
    /// The socket became readable within the wait's duration.
    Ready,
    /// The duration elapsed with no data.
    TimedOut,
    /// The wait was interrupted.
    Interrupted,
    /// The wait primitive failed for any other reason.
    Failed,
}

/// What the request loop does after one readiness wait.
#[derive(Clone, Copy, Debug, PartialEq, Eq, Structural)]
pub enum WaitStep {
    /// Go on to the receive attempt.
    Proceed,
    /// Wait again.
    Retry,
}

/// The readiness poller's decision in the request loop: a wait that ends,
/// with data or by timing out, falls through to the receive attempt (a
/// timeout does not by itself end the exchange); an interrupted wait is
/// retried, not reported; any other wait failure is fatal.
pub fn wait_step(ev: WaitOutcome) -> (r: Result<WaitStep, Error>)
    ensures
        ev is Ready ==> r == Ok::<WaitStep, Error>(WaitStep::Proceed),
        ev is TimedOut ==> r == Ok::<WaitStep, Error>(WaitStep::Proceed),
        ev is Interrupted ==> r == Ok::<WaitStep, Error>(WaitStep::Retry),
        ev is Failed ==> r == Err::<WaitStep, Error>(Error::Wait),
{
    match ev {
        WaitOutcome::Ready => Ok(WaitStep::Proceed),
        WaitOutcome::TimedOut => Ok(WaitStep::Proceed),
        WaitOutcome::Interrupted => Ok(WaitStep::Retry),
        WaitOutcome::Failed => Err(Error::Wait),
    }
}

/// What one receive attempt on the socket produced, as reported by the
/// embedding application.
pub enum RecvOutcome {
    /// One whole datagram arrived.
    Datagram(Vec<u8>),
    /// The receive call was interrupted before a datagram arrived.
    Interrupted,
    /// The receive call failed for any other reason.
    Failed(std::io::Error),
}

/// The state of one command exchange: the notifications routed aside so
/// far, in arrival order, and the reply once it has arrived.
pub struct Exchange {
    notifications: Vec<String>,
    reply: Option<String>,
}

impl View for Exchange {
    type V = ExchangeView;

    closed spec fn view(&self) -> ExchangeView {
        ExchangeView {
            notifications: self.notifications@.map_values(|s: String| s@),
            reply: match self.reply {
                Some(s) => Some(s@),
                None => None,
            },
        }
    }
}

impl Exchange {
    /// A fresh exchange, started right after the command datagram was sent.
    pub fn new() -> (r: Self)
        ensures
            r@ == empty_exchange(),
    {
        let e = Exchange { notifications: Vec::new(), reply: None };
        proof {
            assert(e@.notifications =~= empty_exchange().notifications);
            assert(e@ =~= empty_exchange());
        }
        e
    }

    /// Advances the exchange by one receive outcome.  `Ok(true)` means the
    /// reply has arrived and the exchange is finished; `Ok(false)` means
    /// the loop must wait and receive again.  An interrupted receive is
    /// retried without resending; a failed receive or an undecodable
    /// datagram ends the exchange with the corresponding error.
    pub fn on_recv(&mut self, ev: RecvOutcome) -> (r: Result<bool, Error>)
        requires
            old(self)@.reply is None,
        ensures
            match ev {
                RecvOutcome::Datagram(d) => {
                    if valid_utf8(d@) {
                        &&& r matches Ok(done) && done == !spec_is_notification(decode_utf8(d@))
                        &&& final(self)@ == mux_step(old(self)@, decode_utf8(d@))
                    } else {
                        &&& r matches Err(e) && e is Utf8ToStr
                        &&& final(self)@ == old(self)@
                    }
                },
                RecvOutcome::Interrupted => r == Ok::<bool, Error>(false) && final(self)@ == old(
                    self,
                )@,
                RecvOutcome::Failed(e) => r == Err::<bool, Error>(Error::Io(e)) && final(self)@
                    == old(self)@,
            },
    {
        match ev {
            RecvOutcome::Datagram(d) => {
                let text = match bytes_to_str(d.as_slice()) {
                    Ok(s) => s.to_owned(),
                    Err(e) => {
                        return Err(Error::Utf8ToStr(e));
                    },
                };
                if is_notification(text.as_str()) {
                    let ghost pre = self.notifications@.map_values(|s: String| s@);
                    self.notifications.push(text);
                    proof {
                        assert(self.notifications@.map_values(|s: String| s@) =~= pre.push(
                            decode_utf8(d@),
                        ));
                        assert(self@ =~= mux_step(old(self)@, decode_utf8(d@)));
                    }
                    Ok(false)
                } else {
                    self.reply = Some(text);
                    proof {
                        assert(self@ =~= mux_step(old(self)@, decode_utf8(d@)));
                    }
                    Ok(true)
                }
            },
            RecvOutcome::Interrupted => Ok(false),
            RecvOutcome::Failed(e) => Err(Error::Io(e)),
        }
    }

    /// Whether the reply has arrived.
    pub fn is_done(&self) -> (r: bool)
        ensures
            r == (self@.reply is Some),
    {
        self.reply.is_some()
    }

    /// Consumes an exchange that ended in an error, yielding the
    /// notifications it had already routed, in arrival order: an error
    /// ends the command, but nothing observed on the wire before it is
    /// lost.
    pub fn into_notifications(self) -> (r: Vec<String>)
        ensures
            r@.map_values(|s: String| s@) == self@.notifications,
    {
        self.notifications
    }

    /// Consumes a finished exchange, yielding the routed notifications in
    /// arrival order and the reply.
    pub fn into_parts(self) -> (r: (Vec<String>, String))
        requires
            self@.reply is Some,
        ensures
            r.0@.map_values(|s: String| s@) == self@.notifications,
            r.1@ == self@.reply->0,
    {
        let Exchange { notifications, reply } = self;
        (notifications, reply.unwrap())
    }
}

} // verus!
