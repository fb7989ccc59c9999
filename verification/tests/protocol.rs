//! Tests for the multiplexer, the session state machine, the builder's
//! path and collision policy, and the station scan.

use std::cell::RefCell;
use std::rc::Rc;

use wpactrl::builder::BindAttempts;
use wpactrl::hostapd::HostAPD;
use wpactrl::mux::{
    decode_datagram, is_notification, wait_step, Exchange, RecvOutcome, WaitOutcome, WaitStep,
};
use wpactrl::session::{AttachedSession, DetachedSession};
use wpactrl::{ClientBuilder, Error, WPAClient};

fn io_err() -> std::io::Error {
    std::io::Error::new(std::io::ErrorKind::ConnectionRefused, "daemon unreachable")
}

#[test]
fn framing_classification() {
    assert!(is_notification("<3>CTRL-EVENT-SCAN-STARTED "));
    assert!(is_notification("<"));
    assert!(!is_notification("PONG\n"));
    assert!(!is_notification(""));
    assert!(!is_notification("OK\n"));
}

#[test]
fn decode_datagram_utf8() {
    assert_eq!(decode_datagram(b"PONG\n").unwrap().as_str(), "PONG\n");
    let e = decode_datagram(&[0xff, 0xfe]).unwrap_err();
    assert!(matches!(e, Error::Utf8ToStr(_)));
}

#[test]
fn request_ping_pong() {
    // open() then request("PING") answered by one reply datagram
    let mut ex = Exchange::new();
    assert!(!ex.is_done());
    let done = ex.on_recv(RecvOutcome::Datagram(b"PONG\n".to_vec())).unwrap();
    assert!(done);
    assert!(ex.is_done());
    let (notes, reply) = ex.into_parts();
    assert!(notes.is_empty());
    assert_eq!(reply.as_str(), "PONG\n");
}

#[test]
fn notifications_precede_reply_in_order() {
    // two notifications on the wire ahead of the reply reach the sink
    // first, in arrival order
    let mut ex = Exchange::new();
    assert!(!ex.on_recv(RecvOutcome::Datagram(b"<3>first ".to_vec())).unwrap());
    assert!(!ex.on_recv(RecvOutcome::Datagram(b"<3>second ".to_vec())).unwrap());
    assert!(ex.on_recv(RecvOutcome::Datagram(b"OK\n".to_vec())).unwrap());
    let (notes, reply) = ex.into_parts();
    assert_eq!(notes.len(), 2);
    assert_eq!(notes[0].as_str(), "<3>first ");
    assert_eq!(notes[1].as_str(), "<3>second ");
    assert_eq!(reply.as_str(), "OK\n");
}

#[test]
fn interrupted_receive_is_retried() {
    let mut ex = Exchange::new();
    assert!(!ex.on_recv(RecvOutcome::Interrupted).unwrap());
    assert!(!ex.is_done());
    assert!(ex.on_recv(RecvOutcome::Datagram(b"PONG\n".to_vec())).unwrap());
}

#[test]
fn receive_failure_is_fatal() {
    // a request while the daemon is unreachable surfaces an I/O error
    let mut ex = Exchange::new();
    let e = ex.on_recv(RecvOutcome::Failed(io_err())).unwrap_err();
    assert!(matches!(e, Error::Io(_)));
}

#[test]
fn undecodable_datagram_is_a_decode_error() {
    let mut ex = Exchange::new();
    let e = ex.on_recv(RecvOutcome::Datagram(vec![0xc3, 0x28])).unwrap_err();
    assert!(matches!(e, Error::Utf8ToStr(_)));
    assert!(!ex.is_done());
}

#[test]
fn wait_decisions() {
    assert_eq!(wait_step(WaitOutcome::Ready).unwrap(), WaitStep::Proceed);
    assert_eq!(wait_step(WaitOutcome::TimedOut).unwrap(), WaitStep::Proceed);
    assert_eq!(wait_step(WaitOutcome::Interrupted).unwrap(), WaitStep::Retry);
    assert!(matches!(wait_step(WaitOutcome::Failed).unwrap_err(), Error::Wait));
}

#[test]
fn attach_detach_round_trip() {
    // open().attach() with the success reply, then detach(): back to the
    // initial state; a second round works the same
    let s = DetachedSession::new();
    let a = s.attach_reply("OK\n").unwrap();
    let s = a.detach_reply("OK\n").unwrap();
    let a = s.attach_reply("OK\n").unwrap();
    let _s = a.detach_reply("OK\n").unwrap();
}

#[test]
fn attach_rejects_other_replies() {
    let s = DetachedSession::new();
    let e = s.attach_reply("FAIL\n").unwrap_err();
    assert!(matches!(e, Error::Attach));
    let s = DetachedSession::new();
    let e = s.attach_reply("OK").unwrap_err();
    assert!(matches!(e, Error::Attach));
}

#[test]
fn detach_rejects_other_replies() {
    let a = DetachedSession::new().attach_reply("OK\n").unwrap();
    let e = a.detach_reply("UNKNOWN COMMAND\n").unwrap_err();
    assert!(matches!(e, Error::Detach));
}

fn attached_with(notes: &[&str]) -> AttachedSession {
    let mut a = DetachedSession::new().attach_reply("OK\n").unwrap();
    a.absorb(notes.iter().map(|s| s.to_string()).collect());
    a
}

#[test]
fn recv_on_quiescent_daemon_is_empty() {
    // open().attach() then an immediate recv: nothing is pending, so the
    // caller falls through to the zero-wait socket check
    let mut a = DetachedSession::new().attach_reply("OK\n").unwrap();
    assert_eq!(a.pending_len(), 0);
    assert_eq!(a.pop_pending(), None);
}

#[test]
fn recv_drains_buffer_in_fifo_order() {
    let mut a = attached_with(&["<3>one ", "<3>two "]);
    a.absorb(vec!["<3>three ".to_string()]);
    assert_eq!(a.pending_len(), 3);
    assert_eq!(a.pop_pending().as_deref(), Some("<3>one "));
    assert_eq!(a.pop_pending().as_deref(), Some("<3>two "));
    assert_eq!(a.pop_pending().as_deref(), Some("<3>three "));
    assert_eq!(a.pop_pending(), None);
}

#[test]
fn scan_notification_reaches_recv() {
    // attach, request("SCAN") -> "OK\n" with one notification routed
    // aside, then recv() returns it; after the sentinel and the
    // 3-character status field stands the event name
    let mut a = DetachedSession::new().attach_reply("OK\n").unwrap();
    let mut ex = Exchange::new();
    assert!(!ex
        .on_recv(RecvOutcome::Datagram(b"<3>CTRL-EVENT-SCAN-STARTED ".to_vec()))
        .unwrap());
    assert!(ex.on_recv(RecvOutcome::Datagram(b"OK\n".to_vec())).unwrap());
    let (notes, reply) = ex.into_parts();
    assert_eq!(reply.as_str(), "OK\n");
    a.absorb(notes);
    let n = a.pop_pending().unwrap();
    assert_eq!(&n[3..], "CTRL-EVENT-SCAN-STARTED ");
}

#[test]
fn detach_discards_pending() {
    let a = attached_with(&["<3>unread "]);
    let s = a.detach_reply("OK\n").unwrap();
    let mut a = s.attach_reply("OK\n").unwrap();
    assert_eq!(a.pending_len(), 0);
    assert_eq!(a.pop_pending(), None);
}

#[test]
fn builder_default_paths() {
    let b = ClientBuilder::default();
    assert_eq!(b.bind_path(123, 5).as_str(), "/tmp/wpa_ctrl_123-5");
    assert_eq!(b.daemon_path().as_str(), "/var/run/wpa_supplicant/wlan0");
}

#[test]
fn builder_overridden_paths() {
    let b = ClientBuilder::default()
        .cli_path("/run/wpa_test")
        .ctrl_path("/var/run/hostapd/wlan1");
    assert_eq!(b.bind_path(1, 0).as_str(), "/run/wpa_test/wpa_ctrl_1-0");
    assert_eq!(b.daemon_path().as_str(), "/var/run/hostapd/wlan1");
}

#[test]
fn concurrent_opens_bind_distinct_paths() {
    // two opens in one process draw distinct counter values
    let b = ClientBuilder::default();
    let p0 = b.bind_path(4242, 0);
    let p1 = b.bind_path(4242, 1);
    assert_ne!(p0, p1);
}

#[test]
fn bind_collision_is_retried_exactly_once() {
    let mut attempts = BindAttempts::new();
    assert!(attempts.on_collision());
    assert!(!attempts.on_collision());
    assert!(!attempts.on_collision());
}

struct ScriptedClient {
    replies: Vec<String>,
    next: usize,
    calls: Rc<RefCell<Vec<String>>>,
}

impl WPAClient for ScriptedClient {
    fn request(&mut self, cmd: &str) -> Result<String, Error> {
        self.calls.borrow_mut().push(cmd.to_string());
        if self.next < self.replies.len() {
            let r = self.replies[self.next].clone();
            self.next += 1;
            Ok(r)
        } else {
            Err(Error::Io(io_err()))
        }
    }
}

#[test]
fn get_stations_walks_the_table() {
    let calls = Rc::new(RefCell::new(Vec::new()));
    let client = ScriptedClient {
        replies: vec![
            "02:00:00:00:01:00\ndot1xPaePortNumber=1".to_string(),
            "02:00:00:00:02:00\ndot1xPaePortNumber=2".to_string(),
            String::new(),
        ],
        next: 0,
        calls: Rc::clone(&calls),
    };
    let mut hostapd = HostAPD::new(client);
    let stations = hostapd.get_stations().unwrap().unwrap();
    // the empty reply that ends the walk is still read, into an empty map
    assert_eq!(stations.len(), 3);
    assert_eq!(stations[0].get("dot1xPaePortNumber").as_deref(), Some("1"));
    assert_eq!(stations[1].get("dot1xPaePortNumber").as_deref(), Some("2"));
    assert_eq!(stations[2].get("dot1xPaePortNumber"), None);
    assert_eq!(
        calls.borrow().as_slice(),
        &[
            "STA-FIRST".to_string(),
            "STA-NEXT 02:00:00:00:01:00".to_string(),
            "STA-NEXT 02:00:00:00:02:00".to_string(),
        ]
    );
}

#[test]
fn get_stations_empty_table() {
    let client = ScriptedClient {
        replies: vec![String::new()],
        next: 0,
        calls: Rc::new(RefCell::new(Vec::new())),
    };
    let mut hostapd = HostAPD::new(client);
    assert!(hostapd.get_stations().unwrap().is_none());
}

#[test]
fn get_stations_propagates_errors() {
    let client = ScriptedClient {
        replies: Vec::new(),
        next: 0,
        calls: Rc::new(RefCell::new(Vec::new())),
    };
    let mut hostapd = HostAPD::new(client);
    assert!(matches!(hostapd.get_stations().unwrap_err(), Error::Io(_)));
}

#[test]
fn error_messages() {
    assert_eq!(
        Error::Attach.message().as_str(),
        "Failed to attach to wpasupplicant"
    );
    assert_eq!(
        Error::Detach.message().as_str(),
        "Failed to detach from wpasupplicant"
    );
    assert_eq!(
        Error::Wait.message().as_str(),
        "Unable to wait for response from wpasupplicant"
    );
    assert_eq!(
        Error::Io(io_err()).message().as_str(),
        "Failed to execute the specified command"
    );
}
