//! The endpoint builder: resolves the two filesystem paths an `open` needs
//! and decides the bind-with-retry policy.
//!
//! A client binds a private datagram socket to
//! `<dir>/wpa_ctrl_<pid>-<counter>` and connects it to the daemon's
//! well-known socket path.  The filename is derived from the process id
//! and a per-process counter, so concurrent opens in one process bind
//! distinct paths ([`lemma_bind_paths_distinct`]).  If the bind fails
//! because the file already exists, the stale file is deleted and the bind
//! retried exactly once; a second collision is fatal.  The embedding
//! application performs the bind, connect and delete calls themselves.

use vstd::prelude::*;
use vstd::string::*;

use crate::digits::{lemma_u64_dec_injective, spec_u64_dec, u64_dec};

verus! {

/// The default directory for the client's own socket file.
pub open spec fn spec_default_cli_dir() -> Seq<char> {
    "/tmp"@
}

/// The default path of the daemon's socket.
pub open spec fn spec_default_ctrl_path() -> Seq<char> {
    "/var/run/wpa_supplicant/wlan0"@
}

/// The locally-unique filename of one open attempt, derived from the
/// process identity and the per-process counter.
pub open spec fn spec_bind_filename(pid: nat, counter: nat) -> Seq<char> {
    "wpa_ctrl_"@ + spec_u64_dec(pid) + "-"@ + spec_u64_dec(counter)
}

/// The full path the attempt binds: the client directory joined with the
/// generated filename.
pub open spec fn spec_bind_path(dir: Seq<char>, pid: nat, counter: nat) -> Seq<char> {
    dir + "/"@ + spec_bind_filename(pid, counter)
}

/// Within one process and directory, distinct counter values always give
/// distinct bind paths, so two concurrent opens never race for one file.
pub proof fn lemma_bind_paths_distinct(dir: Seq<char>, pid: nat, c1: nat, c2: nat)
    requires
        c1 != c2,
    ensures
        spec_bind_path(dir, pid, c1) != spec_bind_path(dir, pid, c2),
{
    let a = dir + "/"@ + "wpa_ctrl_"@ + spec_u64_dec(pid) + "-"@;
    assert(spec_bind_path(dir, pid, c1) =~= a + spec_u64_dec(c1));
    assert(spec_bind_path(dir, pid, c2) =~= a + spec_u64_dec(c2));
    lemma_u64_dec_injective(c1, c2);
    if spec_bind_path(dir, pid, c1) == spec_bind_path(dir, pid, c2) {
        assert((a + spec_u64_dec(c1)).skip(a.len() as int) =~= spec_u64_dec(c1));
        assert((a + spec_u64_dec(c2)).skip(a.len() as int) =~= spec_u64_dec(c2));
        assert(false);
    }
}

/// Builder object used to construct a session: optional overrides for the
/// client's bind directory and the daemon's socket path.
pub struct ClientBuilder {
    cli_path: Option<String>,
    ctrl_path: Option<String>,
}

impl Default for ClientBuilder {
    /// A builder with both paths left at their defaults.
    fn default() -> (r: Self)
        ensures
            r.spec_cli_path() is None,
            r.spec_ctrl_path() is None,
    {
        ClientBuilder { cli_path: None, ctrl_path: None }
    }
}

impl ClientBuilder {
    /// The configured client directory override, if any.
    pub closed spec fn spec_cli_path(&self) -> Option<Seq<char>> {
        match self.cli_path {
            Some(ref s) => Some(s@),
            None => None,
        }
    }

    /// The configured daemon path override, if any.
    pub closed spec fn spec_ctrl_path(&self) -> Option<Seq<char>> {
        match self.ctrl_path {
            Some(ref s) => Some(s@),
            None => None,
        }
    }

    /// The directory the client's socket file is bound in: the configured
    /// override, or the default.
    pub open spec fn spec_cli_dir(&self) -> Seq<char> {
        match self.spec_cli_path() {
            Some(d) => d,
            None => spec_default_cli_dir(),
        }
    }

    /// A path for the directory that holds this application's own UNIX
    /// domain socket file.
    pub fn cli_path(self, cli_path: &str) -> (r: Self)
        ensures
            r.spec_cli_path() == Some(cli_path@),
            r.spec_ctrl_path() == self.spec_ctrl_path(),
    {
        ClientBuilder { cli_path: Some(cli_path.to_owned()), ctrl_path: self.ctrl_path }
    }

    /// A path for the `wpa_supplicant` / `hostapd` UNIX domain socket.
    pub fn ctrl_path(self, ctrl_path: &str) -> (r: Self)
        ensures
            r.spec_ctrl_path() == Some(ctrl_path@),
            r.spec_cli_path() == self.spec_cli_path(),
    {
        ClientBuilder { cli_path: self.cli_path, ctrl_path: Some(ctrl_path.to_owned()) }
    }

    /// The path one open attempt binds, for the given process identity and
    /// counter value.  The same path is bound again after a collision's
    /// cleanup: the retry re-uses the filename, it does not generate a new
    /// one.
    pub fn bind_path(&self, pid: u32, counter: u64) -> (r: String)
        ensures
            r@ == spec_bind_path(self.spec_cli_dir(), pid as nat, counter as nat),
    {
        let mut out: String = match &self.cli_path {
            Some(d) => d.clone(),
            None => "/tmp".to_owned(),
        };
        out.append("/");
        out.append("wpa_ctrl_");
        let pid_s = u64_dec(pid as u64);
        out.append(pid_s.as_str());
        out.append("-");
        let counter_s = u64_dec(counter);
        out.append(counter_s.as_str());
        proof {
            assert(out@ =~= spec_bind_path(self.spec_cli_dir(), pid as nat, counter as nat));
        }
        out
    }

    /// The daemon socket path the client connects to: the configured
    /// override, or the default.
    pub fn daemon_path(&self) -> (r: String)
        ensures
            r@ == (match self.spec_ctrl_path() {
                Some(p) => p,
                None => spec_default_ctrl_path(),
            }),
    {
        match &self.ctrl_path {
            Some(p) => p.clone(),
            None => "/var/run/wpa_supplicant/wlan0".to_owned(),
        }
    }
}

/// The collision policy of one `open` call: after the first bind that
/// fails because the filename is already in use, the stale file is deleted
/// and the bind retried once more; a second collision is a fatal error.
pub struct BindAttempts {
    collisions: u8,
}

impl BindAttempts {
    /// How many collisions this open attempt has seen.
    pub closed spec fn spec_collisions(&self) -> u8 {
        self.collisions
    }

    /// A fresh open attempt: no collision seen yet.
    pub fn new() -> (r: Self)
        ensures
            r.spec_collisions() == 0,
    {
        BindAttempts { collisions: 0 }
    }

    /// Decides what to do when the bind fails with "address in use": `true`
    /// exactly on the first collision, telling the caller to delete the
    /// stale file and bind the same path once more; on the second
    /// collision, `false`, and the open fails with the bind's error.
    pub fn on_collision(&mut self) -> (retry: bool)
        ensures
            retry == (old(self).spec_collisions() == 0),
            final(self).spec_collisions() == (if old(self).spec_collisions() == 0 {
                1u8
            } else {
                old(self).spec_collisions()
            }),
    {
        if self.collisions == 0 {
            self.collisions = 1;
            true
        } else {
            false
        }
    }
}

} // verus!
