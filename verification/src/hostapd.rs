//! Readers for `hostapd` MIB and station records.
//!
//! The daemon's replies to `MIB`, `STA-FIRST` and `STA-NEXT` are
//! `key=value` lines; [`Station::key_value`] turns one such reply into a
//! [`MibVars`] map, and the [`MIBVariables`] implementations read typed
//! records out of that map.  Every reader's outcome, including which error
//! it fails with, is pinned to the map's contents.

use vstd::prelude::*;
use vstd::string::*;

use crate::digits::{parse_i32, parse_i64, spec_parse_int, ParseIntError};
use crate::error::Error;
use crate::mib::{key_value_map, spec_key_value, MibVars};
use crate::text::{first_line, str_eq};
use crate::WPAClient;

verus! {

/// The error of [`parse_bool`]: the text is neither `true` nor `false`.
#[derive(Clone, Copy, Debug, PartialEq, Eq, Structural)]
pub struct ParseBoolError;

/// The boolean denoted by `s`, written exactly `true` or `false`.
pub open spec fn spec_parse_bool(s: Seq<char>) -> Option<bool> {
    if s == "true"@ {
        Some(true)
    } else if s == "false"@ {
        Some(false)
    } else {
        None
    }
}

/// Parses `s` as Rust's `bool::from_str` does: exactly `true` or `false`.
pub fn parse_bool(s: &str) -> (r: Result<bool, ParseBoolError>)
    ensures
        match r {
            Ok(b) => spec_parse_bool(s@) == Some(b),
            Err(e) => spec_parse_bool(s@) is None,
        },
{
    if str_eq(s, "true") {
        Ok(true)
    } else if str_eq(s, "false") {
        Ok(false)
    } else {
        Err(ParseBoolError)
    }
}

/// The errors of reading a typed record out of a MIB map.
#[derive(Debug)]
pub enum HostAPDError {
    /// A required key is absent from the record.
    MissingKey(&'static str),
    /// A value is not a well-formed integer of the field's type.
    ParseIntError(ParseIntError),
    /// A value is not a well-formed boolean.
    ParseBoolError(ParseBoolError),
}

/// The raw text bound to `key`, or the missing-key error.
pub open spec fn spec_read_key(vals: &MibVars, key: &'static str) -> Result<
    Seq<char>,
    HostAPDError,
> {
    match vals.spec_get(key@) {
        Some(v) => Ok(v),
        None => Err(HostAPDError::MissingKey(key)),
    }
}

/// The outcome of reading the value bound to `key` as an `i32`.
pub open spec fn spec_read_i32(vals: &MibVars, key: &'static str) -> Result<i32, HostAPDError> {
    match vals.spec_get(key@) {
        None => Err(HostAPDError::MissingKey(key)),
        Some(v) => match spec_parse_int(v) {
            None => Err(HostAPDError::ParseIntError(ParseIntError::Invalid)),
            Some(n) => if n < i32::MIN || n > i32::MAX {
                Err(HostAPDError::ParseIntError(ParseIntError::OutOfRange))
            } else {
                Ok(n as i32)
            },
        },
    }
}

/// The outcome of reading the value bound to `key` as an `i64`.
pub open spec fn spec_read_i64(vals: &MibVars, key: &'static str) -> Result<i64, HostAPDError> {
    match vals.spec_get(key@) {
        None => Err(HostAPDError::MissingKey(key)),
        Some(v) => match spec_parse_int(v) {
            None => Err(HostAPDError::ParseIntError(ParseIntError::Invalid)),
            Some(n) => if n < i64::MIN || n > i64::MAX {
                Err(HostAPDError::ParseIntError(ParseIntError::OutOfRange))
            } else {
                Ok(n as i64)
            },
        },
    }
}

/// The outcome of reading the value bound to `key` as a boolean.
pub open spec fn spec_read_bool(vals: &MibVars, key: &'static str) -> Result<bool, HostAPDError> {
    match vals.spec_get(key@) {
        None => Err(HostAPDError::MissingKey(key)),
        Some(v) => match spec_parse_bool(v) {
            None => Err(HostAPDError::ParseBoolError(ParseBoolError)),
            Some(b) => Ok(b),
        },
    }
}

fn fetchkey(map: &MibVars, key: &'static str) -> (r: Result<String, HostAPDError>)
    ensures
        match r {
            Ok(v) => spec_read_key(map, key) == Ok::<Seq<char>, HostAPDError>(v@),
            Err(e) => spec_read_key(map, key) == Err::<Seq<char>, HostAPDError>(e),
        },
{
    match map.get(key) {
        Some(val) => Ok(val),
        None => Err(HostAPDError::MissingKey(key)),
    }
}

fn read_i32(vals: &MibVars, key: &'static str) -> (r: Result<i32, HostAPDError>)
    ensures
        r == spec_read_i32(vals, key),
{
    let v = match fetchkey(vals, key) {
        Ok(v) => v,
        Err(e) => {
            return Err(e);
        },
    };
    match parse_i32(v.as_str()) {
        Ok(n) => Ok(n),
        Err(e) => Err(HostAPDError::ParseIntError(e)),
    }
}

fn read_i64(vals: &MibVars, key: &'static str) -> (r: Result<i64, HostAPDError>)
    ensures
        r == spec_read_i64(vals, key),
{
    let v = match fetchkey(vals, key) {
        Ok(v) => v,
        Err(e) => {
            return Err(e);
        },
    };
    match parse_i64(v.as_str()) {
        Ok(n) => Ok(n),
        Err(e) => Err(HostAPDError::ParseIntError(e)),
    }
}

fn read_bool(vals: &MibVars, key: &'static str) -> (r: Result<bool, HostAPDError>)
    ensures
        r == spec_read_bool(vals, key),
{
    let v = match fetchkey(vals, key) {
        Ok(v) => v,
        Err(e) => {
            return Err(e);
        },
    };
    match parse_bool(v.as_str()) {
        Ok(b) => Ok(b),
        Err(e) => Err(HostAPDError::ParseBoolError(e)),
    }
}

/// A typed record that can be read out of a MIB key/value map.
pub trait MIBVariables where Self: Sized {
    /// The error the reading can fail with.
    type Error;

    /// Whether `r` is the exact outcome of reading `vals` as this type:
    /// each implementation pins both the success value and the error.
    spec fn spec_mib_read(vals: &MibVars, r: Result<Self, Self::Error>) -> bool;

    /// Reads a value of this type out of a record's key/value map.
    fn from_mib_vars(vals: &MibVars) -> (r: Result<Self, Self::Error>)
        ensures
            Self::spec_mib_read(vals, r),
    ;
}

#[derive(Debug, Clone)]
#[allow(non_snake_case)]
pub struct BackendAuth {
    pub State: u8,
    pub Fails: u8,
    pub Successes: u8,
}

/// port access entity
#[derive(Debug, Clone)]
pub struct PAE {
    pub port_number: i32,
    pub port_protocol_version: i32,
    pub port_capabilities: i32,
    pub port_initialize: i32,
    pub port_reauthenticate: bool,
}

impl MIBVariables for PAE {
    type Error = HostAPDError;

    open spec fn spec_mib_read(vals: &MibVars, r: Result<PAE, HostAPDError>) -> bool {
        match spec_read_i32(vals, "dot1xPaePortNumber") {
            Err(e) => r == Err::<PAE, HostAPDError>(e),
            Ok(port_number) => match spec_read_i32(vals, "dot1xPaePortProtocolVersion") {
                Err(e) => r == Err::<PAE, HostAPDError>(e),
                Ok(ppv) => match spec_read_i32(vals, "dot1xPaePortCapabilities") {
                    Err(e) => r == Err::<PAE, HostAPDError>(e),
                    Ok(pc) => match spec_read_i32(vals, "dot1xPaePortInitialize") {
                        Err(e) => r == Err::<PAE, HostAPDError>(e),
                        Ok(pi) => match spec_read_bool(vals, "dot1xPaePortReauthenticate") {
                            Err(e) => r == Err::<PAE, HostAPDError>(e),
                            Ok(pr) => r == Ok::<PAE, HostAPDError>(
                                PAE {
                                    port_number,
                                    port_protocol_version: ppv,
                                    port_capabilities: pc,
                                    port_initialize: pi,
                                    port_reauthenticate: pr,
                                },
                            ),
                        },
                    },
                },
            },
        }
    }

    fn from_mib_vars(vals: &MibVars) -> (r: Result<Self, Self::Error>) {
        let port_number = match read_i32(vals, "dot1xPaePortNumber") {
            Ok(v) => v,
            Err(e) => {
                return Err(e);
            },
        };
        let port_protocol_version = match read_i32(vals, "dot1xPaePortProtocolVersion") {
            Ok(v) => v,
            Err(e) => {
                return Err(e);
            },
        };
        let port_capabilities = match read_i32(vals, "dot1xPaePortCapabilities") {
            Ok(v) => v,
            Err(e) => {
                return Err(e);
            },
        };
        let port_initialize = match read_i32(vals, "dot1xPaePortInitialize") {
            Ok(v) => v,
            Err(e) => {
                return Err(e);
            },
        };
        let port_reauthenticate = match read_bool(vals, "dot1xPaePortReauthenticate") {
            Ok(v) => v,
            Err(e) => {
                return Err(e);
            },
        };
        Ok(
            Self {
                port_number,
                port_protocol_version,
                port_capabilities,
                port_initialize,
                port_reauthenticate,
            },
        )
    }
}

#[derive(Debug, Clone)]
pub struct Session {
    /// hostapd session identifier used to identify a connection to a device
    /// connected to the wifi network
    pub id: String,
    pub auth_method: i32,
    /// how long the session has been running for
    pub time: i64,
    pub termination_cause: i32,
    /// the identity / username used in the hostapd session, that the user
    /// enters when logging in
    pub username: String,
}

impl MIBVariables for Session {
    type Error = HostAPDError;

    open spec fn spec_mib_read(vals: &MibVars, r: Result<Session, HostAPDError>) -> bool {
        match spec_read_key(vals, "dot1xAuthSessionId") {
            Err(e) => r == Err::<Session, HostAPDError>(e),
            Ok(id) => match spec_read_key(vals, "dot1xAuthSessionUserName") {
                Err(e) => r == Err::<Session, HostAPDError>(e),
                Ok(username) => match spec_read_i32(vals, "dot1xAuthSessionAuthenticMethod") {
                    Err(e) => r == Err::<Session, HostAPDError>(e),
                    Ok(auth_method) => match spec_read_i64(vals, "dot1xAuthSessionTime") {
                        Err(e) => r == Err::<Session, HostAPDError>(e),
                        Ok(time) => match spec_read_i32(vals, "dot1xAuthSessionTerminateCause") {
                            Err(e) => r == Err::<Session, HostAPDError>(e),
                            Ok(tc) => r matches Ok(s) && s.id@ == id && s.username@ == username
                                && s.auth_method == auth_method && s.time == time
                                && s.termination_cause == tc,
                        },
                    },
                },
            },
        }
    }

    fn from_mib_vars(vals: &MibVars) -> (r: Result<Self, Self::Error>) {
        let id = match fetchkey(vals, "dot1xAuthSessionId") {
            Ok(v) => v,
            Err(e) => {
                return Err(e);
            },
        };
        let username = match fetchkey(vals, "dot1xAuthSessionUserName") {
            Ok(v) => v,
            Err(e) => {
                return Err(e);
            },
        };
        let auth_method = match read_i32(vals, "dot1xAuthSessionAuthenticMethod") {
            Ok(v) => v,
            Err(e) => {
                return Err(e);
            },
        };
        let time = match read_i64(vals, "dot1xAuthSessionTime") {
            Ok(v) => v,
            Err(e) => {
                return Err(e);
            },
        };
        let termination_cause = match read_i32(vals, "dot1xAuthSessionTerminateCause") {
            Ok(v) => v,
            Err(e) => {
                return Err(e);
            },
        };
        Ok(Self { id, auth_method, time, termination_cause, username })
    }
}

#[derive(Debug, Clone)]
#[allow(non_snake_case)]
pub struct Auth {
    pub ControlledPortStatus: u8,
    pub ControlledPortControl: u8,
    pub SuccessesWhileAuthenticating: u8,
    pub TimeoutsWhileAuthenticating: u8,
    pub FailWhileAuthenticating: u8,
    pub EapStartsWhileAuthenticating: u8,
    pub EapLogoffWhileAuthenticating: u8,
    pub ReauthsWhileAuthenticated: u8,
}

#[derive(Debug, Clone)]
pub struct Eapol {
    pub frames_rx: i32,
    pub frames_tx: i32,
    pub start_frames_rx: i32,
    pub logoff_frames_rx: i32,
    pub resp_id_frames_rx: i32,
    pub resp_frames_rx: i32,
    pub req_id_frames_tx: i32,
    pub req_frames_tx: i32,
}

impl MIBVariables for Eapol {
    type Error = HostAPDError;

    open spec fn spec_mib_read(vals: &MibVars, r: Result<Eapol, HostAPDError>) -> bool {
        match spec_read_i32(vals, "dot1xAuthEapolFramesRx") {
            Err(e) => r == Err::<Eapol, HostAPDError>(e),
            Ok(frames_rx) => match spec_read_i32(vals, "dot1xAuthEapolFramesTx") {
                Err(e) => r == Err::<Eapol, HostAPDError>(e),
                Ok(frames_tx) => match spec_read_i32(vals, "dot1xAuthEapolStartFramesRx") {
                    Err(e) => r == Err::<Eapol, HostAPDError>(e),
                    Ok(start_frames_rx) => match spec_read_i32(vals, "dot1xAuthEapolLogoffFramesRx") {
                        Err(e) => r == Err::<Eapol, HostAPDError>(e),
                        Ok(logoff_frames_rx) => match spec_read_i32(
                            vals,
                            "dot1xAuthEapolRespIdFramesRx",
                        ) {
                            Err(e) => r == Err::<Eapol, HostAPDError>(e),
                            Ok(resp_id_frames_rx) => match spec_read_i32(
                                vals,
                                "dot1xAuthEapolRespFramesRx",
                            ) {
                                Err(e) => r == Err::<Eapol, HostAPDError>(e),
                                Ok(resp_frames_rx) => match spec_read_i32(
                                    vals,
                                    "dot1xAuthEapolReqIdFramesTx",
                                ) {
                                    Err(e) => r == Err::<Eapol, HostAPDError>(e),
                                    Ok(req_id_frames_tx) => match spec_read_i32(
                                        vals,
                                        "dot1xAuthEapolReqFramesTx",
                                    ) {
                                        Err(e) => r == Err::<Eapol, HostAPDError>(e),
                                        Ok(req_frames_tx) => r == Ok::<Eapol, HostAPDError>(
                                            Eapol {
                                                frames_rx,
                                                frames_tx,
                                                start_frames_rx,
                                                logoff_frames_rx,
                                                resp_id_frames_rx,
                                                resp_frames_rx,
                                                req_id_frames_tx,
                                                req_frames_tx,
                                            },
                                        ),
                                    },
                                },
                            },
                        },
                    },
                },
            },
        }
    }

    fn from_mib_vars(vals: &MibVars) -> (r: Result<Self, Self::Error>) {
        let frames_rx = match read_i32(vals, "dot1xAuthEapolFramesRx") {
            Ok(v) => v,
            Err(e) => {
                return Err(e);
            },
        };
        let frames_tx = match read_i32(vals, "dot1xAuthEapolFramesTx") {
            Ok(v) => v,
            Err(e) => {
                return Err(e);
            },
        };
        let start_frames_rx = match read_i32(vals, "dot1xAuthEapolStartFramesRx") {
            Ok(v) => v,
            Err(e) => {
                return Err(e);
            },
        };
        let logoff_frames_rx = match read_i32(vals, "dot1xAuthEapolLogoffFramesRx") {
            Ok(v) => v,
            Err(e) => {
                return Err(e);
            },
        };
        let resp_id_frames_rx = match read_i32(vals, "dot1xAuthEapolRespIdFramesRx") {
            Ok(v) => v,
            Err(e) => {
                return Err(e);
            },
        };
        let resp_frames_rx = match read_i32(vals, "dot1xAuthEapolRespFramesRx") {
            Ok(v) => v,
            Err(e) => {
                return Err(e);
            },
        };
        let req_id_frames_tx = match read_i32(vals, "dot1xAuthEapolReqIdFramesTx") {
            Ok(v) => v,
            Err(e) => {
                return Err(e);
            },
        };
        let req_frames_tx = match read_i32(vals, "dot1xAuthEapolReqFramesTx") {
            Ok(v) => v,
            Err(e) => {
                return Err(e);
            },
        };
        Ok(
            Self {
                frames_rx,
                frames_tx,
                start_frames_rx,
                logoff_frames_rx,
                resp_id_frames_rx,
                resp_frames_rx,
                req_id_frames_tx,
                req_frames_tx,
            },
        )
    }
}

#[derive(Debug, Clone)]
#[allow(non_snake_case)]
pub struct Backend {
    pub Responses: u32,
    pub BackendAccessChallenges: u32,
    pub BackendOtherRequestsToSupplicant: u32,
}

#[derive(Debug, Clone)]
#[allow(non_camel_case_types, non_snake_case)]
pub struct dot1xAuth {
    pub PaeState: u8,
    pub AdminControlledDirections: u8,
    pub OperControlledDirections: u8,
    pub QuietPeriod: u32,
    pub ServerTimeout: u32,
    pub ReAuthPeriod: u32,
    pub ReAuthEnabled: bool,
    pub KeyTxEnabled: bool,
    pub InvalidEapolFramesRx: u32,
    pub EapLengthErrorFramesRx: u32,
    pub LastEapolFrameVersion: u32,
    /// mac address
    pub LastEapolFrameSource: String,
    pub EntersConnecting: u8,
    pub EapLogoffsWhileConnecting: u8,
    pub EntersAuthenticating: u8,
    pub backend: Backend,
    pub eapol: Eapol,
    pub auth: Auth,
    pub backend_auth: BackendAuth,
}

#[derive(Debug, Clone)]
pub enum Flag {
    Auth,
    ASSOC,
    AUTHORIZED,
    WMM,
    HT,
    VHT,
}

#[derive(Debug, Clone)]
pub struct PacketRecord {
    pub rx_packets: i64,
    pub tx_packets: i64,
    pub rx_bytes: i64,
    pub tx_bytes: i64,
}

#[derive(Debug, Clone)]
#[allow(non_snake_case)]
pub struct Station {
    pub flags: Vec<Flag>,
    pub aid: i32,
    pub capability: i32,
    pub listen_interval: u16,
    pub supported_rates: Vec<u8>,
    pub timeout_next: String,
    pub wpa: u8,
    pub AKMSuiteSelector: String,
    pub last_eap_type_as: u8,
    pub last_eap_type_sta: u8,
    pub inactive_msec: i32,
    pub signal: i32,
    pub rx_rate_info: i32,
    pub tx_rate_info: String,
    pub rx_vht_mcs_map: i32,
    pub tx_vht_mcs_map: i32,
    pub ht_mcs_bitmask: i64,
    pub connected_time: i64,
    pub supp_op_classes: String,
    pub min_txpower: u8,
    pub max_txpower: u8,
    pub vht_caps_info: i32,
    pub ht_caps_info: i32,
    pub ext_capab: i64,
    pub dot1xpae: PAE,
    pub dot1xauth: dot1xAuth,
    pub dot11RSNAStats: dot11RSNAStats,
}

impl Station {
    /// this method expects values in the form key=value
    pub fn key_value(value: &String) -> (r: MibVars)
        ensures
            forall|k: Seq<char>| r.spec_get(k) == spec_key_value(value@, k),
    {
        key_value_map(value)
    }
}

#[derive(Debug, Clone)]
#[allow(non_camel_case_types)]
pub struct dot11RSNAStats {
    /// mac address
    pub sta_addr: String,
    pub version: i32,
    pub selected_pairwise_cipher: String,
    pub tkip_local_mic_failures: i32,
    pub tkip_remote_mic_failures: i32,
}

impl MIBVariables for dot11RSNAStats {
    type Error = HostAPDError;

    open spec fn spec_mib_read(vals: &MibVars, r: Result<dot11RSNAStats, HostAPDError>) -> bool {
        match spec_read_key(vals, "dot11RSNAStatsSTAAddress") {
            Err(e) => r == Err::<dot11RSNAStats, HostAPDError>(e),
            Ok(sta_addr) => match spec_read_i32(vals, "dot11RSNAStatsVersion") {
                Err(e) => r == Err::<dot11RSNAStats, HostAPDError>(e),
                Ok(version) => match spec_read_key(vals, "dot11RSNAStatsSelectedPairwiseCipher") {
                    Err(e) => r == Err::<dot11RSNAStats, HostAPDError>(e),
                    Ok(cipher) => match spec_read_i32(vals, "dot11RSNAStatsTKIPLocalMICFailures") {
                        Err(e) => r == Err::<dot11RSNAStats, HostAPDError>(e),
                        Ok(local) => match spec_read_i32(
                            vals,
                            "dot11RSNAStatsTKIPRemoteMICFailures",
                        ) {
                            Err(e) => r == Err::<dot11RSNAStats, HostAPDError>(e),
                            Ok(remote) => r matches Ok(s) && s.sta_addr@ == sta_addr && s.version
                                == version && s.selected_pairwise_cipher@ == cipher
                                && s.tkip_local_mic_failures == local && s.tkip_remote_mic_failures
                                == remote,
                        },
                    },
                },
            },
        }
    }

    fn from_mib_vars(vals: &MibVars) -> (r: Result<Self, Self::Error>) {
        let sta_addr = match fetchkey(vals, "dot11RSNAStatsSTAAddress") {
            Ok(v) => v,
            Err(e) => {
                return Err(e);
            },
        };
        let version = match read_i32(vals, "dot11RSNAStatsVersion") {
            Ok(v) => v,
            Err(e) => {
                return Err(e);
            },
        };
        let selected_pairwise_cipher = match fetchkey(vals, "dot11RSNAStatsSelectedPairwiseCipher") {
            Ok(v) => v,
            Err(e) => {
                return Err(e);
            },
        };
        let tkip_local_mic_failures = match read_i32(vals, "dot11RSNAStatsTKIPLocalMICFailures") {
            Ok(v) => v,
            Err(e) => {
                return Err(e);
            },
        };
        let tkip_remote_mic_failures = match read_i32(vals, "dot11RSNAStatsTKIPRemoteMICFailures") {
            Ok(v) => v,
            Err(e) => {
                return Err(e);
            },
        };
        Ok(
            Self {
                sta_addr,
                version,
                selected_pairwise_cipher,
                tkip_local_mic_failures,
                tkip_remote_mic_failures,
            },
        )
    }
}

#[derive(Debug, Clone)]
#[allow(non_camel_case_types, non_snake_case)]
pub struct hostapdWPAPTK {
    pub State: u8,
    pub GroupState: u8,
}

/// The command that asks for the station after the one whose record began
/// with `addr`.
fn sta_next_cmd(addr: &str) -> (r: String)
    ensures
        r@ == "STA-NEXT "@ + addr@,
{
    let mut s: String = "STA-NEXT ".to_owned();
    s.append(addr);
    s
}

/// Whether a `STA-FIRST` / `STA-NEXT` reply names another station: the
/// scan goes on until the daemon answers with nothing or rejects the
/// command.
fn scan_goes_on(station: &String) -> (r: bool)
    ensures
        r == (station@.len() != 0 && station@ != "UNKNOWN COMMAND\n"@),
{
    if station.as_str().is_empty() {
        false
    } else {
        !str_eq(station.as_str(), "UNKNOWN COMMAND\n")
    }
}

/// A `hostapd` control connection: any connection that can run commands.
pub struct HostAPD<C: WPAClient> {
    ctrl: C,
}

impl<C: WPAClient> HostAPD<C> {
    /// Wraps a connection for the record readers.
    pub fn new(ctrl: C) -> Self {
        Self { ctrl }
    }

    /// Walks the daemon's station table with `STA-FIRST` / `STA-NEXT`,
    /// reading each reply's `key=value` lines into a map.  `None` when the
    /// daemon knows no station at all.  What the maps hold depends on the
    /// daemon's replies, which are not modeled: each reply is read exactly
    /// as [`Station::key_value`] states, and the walk stops at an empty or
    /// rejected reply.  The reply that stops the walk is still read into a
    /// trailing map.  The walk asks for at most `usize::MAX` stations, far
    /// beyond any table a daemon can hold.
    pub fn get_stations(&mut self) -> Result<Option<Vec<MibVars>>, Error> {
        let mut stations: Vec<MibVars> = Vec::new();
        let mut station = match self.ctrl.request("STA-FIRST") {
            Ok(s) => s,
            Err(e) => {
                return Err(e);
            },
        };
        if !station.as_str().is_empty() {
            stations.push(Station::key_value(&station));
        } else {
            return Ok(None);
        }
        let mut addr: String = first_line(&station);
        let mut fuel: usize = usize::MAX;
        while fuel > 0 && scan_goes_on(&station)
            decreases fuel,
        {
            fuel = fuel - 1;
            let cmd = sta_next_cmd(addr.as_str());
            station = match self.ctrl.request(cmd.as_str()) {
                Ok(s) => s,
                Err(e) => {
                    return Err(e);
                },
            };
            addr = first_line(&station);
            stations.push(Station::key_value(&station));
        }
        Ok(Some(stations))
    }
}

} // verus!
