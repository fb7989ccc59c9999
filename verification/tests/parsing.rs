//! Tests for the decimal parsers, the record map, and the MIB readers.

use wpactrl::digits::{parse_i32, parse_i64, u64_dec, ParseIntError};
use wpactrl::hostapd::{
    dot11RSNAStats, parse_bool, Eapol, HostAPDError, MIBVariables, ParseBoolError, Session,
    Station, PAE,
};
use wpactrl::mib::MibVars;
use wpactrl::text::{first_line, str_eq};

#[test]
fn parse_i32_plain() {
    assert_eq!(parse_i32("123"), Ok(123));
    assert_eq!(parse_i32("-123"), Ok(-123));
    assert_eq!(parse_i32("+7"), Ok(7));
    assert_eq!(parse_i32("0"), Ok(0));
    assert_eq!(parse_i32("-0"), Ok(0));
    assert_eq!(parse_i32("00042"), Ok(42));
}

#[test]
fn parse_i32_bounds() {
    assert_eq!(parse_i32("2147483647"), Ok(i32::MAX));
    assert_eq!(parse_i32("-2147483648"), Ok(i32::MIN));
    assert_eq!(parse_i32("2147483648"), Err(ParseIntError::OutOfRange));
    assert_eq!(parse_i32("-2147483649"), Err(ParseIntError::OutOfRange));
    assert_eq!(
        parse_i32("99999999999999999999999"),
        Err(ParseIntError::OutOfRange)
    );
}

#[test]
fn parse_i32_invalid() {
    assert_eq!(parse_i32(""), Err(ParseIntError::Invalid));
    assert_eq!(parse_i32("-"), Err(ParseIntError::Invalid));
    assert_eq!(parse_i32("+"), Err(ParseIntError::Invalid));
    assert_eq!(parse_i32("12a"), Err(ParseIntError::Invalid));
    assert_eq!(parse_i32(" 12"), Err(ParseIntError::Invalid));
    assert_eq!(parse_i32("1.5"), Err(ParseIntError::Invalid));
}

#[test]
fn parse_i64_bounds() {
    assert_eq!(parse_i64("9223372036854775807"), Ok(i64::MAX));
    assert_eq!(parse_i64("-9223372036854775808"), Ok(i64::MIN));
    assert_eq!(parse_i64("9223372036854775808"), Err(ParseIntError::OutOfRange));
    assert_eq!(parse_i64("-9223372036854775809"), Err(ParseIntError::OutOfRange));
    assert_eq!(parse_i64("0000000000000000000001"), Ok(1));
}

#[test]
fn parse_bool_literals() {
    assert_eq!(parse_bool("true"), Ok(true));
    assert_eq!(parse_bool("false"), Ok(false));
    assert_eq!(parse_bool("TRUE"), Err(ParseBoolError));
    assert_eq!(parse_bool(""), Err(ParseBoolError));
    assert_eq!(parse_bool("1"), Err(ParseBoolError));
}

#[test]
fn u64_dec_prints() {
    assert_eq!(u64_dec(0).as_str(), "0");
    assert_eq!(u64_dec(7).as_str(), "7");
    assert_eq!(u64_dec(10).as_str(), "10");
    assert_eq!(u64_dec(1234567890).as_str(), "1234567890");
    assert_eq!(u64_dec(u64::MAX).as_str(), "18446744073709551615");
}

#[test]
fn text_helpers() {
    assert!(str_eq("abc", "abc"));
    assert!(!str_eq("abc", "abd"));
    assert!(!str_eq("abc", "abcd"));
    assert!(str_eq("", ""));
    assert_eq!(first_line(&String::from("abc\ndef")).as_str(), "abc");
    assert_eq!(first_line(&String::from("abc")).as_str(), "abc");
    assert_eq!(first_line(&String::from("\nxyz")).as_str(), "");
}

#[test]
fn mib_vars_insert_get() {
    let mut m = MibVars::new();
    assert_eq!(m.get("a"), None);
    m.insert(String::from("a"), String::from("1"));
    m.insert(String::from("b"), String::from("2"));
    assert_eq!(m.get("a").as_deref(), Some("1"));
    assert_eq!(m.get("b").as_deref(), Some("2"));
    m.insert(String::from("a"), String::from("3"));
    assert_eq!(m.get("a").as_deref(), Some("3"));
    assert_eq!(m.get("c"), None);
}

#[test]
fn key_value_basic() {
    let m = Station::key_value(&String::from("a=1\nb=2"));
    assert_eq!(m.get("a").as_deref(), Some("1"));
    assert_eq!(m.get("b").as_deref(), Some("2"));
    assert_eq!(m.get("c"), None);
}

#[test]
fn key_value_edges() {
    // a line without `=` binds nothing
    let m = Station::key_value(&String::from("justtext\nx=9"));
    assert_eq!(m.get("justtext"), None);
    assert_eq!(m.get("x").as_deref(), Some("9"));

    // a second `=` ends the value
    let m = Station::key_value(&String::from("a=b=c"));
    assert_eq!(m.get("a").as_deref(), Some("b"));

    // the last line for a key wins
    let m = Station::key_value(&String::from("a=1\na=2"));
    assert_eq!(m.get("a").as_deref(), Some("2"));

    // empty record, and a trailing newline's empty last line
    let m = Station::key_value(&String::from(""));
    assert_eq!(m.get(""), None);
    let m = Station::key_value(&String::from("k=v\n"));
    assert_eq!(m.get("k").as_deref(), Some("v"));

    // an empty value is still a binding
    let m = Station::key_value(&String::from("k="));
    assert_eq!(m.get("k").as_deref(), Some(""));
}

fn pae_map() -> MibVars {
    Station::key_value(&String::from(
        "dot1xPaePortNumber=1\n\
         dot1xPaePortProtocolVersion=2\n\
         dot1xPaePortCapabilities=3\n\
         dot1xPaePortInitialize=0\n\
         dot1xPaePortReauthenticate=false",
    ))
}

#[test]
fn pae_from_mib_vars() {
    let pae = PAE::from_mib_vars(&pae_map()).unwrap();
    assert_eq!(pae.port_number, 1);
    assert_eq!(pae.port_protocol_version, 2);
    assert_eq!(pae.port_capabilities, 3);
    assert_eq!(pae.port_initialize, 0);
    assert!(!pae.port_reauthenticate);
}

#[test]
fn pae_missing_key() {
    let m = Station::key_value(&String::from("dot1xPaePortNumber=1"));
    let e = PAE::from_mib_vars(&m).unwrap_err();
    assert!(matches!(e, HostAPDError::MissingKey("dot1xPaePortProtocolVersion")));
}

#[test]
fn pae_bad_int_and_bool() {
    let mut m = pae_map();
    m.insert(
        String::from("dot1xPaePortCapabilities"),
        String::from("many"),
    );
    let e = PAE::from_mib_vars(&m).unwrap_err();
    assert!(matches!(
        e,
        HostAPDError::ParseIntError(ParseIntError::Invalid)
    ));

    let mut m = pae_map();
    m.insert(
        String::from("dot1xPaePortReauthenticate"),
        String::from("yes"),
    );
    let e = PAE::from_mib_vars(&m).unwrap_err();
    assert!(matches!(e, HostAPDError::ParseBoolError(ParseBoolError)));
}

#[test]
fn session_from_mib_vars() {
    let m = Station::key_value(&String::from(
        "dot1xAuthSessionId=C0FFEE\n\
         dot1xAuthSessionUserName=alice\n\
         dot1xAuthSessionAuthenticMethod=1\n\
         dot1xAuthSessionTime=86400\n\
         dot1xAuthSessionTerminateCause=999",
    ));
    let s = Session::from_mib_vars(&m).unwrap();
    assert_eq!(s.id.as_str(), "C0FFEE");
    assert_eq!(s.username.as_str(), "alice");
    assert_eq!(s.auth_method, 1);
    assert_eq!(s.time, 86400);
    assert_eq!(s.termination_cause, 999);

    let m = Station::key_value(&String::from("dot1xAuthSessionUserName=alice"));
    let e = Session::from_mib_vars(&m).unwrap_err();
    assert!(matches!(e, HostAPDError::MissingKey("dot1xAuthSessionId")));
}

#[test]
fn eapol_from_mib_vars() {
    let m = Station::key_value(&String::from(
        "dot1xAuthEapolFramesRx=1\n\
         dot1xAuthEapolFramesTx=2\n\
         dot1xAuthEapolStartFramesRx=3\n\
         dot1xAuthEapolLogoffFramesRx=4\n\
         dot1xAuthEapolRespIdFramesRx=5\n\
         dot1xAuthEapolRespFramesRx=6\n\
         dot1xAuthEapolReqIdFramesTx=7\n\
         dot1xAuthEapolReqFramesTx=8",
    ));
    let e = Eapol::from_mib_vars(&m).unwrap();
    assert_eq!(e.frames_rx, 1);
    assert_eq!(e.frames_tx, 2);
    assert_eq!(e.start_frames_rx, 3);
    assert_eq!(e.logoff_frames_rx, 4);
    assert_eq!(e.resp_id_frames_rx, 5);
    assert_eq!(e.resp_frames_rx, 6);
    assert_eq!(e.req_id_frames_tx, 7);
    assert_eq!(e.req_frames_tx, 8);
}

#[test]
fn rsna_stats_from_mib_vars() {
    let m = Station::key_value(&String::from(
        "dot11RSNAStatsSTAAddress=02:00:00:00:01:00\n\
         dot11RSNAStatsVersion=1\n\
         dot11RSNAStatsSelectedPairwiseCipher=00-0f-ac-4\n\
         dot11RSNAStatsTKIPLocalMICFailures=0\n\
         dot11RSNAStatsTKIPRemoteMICFailures=0",
    ));
    let s = dot11RSNAStats::from_mib_vars(&m).unwrap();
    assert_eq!(s.sta_addr.as_str(), "02:00:00:00:01:00");
    assert_eq!(s.version, 1);
    assert_eq!(s.selected_pairwise_cipher.as_str(), "00-0f-ac-4");
    assert_eq!(s.tkip_local_mic_failures, 0);
    assert_eq!(s.tkip_remote_mic_failures, 0);
}
