//! The device bridge: a state machine over the debug-bridge connection. It
//! parses the device's wireless address out of diagnostic output, records it,
//! and decides the exact bridge invocations — connect, file push, manifest
//! pull and push, disconnect — that the surrounding process runs.

use vstd::prelude::*;
use vstd::string::*;

use crate::text::{before_char, prefix_before, str_eq, token_views, tokenize, tokens_of};

verus! {

/// The address carried by a token list: the token right after the first
/// `inet` token, cut at its subnet-size separator; nothing when no `inet`
/// token or no token after it exists.
pub open spec fn inet_addr_in_tokens(ts: Seq<Seq<char>>) -> Option<Seq<char>>
    decreases ts.len(),
{
    if ts.len() == 0 {
        None
    } else if ts[0] == "inet"@ {
        if ts.len() >= 2 {
            Some(before_char(ts[1], '/'))
        } else {
            None
        }
    } else {
        inet_addr_in_tokens(ts.skip(1))
    }
}

/// The device address that interface-diagnostic output yields.
pub open spec fn inet_addr_of(s: Seq<char>) -> Option<Seq<char>> {
    inet_addr_in_tokens(tokens_of(s))
}

/// Parses the device's address out of interface-diagnostic output, per
/// `inet_addr_of`.
pub fn parse_inet_addr(diag: &str) -> (r: Option<String>)
    ensures
        (r is Some) == (inet_addr_of(diag@) is Some),
        r matches Some(ip) ==> inet_addr_of(diag@) matches Some(v) && ip@ == v,
{
    let toks = tokenize(diag);
    let ghost ts = tokens_of(diag@);
    let mut i: usize = 0;
    proof {
        assert(ts.skip(0) =~= ts);
    }
    while i < toks.len()
        invariant
            0 <= i <= toks.len(),
            ts == tokens_of(diag@),
            ts == token_views(toks@),
            inet_addr_in_tokens(ts) == inet_addr_in_tokens(ts.skip(i as int)),
        decreases toks.len() - i,
    {
        proof {
            assert(ts.skip(i as int)[0] == ts[i as int]);
            assert(ts[i as int] == toks@[i as int]@);
        }
        if str_eq(toks[i].as_str(), "inet") {
            if i + 1 < toks.len() {
                proof {
                    assert(ts.skip(i as int)[1] == ts[i as int + 1]);
                    assert(ts[i as int + 1] == toks@[i as int + 1]@);
                }
                return Some(prefix_before(toks[i + 1].as_str(), '/'));
            } else {
                return None;
            }
        }
        proof {
            assert(ts.skip(i as int).skip(1) =~= ts.skip(i as int + 1));
        }
        i += 1;
    }
    proof {
        assert(ts.skip(i as int).len() == 0);
    }
    None
}

/// The abstract state of the bridge: the recorded device address, the two
/// configured paths, and whether a session is established.
pub struct AdbView {
    pub ip: Seq<char>,
    pub adb_path: Seq<char>,
    pub songreq_path: Seq<char>,
    pub connected: bool,
}

/// The device bridge. It owns the recorded device address and the configured
/// bridge-binary and device-manifest paths, and decides each bridge
/// invocation's argument list.
pub struct Adb {
    ip: String,
    adb_path: String,
    songreq_path: String,
    connected: bool,
}

impl View for Adb {
    type V = AdbView;

    closed spec fn view(&self) -> AdbView {
        AdbView {
            ip: self.ip@,
            adb_path: self.adb_path@,
            songreq_path: self.songreq_path@,
            connected: self.connected,
        }
    }
}

/// The two invocations that establish a session: enabling network bridging,
/// then connecting to the recorded device address.
pub struct ConnectPlan {
    pub tcpip_args: Vec<String>,
    pub connect_args: Vec<String>,
}

impl Adb {
    /// A bridge with the given bridge-binary and device-manifest paths,
    /// holding no device address and no session yet.
    pub fn new(adb_path: String, songreq_path: String) -> (a: Adb)
        ensures
            a@ == (AdbView {
                ip: Seq::<char>::empty(),
                adb_path: adb_path@,
                songreq_path: songreq_path@,
                connected: false,
            }),
    {
        Adb { ip: String::new(), adb_path, songreq_path, connected: false }
    }

    /// The configured bridge binary, the program of every invocation.
    pub fn adb_path(&self) -> (r: &String)
        ensures
            r@ == self@.adb_path,
    {
        &self.adb_path
    }

    /// The recorded device address in `host:port` form.
    pub fn addr(&self) -> (r: String)
        ensures
            r@ == self@.ip + ":5555"@,
    {
        crate::text::concat2(self.ip.as_str(), ":5555")
    }

    /// The diagnostic invocation that asks the device for the addresses of
    /// its wireless interface.
    pub fn ip_query_args(&self) -> (r: Vec<String>)
        ensures
            r@.len() == 5,
            r@[0]@ == "shell"@,
            r@[1]@ == "ip"@,
            r@[2]@ == "addr"@,
            r@[3]@ == "show"@,
            r@[4]@ == "wlan0"@,
    {
        let mut v: Vec<String> = Vec::new();
        v.push(String::from_str("shell"));
        v.push(String::from_str("ip"));
        v.push(String::from_str("addr"));
        v.push(String::from_str("show"));
        v.push(String::from_str("wlan0"));
        v
    }

    /// Records the device address parsed from the diagnostic output and
    /// decides the session-establishing invocations. When no address parses,
    /// nothing is decided and the bridge is unchanged: connecting has failed.
    pub fn connect_abd(&mut self, diag: &str) -> (r: Option<ConnectPlan>)
        ensures
            (r is Some) == (inet_addr_of(diag@) is Some),
            r is None ==> final(self)@ == old(self)@,
            r matches Some(plan) ==> inet_addr_of(diag@) matches Some(ip) && final(self)@ == (
            AdbView {
                ip: ip,
                adb_path: old(self)@.adb_path,
                songreq_path: old(self)@.songreq_path,
                connected: true,
            }) && plan.tcpip_args@.len() == 2 && plan.tcpip_args@[0]@ == "tcpip"@
                && plan.tcpip_args@[1]@ == "5555"@ && plan.connect_args@.len() == 2
                && plan.connect_args@[0]@ == "connect"@ && plan.connect_args@[1]@ == ip + ":5555"@,
    {
        match parse_inet_addr(diag) {
            None => None,
            Some(ip) => {
                self.ip = ip;
                self.connected = true;
                let mut tcpip: Vec<String> = Vec::new();
                tcpip.push(String::from_str("tcpip"));
                tcpip.push(String::from_str("5555"));
                let mut con: Vec<String> = Vec::new();
                con.push(String::from_str("connect"));
                con.push(self.addr());
                Some(ConnectPlan { tcpip_args: tcpip, connect_args: con })
            },
        }
    }

    /// The invocation that copies the unpacked directory for `hash` to the
    /// device's mod-content path, namespaced by the hash.
    pub fn push_map(&self, hash: &str) -> (r: Vec<String>)
        ensures
            r@.len() == 5,
            r@[0]@ == "-s"@,
            r@[1]@ == self@.ip + ":5555"@,
            r@[2]@ == "push"@,
            r@[3]@ == "tmp/"@ + hash@,
            r@[4]@ == "/sdcard/ModData/com.beatgames.beatsaber/Mods/SongLoader/CustomLevels/"@
                + hash@,
    {
        let mut v: Vec<String> = Vec::new();
        v.push(String::from_str("-s"));
        v.push(self.addr());
        v.push(String::from_str("push"));
        v.push(crate::text::concat2("tmp/", hash));
        v.push(
            crate::text::concat2(
                "/sdcard/ModData/com.beatgames.beatsaber/Mods/SongLoader/CustomLevels/",
                hash,
            ),
        );
        v
    }

    /// The invocation that pulls the device's manifest file to the local
    /// scratch copy.
    pub fn pull_playlist_args(&self) -> (r: Vec<String>)
        ensures
            r@.len() == 5,
            r@[0]@ == "-s"@,
            r@[1]@ == self@.ip + ":5555"@,
            r@[2]@ == "pull"@,
            r@[3]@ == self@.songreq_path,
            r@[4]@ == "tmp/songreq.json"@,
    {
        let mut v: Vec<String> = Vec::new();
        v.push(String::from_str("-s"));
        v.push(self.addr());
        v.push(String::from_str("pull"));
        v.push(String::from_str(self.songreq_path.as_str()));
        v.push(String::from_str("tmp/songreq.json"));
        v
    }

    /// The invocation that pushes the updated scratch manifest back to the
    /// device, replacing the manifest file wholesale.
    pub fn push_playlist_args(&self) -> (r: Vec<String>)
        ensures
            r@.len() == 5,
            r@[0]@ == "-s"@,
            r@[1]@ == self@.ip + ":5555"@,
            r@[2]@ == "push"@,
            r@[3]@ == "tmp/songreq.json"@,
            r@[4]@ == self@.songreq_path,
    {
        let mut v: Vec<String> = Vec::new();
        v.push(String::from_str("-s"));
        v.push(self.addr());
        v.push(String::from_str("push"));
        v.push(String::from_str("tmp/songreq.json"));
        v.push(String::from_str(self.songreq_path.as_str()));
        v
    }

    /// The invocation that tears the session down at end of life.
    pub fn disconnect_args(&self) -> (r: Vec<String>)
        ensures
            r@.len() == 2,
            r@[0]@ == "disconnect"@,
            r@[1]@ == self@.ip + ":5555"@,
    {
        let mut v: Vec<String> = Vec::new();
        v.push(String::from_str("disconnect"));
        v.push(self.addr());
        v
    }
}

} // verus!
