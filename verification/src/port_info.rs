//! The normalized record for one listening port and its owning process, the
//! heuristic classification of the owning process, and the persisted
//! watched-port record.

use vstd::prelude::*;
use vstd::string::*;

use crate::text::dec_digits;
use crate::text::is_substring_of;
use crate::text::lower_of;
use crate::text::lowercase;
use crate::text::contains_chars;
use crate::text::str_chars;
use crate::text::str_eq;
use crate::text::u64_digit_chars;

verus! {

/// A best-effort classification of the process bound to a port, derived from
/// its executable name by a fixed lookup; ambiguous binaries stay `Unknown`.
#[derive(Clone, Copy, PartialEq, Eq, Hash, Debug, Structural)]
pub enum ProcessType {
    WebServer,
    Database,
    LanguageRuntime,
    Unknown,
}

/// The fixed name lookup behind [`ProcessType`].
pub open spec fn spec_classify(name: Seq<char>) -> ProcessType {
    if name == "nginx"@ || name == "apache"@ || name == "httpd"@ || name == "caddy"@ {
        ProcessType::WebServer
    } else if name == "postgres"@ || name == "mysqld"@ || name == "redis-server"@ || name
        == "mongod"@ {
        ProcessType::Database
    } else if name == "node"@ || name == "python"@ || name == "java"@ || name == "ruby"@ {
        ProcessType::LanguageRuntime
    } else {
        ProcessType::Unknown
    }
}

/// Classifies a process by its executable name.
pub fn classify_name(name: &str) -> (r: ProcessType)
    ensures
        r == spec_classify(name@),
{
    if str_eq(name, "nginx") || str_eq(name, "apache") || str_eq(name, "httpd") || str_eq(
        name,
        "caddy",
    ) {
        ProcessType::WebServer
    } else if str_eq(name, "postgres") || str_eq(name, "mysqld") || str_eq(name, "redis-server")
        || str_eq(name, "mongod") {
        ProcessType::Database
    } else if str_eq(name, "node") || str_eq(name, "python") || str_eq(name, "java") || str_eq(
        name,
        "ruby",
    ) {
        ProcessType::LanguageRuntime
    } else {
        ProcessType::Unknown
    }
}

/// One observed listening socket: the bound port, the owning process, and
/// best-effort descriptive fields that may be empty when the underlying tool
/// cannot resolve them.
pub struct PortInfo {
    /// The bound TCP/UDP port; never zero for an existing record.
    pub port: u16,
    /// The owning process id; never zero for an existing record.
    pub pid: u32,
    /// Short executable name.
    pub process_name: String,
    /// Protocol / bind address, e.g. wildcard vs loopback.
    pub address: String,
    /// Owning account, best effort.
    pub user: String,
    /// Full invocation string, best effort.
    pub command: String,
    /// Platform diagnostic tag, opaque.
    pub fd: String,
}

/// Case-insensitive search across the process name, the port rendered in
/// decimal, and the full command: the query matches when its lowercased form
/// occurs in any of the three.
pub open spec fn spec_matches_search(p: PortInfo, query: Seq<char>) -> bool {
    let q = lower_of(query);
    ||| is_substring_of(q, lower_of(p.process_name@))
    ||| is_substring_of(q, dec_digits(p.port as nat))
    ||| is_substring_of(q, lower_of(p.command@))
}

impl PortInfo {
    /// The record invariant: the port and the owning pid are present.
    pub open spec fn wf(self) -> bool {
        self.port > 0 && self.pid > 0
    }

    /// Builds a record for an actively listening socket.
    pub fn active(
        port: u16,
        pid: u32,
        process_name: &str,
        address: &str,
        user: &str,
        command: &str,
        fd: &str,
    ) -> (r: Self)
        requires
            port > 0,
            pid > 0,
        ensures
            r.wf(),
            r.port == port,
            r.pid == pid,
            r.process_name@ == process_name@,
            r.address@ == address@,
            r.user@ == user@,
            r.command@ == command@,
            r.fd@ == fd@,
    {
        PortInfo {
            port,
            pid,
            process_name: process_name.to_owned(),
            address: address.to_owned(),
            user: user.to_owned(),
            command: command.to_owned(),
            fd: fd.to_owned(),
        }
    }

    /// The classification of the owning process.
    pub fn process_type(&self) -> (r: ProcessType)
        ensures
            r == spec_classify(self.process_name@),
    {
        classify_name(self.process_name.as_str())
    }

    /// Whether this record matches a free-text search query.
    pub fn matches_search(&self, query: &str) -> (r: bool)
        ensures
            r == spec_matches_search(*self, query@),
    {
        let q = lowercase(query);
        let qc = str_chars(q.as_str());
        let name_low = lowercase(self.process_name.as_str());
        let nc = str_chars(name_low.as_str());
        if contains_chars(&nc, &qc) {
            return true;
        }
        let digits = u64_digit_chars(self.port as u64);
        if contains_chars(&digits, &qc) {
            return true;
        }
        let cmd_low = lowercase(self.command.as_str());
        let cc = str_chars(cmd_low.as_str());
        contains_chars(&cc, &qc)
    }
}

impl Clone for PortInfo {
    fn clone(&self) -> (r: Self)
        ensures
            r == *self,
    {
        PortInfo {
            port: self.port,
            pid: self.pid,
            process_name: self.process_name.clone(),
            address: self.address.clone(),
            user: self.user.clone(),
            command: self.command.clone(),
            fd: self.fd.clone(),
        }
    }
}

/// A persisted watched-port record; notifications default to on.
#[derive(Clone, Copy, PartialEq, Eq, Structural, Debug)]
pub struct WatchedPort {
    pub port: u16,
    pub notify_on_start: bool,
    pub notify_on_stop: bool,
}

impl WatchedPort {
    /// A new watched record for `port`, notifying on both start and stop.
    pub fn new(port: u16) -> (r: Self)
        ensures
            r.port == port,
            r.notify_on_start,
            r.notify_on_stop,
    {
        WatchedPort { port, notify_on_start: true, notify_on_stop: true }
    }
}

/// Some record in `w` watches `port`.
pub open spec fn watched_contains_port(w: Seq<WatchedPort>, port: u16) -> bool {
    exists|i: int| 0 <= i < w.len() && w[i].port == port
}

} // verus!
