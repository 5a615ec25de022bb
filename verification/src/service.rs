//! Service identities, descriptors, and status notifications.

use vstd::prelude::*;
use vstd::string::StringExecFns;

use crate::digits::{decimal_digits, u16_to_string};

verus! {

/// Which of the two supervised services a call concerns: the primary API
/// backend or the optional secondary protocol server.
#[derive(Clone, Copy, PartialEq, Eq, Structural, Debug)]
pub enum ServiceId {
    Primary,
    Secondary,
}

/// A status notification delivered to collaborators after a completed
/// start or stop operation.
#[derive(Clone, Copy, PartialEq, Eq, Structural, Debug)]
pub enum Notification {
    Running,
    Stopped,
    Failed,
}

impl Notification {
    /// The literal payload carried by the emitted event.
    pub open spec fn payload_view(self) -> Seq<char> {
        match self {
            Notification::Running => "running"@,
            Notification::Stopped => "stopped"@,
            Notification::Failed => "failed"@,
        }
    }

    /// Renders the payload the event layer must carry for this notification.
    pub fn payload(&self) -> (r: String)
        ensures
            r@ == self.payload_view(),
    {
        match self {
            Notification::Running => String::from_str("running"),
            Notification::Stopped => String::from_str("stopped"),
            Notification::Failed => String::from_str("failed"),
        }
    }
}

/// Static launch configuration of one supervised service. Immutable after
/// construction.
pub struct ServiceDescriptor {
    /// Logical name; the notification event for this service is named
    /// `<name>-status`.
    pub name: String,
    /// Host the service listens on.
    pub host: String,
    /// Port the service listens on.
    pub port: u16,
    /// Path of the HTTP liveness endpoint, appended to the base URL.
    pub health_path: String,
    /// Name of the bundled companion executable tried first when launching.
    pub companion: String,
    /// Module the interpreter invokes (`-m <entry_module>`) when launching
    /// through an interpreter.
    pub entry_module: String,
    /// Arguments that follow the entry module on the interpreter command
    /// line.
    pub entry_args: Vec<String>,
    /// Project-local interpreter paths probed, in order, by the login-shell
    /// strategy before it falls back to the bare interpreter name.
    pub venv_candidates: Vec<String>,
    /// Maximum number of health probes after a spawn before startup is
    /// declared failed.
    pub poll_attempts: u32,
    /// Seconds slept before each health probe of the polling loop.
    pub poll_interval_seconds: u32,
    /// Bound, in seconds, on each single health probe.
    pub probe_timeout_seconds: u32,
}

impl ServiceDescriptor {
    /// A usable configuration: the polling budget allows at least one probe
    /// and each probe is bounded in time.
    pub open spec fn wf(&self) -> bool {
        &&& self.poll_attempts >= 1
        &&& self.probe_timeout_seconds >= 1
    }

    /// The base URL clients use to reach this service.
    pub open spec fn base_url_view(&self) -> Seq<char> {
        "http://"@ + self.host@ + ":"@ + decimal_digits(self.port as nat)
    }

    /// The URL of the liveness endpoint.
    pub open spec fn health_url_view(&self) -> Seq<char> {
        self.base_url_view() + self.health_path@
    }

    /// The name of the notification event emitted for this service.
    pub open spec fn event_name_view(&self) -> Seq<char> {
        self.name@ + "-status"@
    }

    /// Builds the base URL clients use to reach this service.
    pub fn base_url(&self) -> (r: String)
        ensures
            r@ == self.base_url_view(),
    {
        let mut r = String::from_str("http://");
        r.append(self.host.as_str());
        r.append(":");
        let port = u16_to_string(self.port);
        r.append(port.as_str());
        r
    }

    /// Builds the URL probed by the health checker.
    pub fn health_url(&self) -> (r: String)
        ensures
            r@ == self.health_url_view(),
    {
        let mut r = self.base_url();
        r.append(self.health_path.as_str());
        r
    }

    /// Builds the name of the notification event for this service.
    pub fn event_name(&self) -> (r: String)
        ensures
            r@ == self.event_name_view(),
    {
        let mut r = String::new();
        r.append(self.name.as_str());
        r.append("-status");
        proof {
            assert(r@ =~= self.event_name_view());
        }
        r
    }
}

/// The configuration of the primary API backend.
pub open spec fn primary_descriptor_spec(d: &ServiceDescriptor) -> bool {
    &&& d.name@ == "server"@
    &&& d.host@ == "127.0.0.1"@
    &&& d.port == 8900
    &&& d.health_path@ == "/health"@
    &&& d.companion@ == "achilles-server"@
    &&& d.entry_module@ == "uvicorn"@
    &&& d.entry_args@.len() == 5
    &&& d.entry_args@[0]@ == "achilles.main:app"@
    &&& d.entry_args@[1]@ == "--host"@
    &&& d.entry_args@[2]@ == "127.0.0.1"@
    &&& d.entry_args@[3]@ == "--port"@
    &&& d.entry_args@[4]@ == "8900"@
    &&& d.venv_candidates@.len() == 2
    &&& d.venv_candidates@[0]@ == ".venv/bin/python3"@
    &&& d.venv_candidates@[1]@ == "venv/bin/python3"@
    &&& d.poll_attempts == 15
    &&& d.poll_interval_seconds == 1
    &&& d.probe_timeout_seconds == 2
}

/// The configuration of the secondary protocol server.
pub open spec fn secondary_descriptor_spec(d: &ServiceDescriptor) -> bool {
    &&& d.name@ == "mcp"@
    &&& d.host@ == "127.0.0.1"@
    &&& d.port == 8901
    &&& d.health_path@ == "/sse"@
    &&& d.companion@ == "achilles-mcp-server"@
    &&& d.entry_module@ == "achilles.mcp_server"@
    &&& d.entry_args@.len() == 6
    &&& d.entry_args@[0]@ == "--port"@
    &&& d.entry_args@[1]@ == "8901"@
    &&& d.entry_args@[2]@ == "--host"@
    &&& d.entry_args@[3]@ == "127.0.0.1"@
    &&& d.entry_args@[4]@ == "--transport"@
    &&& d.entry_args@[5]@ == "sse"@
    &&& d.venv_candidates@.len() == 2
    &&& d.venv_candidates@[0]@ == ".venv/bin/python3"@
    &&& d.venv_candidates@[1]@ == "venv/bin/python3"@
    &&& d.poll_attempts == 10
    &&& d.poll_interval_seconds == 1
    &&& d.probe_timeout_seconds == 2
}

/// Builds the primary API backend's configuration: listens on
/// 127.0.0.1:8900, health endpoint `/health`, fifteen one-second poll
/// attempts (the primary service performs heavier initialization, so it is
/// granted the longer warm-up budget).
pub fn primary_descriptor() -> (d: ServiceDescriptor)
    ensures
        primary_descriptor_spec(&d),
        d.wf(),
{
    let mut entry_args: Vec<String> = Vec::new();
    entry_args.push(String::from_str("achilles.main:app"));
    entry_args.push(String::from_str("--host"));
    entry_args.push(String::from_str("127.0.0.1"));
    entry_args.push(String::from_str("--port"));
    entry_args.push(String::from_str("8900"));
    let mut venv_candidates: Vec<String> = Vec::new();
    venv_candidates.push(String::from_str(".venv/bin/python3"));
    venv_candidates.push(String::from_str("venv/bin/python3"));
    ServiceDescriptor {
        name: String::from_str("server"),
        host: String::from_str("127.0.0.1"),
        port: 8900,
        health_path: String::from_str("/health"),
        companion: String::from_str("achilles-server"),
        entry_module: String::from_str("uvicorn"),
        entry_args,
        venv_candidates,
        poll_attempts: 15,
        poll_interval_seconds: 1,
        probe_timeout_seconds: 2,
    }
}

/// Builds the secondary protocol server's configuration: listens on
/// 127.0.0.1:8901, health endpoint `/sse`, ten one-second poll attempts.
pub fn secondary_descriptor() -> (d: ServiceDescriptor)
    ensures
        secondary_descriptor_spec(&d),
        d.wf(),
{
    let mut entry_args: Vec<String> = Vec::new();
    entry_args.push(String::from_str("--port"));
    entry_args.push(String::from_str("8901"));
    entry_args.push(String::from_str("--host"));
    entry_args.push(String::from_str("127.0.0.1"));
    entry_args.push(String::from_str("--transport"));
    entry_args.push(String::from_str("sse"));
    let mut venv_candidates: Vec<String> = Vec::new();
    venv_candidates.push(String::from_str(".venv/bin/python3"));
    venv_candidates.push(String::from_str("venv/bin/python3"));
    ServiceDescriptor {
        name: String::from_str("mcp"),
        host: String::from_str("127.0.0.1"),
        port: 8901,
        health_path: String::from_str("/sse"),
        companion: String::from_str("achilles-mcp-server"),
        entry_module: String::from_str("achilles.mcp_server"),
        entry_args,
        venv_candidates,
        poll_attempts: 10,
        poll_interval_seconds: 1,
        probe_timeout_seconds: 2,
    }
}

/// Reduces an HTTP status code to the health prober's boolean: true exactly
/// for the success range.
pub fn http_status_is_success(code: u16) -> (r: bool)
    ensures
        r == (200 <= code && code < 300),
{
    200 <= code && code < 300
}

} // verus!
