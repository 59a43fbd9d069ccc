//! The MCP server aggregate and the session entity: the server lifecycle and
//! the sessions that clients open on it.

use vstd::prelude::*;
use crate::mcp_server::error::{McpServerError, SessionError};
use crate::mcp_server::event::McpServerEvent;
use crate::mcp_server::value::{
    ClientCapabilities, ClientInfo, ServerCapabilities, ServerConfig, SessionId, SessionMetadata,
    SessionStatus, TransportMode,
};
use crate::platform::{format_uuid, fresh_uuid, instant_bound_ms, now_millis, uuid_text};
use crate::text::{concat2, owned};
use crate::execution_tools::value::{distinct_keys, pair_views};

verus! {

/// Lifecycle status of the MCP server.
#[derive(Debug, Clone, Copy, PartialEq, Eq, Structural)]
pub enum McpServerStatus {
    /// Stopped or never started.
    Stopped,
    /// Initializing (transport being opened).
    Initializing,
    /// Running and accepting connections.
    Running,
    /// Shutting down (draining requests).
    ShuttingDown,
}

impl McpServerStatus {
    /// True in the terminal state.
    pub fn is_terminal(&self) -> (r: bool)
        ensures
            r == (*self == McpServerStatus::Stopped),
    {
        match self {
            McpServerStatus::Stopped => true,
            _ => false,
        }
    }

    /// True when the server can accept new sessions.
    pub fn can_accept_sessions(&self) -> (r: bool)
        ensures
            r == (*self == McpServerStatus::Running),
    {
        match self {
            McpServerStatus::Running => true,
            _ => false,
        }
    }
}

/// The debug name of a session status.
pub open spec fn status_name(s: SessionStatus) -> Seq<char> {
    match s {
        SessionStatus::Pending => "Pending"@,
        SessionStatus::Active => "Active"@,
        SessionStatus::Draining => "Draining"@,
        SessionStatus::Ended => "Ended"@,
    }
}

pub(crate) fn status_name_text(s: SessionStatus) -> (r: &'static str)
    ensures
        r@ == status_name(s),
{
    match s {
        SessionStatus::Pending => "Pending",
        SessionStatus::Active => "Active",
        SessionStatus::Draining => "Draining",
        SessionStatus::Ended => "Ended",
    }
}

/// An MCP client session with negotiated capabilities.
#[derive(Debug)]
pub struct Session {
    /// Unique session identifier.
    pub id: SessionId,
    /// Client identifying information.
    pub client_info: ClientInfo,
    /// Client capabilities received during initialization.
    pub client_capabilities: ClientCapabilities,
    /// Server capabilities negotiated during initialization.
    pub server_capabilities: ServerCapabilities,
    /// Current session status.
    pub status: SessionStatus,
    /// Whether the initialize handshake has completed.
    pub initialized: bool,
    /// When the session was created (milliseconds since the epoch).
    pub started_at: Option<i64>,
    /// When the session was last active (milliseconds since the epoch).
    pub last_active_at: Option<i64>,
    /// Additional metadata.
    pub metadata: SessionMetadata,
}

/// The value of server capabilities.
pub struct ServerCapabilitiesV {
    pub protocol_versions: Seq<Seq<char>>,
    pub tool_count: usize,
    pub resource_count: usize,
    pub prompt_count: usize,
    pub enterprise_enabled: bool,
    pub server_info: Option<Seq<char>>,
}

/// The value of server capabilities.
pub open spec fn caps_view(c: ServerCapabilities) -> ServerCapabilitiesV {
    ServerCapabilitiesV {
        protocol_versions: c.protocol_versions@.map_values(|v: String| v@),
        tool_count: c.tool_count,
        resource_count: c.resource_count,
        prompt_count: c.prompt_count,
        enterprise_enabled: c.enterprise_enabled,
        server_info: opt_view(c.server_info),
    }
}

/// The value of a session.
pub struct SessionV {
    pub id: u128,
    pub client_name: Seq<char>,
    pub client_version: Option<Seq<char>>,
    pub protocol_version: Seq<char>,
    pub caps_client_name: Option<Seq<char>>,
    pub caps_client_version: Option<Seq<char>>,
    pub supports_progress: bool,
    pub server_capabilities: ServerCapabilitiesV,
    pub status: SessionStatus,
    pub initialized: bool,
    pub started_at: Option<i64>,
    pub last_active_at: Option<i64>,
    pub labels: Seq<(Seq<char>, Seq<char>)>,
}

/// The value of an optional text.
pub open spec fn opt_view(s: Option<String>) -> Option<Seq<char>> {
    match s {
        Some(t) => Some(t@),
        None => None,
    }
}

fn opt_clone(s: &Option<String>) -> (r: Option<String>)
    ensures
        r == *s,
{
    match s {
        Some(t) => Some(t.clone()),
        None => None,
    }
}

impl View for Session {
    type V = SessionV;

    open spec fn view(&self) -> SessionV {
        SessionV {
            id: self.id.0,
            client_name: self.client_info.name@,
            client_version: opt_view(self.client_info.version),
            protocol_version: self.client_capabilities.protocol_version@,
            caps_client_name: opt_view(self.client_capabilities.client_name),
            caps_client_version: opt_view(self.client_capabilities.client_version),
            supports_progress: self.client_capabilities.supports_progress,
            server_capabilities: caps_view(self.server_capabilities),
            status: self.status,
            initialized: self.initialized,
            started_at: self.started_at,
            last_active_at: self.last_active_at,
            labels: pair_views(self.metadata.labels@),
        }
    }
}

/// Whether an instant lies in the range the clock can report.
pub open spec fn instant_ok(t: Option<i64>) -> bool {
    match t {
        Some(v) => -instant_bound_ms() <= v <= instant_bound_ms(),
        None => true,
    }
}

impl Session {
    /// A new pending session for the given client.
    pub fn new(
        client_info: ClientInfo,
        client_capabilities: ClientCapabilities,
        server_capabilities: ServerCapabilities,
    ) -> (r: Session)
        ensures
            r@.client_name == client_info.name@,
            r@.client_version == opt_view(client_info.version),
            r@.protocol_version == client_capabilities.protocol_version@,
            r@.caps_client_name == opt_view(client_capabilities.client_name),
            r@.caps_client_version == opt_view(client_capabilities.client_version),
            r@.supports_progress == client_capabilities.supports_progress,
            r@.server_capabilities == caps_view(server_capabilities),
            r@.labels.len() == 0,
            r@.status == SessionStatus::Pending,
            !r@.initialized,
            r@.started_at is Some,
            r@.last_active_at is Some,
            instant_ok(r@.started_at),
            instant_ok(r@.last_active_at),
            r.metadata.labels.len() == 0,
    {
        Session {
            id: SessionId::new(),
            client_info,
            client_capabilities,
            server_capabilities,
            status: SessionStatus::Pending,
            initialized: false,
            started_at: Some(now_millis()),
            last_active_at: Some(now_millis()),
            metadata: SessionMetadata { labels: Vec::new() },
        }
    }

    /// Mark the session initialized after a successful handshake.
    pub fn mark_initialized(&mut self) -> (r: Result<(), SessionError>)
        ensures
            old(self).initialized ==> (r matches Err(SessionError::InvalidState(m)) && m@
                == "Session already initialized"@ && final(self)@ == old(self)@),
            !old(self).initialized && old(self).status == SessionStatus::Ended ==> (r matches Err(
                SessionError::InvalidState(m),
            ) && m@ == "Session has ended"@ && final(self)@ == old(self)@),
            !old(self).initialized && old(self).status != SessionStatus::Ended ==> {
                &&& r is Ok
                &&& final(self)@ == (SessionV {
                    initialized: true,
                    status: SessionStatus::Active,
                    last_active_at: final(self)@.last_active_at,
                    ..old(self)@
                })
                &&& final(self)@.last_active_at is Some
                &&& instant_ok(final(self)@.last_active_at)
            },
    {
        if self.initialized {
            return Err(SessionError::InvalidState(owned("Session already initialized")));
        }
        if self.status.is_terminal() {
            return Err(SessionError::InvalidState(owned("Session has ended")));
        }
        self.initialized = true;
        self.status = SessionStatus::Active;
        self.last_active_at = Some(now_millis());
        Ok(())
    }

    /// Mark the session draining (no new requests).
    pub fn mark_draining(&mut self) -> (r: Result<(), SessionError>)
        ensures
            old(self).status != SessionStatus::Active ==> (r matches Err(
                SessionError::InvalidState(m),
            ) && m@ == "Cannot drain session in state: "@ + status_name(old(self).status)
                && final(self)@ == old(self)@),
            old(self).status == SessionStatus::Active ==> r is Ok && final(self)@ == (SessionV {
                status: SessionStatus::Draining,
                ..old(self)@
            }),
    {
        if !self.status.is_active() {
            return Err(
                SessionError::InvalidState(
                    concat2("Cannot drain session in state: ", status_name_text(self.status)),
                ),
            );
        }
        self.status = SessionStatus::Draining;
        Ok(())
    }

    /// Update the last-active instant to now.
    pub fn touch(&mut self)
        ensures
            final(self)@ == (SessionV { last_active_at: final(self)@.last_active_at, ..old(self)@ }),
            final(self)@.last_active_at is Some,
            instant_ok(final(self)@.last_active_at),
    {
        self.last_active_at = Some(now_millis());
    }

    /// A copy of the session.
    pub fn duplicate(&self) -> (r: Session)
        ensures
            r@ == self@,
    {
        let mut labels: Vec<(String, String)> = Vec::new();
        let mut i: usize = 0;
        while i < self.metadata.labels.len()
            invariant
                i <= self.metadata.labels.len(),
                pair_views(labels@) == pair_views(self.metadata.labels@).subrange(0, i as int),
            decreases self.metadata.labels.len() - i,
        {
            let ghost before = labels@;
            labels.push((self.metadata.labels[i].0.clone(), self.metadata.labels[i].1.clone()));
            assert(pair_views(labels@) =~= pair_views(before).push(pair_views(self.metadata.labels@)[i as int]));
            assert(pair_views(self.metadata.labels@).subrange(0, i + 1) =~= pair_views(
                self.metadata.labels@,
            ).subrange(0, i as int).push(pair_views(self.metadata.labels@)[i as int]));
            i = i + 1;
        }
        assert(pair_views(self.metadata.labels@).subrange(0, i as int) =~= pair_views(
            self.metadata.labels@,
        ));
        Session {
            id: self.id,
            client_info: ClientInfo {
                name: self.client_info.name.clone(),
                version: opt_clone(&self.client_info.version),
            },
            client_capabilities: ClientCapabilities {
                protocol_version: self.client_capabilities.protocol_version.clone(),
                client_name: opt_clone(&self.client_capabilities.client_name),
                client_version: opt_clone(&self.client_capabilities.client_version),
                supports_progress: self.client_capabilities.supports_progress,
            },
            server_capabilities: self.server_capabilities.duplicate(),
            status: self.status,
            initialized: self.initialized,
            started_at: self.started_at,
            last_active_at: self.last_active_at,
            metadata: SessionMetadata { labels },
        }
    }
}


/// The value of an MCP server's lifecycle state.
pub struct McpServerV {
    pub id: u128,
    pub max_sessions: nat,
    pub session_timeout_secs: u64,
    pub transport_mode: TransportMode,
    pub bind_address: Option<Seq<char>>,
    pub status: McpServerStatus,
    pub sessions: Seq<SessionV>,
    pub active_transport: Option<TransportMode>,
    pub started_at: Option<i64>,
    pub stopped_at: Option<i64>,
}

/// Whether the session identifiers of `s` are pairwise distinct.
pub open spec fn distinct_ids(s: Seq<SessionV>) -> bool {
    forall|i: int, j: int|
        0 <= i < s.len() && 0 <= j < s.len() && i != j ==> #[trigger] s[i].id != #[trigger] s[j].id
}

/// Whether a session with identifier `id` is among `s`.
pub open spec fn has_session(s: Seq<SessionV>, id: u128) -> bool {
    exists|i: int| 0 <= i < s.len() && #[trigger] s[i].id == id
}

/// The duration, in milliseconds, that an ending event reports for a session
/// started at `started` and ended at `now`: the difference, wrapped into
/// `u64`, or zero for a session without a start instant.
pub open spec fn ended_duration(started: Option<i64>, now: i64) -> u64 {
    match started {
        Some(t) => #[verifier::truncate] ((now - t) as u64),
        None => 0,
    }
}

/// The elapsed time, in milliseconds, of a session at `now`.
pub open spec fn elapsed_ms(started: Option<i64>, now: i64) -> int {
    match started {
        Some(t) => now - t,
        None => 0,
    }
}

/// Whether `ev` reports that session `s` ended for `reason` at `now`.
pub open spec fn is_ended_event(ev: McpServerEvent, s: SessionV, reason: Seq<char>, now: i64) -> bool {
    match ev {
        McpServerEvent::McpSessionEnded { session_id, reason: r, duration_ms, timestamp } => {
            &&& session_id.0 == s.id
            &&& r@ == reason
            &&& duration_ms == ended_duration(s.started_at, now)
            &&& timestamp == now
        },
        _ => false,
    }
}

/// The sessions of `s` that are still within `timeout_ms` at `now`.
pub open spec fn kept_sessions(s: Seq<SessionV>, now: i64, timeout_ms: int) -> Seq<SessionV> {
    s.filter(|x: SessionV| elapsed_ms(x.started_at, now) <= timeout_ms)
}

/// The sessions of `s` that exceed `timeout_ms` at `now`.
pub open spec fn expired_sessions(s: Seq<SessionV>, now: i64, timeout_ms: int) -> Seq<SessionV> {
    s.filter(|x: SessionV| elapsed_ms(x.started_at, now) > timeout_ms)
}

/// The largest session timeout, in seconds, that the clock arithmetic accepts.
pub open spec fn max_timeout_secs() -> int {
    9_223_372_036_854_775
}

/// Core aggregate root of the MCP server: lifecycle, transport and sessions.
#[derive(Debug)]
pub struct McpServer {
    id: u128,
    config: ServerConfig,
    status: McpServerStatus,
    sessions: Vec<Session>,
    active_transport: Option<TransportMode>,
    started_at: Option<i64>,
    stopped_at: Option<i64>,
}

impl View for McpServer {
    type V = McpServerV;

    closed spec fn view(&self) -> McpServerV {
        McpServerV {
            id: self.id,
            max_sessions: self.config.max_sessions as nat,
            session_timeout_secs: self.config.session_timeout_secs,
            transport_mode: self.config.transport_mode,
            bind_address: opt_view(self.config.bind_address),
            status: self.status,
            sessions: self.sessions@.map_values(|x: Session| x@),
            active_transport: self.active_transport,
            started_at: self.started_at,
            stopped_at: self.stopped_at,
        }
    }
}

impl McpServer {
    /// The server invariant: session identifiers are distinct, the session
    /// count stays within the limit, sessions exist only while running, the
    /// server never rests while shutting down, a transport is active exactly
    /// while running, session start instants lie in the clock's range, and
    /// each session's labels map every key to one value.
    pub open spec fn wf(&self) -> bool {
        let v = self@;
        &&& distinct_ids(v.sessions)
        &&& v.sessions.len() <= v.max_sessions
        &&& v.status != McpServerStatus::Running ==> v.sessions.len() == 0
        &&& v.status != McpServerStatus::ShuttingDown
        &&& (v.active_transport is Some <==> v.status == McpServerStatus::Running)
        &&& forall|i: int| 0 <= i < v.sessions.len() ==> instant_ok(#[trigger] v.sessions[i].started_at)
        &&& forall|i: int| 0 <= i < v.sessions.len() ==> distinct_keys(#[trigger] v.sessions[i].labels)
    }

    /// A new stopped server with the given configuration.
    pub fn new(config: ServerConfig) -> (r: McpServer)
        ensures
            r.wf(),
            r@.max_sessions == config.max_sessions,
            r@.session_timeout_secs == config.session_timeout_secs,
            r@.transport_mode == config.transport_mode,
            r@.bind_address == opt_view(config.bind_address),
            r@.status == McpServerStatus::Stopped,
            r@.sessions.len() == 0,
            r@.active_transport is None,
            r@.started_at is None,
            r@.stopped_at is None,
    {
        McpServer {
            id: fresh_uuid(),
            config,
            status: McpServerStatus::Stopped,
            sessions: Vec::new(),
            active_transport: None,
            started_at: None,
            stopped_at: None,
        }
    }

    /// The server's unique identifier.
    pub fn id(&self) -> (r: u128)
        ensures
            r == self@.id,
    {
        self.id
    }

    /// The server configuration.
    pub fn config(&self) -> (r: &ServerConfig)
        ensures
            r.max_sessions == self@.max_sessions,
            r.session_timeout_secs == self@.session_timeout_secs,
            r.transport_mode == self@.transport_mode,
            opt_view(r.bind_address) == self@.bind_address,
    {
        &self.config
    }

    /// The current server status.
    pub fn status(&self) -> (r: McpServerStatus)
        ensures
            r == self@.status,
    {
        self.status
    }

    /// The active transport mode, if any.
    pub fn active_transport(&self) -> (r: Option<TransportMode>)
        ensures
            r == self@.active_transport,
    {
        self.active_transport
    }

    /// The number of active sessions.
    pub fn session_count(&self) -> (r: usize)
        ensures
            r == self@.sessions.len(),
    {
        self.sessions.len()
    }

    /// All active sessions.
    pub fn sessions(&self) -> (r: &Vec<Session>)
        ensures
            r@.map_values(|x: Session| x@) == self@.sessions,
    {
        &self.sessions
    }

    /// Start the server: from `Stopped` to `Initializing`.
    pub fn start(&mut self) -> (r: Result<Vec<McpServerEvent>, McpServerError>)
        requires
            old(self).wf(),
        ensures
            final(self).wf(),
            old(self)@.status == McpServerStatus::Stopped ==> {
                &&& r is Ok && r->Ok_0.len() == 0
                &&& final(self)@ == (McpServerV {
                    status: McpServerStatus::Initializing,
                    started_at: final(self)@.started_at,
                    ..old(self)@
                })
                &&& final(self)@.started_at is Some
            },
            (old(self)@.status == McpServerStatus::Running || old(self)@.status
                == McpServerStatus::Initializing) ==> (r matches Err(McpServerError::AlreadyRunning)
                && final(self)@ == old(self)@),
            old(self)@.status == McpServerStatus::ShuttingDown ==> (r matches Err(
                McpServerError::ShuttingDown,
            ) && final(self)@ == old(self)@),
    {
        match self.status {
            McpServerStatus::Stopped => {
                self.status = McpServerStatus::Initializing;
                self.started_at = Some(now_millis());
                Ok(Vec::new())
            },
            McpServerStatus::Running | McpServerStatus::Initializing => Err(
                McpServerError::AlreadyRunning,
            ),
            McpServerStatus::ShuttingDown => Err(McpServerError::ShuttingDown),
        }
    }

    /// The transport is open: from `Initializing` to `Running` on `mode`.
    pub fn on_transport_opened(&mut self, mode: TransportMode) -> (r: Result<
        Vec<McpServerEvent>,
        McpServerError,
    >)
        requires
            old(self).wf(),
        ensures
            final(self).wf(),
            old(self)@.status != McpServerStatus::Initializing ==> (r matches Err(
                McpServerError::NotInitialized,
            ) && final(self)@ == old(self)@),
            old(self)@.status == McpServerStatus::Initializing ==> {
                &&& r is Ok && r->Ok_0.len() == 0
                &&& final(self)@ == (McpServerV {
                    status: McpServerStatus::Running,
                    active_transport: Some(mode),
                    ..old(self)@
                })
            },
    {
        if self.status != McpServerStatus::Initializing {
            return Err(McpServerError::NotInitialized);
        }
        self.status = McpServerStatus::Running;
        self.active_transport = Some(mode);
        Ok(Vec::new())
    }

    /// Shut the server down: end every session, close the transport, stop.
    pub fn shutdown(&mut self) -> (r: Result<Vec<McpServerEvent>, McpServerError>)
        requires
            old(self).wf(),
        ensures
            final(self).wf(),
            (old(self)@.status == McpServerStatus::Running || old(self)@.status
                == McpServerStatus::Initializing) ==> {
                &&& final(self)@ == (McpServerV {
                    status: McpServerStatus::Stopped,
                    sessions: Seq::empty(),
                    active_transport: None,
                    stopped_at: final(self)@.stopped_at,
                    ..old(self)@
                })
                &&& final(self)@.stopped_at is Some
                &&& r is Ok
                &&& r->Ok_0.len() == old(self)@.sessions.len()
                &&& forall|i: int|
                    0 <= i < old(self)@.sessions.len() ==> is_ended_event(
                        #[trigger] r->Ok_0[i],
                        old(self)@.sessions[i],
                        "server_shutdown"@,
                        r->Ok_0[i].spec_timestamp(),
                    )
            },
            old(self)@.status == McpServerStatus::Stopped ==> (r is Ok && r->Ok_0.len() == 0
                && final(self)@ == old(self)@),
            old(self)@.status == McpServerStatus::ShuttingDown ==> (r matches Err(
                McpServerError::ShuttingDown,
            ) && final(self)@ == old(self)@),
    {
        match self.status {
            McpServerStatus::Running | McpServerStatus::Initializing => {
                self.status = McpServerStatus::ShuttingDown;
                self.stopped_at = Some(now_millis());
                let ghost olds = self@.sessions;
                let mut events: Vec<McpServerEvent> = Vec::new();
                let mut i: usize = 0;
                while i < self.sessions.len()
                    invariant
                        i <= self.sessions.len(),
                        olds == self.sessions@.map_values(|x: Session| x@),
                        forall|k: int| 0 <= k < olds.len() ==> instant_ok(#[trigger] olds[k].started_at),
                        events.len() == i,
                        forall|k: int|
                            0 <= k < i ==> is_ended_event(
                                #[trigger] events@[k],
                                olds[k],
                                "server_shutdown"@,
                                events@[k].spec_timestamp(),
                            ),
                    decreases self.sessions.len() - i,
                {
                    let now = now_millis();
                    proof {
                        assert(olds[i as int] == self.sessions@[i as int]@);
                        assert(instant_ok(olds[i as int].started_at));
                    }
                    let duration_ms: u64 = match self.sessions[i].started_at {
                        Some(t) => #[verifier::truncate] ((now - t) as u64),
                        None => 0,
                    };
                    events.push(
                        McpServerEvent::McpSessionEnded {
                            session_id: self.sessions[i].id,
                            reason: owned("server_shutdown"),
                            duration_ms,
                            timestamp: now,
                        },
                    );
                    i = i + 1;
                }
                self.sessions = Vec::new();
                self.status = McpServerStatus::Stopped;
                self.active_transport = None;
                proof {
                    assert(self@.sessions =~= Seq::<SessionV>::empty());
                }
                Ok(events)
            },
            McpServerStatus::Stopped => Ok(Vec::new()),
            McpServerStatus::ShuttingDown => Err(McpServerError::ShuttingDown),
        }
    }

    /// The position of the session with identifier `id`, if any.
    fn position(&self, id: SessionId) -> (r: Option<usize>)
        ensures
            match r {
                Some(i) => i < self@.sessions.len() && self@.sessions[i as int].id == id.0,
                None => !has_session(self@.sessions, id.0),
            },
    {
        let mut i: usize = 0;
        while i < self.sessions.len()
            invariant
                i <= self.sessions.len(),
                forall|j: int| 0 <= j < i ==> self@.sessions[j].id != id.0,
            decreases self.sessions.len() - i,
        {
            proof {
                assert(self@.sessions[i as int] == self.sessions@[i as int]@);
            }
            if self.sessions[i].id.0 == id.0 {
                return Some(i);
            }
            i = i + 1;
        }
        None
    }

    /// Create a session for a client, if the server runs and has room.
    pub fn create_session(
        &mut self,
        client_info: ClientInfo,
        capabilities: ClientCapabilities,
        server_capabilities: ServerCapabilities,
    ) -> (r: Result<(Session, Vec<McpServerEvent>), McpServerError>)
        requires
            old(self).wf(),
        ensures
            final(self).wf(),
            old(self)@.status != McpServerStatus::Running ==> (r matches Err(
                McpServerError::NotInitialized,
            ) && final(self)@ == old(self)@),
            old(self)@.status == McpServerStatus::Running && old(self)@.sessions.len()
                >= old(self)@.max_sessions ==> (r matches Err(
                McpServerError::Session(SessionError::MaxSessionsReached(n)),
            ) && n == old(self)@.max_sessions && final(self)@ == old(self)@),
            old(self)@.status == McpServerStatus::Running && old(self)@.sessions.len()
                < old(self)@.max_sessions ==> {
                &&& r is Ok
                &&& ({
                    let s = r->Ok_0.0@;
                    let events = r->Ok_0.1;
                    &&& s.client_name == client_info.name@
                    &&& s.client_version == opt_view(client_info.version)
                    &&& s.protocol_version == capabilities.protocol_version@
                    &&& s.caps_client_name == opt_view(capabilities.client_name)
                    &&& s.caps_client_version == opt_view(capabilities.client_version)
                    &&& s.supports_progress == capabilities.supports_progress
                    &&& s.server_capabilities == caps_view(server_capabilities)
                    &&& s.labels.len() == 0
                    &&& s.status == SessionStatus::Pending
                    &&& !s.initialized
                    &&& s.started_at is Some
                    &&& final(self)@ == (McpServerV {
                        sessions: if has_session(old(self)@.sessions, s.id) {
                            old(self)@.sessions.update(
                                choose|i: int|
                                    0 <= i < old(self)@.sessions.len() && old(
                                        self,
                                    )@.sessions[i].id == s.id,
                                s,
                            )
                        } else {
                            old(self)@.sessions.push(s)
                        },
                        ..old(self)@
                    })
                    &&& events.len() == 1
                    &&& events[0] matches McpServerEvent::McpSessionStarted {
                        session_id,
                        client_name,
                        client_version,
                        protocol_version,
                        ..
                    } && session_id.0 == s.id && client_name@ == s.client_name && opt_view(
                        client_version,
                    ) == s.client_version && protocol_version@ == s.protocol_version
                })
            },
    {
        if self.status != McpServerStatus::Running {
            return Err(McpServerError::NotInitialized);
        }
        if self.sessions.len() >= self.config.max_sessions {
            return Err(
                McpServerError::Session(SessionError::MaxSessionsReached(self.config.max_sessions)),
            );
        }
        let session = Session::new(client_info, capabilities, server_capabilities);
        let events = vec![
            McpServerEvent::McpSessionStarted {
                session_id: session.id,
                client_name: session.client_info.name.clone(),
                client_version: opt_clone(&session.client_info.version),
                protocol_version: session.client_capabilities.protocol_version.clone(),
                timestamp: now_millis(),
            },
        ];
        let stored = session.duplicate();
        let ghost olds = self@.sessions;
        match self.position(session.id) {
            Some(i) => {
                self.sessions.set(i, stored);
                proof {
                    let w = choose|k: int| 0 <= k < olds.len() && olds[k].id == session@.id;
                    assert(w == i);
                    assert(self@.sessions =~= olds.update(i as int, session@));
                    assert forall|a: int, b: int|
                        0 <= a < self@.sessions.len() && 0 <= b < self@.sessions.len() && a != b implies #[trigger] self@.sessions[a].id
                        != #[trigger] self@.sessions[b].id by {
                        if a != i && b != i {
                            assert(self@.sessions[a] == olds[a]);
                            assert(self@.sessions[b] == olds[b]);
                        } else if a == i {
                            assert(self@.sessions[b] == olds[b]);
                            assert(olds[i as int].id == session@.id);
                        } else {
                            assert(self@.sessions[a] == olds[a]);
                            assert(olds[i as int].id == session@.id);
                        }
                    }
                }
            },
            None => {
                self.sessions.push(stored);
                proof {
                    assert(self@.sessions =~= olds.push(session@));
                    assert forall|a: int, b: int|
                        0 <= a < self@.sessions.len() && 0 <= b < self@.sessions.len() && a != b implies #[trigger] self@.sessions[a].id
                        != #[trigger] self@.sessions[b].id by {
                        if a < olds.len() && b < olds.len() {
                            assert(self@.sessions[a] == olds[a]);
                            assert(self@.sessions[b] == olds[b]);
                        } else if a < olds.len() {
                            assert(self@.sessions[a] == olds[a]);
                        } else {
                            assert(self@.sessions[b] == olds[b]);
                        }
                    }
                }
            },
        }
        Ok((session, events))
    }

    /// End the session with identifier `session_id`.
    pub fn end_session(&mut self, session_id: SessionId, reason: &str) -> (r: Result<
        Vec<McpServerEvent>,
        McpServerError,
    >)
        requires
            old(self).wf(),
        ensures
            final(self).wf(),
            !has_session(old(self)@.sessions, session_id.0) ==> (r matches Err(
                McpServerError::Session(SessionError::NotFound(m)),
            ) && m@ == uuid_text(session_id.0) && final(self)@ == old(self)@),
            has_session(old(self)@.sessions, session_id.0) ==> {
                &&& r is Ok
                &&& r->Ok_0.len() == 1
                &&& exists|i: int|
                    0 <= i < old(self)@.sessions.len() && old(self)@.sessions[i].id == session_id.0
                        && final(self)@ == (McpServerV {
                        sessions: old(self)@.sessions.remove(i),
                        ..old(self)@
                    }) && is_ended_event(
                        r->Ok_0[0],
                        old(self)@.sessions[i],
                        reason@,
                        r->Ok_0[0].spec_timestamp(),
                    )
            },
    {
        let idx = match self.position(session_id) {
            None => {
                return Err(McpServerError::Session(SessionError::NotFound(format_uuid(session_id.0))));
            },
            Some(i) => i,
        };
        let ghost olds = self@.sessions;
        let session = self.sessions.remove(idx);
        proof {
            assert(self@.sessions =~= olds.remove(idx as int));
            assert(olds[idx as int] == session@);
            assert(instant_ok(olds[idx as int].started_at));
            assert forall|a: int, b: int|
                0 <= a < self@.sessions.len() && 0 <= b < self@.sessions.len() && a != b implies #[trigger] self@.sessions[a].id
                != #[trigger] self@.sessions[b].id by {
                let oa = if a < idx { a } else { a + 1 };
                let ob = if b < idx { b } else { b + 1 };
                assert(self@.sessions[a] == olds[oa]);
                assert(self@.sessions[b] == olds[ob]);
            }
            assert forall|a: int| 0 <= a < self@.sessions.len() implies instant_ok(#[trigger] self@.sessions[a].started_at) by {
                let oa = if a < idx { a } else { a + 1 };
                assert(self@.sessions[a] == olds[oa]);
            }
        }
        let now = now_millis();
        let duration_ms: u64 = match session.started_at {
            Some(t) => #[verifier::truncate] ((now - t) as u64),
            None => 0,
        };
        Ok(
            vec![
                McpServerEvent::McpSessionEnded {
                    session_id,
                    reason: owned(reason),
                    duration_ms,
                    timestamp: now,
                },
            ],
        )
    }

    /// The session with identifier `session_id`, if any.
    pub fn find_session(&self, session_id: &SessionId) -> (r: Option<&Session>)
        ensures
            match r {
                Some(s) => has_session(self@.sessions, session_id.0) && s@.id == session_id.0
                    && exists|i: int| 0 <= i < self@.sessions.len() && self@.sessions[i] == s@,
                None => !has_session(self@.sessions, session_id.0),
            },
    {
        match self.position(*session_id) {
            Some(i) => {
                proof {
                    assert(self@.sessions[i as int] == self.sessions@[i as int]@);
                }
                Some(&self.sessions[i])
            },
            None => None,
        }
    }

    /// What an eviction at `now` does: the sessions within the timeout stay,
    /// in order, and one ending event with reason "timeout" reports each
    /// session beyond it, in order.
    pub open spec fn evicted_at(
        before: McpServerV,
        after: McpServerV,
        events: Seq<McpServerEvent>,
        now: i64,
    ) -> bool {
        let timeout_ms = before.session_timeout_secs * 1000;
        let gone = expired_sessions(before.sessions, now, timeout_ms);
        &&& after == (McpServerV {
            sessions: kept_sessions(before.sessions, now, timeout_ms),
            ..before
        })
        &&& events.len() == gone.len()
        &&& forall|k: int|
            0 <= k < gone.len() ==> is_ended_event(#[trigger] events[k], gone[k], "timeout"@, now)
    }

    /// Evict the sessions that have been open longer than the session timeout.
    #[verifier::loop_isolation(false)]
    pub fn evict_expired_sessions(&mut self) -> (r: Vec<McpServerEvent>)
        requires
            old(self).wf(),
            old(self)@.session_timeout_secs <= max_timeout_secs(),
        ensures
            final(self).wf(),
            exists|now: i64| Self::evicted_at(old(self)@, final(self)@, r@, now),
    {
        let now = now_millis();
        let timeout_ms: i64 = (self.config.session_timeout_secs * 1000) as i64;
        let ghost olds = self@.sessions;
        let ghost keep = |x: SessionV| elapsed_ms(x.started_at, now) <= timeout_ms;
        let ghost drop = |x: SessionV| elapsed_ms(x.started_at, now) > timeout_ms;
        let mut kept: Vec<Session> = Vec::new();
        let mut events: Vec<McpServerEvent> = Vec::new();
        let ghost mut idx: Seq<int> = Seq::empty();
        let mut i: usize = 0;
        let n = self.sessions.len();
        proof {
            assert(olds.subrange(0, 0) =~= Seq::<SessionV>::empty());
            assert(Seq::<SessionV>::empty().filter(keep) =~= Seq::<SessionV>::empty());
            assert(Seq::<SessionV>::empty().filter(drop) =~= Seq::<SessionV>::empty());
        }
        while i < n
            invariant
                n == self.sessions.len(),
                olds == self@.sessions,
                self@.sessions == self.sessions@.map_values(|x: Session| x@),
                i <= n,
                kept@.map_values(|x: Session| x@) == olds.subrange(0, i as int).filter(keep),
                events.len() == olds.subrange(0, i as int).filter(drop).len(),
                forall|k: int|
                    0 <= k < events.len() ==> is_ended_event(
                        #[trigger] events@[k],
                        olds.subrange(0, i as int).filter(drop)[k],
                        "timeout"@,
                        now,
                    ),
                idx.len() == kept.len(),
                forall|k: int| 0 <= k < idx.len() ==> 0 <= #[trigger] idx[k] < i,
                forall|k: int|
                    0 <= k < idx.len() ==> kept@[k]@ == olds[#[trigger] idx[k]],
                forall|k: int, l: int| 0 <= k < l < idx.len() ==> #[trigger] idx[k] < #[trigger] idx[l],
            decreases n - i,
        {
            let ghost pre = olds.subrange(0, i as int);
            proof {
                assert(olds.subrange(0, i + 1 as int) =~= pre.push(olds[i as int]));
                pre.lemma_filter_push(olds[i as int], keep);
                pre.lemma_filter_push(olds[i as int], drop);
                assert(olds[i as int] == self.sessions@[i as int]@);
                assert(instant_ok(olds[i as int].started_at));
            }
            let elapsed: i64 = match self.sessions[i].started_at {
                Some(t) => now - t,
                None => 0,
            };
            if elapsed > timeout_ms {
                events.push(
                    McpServerEvent::McpSessionEnded {
                        session_id: self.sessions[i].id,
                        reason: owned("timeout"),
                        duration_ms: #[verifier::truncate] (elapsed as u64),
                        timestamp: now,
                    },
                );
            } else {
                let ghost kept_before = kept@;
                kept.push(self.sessions[i].duplicate());
                proof {
                    assert(kept@.map_values(|x: Session| x@) =~= kept_before.map_values(
                        |x: Session| x@,
                    ).push(olds[i as int]));
                    idx = idx.push(i as int);
                }
            }
            i = i + 1;
        }
        proof {
            assert(olds.subrange(0, n as int) =~= olds);
            let kv = kept@.map_values(|x: Session| x@);
            assert forall|a: int, b: int|
                0 <= a < kv.len() && 0 <= b < kv.len() && a != b implies #[trigger] kv[a].id
                != #[trigger] kv[b].id by {
                assert(kv[a] == olds[idx[a]]);
                assert(kv[b] == olds[idx[b]]);
                if a < b {
                    assert(idx[a] < idx[b]);
                } else {
                    assert(idx[b] < idx[a]);
                }
            }
            assert forall|a: int| 0 <= a < kv.len() implies instant_ok(#[trigger] kv[a].started_at) by {
                assert(kv[a] == olds[idx[a]]);
            }
            assert forall|a: int| 0 <= a < kv.len() implies distinct_keys(#[trigger] kv[a].labels) by {
                assert(kv[a] == olds[idx[a]]);
            }
            olds.lemma_filter_len(keep);
        }
        self.sessions = kept;
        proof {
            assert(Self::evicted_at(old(self)@, self@, events@, now));
        }
        events
    }
}

/// Ending the session that was just created under a new id gives back the
/// sessions there were before.
pub proof fn law_end_session_undoes_create(before: Seq<SessionV>, s: SessionV, i: int)
    requires
        distinct_ids(before.push(s)),
        0 <= i < before.len() + 1,
        before.push(s)[i].id == s.id,
    ensures
        before.push(s).remove(i) == before,
{
    if i < before.len() {
        assert(before.push(s)[i].id != before.push(s)[before.len() as int].id);
    }
    assert(before.push(s).remove(i) =~= before);
}

} // verus!
