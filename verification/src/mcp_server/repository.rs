//! In-memory storage of sessions and the session service over it, and the
//! service that keeps the handlers of registered tools by name.
//!
//! Sessions are kept by identifier, in the order they were first saved; a
//! save of a known identifier replaces the stored session in place.

use vstd::prelude::*;
use crate::mcp_server::dto::{
    EndSessionInput, InitializeInput, InitializeOutput, ListSessionsOutput, RegisterToolInput, RegisterToolOutput, SessionInfo,
    UnregisterToolInput, UnregisterToolOutput,
};
use crate::mcp_server::entity::opt_view;
use crate::mcp_server::event::McpServerEvent;
use crate::mcp_server::registry::{RegistrationErrorV, ToolHandler};
use crate::mcp_server::service::McpServerServiceImpl;
use crate::mcp_server::value::{
    enterprise_prefix, oss_prefix, ClientCapabilities, ClientInfo, ServerCapabilities, ToolSchema,
};
use crate::platform::now_millis;
use crate::text::{concat3, has_prefix, starts_with, str_eq};
use crate::mcp_server::entity::{distinct_ids, has_session, status_name, status_name_text, Session, SessionV};
use crate::mcp_server::error::{McpServerError, RegistrationError, SessionError};
use crate::platform::uuid_text;
use crate::execution_tools::value::distinct_keys;
use crate::mcp_server::value::{SessionId, SessionStatus};

verus! {

/// The index of the session with identifier `id`, where there is one.
pub open spec fn index_of(s: Seq<SessionV>, id: u128) -> int {
    choose|i: int| 0 <= i < s.len() && #[trigger] s[i].id == id
}

/// The stored session with identifier `id`, if any.
pub open spec fn lookup(s: Seq<SessionV>, id: u128) -> Option<SessionV> {
    if has_session(s, id) {
        Some(s[index_of(s, id)])
    } else {
        None
    }
}

/// The sessions after saving `v`: it replaces the session with its
/// identifier, or is added at the end.
pub open spec fn saved(s: Seq<SessionV>, v: SessionV) -> Seq<SessionV> {
    if has_session(s, v.id) {
        s.update(index_of(s, v.id), v)
    } else {
        s.push(v)
    }
}

/// The sessions after deleting the one with identifier `id`, if any.
pub open spec fn deleted(s: Seq<SessionV>, id: u128) -> Seq<SessionV> {
    if has_session(s, id) {
        s.remove(index_of(s, id))
    } else {
        s
    }
}

/// The sessions that have not ended, in order.
pub open spec fn active_of(s: Seq<SessionV>) -> Seq<SessionV>
    decreases s.len(),
{
    if s.len() == 0 {
        Seq::empty()
    } else {
        active_of(s.drop_last()) + if s.last().status != SessionStatus::Ended {
            seq![s.last()]
        } else {
            Seq::empty()
        }
    }
}

/// Thread-free in-memory repository of sessions.
pub struct InMemorySessionRepository {
    sessions: Vec<Session>,
}

impl InMemorySessionRepository {
    /// The stored sessions, in the order they were first saved.
    pub closed spec fn spec_sessions(&self) -> Seq<SessionV> {
        self.sessions@.map_values(|s: Session| s@)
    }

    /// The repository invariant: one session per identifier, and each
    /// session's labels map every key to one value.
    pub open spec fn wf(&self) -> bool {
        &&& distinct_ids(self.spec_sessions())
        &&& forall|i: int|
            0 <= i < self.spec_sessions().len() ==> distinct_keys(#[trigger] self.spec_sessions()[i].labels)
    }

    /// An empty repository.
    pub fn new() -> (r: InMemorySessionRepository)
        ensures
            r.wf(),
            r.spec_sessions() == Seq::<SessionV>::empty(),
    {
        let r = InMemorySessionRepository { sessions: Vec::new() };
        assert(r.spec_sessions() =~= Seq::<SessionV>::empty());
        r
    }

    fn position(&self, id: &SessionId) -> (r: Option<usize>)
        requires
            self.wf(),
        ensures
            match r {
                Some(i) => has_session(self.spec_sessions(), id.0) && i == index_of(
                    self.spec_sessions(),
                    id.0,
                ) && i < self.spec_sessions().len(),
                None => !has_session(self.spec_sessions(), id.0),
            },
    {
        let ghost sv = self.spec_sessions();
        let mut i: usize = 0;
        while i < self.sessions.len()
            invariant
                sv == self.sessions@.map_values(|s: Session| s@),
                distinct_ids(sv),
                i <= self.sessions.len(),
                forall|k: int| 0 <= k < i ==> #[trigger] sv[k].id != id.0,
            decreases self.sessions.len() - i,
        {
            if self.sessions[i].id.0 == id.0 {
                assert(sv[i as int].id == id.0);
                let ghost j = index_of(sv, id.0);
                assert(sv[j].id == id.0);
                assert(j == i);
                return Some(i);
            }
            i = i + 1;
        }
        None
    }

    /// The session with the given identifier, if stored.
    pub fn find_by_id(&self, id: &SessionId) -> (r: Option<Session>)
        requires
            self.wf(),
        ensures
            match r {
                Some(s) => lookup(self.spec_sessions(), id.0) == Some(s@),
                None => lookup(self.spec_sessions(), id.0) is None,
            },
    {
        match self.position(id) {
            Some(i) => Some(self.sessions[i].duplicate()),
            None => None,
        }
    }

    /// Saves a session: creates it, or replaces the stored one with its
    /// identifier.
    pub fn save(&mut self, session: &Session)
        requires
            old(self).wf(),
            distinct_keys(session@.labels),
        ensures
            final(self).wf(),
            final(self).spec_sessions() == saved(old(self).spec_sessions(), session@),
    {
        let ghost sv = self.spec_sessions();
        match self.position(&session.id) {
            Some(i) => {
                self.sessions.set(i, session.duplicate());
                assert(self.spec_sessions() =~= sv.update(i as int, session@));
            },
            None => {
                self.sessions.push(session.duplicate());
                assert(self.spec_sessions() =~= sv.push(session@));
                assert forall|a: int, b: int|
                    0 <= a < sv.len() + 1 && 0 <= b < sv.len() + 1 && a != b implies #[trigger] self.spec_sessions()[a].id
                    != #[trigger] self.spec_sessions()[b].id by {
                    if a == sv.len() {
                        assert(sv[b].id != session.id.0);
                    } else if b == sv.len() {
                        assert(sv[a].id != session.id.0);
                    }
                }
            },
        }
    }

    /// Deletes the session with the given identifier, if stored.
    pub fn delete(&mut self, id: &SessionId)
        requires
            old(self).wf(),
        ensures
            final(self).wf(),
            final(self).spec_sessions() == deleted(old(self).spec_sessions(), id.0),
    {
        let ghost sv = self.spec_sessions();
        match self.position(id) {
            Some(i) => {
                self.sessions.remove(i);
                assert(self.spec_sessions() =~= sv.remove(i as int));
                assert forall|a: int, b: int|
                    0 <= a < sv.len() - 1 && 0 <= b < sv.len() - 1 && a != b implies #[trigger] self.spec_sessions()[a].id
                    != #[trigger] self.spec_sessions()[b].id by {
                    let a2 = if a < i { a } else { a + 1 };
                    let b2 = if b < i { b } else { b + 1 };
                    assert(self.spec_sessions()[a] == sv[a2]);
                    assert(self.spec_sessions()[b] == sv[b2]);
                }
            },
            None => {},
        }
    }

    /// The sessions that have not ended, in storage order.
    pub fn list_active(&self) -> (r: Vec<Session>)
        ensures
            r@.map_values(|s: Session| s@) == active_of(self.spec_sessions()),
    {
        let ghost sv = self.spec_sessions();
        let mut out: Vec<Session> = Vec::new();
        let mut i: usize = 0;
        while i < self.sessions.len()
            invariant
                sv == self.sessions@.map_values(|s: Session| s@),
                i <= self.sessions.len(),
                out@.map_values(|s: Session| s@) == active_of(sv.subrange(0, i as int)),
            decreases self.sessions.len() - i,
        {
            assert(sv.subrange(0, i + 1).drop_last() =~= sv.subrange(0, i as int));
            assert(sv.subrange(0, i + 1).last() == sv[i as int]);
            let ghost before = out@.map_values(|s: Session| s@);
            if !self.sessions[i].status.is_terminal() {
                out.push(self.sessions[i].duplicate());
                assert(out@.map_values(|s: Session| s@) =~= before.push(sv[i as int]));
            }
            assert(out@.map_values(|s: Session| s@) =~= active_of(sv.subrange(0, i + 1)));
            i = i + 1;
        }
        assert(sv.subrange(0, sv.len() as int) =~= sv);
        out
    }

    /// The number of stored sessions, ended ones included.
    pub fn count(&self) -> (r: usize)
        ensures
            r == self.spec_sessions().len(),
    {
        self.sessions.len()
    }
}

impl Default for InMemorySessionRepository {
    /// An empty repository.
    fn default() -> (r: InMemorySessionRepository)
        ensures
            r.wf(),
            r.spec_sessions() == Seq::<SessionV>::empty(),
    {
        InMemorySessionRepository::new()
    }
}

/// A saved session is found again under its identifier, unchanged.
pub proof fn law_find_after_save(s: Seq<SessionV>, v: SessionV)
    requires
        distinct_ids(s),
    ensures
        lookup(saved(s, v), v.id) == Some(v),
        distinct_ids(saved(s, v)),
{
    let t = saved(s, v);
    if has_session(s, v.id) {
        let i = index_of(s, v.id);
        assert(t[i].id == v.id);
        assert(has_session(t, v.id));
        let j = index_of(t, v.id);
        if j != i {
            assert(t[j] == s[j]);
            assert(s[j].id == s[i].id);
        }
        assert forall|a: int, b: int| 0 <= a < t.len() && 0 <= b < t.len() && a != b implies #[trigger] t[a].id
            != #[trigger] t[b].id by {
            if a == i {
                assert(s[b].id != s[i].id);
            } else if b == i {
                assert(s[a].id != s[i].id);
            }
        }
    } else {
        let n = s.len() as int;
        assert(t[n].id == v.id);
        assert(has_session(t, v.id));
        let j = index_of(t, v.id);
        if j != n {
            assert(t[j] == s[j]);
        }
        assert forall|a: int, b: int| 0 <= a < t.len() && 0 <= b < t.len() && a != b implies #[trigger] t[a].id
            != #[trigger] t[b].id by {
            if a == n {
                assert(t[b] == s[b]);
            } else if b == n {
                assert(t[a] == s[a]);
            }
        }
    }
}

/// Saving a session leaves every other identifier's session as it was.
pub proof fn law_save_keeps_others(s: Seq<SessionV>, v: SessionV, id: u128)
    requires
        distinct_ids(s),
        id != v.id,
    ensures
        lookup(saved(s, v), id) == lookup(s, id),
{
    let t = saved(s, v);
    if has_session(s, id) {
        let i = index_of(s, id);
        if has_session(s, v.id) {
            let k = index_of(s, v.id);
            assert(i != k);
            assert(t[i] == s[i]);
        } else {
            assert(t[i] == s[i]);
        }
        assert(has_session(t, id));
        let j = index_of(t, id);
        assert(t[j].id == id);
        if has_session(s, v.id) {
            let k = index_of(s, v.id);
            if j == k {
                assert(t[j] == v);
            }
            assert(t[j] == s[j]);
        } else {
            if j == s.len() {
                assert(t[j] == v);
            }
            assert(t[j] == s[j]);
        }
        assert(j == i);
    } else {
        if has_session(t, id) {
            let j = index_of(t, id);
            if has_session(s, v.id) {
                let k = index_of(s, v.id);
                if j == k {
                    assert(t[j] == v);
                }
                assert(t[j] == s[j]);
            } else {
                if j == s.len() {
                    assert(t[j] == v);
                }
                assert(t[j] == s[j]);
            }
            assert(s[j].id == id);
        }
    }
}

/// A deleted session is no longer found.
pub proof fn law_delete_forgets(s: Seq<SessionV>, id: u128)
    requires
        distinct_ids(s),
    ensures
        lookup(deleted(s, id), id) is None,
{
    let t = deleted(s, id);
    if has_session(s, id) {
        let i = index_of(s, id);
        if has_session(t, id) {
            let j = index_of(t, id);
            if j < i {
                assert(t[j] == s[j]);
            } else {
                assert(t[j] == s[j + 1]);
            }
        }
    }
}

/// Session management over its own in-memory repository.
pub struct SessionServiceImpl {
    session_repo: InMemorySessionRepository,
}

impl Default for SessionServiceImpl {
    /// A service with an empty repository.
    fn default() -> (r: SessionServiceImpl)
        ensures
            r.wf(),
            r.spec_sessions() == Seq::<SessionV>::empty(),
    {
        SessionServiceImpl::new()
    }
}

/// The listing of a session.
pub struct SessionInfoV {
    pub session_id: u128,
    pub client_name: Seq<char>,
    pub status: Seq<char>,
    pub started_at: Option<i64>,
    pub last_active_at: Option<i64>,
}

/// The value of a session listing.
pub open spec fn info_view(i: SessionInfo) -> SessionInfoV {
    SessionInfoV {
        session_id: i.session_id.0,
        client_name: i.client_name@,
        status: i.status@,
        started_at: i.started_at,
        last_active_at: i.last_active_at,
    }
}

/// How a session is listed: its identifier, client, status name and
/// instants.
pub open spec fn info_of(s: SessionV) -> SessionInfoV {
    SessionInfoV {
        session_id: s.id,
        client_name: s.client_name,
        status: status_name(s.status),
        started_at: s.started_at,
        last_active_at: s.last_active_at,
    }
}

impl SessionServiceImpl {
    /// The sessions the service holds.
    pub closed spec fn spec_sessions(&self) -> Seq<SessionV> {
        self.session_repo.spec_sessions()
    }

    /// The service invariant: its repository's.
    pub closed spec fn wf(&self) -> bool {
        self.session_repo.wf()
    }

    /// A service with an empty repository.
    pub fn new() -> (r: SessionServiceImpl)
        ensures
            r.wf(),
            r.spec_sessions() == Seq::<SessionV>::empty(),
    {
        SessionServiceImpl { session_repo: InMemorySessionRepository::new() }
    }

    /// Ends a session by removing it from the repository; a session that is
    /// not stored is not found, and nothing changes.
    pub fn end_session(&mut self, input: EndSessionInput) -> (r: Result<(), McpServerError>)
        requires
            old(self).wf(),
        ensures
            final(self).wf(),
            has_session(old(self).spec_sessions(), input.session_id.0) ==> r is Ok
                && final(self).spec_sessions() == deleted(old(self).spec_sessions(), input.session_id.0),
            !has_session(old(self).spec_sessions(), input.session_id.0) ==> (r matches Err(
                McpServerError::Session(SessionError::NotFound(m)),
            ) && m@ == uuid_text(input.session_id.0) && final(self).spec_sessions() == old(
                self,
            ).spec_sessions()),
    {
        match self.session_repo.find_by_id(&input.session_id) {
            Some(_) => {
                self.session_repo.delete(&input.session_id);
                Ok(())
            },
            None => Err(McpServerError::Session(SessionError::NotFound(input.session_id.to_text()))),
        }
    }

    /// Lists the sessions that have not ended, with their count.
    pub fn list_sessions(&self) -> (r: ListSessionsOutput)
        ensures
            r.sessions@.map_values(|i: SessionInfo| info_view(i)) == active_of(
                self.spec_sessions(),
            ).map_values(|s: SessionV| info_of(s)),
            r.total == r.sessions.len(),
    {
        let sessions = self.session_repo.list_active();
        let ghost av = sessions@.map_values(|s: Session| s@);
        let mut infos: Vec<SessionInfo> = Vec::new();
        let mut i: usize = 0;
        while i < sessions.len()
            invariant
                av == sessions@.map_values(|s: Session| s@),
                i <= sessions.len(),
                infos@.map_values(|x: SessionInfo| info_view(x)) == av.subrange(0, i as int).map_values(
                    |s: SessionV| info_of(s),
                ),
            decreases sessions.len() - i,
        {
            let s = &sessions[i];
            let info = SessionInfo {
                session_id: s.id,
                client_name: s.client_info.name.clone(),
                status: crate::text::owned(status_name_text(s.status)),
                started_at: s.started_at,
                last_active_at: s.last_active_at,
            };
            let ghost before = infos@.map_values(|x: SessionInfo| info_view(x));
            infos.push(info);
            assert(infos@.map_values(|x: SessionInfo| info_view(x)) =~= before.push(info_of(av[i as int])));
            assert(av.subrange(0, i + 1).map_values(|s: SessionV| info_of(s)) =~= av.subrange(
                0,
                i as int,
            ).map_values(|s: SessionV| info_of(s)).push(info_of(av[i as int])));
            i = i + 1;
        }
        assert(av.subrange(0, av.len() as int) =~= av);
        let total = infos.len();
        ListSessionsOutput { sessions: infos, total }
    }

    /// Validates a session; the in-memory service accepts every session.
    pub fn validate_session(&self, session_id: &SessionId) -> (r: Result<(), McpServerError>)
        ensures
            r is Ok,
    {
        Ok(())
    }

    /// Evicts expired sessions; the in-memory service keeps none to evict.
    pub fn evict_expired(&mut self) -> (r: Result<usize, McpServerError>)
        ensures
            r == Ok::<usize, McpServerError>(0),
            final(self).spec_sessions() == old(self).spec_sessions(),
            final(self).wf() == old(self).wf(),
    {
        Ok(0)
    }
}

/// The names of a list of named handlers.
pub open spec fn handler_names<H>(hs: Seq<(String, H)>) -> Seq<Seq<char>> {
    hs.map_values(|p: (String, H)| p.0@)
}

/// Why the tool service refuses to register `name` on the given path, if it
/// does: the registry's naming refusals, then a name that already has a
/// handler; checked in that order.
pub open spec fn service_refusal(names: Seq<Seq<char>>, name: Seq<char>, is_enterprise: bool) -> Option<
    RegistrationErrorV,
> {
    if name.len() == 0 {
        Some(RegistrationErrorV::InvalidName("Tool name cannot be empty"@))
    } else if is_enterprise && !has_prefix(name, enterprise_prefix()) {
        Some(
            RegistrationErrorV::InvalidName(
                "Enterprise tool '"@ + name + "' must start with 'rigorix_enterprise_' prefix"@,
            ),
        )
    } else if !is_enterprise && !has_prefix(name, oss_prefix()) {
        Some(RegistrationErrorV::InvalidName("Tool '"@ + name + "' must start with 'rigorix_' prefix"@))
    } else if !is_enterprise && has_prefix(name, enterprise_prefix()) {
        Some(RegistrationErrorV::EnterpriseRegistrationForbidden)
    } else if names.contains(name) {
        Some(RegistrationErrorV::AlreadyRegistered(name))
    } else {
        None
    }
}

/// The handlers of registered tools, by tool name.
pub struct ToolRegistryServiceImpl<H: ToolHandler> {
    handlers: Vec<(String, H)>,
}

impl<H: ToolHandler> ToolRegistryServiceImpl<H> {
    /// The names that have a handler, in registration order.
    pub closed spec fn spec_names(&self) -> Seq<Seq<char>> {
        handler_names(self.handlers@)
    }

    /// The service invariant: one handler per name.
    pub open spec fn wf(&self) -> bool {
        self.spec_names().no_duplicates()
    }

    /// A service without handlers.
    pub fn new() -> (r: ToolRegistryServiceImpl<H>)
        ensures
            r.wf(),
            r.spec_names() == Seq::<Seq<char>>::empty(),
    {
        let r = ToolRegistryServiceImpl { handlers: Vec::new() };
        assert(r.spec_names() =~= Seq::<Seq<char>>::empty());
        r
    }

    fn position(&self, name: &str) -> (r: Option<usize>)
        requires
            self.wf(),
        ensures
            match r {
                Some(i) => i < self.spec_names().len() && self.spec_names()[i as int] == name@,
                None => !self.spec_names().contains(name@),
            },
    {
        let ghost ns = self.spec_names();
        let mut i: usize = 0;
        while i < self.handlers.len()
            invariant
                ns == handler_names(self.handlers@),
                i <= self.handlers.len(),
                forall|k: int| 0 <= k < i ==> #[trigger] ns[k] != name@,
            decreases self.handlers.len() - i,
        {
            if str_eq(self.handlers[i].0.as_str(), name) {
                return Some(i);
            }
            i = i + 1;
        }
        None
    }

    /// Keeps the handler of a tool under the tool's name. The name must
    /// follow the conventions of its path and be new: the refusals and their
    /// order are those of `ToolRegistry::register` (without its size limit),
    /// and a refusal changes nothing. The answer reports the number of tools
    /// with a handler.
    pub fn register_tool(&mut self, input: RegisterToolInput, handler: H) -> (r: Result<
        RegisterToolOutput,
        McpServerError,
    >)
        requires
            old(self).wf(),
        ensures
            final(self).wf(),
            match service_refusal(old(self).spec_names(), input.schema.name@, input.is_enterprise) {
                Some(e) => r matches Err(McpServerError::Registration(x)) && x@ == e
                    && final(self).spec_names() == old(self).spec_names(),
                None => r matches Ok(o) && o.name@ == input.schema.name@ && o.registered
                    && final(self).spec_names() == old(self).spec_names().push(input.schema.name@)
                    && o.total_tools == final(self).spec_names().len(),
            },
    {
        let ghost ns = self.spec_names();
        let is_enterprise = input.is_enterprise;
        let name = input.schema.name;
        if name.as_str().is_empty() {
            return Err(McpServerError::Registration(RegistrationError::InvalidName(
                crate::text::owned("Tool name cannot be empty"),
            )));
        }
        if is_enterprise {
            if !starts_with(name.as_str(), "rigorix_enterprise_") {
                return Err(McpServerError::Registration(RegistrationError::InvalidName(
                    concat3("Enterprise tool '", name.as_str(), "' must start with 'rigorix_enterprise_' prefix"),
                )));
            }
        } else {
            if !starts_with(name.as_str(), "rigorix_") {
                return Err(McpServerError::Registration(RegistrationError::InvalidName(
                    concat3("Tool '", name.as_str(), "' must start with 'rigorix_' prefix"),
                )));
            }
            if starts_with(name.as_str(), "rigorix_enterprise_") {
                return Err(McpServerError::Registration(RegistrationError::EnterpriseRegistrationForbidden));
            }
        }
        if self.position(name.as_str()).is_some() {
            return Err(McpServerError::Registration(RegistrationError::AlreadyRegistered(name)));
        }
        self.handlers.push((name.clone(), handler));
        assert(self.spec_names() =~= ns.push(name@));
        proof {
            assert forall|a: int, b: int|
                0 <= a < self.spec_names().len() && 0 <= b < self.spec_names().len() && a != b implies self.spec_names()[a]
                != self.spec_names()[b] by {
                if a == ns.len() {
                    assert(ns[b] != name@);
                } else if b == ns.len() {
                    assert(ns[a] != name@);
                }
            }
        }
        let total_tools = self.handlers.len();
        Ok(RegisterToolOutput { name, registered: true, total_tools })
    }

    /// Registers enterprise tools; this service registers none.
    pub fn register_enterprise_tools(&mut self, schemas: Vec<ToolSchema>, handler: H) -> (r: Result<
        Vec<RegisterToolOutput>,
        McpServerError,
    >)
        ensures
            r matches Ok(v) && v.len() == 0,
            final(self).spec_names() == old(self).spec_names(),
    {
        Ok(Vec::new())
    }

    /// Drops the handler of a tool, if any; the answer reports no tools.
    pub fn unregister_tool(&mut self, input: UnregisterToolInput) -> (r: Result<
        UnregisterToolOutput,
        McpServerError,
    >)
        requires
            old(self).wf(),
        ensures
            final(self).wf(),
            !final(self).spec_names().contains(input.name@),
            forall|n: Seq<char>| n != input.name@ ==> (final(self).spec_names().contains(n)
                <==> old(self).spec_names().contains(n)),
            r matches Ok(o) && o.name@ == input.name@ && o.total_tools == 0,
    {
        let ghost ns = self.spec_names();
        match self.position(input.name.as_str()) {
            Some(i) => {
                let _ = self.handlers.remove(i);
                assert(self.spec_names() =~= ns.remove(i as int));
                assert forall|n: Seq<char>| n != input.name@ implies (self.spec_names().contains(n)
                    <==> ns.contains(n)) by {
                    if ns.contains(n) {
                        let k = choose|k: int| 0 <= k < ns.len() && ns[k] == n;
                        assert(k != i);
                        if k < i {
                            assert(self.spec_names()[k] == n);
                        } else {
                            assert(self.spec_names()[k - 1] == n);
                        }
                    }
                    if self.spec_names().contains(n) {
                        let k = choose|k: int| 0 <= k < self.spec_names().len() && self.spec_names()[k] == n;
                        if k < i {
                            assert(ns[k] == n);
                        } else {
                            assert(ns[k + 1] == n);
                        }
                    }
                }
                proof {
                    if self.spec_names().contains(input.name@) {
                        let k = choose|k: int|
                            0 <= k < self.spec_names().len() && self.spec_names()[k] == input.name@;
                        if k < i {
                            assert(ns[k] == ns[i as int]);
                        } else {
                            assert(ns[k + 1] == ns[i as int]);
                        }
                    }
                }
            },
            None => {},
        }
        Ok(UnregisterToolOutput { name: input.name, total_tools: 0 })
    }

    /// The schemas of the registered tools; this service keeps none.
    pub fn list_tool_schemas(&self) -> (r: Result<Vec<ToolSchema>, McpServerError>)
        ensures
            r matches Ok(v) && v.len() == 0,
    {
        Ok(Vec::new())
    }

    /// The handler kept under a tool name, if any.
    pub fn find_tool(&self, name: &str) -> (r: Result<Option<&H>, McpServerError>)
        requires
            self.wf(),
        ensures
            r matches Ok(found) && (found is Some <==> self.spec_names().contains(name@)),
    {
        match self.position(name) {
            Some(i) => Ok(Some(&self.handlers[i].1)),
            None => Ok(None),
        }
    }

    /// Whether a tool name has a handler.
    pub fn is_tool_registered(&self, name: &str) -> (r: bool)
        requires
            self.wf(),
        ensures
            r == self.spec_names().contains(name@),
    {
        self.position(name).is_some()
    }
}

impl<H: ToolHandler> Default for ToolRegistryServiceImpl<H> {
    /// A service without handlers.
    fn default() -> (r: ToolRegistryServiceImpl<H>)
        ensures
            r.wf(),
            r.spec_names() == Seq::<Seq<char>>::empty(),
    {
        ToolRegistryServiceImpl::new()
    }
}

/// The application service over a session repository: initializing a
/// session creates it and saves it; everything else is the service's.
pub struct McpServerServiceWithRepos {
    /// The service that answers everything but initialization.
    pub service: McpServerServiceImpl,
    /// Where initialized sessions are kept.
    pub session_repo: InMemorySessionRepository,
}

impl McpServerServiceWithRepos {
    /// The service over the given repository, with no executor.
    pub fn new(session_repo: InMemorySessionRepository) -> (r: McpServerServiceWithRepos)
        ensures
            r.session_repo == session_repo,
            !r.service.spec_wired(),
            r.service.spec_tools().len() == 0,
    {
        McpServerServiceWithRepos { service: McpServerServiceImpl::new(), session_repo }
    }

    /// The service with an executor wired in, serving the given tools.
    pub fn with_executor(self, tool_schemas: Vec<ToolSchema>) -> (r: McpServerServiceWithRepos)
        ensures
            r.session_repo == self.session_repo,
            r.service.spec_wired(),
            r.service.spec_tools() == tool_schemas@.map_values(|t: ToolSchema| t@),
    {
        McpServerServiceWithRepos {
            service: self.service.with_executor(tool_schemas),
            session_repo: self.session_repo,
        }
    }

    /// Initializes a session: a new pending session for the client is
    /// saved, and announced by one session-started event carrying its
    /// identifier; the answer is the gateway's protocol version and default
    /// capabilities (no tools counted, two resources, one prompt). Saving in
    /// memory cannot fail.
    pub fn initialize(&mut self, input: InitializeInput) -> (r: Result<
        (InitializeOutput, Vec<McpServerEvent>),
        McpServerError,
    >)
        requires
            old(self).session_repo.wf(),
        ensures
            final(self).session_repo.wf(),
            final(self).service == old(self).service,
            r matches Ok((out, events)) && {
                &&& out.protocol_version@ == "2025-03-26"@
                &&& out.server_info@ == "Rigorix MCP Gateway"@
                &&& out.server_capabilities.tool_count == 0
                &&& out.server_capabilities.resource_count == 2
                &&& out.server_capabilities.prompt_count == 1
                &&& events.len() == 1
                &&& events[0] matches McpServerEvent::McpSessionStarted {
                    session_id,
                    client_name,
                    client_version,
                    protocol_version,
                    ..
                } && client_name@ == input.client_info.name@ && client_version
                    == input.client_info.version && protocol_version@ == input.protocol_version@
                    && exists|s: SessionV| {
                    &&& s.id == session_id.0
                    &&& s.client_name == input.client_info.name@
                    &&& s.client_version == opt_view(input.client_info.version)
                    &&& s.protocol_version == input.protocol_version@
                    &&& s.caps_client_name == Some(input.client_info.name@)
                    &&& s.caps_client_version == opt_view(input.client_info.version)
                    &&& !s.supports_progress
                    &&& s.server_capabilities.tool_count == 0
                    &&& s.server_capabilities.resource_count == 2
                    &&& s.server_capabilities.prompt_count == 1
                    &&& s.labels.len() == 0
                    &&& s.status == SessionStatus::Pending
                    &&& !s.initialized
                    &&& final(self).session_repo.spec_sessions() == saved(
                        old(self).session_repo.spec_sessions(),
                        s,
                    )
                }
            },
    {
        let caps = ServerCapabilities::default_with_counts(0, 2, 1);
        let output = InitializeOutput {
            protocol_version: crate::text::owned("2025-03-26"),
            server_capabilities: caps.duplicate(),
            server_info: crate::text::owned("Rigorix MCP Gateway"),
        };
        let client_caps = ClientCapabilities {
            protocol_version: input.protocol_version.clone(),
            client_name: Some(input.client_info.name.clone()),
            client_version: match &input.client_info.version {
                Some(v) => Some(v.clone()),
                None => None,
            },
            supports_progress: false,
        };
        let client_info = ClientInfo {
            name: input.client_info.name.clone(),
            version: match &input.client_info.version {
                Some(v) => Some(v.clone()),
                None => None,
            },
        };
        let session = Session::new(client_info, client_caps, caps);
        self.session_repo.save(&session);
        let event = McpServerEvent::McpSessionStarted {
            session_id: session.id,
            client_name: input.client_info.name,
            client_version: input.client_info.version,
            protocol_version: input.protocol_version,
            timestamp: now_millis(),
        };
        Ok((output, vec![event]))
    }
}

} // verus!
