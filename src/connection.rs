//! One tool server connection: its definition, lifecycle supervisor,
//! protocol client and health record, and the rules for invoking its tools
//! and resources.
use vstd::prelude::*;

use crate::error::PluginError;
use crate::health::McpHealthChecker;
use crate::lifecycle::{transition, LifecycleAction, LifecycleEvent, McpServerStatus, Supervisor};
use crate::mcp_server::{
    McpContent, McpError, McpRequest, McpResource, McpResourceContent, McpServerHealth,
    McpServerInfo, McpTool, McpToolResult,
};
use crate::plugin_api::level_rank;
use crate::protocol::{
    deadline_of, ids_of, issued, resources_changed, tools_changed, IncomingMessage, InitializeResult, PendingRequest,
    ProtocolClient,
};
use crate::wire::{encode_tool_call_params, encode_uri_params, tool_call_params, uri_params};

verus! {

/// Parameters of the initialize request: protocol version, client
/// capabilities and client identity.
pub const INITIALIZE_PARAMS: &'static str = "{\"protocolVersion\":\"2024-11-05\",\"capabilities\":{\"roots\":{\"listChanged\":true}},\"clientInfo\":{\"name\":\"Catalyst IDE\",\"version\":\"0.4.3\"}}";

/// The views of a list of strings.
pub open spec fn texts(v: Seq<String>) -> Seq<Seq<char>> {
    v.map_values(|s: String| s@)
}

/// Whether every required name is among the present ones.
pub open spec fn env_satisfied(required: Seq<Seq<char>>, present: Seq<Seq<char>>) -> bool {
    forall|i: int| 0 <= i < required.len() ==> present.contains(#[trigger] required[i])
}

/// Whether every name in `required` occurs in `present`.
pub fn all_present(required: &Vec<String>, present: &Vec<String>) -> (r: bool)
    ensures
        r == env_satisfied(texts(required@), texts(present@)),
{
    let mut i: usize = 0;
    while i < required.len()
        invariant
            i <= required.len(),
            forall|k: int| 0 <= k < i ==> texts(present@).contains(#[trigger] texts(required@)[k]),
        decreases required.len() - i,
    {
        let mut found = false;
        let mut j: usize = 0;
        while j < present.len()
            invariant
                i < required.len(),
                j <= present.len(),
                found ==> texts(present@).contains(texts(required@)[i as int]),
                !found ==> forall|k: int| 0 <= k < j ==> texts(present@)[k] != texts(required@)[i as int],
            decreases present.len() - j,
        {
            if present[j] == required[i] {
                assert(texts(present@)[j as int] == texts(required@)[i as int]);
                found = true;
            }
            j = j + 1;
        }
        if !found {
            assert(!texts(present@).contains(texts(required@)[i as int]));
            return false;
        }
        i = i + 1;
    }
    true
}

/// What a lifecycle step hands back to the caller.
#[derive(Debug, Clone)]
pub struct Transition {
    /// What to do with the process.
    pub action: LifecycleAction,
    /// Calls that ended because the connection left `Running`; each fails
    /// with `ConnectionStopped`.
    pub cancelled: Vec<u64>,
}

/// Whether a step ends the outstanding calls: an explicit stop, whatever
/// the state, and any change of state except into `Running`.
pub open spec fn ends_calls(before: McpServerStatus, after: McpServerStatus, e: LifecycleEvent) -> bool {
    e == LifecycleEvent::StopRequested || (before != after && after != McpServerStatus::Running)
}

/// A tool server connection: definition, lifecycle, protocol state and
/// health record.
#[derive(Debug, Clone)]
pub struct ServerConnection {
    pub info: McpServerInfo,
    pub supervisor: Supervisor,
    pub client: ProtocolClient,
    pub health: McpServerHealth,
}

/// Whether invoking `name` needs explicit confirmation: when no fresh tool
/// list is cached (its level cannot be resolved), or when the cached list
/// names it with a level above `Safe`. A tool that a fresh list does not name
/// is left for the server to refuse.
pub open spec fn needs_confirmation(tools: Option<Vec<McpTool>>, name: Seq<char>) -> bool {
    tools is None || (tools matches Some(ts) && exists|i: int|
        0 <= i < ts@.len() && ts@[i].name@ == name && level_rank(ts@[i].security_level) > 0)
}

/// Whether invoking `name` needs explicit confirmation.
#[verifier::loop_isolation(false)]
pub fn tool_needs_confirmation(tools: &Option<Vec<McpTool>>, name: &String) -> (r: bool)
    ensures
        r == needs_confirmation(*tools, name@),
{
    match tools {
        None => true,
        Some(ts) => {
            let mut i: usize = 0;
            while i < ts.len()
                invariant
                    i <= ts.len(),
                    forall|k: int|
                        0 <= k < i ==> !(ts@[k].name@ == name@ && level_rank(ts@[k].security_level)
                            > 0),
                decreases ts.len() - i,
            {
                if ts[i].name == *name && ts[i].security_level.requires_confirmation() {
                    assert(ts@[i as int].name@ == name@ && level_rank(ts@[i as int].security_level) > 0);
                    return true;
                }
                i = i + 1;
            }
            false
        },
    }
}

/// Maps the answer to a `tools/call` request: a JSON-RPC error becomes
/// `RemoteToolError` with its code and message; a result hands its content
/// blocks back as they are.
pub fn finish_tool_call(error: Option<McpError>, content: Vec<McpContent>, is_error: bool) -> (r:
    Result<McpToolResult, PluginError>)
    ensures
        error matches Some(e) ==> r == Err::<McpToolResult, PluginError>(
            PluginError::RemoteToolError { code: e.code, message: e.message },
        ),
        error is None ==> (r matches Ok(t) && t.content == content && t.is_error == is_error),
{
    match error {
        Some(e) => Err(PluginError::RemoteToolError { code: e.code, message: e.message }),
        None => Ok(McpToolResult { content, is_error }),
    }
}

/// Picks the answer to a `resources/read` request: the first content that
/// carries text or binary data, or `ResourceNotFound` when none does.
#[verifier::loop_isolation(false)]
pub fn finish_resource_read(contents: Vec<McpResourceContent>) -> (r: Result<
    McpResourceContent,
    PluginError,
>)
    ensures
        (forall|i: int| 0 <= i < contents@.len() ==> contents@[i].text is None && contents@[i].blob is None)
            ==> r == Err::<McpResourceContent, PluginError>(PluginError::ResourceNotFound),
        (exists|i: int| 0 <= i < contents@.len() && (contents@[i].text is Some || contents@[i].blob is Some))
            ==> r is Ok,
        r matches Ok(c) ==> exists|i: int|
            0 <= i < contents@.len() && contents@[i] == c && (c.text is Some || c.blob is Some)
                && forall|j: int|
                0 <= j < i ==> contents@[j].text is None && contents@[j].blob is None,
{
    let ghost all = contents@;
    let mut items = contents;
    let mut i: usize = 0;
    while i < items.len()
        invariant
            items@ == all,
            i <= items.len(),
            forall|j: int| 0 <= j < i ==> items@[j].text is None && items@[j].blob is None,
        decreases items.len() - i,
    {
        if items[i].text.is_some() || items[i].blob.is_some() {
            let c = items.remove(i);
            assert(all[i as int] == c);
            return Ok(c);
        }
        i = i + 1;
    }
    Err(PluginError::ResourceNotFound)
}

impl ServerConnection {
    /// The protocol state is consistent and the health record reports the
    /// supervisor's state.
    pub open spec fn wf(&self) -> bool {
        &&& self.client.wf()
        &&& self.health.status == self.supervisor.status
    }

    /// A stopped connection for a definition, with restarts enabled.
    pub fn new(info: McpServerInfo) -> (r: Self)
        ensures
            r.wf(),
            r.info == info,
            r.supervisor.status == McpServerStatus::Stopped,
            r.supervisor.auto_restart,
            r.supervisor.failures == 0,
            r.supervisor.check_failures == 0,
            r.client.pending@.len() == 0,
            r.client.tools is None,
            r.client.resources is None,
            r.health.status == McpServerStatus::Stopped,
            r.health.request_count == 0,
    {
        ServerConnection {
            info,
            supervisor: Supervisor::new(true),
            client: ProtocolClient::new(),
            health: McpServerHealth::new(McpServerStatus::Stopped),
        }
    }

    /// Current lifecycle state.
    pub fn status(&self) -> (r: McpServerStatus)
        ensures
            r == self.supervisor.status,
    {
        self.supervisor.status
    }

    /// Whether the server is up and answering.
    pub fn is_running(&self) -> (r: bool)
        ensures
            r == (self.supervisor.status == McpServerStatus::Running),
    {
        self.supervisor.is_running()
    }

    /// Applies one lifecycle event. The supervisor moves as [`transition`]
    /// says; when the step ends the outstanding calls (see [`ends_calls`])
    /// they are cancelled and listed, otherwise the protocol state is
    /// untouched. The health
    /// record follows the new state.
    pub fn apply(&mut self, e: LifecycleEvent) -> (r: Transition)
        ensures
            old(self).wf() ==> final(self).wf(),
            (final(self).supervisor, r.action) == transition(old(self).supervisor, e),
            final(self).info == old(self).info,
            final(self).health == (McpServerHealth {
                status: final(self).supervisor.status,
                ..old(self).health
            }),
            ends_calls(old(self).supervisor.status, final(self).supervisor.status, e) ==> r.cancelled@
                == ids_of(old(self).client.pending@) && final(self).client.pending@.len() == 0
                && final(self).client.next_id == old(self).client.next_id
                && final(self).client.protocol_version == old(self).client.protocol_version
                && final(self).client.server_info == old(self).client.server_info
                && final(self).client.tools == old(self).client.tools
                && final(self).client.resources == old(self).client.resources,
            !ends_calls(old(self).supervisor.status, final(self).supervisor.status, e) ==> r.cancelled@.len()
                == 0 && final(self).client == old(self).client,
    {
        let before = self.supervisor.status;
        let action = self.supervisor.step(e);
        let after = self.supervisor.status;
        self.health.status = after;
        let stopping = match e {
            LifecycleEvent::StopRequested => true,
            _ => false,
        };
        let cancelled = if stopping || (before != after && after != McpServerStatus::Running) {
            self.client.cancel_all()
        } else {
            Vec::new()
        };
        Transition { action, cancelled }
    }

    /// An explicit start. From `Stopped` or `Error` it fails with
    /// `MissingEnvironment`, changing nothing, when a required environment
    /// variable is not among `present_env`; otherwise it is the
    /// `StartRequested` step, which asks for a spawn.
    pub fn start(&mut self, present_env: &Vec<String>) -> (r: Result<Transition, PluginError>)
        ensures
            old(self).wf() ==> final(self).wf(),
            final(self).info == old(self).info,
            (old(self).supervisor.status == McpServerStatus::Stopped || old(self).supervisor.status
                == McpServerStatus::Error) && !env_satisfied(
                texts(old(self).info.required_env@),
                texts(present_env@),
            ) ==> r == Err::<Transition, PluginError>(PluginError::MissingEnvironment) && *final(self)
                == *old(self),
            r matches Ok(t) ==> (final(self).supervisor, t.action) == transition(
                old(self).supervisor,
                LifecycleEvent::StartRequested,
            ),
            r is Err ==> *final(self) == *old(self),
            ((old(self).supervisor.status != McpServerStatus::Stopped && old(self).supervisor.status
                != McpServerStatus::Error) || env_satisfied(
                texts(old(self).info.required_env@),
                texts(present_env@),
            )) ==> r is Ok,
    {
        let st = self.supervisor.status;
        if (st == McpServerStatus::Stopped || st == McpServerStatus::Error) && !all_present(
            &self.info.required_env,
            present_env,
        ) {
            return Err(PluginError::MissingEnvironment);
        }
        Ok(self.apply(LifecycleEvent::StartRequested))
    }

    /// The process could not be launched: the `SpawnFailed` step, which
    /// returns a starting connection to `Stopped`; the caller of `start`
    /// gets `SpawnFailure`.
    pub fn spawn_failed(&mut self) -> (r: (PluginError, Transition))
        ensures
            old(self).wf() ==> final(self).wf(),
            r.0 == PluginError::SpawnFailure,
            (final(self).supervisor, r.1.action) == transition(
                old(self).supervisor,
                LifecycleEvent::SpawnFailed,
            ),
            final(self).info == old(self).info,
            final(self).health == (McpServerHealth {
                status: final(self).supervisor.status,
                ..old(self).health
            }),
            ends_calls(old(self).supervisor.status, final(self).supervisor.status, LifecycleEvent::SpawnFailed)
                ==> r.1.cancelled@ == ids_of(old(self).client.pending@)
                && final(self).client.pending@.len() == 0,
            !ends_calls(old(self).supervisor.status, final(self).supervisor.status, LifecycleEvent::SpawnFailed)
                ==> r.1.cancelled@.len() == 0 && final(self).client == old(self).client,
    {
        let t = self.apply(LifecycleEvent::SpawnFailed);
        (PluginError::SpawnFailure, t)
    }

    /// An explicit stop: the `StopRequested` step. Every active connection
    /// ends `Stopped`; in every state the outstanding calls are cancelled and
    /// listed, each to fail with `ConnectionStopped`.
    pub fn stop(&mut self) -> (r: Transition)
        ensures
            old(self).wf() ==> final(self).wf(),
            (final(self).supervisor, r.action) == transition(
                old(self).supervisor,
                LifecycleEvent::StopRequested,
            ),
            final(self).info == old(self).info,
            final(self).supervisor.status != McpServerStatus::Running,
            r.cancelled@ == ids_of(old(self).client.pending@),
            final(self).client.pending@.len() == 0,
            final(self).client.next_id == old(self).client.next_id,
            final(self).health == (McpServerHealth {
                status: final(self).supervisor.status,
                ..old(self).health
            }),
    {
        self.apply(LifecycleEvent::StopRequested)
    }

    /// The initialize request of the handshake.
    pub fn begin_initialize(&mut self, now_ms: u64, timeout_ms: u64) -> (r: McpRequest)
        requires
            old(self).wf(),
            old(self).client.next_id < u64::MAX,
        ensures
            final(self).wf(),
            r.id == old(self).client.next_id,
            r.method@ == "initialize"@,
            r.params matches Some(p) && p@ == INITIALIZE_PARAMS@,
            final(self).supervisor == old(self).supervisor,
            final(self).health == old(self).health,
            final(self).info == old(self).info,
            final(self).client.is_pending(r.id),
            issued(
                old(self).client,
                final(self).client,
                r.id,
                "initialize"@,
                deadline_of(now_ms, timeout_ms),
            ),
    {
        let method = String::from_str("initialize");
        let params = String::from_str(INITIALIZE_PARAMS);
        let r = self.client.begin_call(method, Some(params), now_ms, timeout_ms);
        assert(ids_of(self.client.pending@)[self.client.pending@.len() - 1] == r.id);
        r
    }

    /// Ends the handshake with the decoded initialize result: an acceptable
    /// one is recorded and moves the connection on as `HandshakeSucceeded`,
    /// any other as `HandshakeFailed`.
    pub fn finish_initialize(&mut self, result: InitializeResult) -> (r: (
        Result<(), PluginError>,
        Transition,
    ))
        requires
            old(self).wf(),
        ensures
            final(self).wf(),
            r.0 is Ok ==> final(self).supervisor == transition(
                old(self).supervisor,
                LifecycleEvent::HandshakeSucceeded,
            ).0,
            r.0 is Err ==> final(self).supervisor == transition(
                old(self).supervisor,
                LifecycleEvent::HandshakeFailed,
            ).0,
            (result.protocol_version is None || result.server_info is None) ==> r.0 == Err::<
                (),
                PluginError,
            >(PluginError::ProtocolViolation),
            (result.protocol_version matches Some(v) && result.server_info is Some
                && !crate::protocol::is_supported_version(v@)) ==> r.0 == Err::<(), PluginError>(
                PluginError::IncompatibleVersion,
            ),
            (result.protocol_version matches Some(v) && result.server_info is Some
                && crate::protocol::is_supported_version(v@)) ==> r.0 is Ok,
            r.0 is Ok ==> final(self).client.protocol_version == result.protocol_version
                && final(self).client.server_info == result.server_info
                && final(self).client.tools is None && final(self).client.resources is None,
            r.0 is Err ==> final(self).client.protocol_version == old(self).client.protocol_version
                && final(self).client.server_info == old(self).client.server_info,
            (final(self).supervisor, r.1.action) == transition(
                old(self).supervisor,
                if r.0 is Ok {
                    LifecycleEvent::HandshakeSucceeded
                } else {
                    LifecycleEvent::HandshakeFailed
                },
            ),
            final(self).info == old(self).info,
            final(self).health == (McpServerHealth {
                status: final(self).supervisor.status,
                ..old(self).health
            }),
            final(self).client.next_id == old(self).client.next_id,
            r.1.cancelled@.len() == 0 ==> final(self).client.pending@ == old(self).client.pending@,
            r.1.cancelled@.len() > 0 ==> r.1.cancelled@ == ids_of(old(self).client.pending@)
                && final(self).client.pending@.len() == 0,
    {
        let checked = self.client.accept_initialize(result);
        let t = match checked {
            Ok(()) => self.apply(LifecycleEvent::HandshakeSucceeded),
            Err(_) => self.apply(LifecycleEvent::HandshakeFailed),
        };
        (checked, t)
    }

    /// Issues a request on a running connection; `ConnectionStopped` when
    /// the connection is not running, changing nothing.
    pub fn call(&mut self, method: String, params: Option<String>, now_ms: u64, timeout_ms: u64) -> (r:
        Result<McpRequest, PluginError>)
        requires
            old(self).wf(),
            old(self).client.next_id < u64::MAX,
        ensures
            final(self).wf(),
            final(self).supervisor == old(self).supervisor,
            final(self).info == old(self).info,
            final(self).health == old(self).health,
            old(self).supervisor.status != McpServerStatus::Running ==> r == Err::<
                McpRequest,
                PluginError,
            >(PluginError::ConnectionStopped) && *final(self) == *old(self),
            old(self).supervisor.status == McpServerStatus::Running ==> (r matches Ok(q) && q.id
                == old(self).client.next_id && q.method@ == method@ && q.params == params
                && final(self).client.is_pending(q.id) && !old(self).client.is_pending(q.id)
                && issued(old(self).client, final(self).client, q.id, method@, deadline_of(now_ms, timeout_ms))
                && final(self).client.tools == old(self).client.tools
                && final(self).client.resources == old(self).client.resources),
    {
        if !self.is_running() {
            return Err(PluginError::ConnectionStopped);
        }
        let q = self.client.begin_call(method, params, now_ms, timeout_ms);
        assert(ids_of(self.client.pending@)[self.client.pending@.len() - 1] == q.id);
        Ok(q)
    }

    /// Routes a decoded message. A response goes to the caller waiting for
    /// its id, which is returned; one that nobody waits for is dropped. A
    /// notification may drop a cached list. Nothing else changes.
    pub fn receive(&mut self, msg: IncomingMessage) -> (r: Option<PendingRequest>)
        requires
            old(self).wf(),
        ensures
            final(self).wf(),
            final(self).supervisor == old(self).supervisor,
            final(self).info == old(self).info,
            final(self).health == old(self).health,
            msg matches IncomingMessage::Response { id } ==> (r is Some <==> old(self).client.is_pending(id))
                && (r matches Some(p) ==> p.id == id && !final(self).client.is_pending(id)
                && exists|i: int|
                0 <= i < old(self).client.pending@.len() && old(self).client.pending@[i] == p
                    && final(self).client.pending@ == old(self).client.pending@.remove(i))
                && (r is None ==> final(self).client.pending@ == old(self).client.pending@)
                && final(self).client.next_id == old(self).client.next_id
                && final(self).client.tools == old(self).client.tools
                && final(self).client.resources == old(self).client.resources,
            msg matches IncomingMessage::Notification { method } ==> r is None
                && final(self).client.pending == old(self).client.pending
                && final(self).client.tools == (if tools_changed(method@) {
                    None
                } else {
                    old(self).client.tools
                }) && final(self).client.resources == (if resources_changed(method@) {
                    None
                } else {
                    old(self).client.resources
                }),
    {
        match msg {
            IncomingMessage::Response { id } => self.client.complete(id),
            IncomingMessage::Notification { method } => {
                self.client.on_notification(&method);
                None
            },
        }
    }

    /// Ends the calls whose deadline has passed and returns their ids; each
    /// fails with `Timeout`. A timeout alone never touches the lifecycle:
    /// the supervisor, and so the process, stay as they were.
    pub fn expire_calls(&mut self, now_ms: u64) -> (r: Vec<u64>)
        requires
            old(self).wf(),
        ensures
            final(self).wf(),
            final(self).supervisor == old(self).supervisor,
            final(self).info == old(self).info,
            final(self).health == old(self).health,
            final(self).client.pending@ == crate::protocol::live_requests(
                old(self).client.pending@,
                now_ms,
            ),
            r@ == crate::protocol::expired_ids(old(self).client.pending@, now_ms),
    {
        self.client.expire(now_ms)
    }

    /// Cancels one outstanding call on behalf of its caller; whether it was
    /// pending. Nothing else about the connection changes.
    pub fn cancel_call(&mut self, id: u64) -> (r: bool)
        requires
            old(self).wf(),
        ensures
            final(self).wf(),
            r == old(self).client.is_pending(id),
            !final(self).client.is_pending(id),
            crate::protocol::withdrawn(old(self).client, final(self).client, id),
            final(self).supervisor == old(self).supervisor,
            final(self).info == old(self).info,
            final(self).health == old(self).health,
    {
        self.client.cancel(id)
    }

    /// The cached tool list, when it is fresh.
    pub fn cached_tools(&self) -> (r: Option<&Vec<McpTool>>)
        ensures
            r is None <==> self.client.tools is None,
            r matches Some(t) ==> self.client.tools == Some(*t),
    {
        match &self.client.tools {
            Some(t) => Some(t),
            None => None,
        }
    }

    /// The cached resource list, when it is fresh.
    pub fn cached_resources(&self) -> (r: Option<&Vec<McpResource>>)
        ensures
            r is None <==> self.client.resources is None,
            r matches Some(t) ==> self.client.resources == Some(*t),
    {
        match &self.client.resources {
            Some(t) => Some(t),
            None => None,
        }
    }

    /// Stores a freshly fetched tool list.
    pub fn store_tools(&mut self, tools: Vec<McpTool>)
        ensures
            final(self).client.tools == Some(tools),
            final(self).client.pending == old(self).client.pending,
            final(self).client.next_id == old(self).client.next_id,
            final(self).client.resources == old(self).client.resources,
            final(self).supervisor == old(self).supervisor,
            final(self).info == old(self).info,
            final(self).health == old(self).health,
            old(self).wf() ==> final(self).wf(),
    {
        self.client.tools = Some(tools);
    }

    /// Stores a freshly fetched resource list.
    pub fn store_resources(&mut self, resources: Vec<McpResource>)
        ensures
            final(self).client.resources == Some(resources),
            final(self).client.pending == old(self).client.pending,
            final(self).client.next_id == old(self).client.next_id,
            final(self).client.tools == old(self).client.tools,
            final(self).supervisor == old(self).supervisor,
            final(self).info == old(self).info,
            final(self).health == old(self).health,
            old(self).wf() ==> final(self).wf(),
    {
        self.client.resources = Some(resources);
    }

    /// Invokes a tool. A tool that the cached list names with a level above
    /// `Safe`, or any tool while no fresh list is cached, needs `confirmed`,
    /// else the call fails with
    /// `ConfirmationRequired`; a connection that is not running fails with
    /// `ConnectionStopped`. Either failure changes nothing. Otherwise a
    /// `tools/call` request carries the name and the arguments (JSON text).
    pub fn call_tool(
        &mut self,
        name: String,
        arguments: String,
        confirmed: bool,
        now_ms: u64,
        timeout_ms: u64,
    ) -> (r: Result<McpRequest, PluginError>)
        requires
            old(self).wf(),
            old(self).client.next_id < u64::MAX,
        ensures
            final(self).wf(),
            final(self).supervisor == old(self).supervisor,
            final(self).info == old(self).info,
            final(self).health == old(self).health,
            needs_confirmation(old(self).client.tools, name@) && !confirmed ==> r == Err::<
                McpRequest,
                PluginError,
            >(PluginError::ConfirmationRequired) && *final(self) == *old(self),
            !(needs_confirmation(old(self).client.tools, name@) && !confirmed)
                && old(self).supervisor.status != McpServerStatus::Running ==> r == Err::<
                McpRequest,
                PluginError,
            >(PluginError::ConnectionStopped) && *final(self) == *old(self),
            !(needs_confirmation(old(self).client.tools, name@) && !confirmed)
                && old(self).supervisor.status == McpServerStatus::Running ==> (r matches Ok(q)
                && q.id == old(self).client.next_id && q.method@ == "tools/call"@
                && q.params is Some && q.params->Some_0@ == tool_call_params(name@, arguments@)
                && final(self).client.is_pending(q.id)
                && issued(old(self).client, final(self).client, q.id, "tools/call"@, deadline_of(now_ms, timeout_ms))),
    {
        if !confirmed && tool_needs_confirmation(&self.client.tools, &name) {
            return Err(PluginError::ConfirmationRequired);
        }
        let params = encode_tool_call_params(name.as_str(), arguments.as_str());
        self.call(String::from_str("tools/call"), Some(params), now_ms, timeout_ms)
    }

    /// A request about one resource (`resources/read`, `resources/subscribe`,
    /// `resources/unsubscribe`, ...) on a running connection.
    pub fn resource_request(
        &mut self,
        method: String,
        uri: &str,
        now_ms: u64,
        timeout_ms: u64,
    ) -> (r: Result<McpRequest, PluginError>)
        requires
            old(self).wf(),
            old(self).client.next_id < u64::MAX,
        ensures
            final(self).wf(),
            final(self).supervisor == old(self).supervisor,
            final(self).info == old(self).info,
            final(self).health == old(self).health,
            old(self).supervisor.status != McpServerStatus::Running ==> r == Err::<
                McpRequest,
                PluginError,
            >(PluginError::ConnectionStopped) && *final(self) == *old(self),
            old(self).supervisor.status == McpServerStatus::Running ==> (r matches Ok(q) && q.id
                == old(self).client.next_id && q.method@ == method@ && q.params is Some
                && q.params->Some_0@ == uri_params(uri@) && final(self).client.is_pending(q.id)
                && issued(old(self).client, final(self).client, q.id, method@, deadline_of(now_ms, timeout_ms))),
    {
        let params = encode_uri_params(uri);
        self.call(method, Some(params), now_ms, timeout_ms)
    }

    /// Records a health probe (see [`McpHealthChecker::record_check`]) and
    /// feeds its outcome to the supervisor as `CheckSucceeded` or
    /// `CheckFailed`.
    pub fn record_health_check(
        &mut self,
        checker: &McpHealthChecker,
        now_ms: u64,
        initialize: Result<(), String>,
        response_time_ms: u64,
        tools: Option<Result<(), String>>,
    ) -> (r: Transition)
        requires
            old(self).wf(),
        ensures
            final(self).wf(),
            (final(self).supervisor, r.action) == transition(
                old(self).supervisor,
                if final(self).health.healthy {
                    LifecycleEvent::CheckSucceeded
                } else {
                    LifecycleEvent::CheckFailed
                },
            ),
            final(self).health.healthy == (initialize is Ok && response_time_ms
                <= checker.max_acceptable_response_time_ms && !(tools matches Some(Err(_)))),
            crate::health::probe_recorded(
                checker.max_acceptable_response_time_ms,
                old(self).health,
                McpServerHealth { status: old(self).health.status, ..final(self).health },
                now_ms,
                initialize,
                response_time_ms,
                tools,
            ),
            final(self).info == old(self).info,
    {
        checker.record_check(&mut self.health, now_ms, initialize, response_time_ms, tools);
        if self.health.healthy {
            self.apply(LifecycleEvent::CheckSucceeded)
        } else {
            self.apply(LifecycleEvent::CheckFailed)
        }
    }
}

/// The tool a health probe calls: the first one listed.
pub fn smoke_test_target(tools: &Vec<McpTool>) -> (r: Option<&String>)
    ensures
        tools@.len() == 0 ==> r is None,
        tools@.len() > 0 ==> (r matches Some(n) && *n == tools@[0].name),
{
    if tools.len() == 0 {
        None
    } else {
        Some(&tools[0].name)
    }
}

} // verus!
