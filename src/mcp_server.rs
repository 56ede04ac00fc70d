//! Tool servers: their definitions, wire-level data and registry.
//!
//! JSON payloads that the crate only carries (tool arguments, input schemas,
//! result objects) are held as JSON text.
use vstd::prelude::*;

use crate::connection::{env_satisfied, texts, ServerConnection, Transition};
use crate::protocol::ids_of;
use crate::error::PluginError;
use crate::health::{summarize, HealthSummary};
use crate::lifecycle::{transition, LifecycleAction, LifecycleEvent, McpServerStatus};
use crate::plugin_api::SecurityLevel;
use crate::registry::IdMap;

verus! {

/// Immutable definition of a tool server, as configuration supplies it.
#[derive(Debug, Clone)]
pub struct McpServerInfo {
    pub id: String,
    pub name: String,
    pub description: String,
    pub version: String,
    /// Executable followed by any fixed leading arguments.
    pub command: Vec<String>,
    pub args: Vec<String>,
    /// Environment overrides, as `(name, value)` pairs.
    pub env: Vec<(String, String)>,
    /// Environment variables that must be set for the server to start.
    pub required_env: Vec<String>,
    pub working_directory: Option<String>,
    pub auto_start: bool,
    pub capabilities: McpServerCapabilities,
}

/// Capability flags that a server definition declares.
#[derive(Debug, Clone)]
pub struct McpServerCapabilities {
    pub tools: bool,
    pub resources: bool,
    pub prompts: bool,
    pub logging: bool,
    /// Experimental capabilities, as `(name, JSON text)` pairs.
    pub experimental: Vec<(String, String)>,
}

/// A request sent to a server.
#[derive(Debug, Clone)]
pub struct McpRequest {
    pub id: u64,
    pub method: String,
    /// Parameters as JSON text.
    pub params: Option<String>,
}

/// A response received from a server, already decoded from its frame.
#[derive(Debug, Clone)]
pub struct McpResponse {
    pub id: u64,
    /// The result object as JSON text.
    pub result: Option<String>,
    pub error: Option<McpError>,
}

/// A JSON-RPC error object.
#[derive(Debug, Clone)]
pub struct McpError {
    pub code: i64,
    pub message: String,
    /// Extra data as JSON text.
    pub data: Option<String>,
}

/// A tool that a server offers.
#[derive(Debug, Clone)]
pub struct McpTool {
    pub name: String,
    pub description: Option<String>,
    /// Input schema as JSON text.
    pub input_schema: String,
    /// What invoking the tool may touch.
    pub security_level: SecurityLevel,
}

/// A resource that a server offers.
#[derive(Debug, Clone)]
pub struct McpResource {
    pub uri: String,
    pub name: String,
    pub description: Option<String>,
    pub mime_type: Option<String>,
}

/// Outcome of a tool call.
#[derive(Debug, Clone)]
pub struct McpToolResult {
    pub content: Vec<McpContent>,
    pub is_error: bool,
}

/// One content block of a tool result.
#[derive(Debug, Clone)]
pub struct McpContent {
    /// `"text"`, `"image"`, `"resource"`, ...
    pub content_type: String,
    /// The text of a text block, or the base64 payload of a binary block.
    pub data: String,
}

/// Content of a resource.
#[derive(Debug, Clone)]
pub struct McpResourceContent {
    pub uri: String,
    pub mime_type: Option<String>,
    pub text: Option<String>,
    pub blob: Option<Vec<u8>>,
}

/// Observed health of one server.
#[derive(Debug, Clone)]
pub struct McpServerHealth {
    pub status: McpServerStatus,
    /// Outcome of the most recent probe.
    pub healthy: bool,
    pub last_error: Option<String>,
    /// Milliseconds since the process came up, when it is up.
    pub uptime_ms: Option<u64>,
    /// Probes run since the last reset.
    pub request_count: u64,
    pub success_count: u64,
    pub error_count: u64,
    /// Time of the most recent probe, in milliseconds of the caller's clock.
    pub last_check_ms: Option<u64>,
    /// Round trip of the most recent initialize probe, in milliseconds.
    pub response_time_ms: u64,
}

/// Whether a bulk start acts on a connection: its definition asks for
/// auto-start and it is not running.
pub open spec fn wants_auto_start(c: ServerConnection) -> bool {
    c.info.auto_start && c.supervisor.status != McpServerStatus::Running
}

/// Whether `start` succeeds on a connection: it is already on its way up,
/// or every variable it requires is present.
pub open spec fn start_ok(c: ServerConnection, present_env: Seq<String>) -> bool {
    !(c.supervisor.status == McpServerStatus::Stopped || c.supervisor.status
        == McpServerStatus::Error) || env_ok(c, present_env)
}

/// How a bulk start leaves one entry.
pub open spec fn started_entry(
    before: (Seq<char>, ServerConnection),
    after: (Seq<char>, ServerConnection),
    present_env: Seq<String>,
) -> bool {
    &&& after.0 == before.0
    &&& (wants_auto_start(before.1) && start_ok(before.1, present_env)) ==> after.1.supervisor
        == transition(before.1.supervisor, LifecycleEvent::StartRequested).0 && after.1.info
        == before.1.info
    &&& !(wants_auto_start(before.1) && start_ok(before.1, present_env)) ==> after.1 == before.1
}

/// The outcome a bulk start reports for an entry it acted on.
pub open spec fn start_outcome(
    e: (Seq<char>, ServerConnection),
    present_env: Seq<String>,
    o: BatchOutcome,
) -> bool {
    &&& o.id@ == e.0
    &&& start_ok(e.1, present_env) ==> (o.result matches Ok(t) && transition(
        e.1.supervisor,
        LifecycleEvent::StartRequested,
    ).1 == t.action)
    &&& !start_ok(e.1, present_env) ==> o.result == Err::<Transition, PluginError>(
        PluginError::MissingEnvironment,
    )
}

/// A bulk start took the registry from `before` to `after` and reported
/// `out`: every auto-start server that was not running got a start and one
/// outcome, in registration order; every other server stayed as it was.
pub open spec fn auto_started(
    before: Seq<(Seq<char>, ServerConnection)>,
    after: Seq<(Seq<char>, ServerConnection)>,
    present_env: Seq<String>,
    out: Seq<BatchOutcome>,
) -> bool {
    &&& after.len() == before.len()
    &&& forall|i: int|
        0 <= i < before.len() ==> started_entry(#[trigger] before[i], after[i], present_env)
    &&& out.len() == auto_start_entries(before).len()
    &&& forall|k: int|
        0 <= k < out.len() ==> start_outcome(
            auto_start_entries(before)[k],
            present_env,
            #[trigger] out[k],
        )
}

/// How a bulk stop leaves one entry.
pub open spec fn stopped_entry(
    before: (Seq<char>, ServerConnection),
    after: (Seq<char>, ServerConnection),
) -> bool {
    &&& after.0 == before.0
    &&& crate::lifecycle::is_active(before.1.supervisor.status) ==> after.1.supervisor
        == transition(before.1.supervisor, LifecycleEvent::StopRequested).0
        && after.1.supervisor.status == McpServerStatus::Stopped && after.1.info == before.1.info
        && after.1.client.pending@.len() == 0
    &&& !crate::lifecycle::is_active(before.1.supervisor.status) ==> after.1 == before.1
}

/// The outcome a bulk stop reports for an entry it acted on: terminate the
/// process; the calls that were pending end with `ConnectionStopped`.
pub open spec fn stop_outcome(e: (Seq<char>, ServerConnection), o: BatchOutcome) -> bool {
    &&& o.id@ == e.0
    &&& o.result matches Ok(t) && t.action == LifecycleAction::Terminate && t.cancelled@
        == ids_of(e.1.client.pending@)
}

/// A bulk stop took the registry from `before` to `after` and reported
/// `out`: every active server ended `Stopped` with its calls cancelled and
/// got one outcome, in registration order; every other server stayed as it
/// was.
pub open spec fn all_stopped(
    before: Seq<(Seq<char>, ServerConnection)>,
    after: Seq<(Seq<char>, ServerConnection)>,
    out: Seq<BatchOutcome>,
) -> bool {
    &&& after.len() == before.len()
    &&& forall|i: int| 0 <= i < before.len() ==> stopped_entry(#[trigger] before[i], after[i])
    &&& out.len() == active_entries(before).len()
    &&& forall|k: int|
        0 <= k < out.len() ==> stop_outcome(active_entries(before)[k], #[trigger] out[k])
}

/// Whether the environment holds every variable that a connection needs.
pub open spec fn env_ok(c: ServerConnection, present_env: Seq<String>) -> bool {
    env_satisfied(texts(c.info.required_env@), texts(present_env))
}

/// The entries that a bulk start acts on, in order.
pub open spec fn auto_start_entries(s: Seq<(Seq<char>, ServerConnection)>) -> Seq<
    (Seq<char>, ServerConnection),
>
    decreases s.len(),
{
    if s.len() == 0 {
        s
    } else {
        let r = auto_start_entries(s.drop_last());
        if wants_auto_start(s.last().1) {
            r.push(s.last())
        } else {
            r
        }
    }
}

/// The entries that a bulk stop acts on, in order.
pub open spec fn active_entries(s: Seq<(Seq<char>, ServerConnection)>) -> Seq<
    (Seq<char>, ServerConnection),
>
    decreases s.len(),
{
    if s.len() == 0 {
        s
    } else {
        let r = active_entries(s.drop_last());
        if crate::lifecycle::is_active(s.last().1.supervisor.status) {
            r.push(s.last())
        } else {
            r
        }
    }
}

/// The ids of a sequence of entries.
pub open spec fn keys_of_entries(s: Seq<(Seq<char>, ServerConnection)>) -> Seq<Seq<char>> {
    crate::registry::keys_of(s)
}

/// Outcome of one server in a bulk operation.
#[derive(Debug)]
pub struct BatchOutcome {
    pub id: String,
    pub result: Result<Transition, PluginError>,
}

/// The failures among the terminations of a bulk stop: for each id whose
/// process could not be terminated, the id and the error text, in order.
pub open spec fn stop_failures(ids: Seq<String>, terminated: Seq<Result<(), String>>) -> Seq<
    (Seq<char>, Seq<char>),
>
    decreases ids.len(),
{
    if ids.len() == 0 || terminated.len() != ids.len() {
        Seq::empty()
    } else {
        let r = stop_failures(ids.drop_last(), terminated.drop_last());
        match terminated.last() {
            Ok(()) => r,
            Err(e) => r.push((ids.last()@, e@)),
        }
    }
}

/// Pairs the ids of a bulk stop with the outcomes of terminating their
/// processes (one each, same order) and reports every failure together.
/// The connections themselves are `Stopped` whatever these outcomes are.
pub fn collect_stop_failures(ids: &Vec<String>, terminated: &Vec<Result<(), String>>) -> (r: Vec<
    (String, String),
>)
    requires
        ids@.len() == terminated@.len(),
    ensures
        r@.map_values(|f: (String, String)| (f.0@, f.1@)) == stop_failures(ids@, terminated@),
{
    let mut out: Vec<(String, String)> = Vec::new();
    let mut i: usize = 0;
    while i < ids.len()
        invariant
            ids@.len() == terminated@.len(),
            i <= ids@.len(),
            out@.map_values(|f: (String, String)| (f.0@, f.1@)) == stop_failures(
                ids@.subrange(0, i as int),
                terminated@.subrange(0, i as int),
            ),
        decreases ids@.len() - i,
    {
        proof {
            assert(ids@.subrange(0, i as int + 1).drop_last() =~= ids@.subrange(0, i as int));
            assert(terminated@.subrange(0, i as int + 1).drop_last() =~= terminated@.subrange(
                0,
                i as int,
            ));
        }
        match &terminated[i] {
            Ok(()) => {},
            Err(e) => {
                let ghost before = out@;
                out.push((ids[i].clone(), e.clone()));
                assert(out@.map_values(|f: (String, String)| (f.0@, f.1@)) =~= before.map_values(
                    |f: (String, String)| (f.0@, f.1@),
                ).push((ids@[i as int]@, e@)));
            },
        }
        i = i + 1;
    }
    proof {
        assert(ids@.subrange(0, i as int) =~= ids@);
        assert(terminated@.subrange(0, i as int) =~= terminated@);
    }
    out
}

/// Registry of tool server connections by id.
pub struct McpServerRegistry {
    servers: IdMap<ServerConnection>,
}

impl McpServerRegistry {
    /// The registered connections, as `(id, connection)` pairs in
    /// registration order.
    pub closed spec fn view(&self) -> Seq<(Seq<char>, ServerConnection)> {
        self.servers@
    }

    /// No id is registered twice.
    pub closed spec fn wf(&self) -> bool {
        self.servers.wf()
    }

    /// Whether `id` is registered.
    pub open spec fn has(&self, id: Seq<char>) -> bool {
        exists|i: int| 0 <= i < self.view().len() && (#[trigger] self.view()[i]).0 == id
    }

    /// In a well-formed registry no id is registered twice, so the entry
    /// that a lookup by id picks is the only one with that id.
    pub proof fn lemma_ids_unique(&self)
        requires
            self.wf(),
        ensures
            keys_of_entries(self.view()).no_duplicates(),
            forall|i: int, j: int|
                0 <= i < self.view().len() && 0 <= j < self.view().len() && self.view()[i].0
                    == self.view()[j].0 ==> i == j,
    {
        assert(keys_of_entries(self.view()) =~= self.servers.keys());
        assert forall|i: int, j: int|
            0 <= i < self.view().len() && 0 <= j < self.view().len() && self.view()[i].0
                == self.view()[j].0 implies i == j by {
            assert(keys_of_entries(self.view())[i] == self.view()[i].0);
            assert(keys_of_entries(self.view())[j] == self.view()[j].0);
        }
    }

    proof fn lemma_has(&self, id: Seq<char>)
        ensures
            self.has(id) == self.servers.has(id),
    {
        if self.has(id) {
            let i = choose|i: int| 0 <= i < self.view().len() && (#[trigger] self.view()[i]).0 == id;
            assert(self.servers.keys()[i] == id);
        }
        if self.servers.has(id) {
            let i = choose|i: int| 0 <= i < self.servers.keys().len() && self.servers.keys()[i] == id;
            assert(self.view()[i].0 == id);
        }
    }

    /// An empty registry.
    pub fn new() -> (r: Self)
        ensures
            r.wf(),
            r.view().len() == 0,
    {
        McpServerRegistry { servers: IdMap::new() }
    }

    /// Number of registered servers.
    pub fn len(&self) -> (r: usize)
        ensures
            r == self.view().len(),
    {
        self.servers.len()
    }

    /// Registers a connection under `id`. An id that is already registered
    /// fails with `DuplicateId` and leaves the registry, and the connection
    /// registered under it, as they were.
    pub fn register_server(&mut self, id: String, server: ServerConnection) -> (r: Result<
        (),
        PluginError,
    >)
        requires
            old(self).wf(),
        ensures
            final(self).wf(),
            old(self).has(id@) ==> r == Err::<(), PluginError>(PluginError::DuplicateId)
                && final(self).view() == old(self).view(),
            !old(self).has(id@) ==> r is Ok && final(self).view() == old(self).view().push(
                (id@, server),
            ),
    {
        proof {
            self.lemma_has(id@);
        }
        self.servers.insert_new(id, server)
    }

    /// Stops the connection registered under `id`, then removes it; the
    /// stop's transition is returned. An unknown id fails with `NotFound`
    /// and changes nothing.
    pub fn unregister_server(&mut self, id: &String) -> (r: Result<Transition, PluginError>)
        requires
            old(self).wf(),
        ensures
            final(self).wf(),
            !old(self).has(id@) ==> r == Err::<Transition, PluginError>(PluginError::NotFound)
                && final(self).view() == old(self).view(),
            old(self).has(id@) ==> (r matches Ok(t) && exists|i: int|
                0 <= i < old(self).view().len() && old(self).view()[i].0 == id@ && final(
                self).view() == old(self).view().remove(i) && t.action == transition(
                    old(self).view()[i].1.supervisor,
                    LifecycleEvent::StopRequested,
                ).1 && t.cancelled@ == ids_of(old(self).view()[i].1.client.pending@)),
    {
        proof {
            self.lemma_has(id@);
        }
        match self.servers.remove(id) {
            Err(e) => Err(e),
            Ok(c) => {
                let mut c = c;
                Ok(c.stop())
            },
        }
    }

    /// The connection registered under `id`.
    pub fn get_server(&self, id: &String) -> (r: Option<&ServerConnection>)
        ensures
            r is None <==> !self.has(id@),
            r matches Some(c) ==> exists|i: int|
                0 <= i < self.view().len() && self.view()[i].0 == id@ && self.view()[i].1 == *c,
    {
        proof {
            self.lemma_has(id@);
        }
        self.servers.get(id)
    }

    /// The connection registered under `id`, for update in place.
    pub fn get_server_mut(&mut self, id: &String) -> (r: Option<&mut ServerConnection>)
        requires
            old(self).wf(),
        ensures
            final(self).wf(),
            r is None <==> !old(self).has(id@),
            r is None ==> final(self).view() == old(self).view(),
            r matches Some(c) ==> exists|i: int|
                0 <= i < old(self).view().len() && old(self).view()[i].0 == id@ && old(
                self).view()[i].1 == *c && final(self).view() == old(self).view().update(
                    i,
                    (id@, *final(c)),
                ),
    {
        proof {
            self.lemma_has(id@);
        }
        self.servers.get_mut(id)
    }

    /// The registered ids, in registration order.
    pub fn get_server_ids(&self) -> (r: Vec<String>)
        ensures
            texts(r@) == self.view().map_values(|e: (Seq<char>, ServerConnection)| e.0),
            self.wf() ==> texts(r@).no_duplicates(),
    {
        let r = self.servers.ids();
        assert(self.view().map_values(|e: (Seq<char>, ServerConnection)| e.0) =~= self.servers.keys());
        assert(texts(r@) == r@.map_values(|s: String| s@));
        r
    }

    /// Starts every server whose definition asks for auto-start and that is
    /// not running, one after the other; a failure does not stop the batch.
    /// Each server acted on gets one outcome, in registration order:
    /// `MissingEnvironment` when it is stopped or failed and a variable it
    /// requires is absent from `present_env` (the server stays as it was),
    /// else the transition of its start (none for one already on its way up).
    /// Every other server stays as it was.
    pub fn start_auto_start_servers(&mut self, present_env: &Vec<String>) -> (r: Vec<BatchOutcome>)
        requires
            old(self).wf(),
        ensures
            final(self).wf(),
            auto_started(old(self).view(), final(self).view(), present_env@, r@),
    {
        let ghost all = self.servers@;
        let mut out: Vec<BatchOutcome> = Vec::new();
        let mut i: usize = 0;
        while i < self.servers.len()
            invariant
                i <= self.servers@.len(),
                self.servers.wf(),
                self.servers@.len() == all.len(),
                self.servers.keys() == keys_of_entries(all),
                forall|j: int| i <= j < all.len() ==> self.servers@[j] == all[j],
                forall|j: int|
                    0 <= j < i ==> started_entry(#[trigger] all[j], self.servers@[j], present_env@),
                out@.len() == auto_start_entries(all.subrange(0, i as int)).len(),
                forall|k: int|
                    0 <= k < out@.len() ==> start_outcome(
                        auto_start_entries(all.subrange(0, i as int))[k],
                        present_env@,
                        #[trigger] out@[k],
                    ),
            decreases all.len() - i,
        {
            proof {
                assert(all.subrange(0, i as int + 1).drop_last() =~= all.subrange(0, i as int));
            }
            let wanted = {
                let c = self.servers.value_at(i);
                c.info.auto_start && !c.is_running()
            };
            let ghost prev = self.servers@;
            let ghost prev_out = out@;
            if wanted {
                let id = self.servers.key_at(i).clone();
                let c = self.servers.value_at_mut(i);
                let result = c.start(present_env);
                out.push(BatchOutcome { id, result });
                proof {
                    let sub = all.subrange(0, i as int + 1);
                    assert(sub.last() == all[i as int]);
                    assert(auto_start_entries(sub) == auto_start_entries(
                        all.subrange(0, i as int),
                    ).push(all[i as int]));
                    assert(out@[out@.len() - 1].id@ == all[i as int].0);
                    assert forall|k: int| 0 <= k < prev_out.len() implies out@[k] == prev_out[k] by {}
                }
            } else {
                proof {
                    let sub = all.subrange(0, i as int + 1);
                    assert(sub.last() == all[i as int]);
                    assert(auto_start_entries(sub) == auto_start_entries(
                        all.subrange(0, i as int),
                    ));
                }
            }
            proof {
                assert forall|j: int| 0 <= j < i implies self.servers@[j] == prev[j] by {}
                assert(self.servers@[i as int].0 == all[i as int].0);
            }
            i = i + 1;
        }
        proof {
            assert(all.subrange(0, i as int) =~= all);
        }
        out
    }

    /// Stops every active server (starting, running or restarting), one
    /// after the other: each ends `Stopped`, whatever happens to the others,
    /// and gets one outcome, in registration order, whose transition asks
    /// for the process to be terminated and lists the calls it cancelled.
    /// Every other server stays as it was.
    pub fn stop_all_servers(&mut self) -> (r: Vec<BatchOutcome>)
        requires
            old(self).wf(),
        ensures
            final(self).wf(),
            all_stopped(old(self).view(), final(self).view(), r@),
    {
        let ghost all = self.servers@;
        let mut out: Vec<BatchOutcome> = Vec::new();
        let mut i: usize = 0;
        while i < self.servers.len()
            invariant
                i <= self.servers@.len(),
                self.servers.wf(),
                self.servers@.len() == all.len(),
                forall|j: int| i <= j < all.len() ==> self.servers@[j] == all[j],
                forall|j: int| 0 <= j < i ==> stopped_entry(#[trigger] all[j], self.servers@[j]),
                out@.len() == active_entries(all.subrange(0, i as int)).len(),
                forall|k: int|
                    0 <= k < out@.len() ==> stop_outcome(
                        active_entries(all.subrange(0, i as int))[k],
                        #[trigger] out@[k],
                    ),
            decreases all.len() - i,
        {
            proof {
                assert(all.subrange(0, i as int + 1).drop_last() =~= all.subrange(0, i as int));
            }
            let active = {
                let st = self.servers.value_at(i).supervisor.status;
                st == McpServerStatus::Starting || st == McpServerStatus::Running || st
                    == McpServerStatus::Restarting
            };
            let ghost prev = self.servers@;
            let ghost prev_out = out@;
            if active {
                let id = self.servers.key_at(i).clone();
                let c = self.servers.value_at_mut(i);
                let t = c.stop();
                out.push(BatchOutcome { id, result: Ok(t) });
                proof {
                    let sub = all.subrange(0, i as int + 1);
                    assert(sub.last() == all[i as int]);
                    assert(active_entries(sub) == active_entries(all.subrange(0, i as int)).push(
                        all[i as int],
                    ));
                    assert forall|k: int| 0 <= k < prev_out.len() implies out@[k] == prev_out[k] by {}
                }
            } else {
                proof {
                    let sub = all.subrange(0, i as int + 1);
                    assert(sub.last() == all[i as int]);
                    assert(active_entries(sub) == active_entries(all.subrange(0, i as int)));
                }
            }
            proof {
                assert forall|j: int| 0 <= j < i implies self.servers@[j] == prev[j] by {}
            }
            i = i + 1;
        }
        proof {
            assert(all.subrange(0, i as int) =~= all);
        }
        out
    }

    /// The health record of every registered server, with its id, in
    /// registration order.
    pub fn get_all_health_status(&self) -> (r: Vec<(String, McpServerHealth)>)
        ensures
            r@.len() == self.view().len(),
            forall|i: int|
                0 <= i < r@.len() ==> (#[trigger] r@[i]).0@ == self.view()[i].0 && r@[i].1
                    == self.view()[i].1.health,
    {
        let mut out: Vec<(String, McpServerHealth)> = Vec::new();
        let mut i: usize = 0;
        while i < self.servers.len()
            invariant
                i <= self.servers@.len(),
                out@.len() == i,
                forall|k: int|
                    0 <= k < i ==> (#[trigger] out@[k]).0@ == self.servers@[k].0 && out@[k].1
                        == self.servers@[k].1.health,
            decreases self.servers@.len() - i,
        {
            let id = self.servers.key_at(i).clone();
            let h = self.servers.value_at(i).health.copy();
            out.push((id, h));
            i = i + 1;
        }
        out
    }

    /// The health report over all registered servers (see [`summarize`]).
    pub fn health_report(&self) -> (r: HealthSummary)
        ensures
            r.total == self.view().len(),
            r.healthy == crate::health::count_healthy(
                self.view().map_values(|e: (Seq<char>, ServerConnection)| (e.0, e.1.health)),
            ),
            r.unhealthy == self.view().len() - r.healthy,
            r.healthy <= r.total,
            r.servers@.len() == self.view().len(),
            forall|i: int|
                0 <= i < self.view().len() ==> crate::health::line_of(
                    self.view()[i].0,
                    self.view()[i].1.health,
                    #[trigger] r.servers@[i],
                ),
    {
        let records = self.get_all_health_status();
        let r = summarize(&records);
        proof {
            let s = records@.map_values(|e: (String, McpServerHealth)| (e.0@, e.1));
            assert(s =~= self.view().map_values(
                |e: (Seq<char>, ServerConnection)| (e.0, e.1.health),
            ));
        }
        r
    }

    /// The definitions of all registered servers, in registration order.
    pub fn get_all_server_info(&self) -> (r: Vec<&McpServerInfo>)
        ensures
            r@.len() == self.view().len(),
            forall|i: int| 0 <= i < r@.len() ==> *r@[i] == self.view()[i].1.info,
    {
        let mut out: Vec<&McpServerInfo> = Vec::new();
        let mut i: usize = 0;
        while i < self.servers.len()
            invariant
                i <= self.servers@.len(),
                out@.len() == i,
                forall|k: int| 0 <= k < i ==> *out@[k] == self.servers@[k].1.info,
            decreases self.servers@.len() - i,
        {
            out.push(&self.servers.value_at(i).info);
            i = i + 1;
        }
        out
    }
}

impl Default for McpServerRegistry {
    /// An empty registry.
    fn default() -> (r: Self)
        ensures
            r.wf(),
            r.view().len() == 0,
    {
        McpServerRegistry::new()
    }
}

} // verus!
