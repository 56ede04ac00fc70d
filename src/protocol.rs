//! Request/response correlation and capability cache of one server connection.
//!
//! Every request gets a fresh id, larger than every id handed out before, and
//! an entry in the pending table until its response arrives, its deadline
//! passes, it is cancelled, or the connection stops. Responses are matched to
//! their callers by id alone, in whatever order they come.
use vstd::prelude::*;

use crate::error::PluginError;
use crate::mcp_server::{McpRequest, McpResource, McpTool};

verus! {

/// An outstanding request.
#[derive(Debug, Clone)]
pub struct PendingRequest {
    pub id: u64,
    pub method: String,
    /// The call fails with `Timeout` once the clock reaches this time.
    pub deadline_ms: u64,
}

impl PendingRequest {
    /// A field-by-field copy.
    pub fn copy(&self) -> (r: Self)
        ensures
            r == *self,
    {
        PendingRequest { id: self.id, method: self.method.clone(), deadline_ms: self.deadline_ms }
    }
}

/// Name and version that a server reports about itself.
#[derive(Debug, Clone)]
pub struct ServerInfo {
    pub name: String,
    pub version: String,
}

/// The decoded result of an initialize request.
#[derive(Debug, Clone)]
pub struct InitializeResult {
    pub protocol_version: Option<String>,
    pub server_info: Option<ServerInfo>,
}

/// A message read from a server, already decoded from its frame.
#[derive(Debug, Clone)]
pub enum IncomingMessage {
    /// A response to the request with this id.
    Response { id: u64 },
    /// A message without id.
    Notification { method: String },
}

/// Whether a protocol version advertised by a server is one this client speaks.
pub open spec fn is_supported_version(v: Seq<char>) -> bool {
    v == "2024-11-05"@ || v == "2025-03-26"@ || v == "2025-06-18"@
}

/// The notification by which a server says that its tool list changed.
pub open spec fn tools_changed(method: Seq<char>) -> bool {
    method == "notifications/tools/list_changed"@
}

/// The notification by which a server says that its resource list changed.
pub open spec fn resources_changed(method: Seq<char>) -> bool {
    method == "notifications/resources/list_changed"@
}

/// Whether this client speaks a protocol version.
pub fn supported_version(v: &String) -> (r: bool)
    ensures
        r == is_supported_version(v@),
{
    *v == String::from_str("2024-11-05") || *v == String::from_str("2025-03-26") || *v
        == String::from_str("2025-06-18")
}

/// `now + timeout`, held at `u64::MAX`.
pub open spec fn deadline_of(now_ms: u64, timeout_ms: u64) -> u64 {
    if now_ms + timeout_ms <= u64::MAX {
        (now_ms + timeout_ms) as u64
    } else {
        u64::MAX
    }
}

/// The ids of a pending table, in order.
pub open spec fn ids_of(s: Seq<PendingRequest>) -> Seq<u64> {
    s.map_values(|p: PendingRequest| p.id)
}

/// The entries whose deadline lies after `now`.
pub open spec fn live_requests(s: Seq<PendingRequest>, now_ms: u64) -> Seq<PendingRequest>
    decreases s.len(),
{
    if s.len() == 0 {
        s
    } else {
        let r = live_requests(s.drop_last(), now_ms);
        if s.last().deadline_ms > now_ms {
            r.push(s.last())
        } else {
            r
        }
    }
}

/// The ids of the entries whose deadline is at or before `now`.
pub open spec fn expired_ids(s: Seq<PendingRequest>, now_ms: u64) -> Seq<u64>
    decreases s.len(),
{
    if s.len() == 0 {
        Seq::empty()
    } else {
        let r = expired_ids(s.drop_last(), now_ms);
        if s.last().deadline_ms > now_ms {
            r
        } else {
            r.push(s.last().id)
        }
    }
}

/// `after` is `before` with one request issued: it got the id `before`
/// handed out next, and its entry, with that method and deadline, joined the
/// end of the pending table; every other entry, the handshake record and
/// the caches stay.
pub open spec fn issued(
    before: ProtocolClient,
    after: ProtocolClient,
    id: u64,
    method: Seq<char>,
    deadline_ms: u64,
) -> bool {
    &&& id == before.next_id
    &&& after.next_id == before.next_id + 1
    &&& after.pending@.len() == before.pending@.len() + 1
    &&& after.pending@.drop_last() == before.pending@
    &&& after.pending@.last().id == id
    &&& after.pending@.last().method@ == method
    &&& after.pending@.last().deadline_ms == deadline_ms
    &&& after.protocol_version == before.protocol_version
    &&& after.server_info == before.server_info
    &&& after.tools == before.tools
    &&& after.resources == before.resources
}

/// `after` is `before` with the request `id` withdrawn, if it was pending:
/// its entry leaves the table and every other entry stays, in order; the
/// counter, the handshake record and the caches stay.
pub open spec fn withdrawn(before: ProtocolClient, after: ProtocolClient, id: u64) -> bool {
    &&& ids_of(before.pending@).contains(id) ==> exists|i: int|
        0 <= i < before.pending@.len() && before.pending@[i].id == id && after.pending@
            == before.pending@.remove(i)
    &&& !ids_of(before.pending@).contains(id) ==> after.pending@ == before.pending@
    &&& after.next_id == before.next_id
    &&& after.protocol_version == before.protocol_version
    &&& after.server_info == before.server_info
    &&& after.tools == before.tools
    &&& after.resources == before.resources
}

/// Sorts a decoded message by its fields: an id without a method is a
/// response, a method without an id is a notification, and anything else
/// (a request from the server, or neither field) is not for this client.
pub fn classify_message(id: Option<u64>, method: Option<String>) -> (r: Option<IncomingMessage>)
    ensures
        (id is Some && method is None) ==> r == Some(IncomingMessage::Response { id: id->Some_0 }),
        (id is None && method is Some) ==> r == Some(
            IncomingMessage::Notification { method: method->Some_0 },
        ),
        (id is Some) == (method is Some) ==> r is None,
{
    match (id, method) {
        (Some(i), None) => Some(IncomingMessage::Response { id: i }),
        (None, Some(m)) => Some(IncomingMessage::Notification { method: m }),
        _ => None,
    }
}

/// Checks an initialize result without recording it: `ProtocolViolation`
/// without a protocol version or server info, `IncompatibleVersion` for a
/// version this client does not speak, else `Ok`.
pub fn validate_initialize(result: &InitializeResult) -> (r: Result<(), PluginError>)
    ensures
        (result.protocol_version is None || result.server_info is None) ==> r == Err::<
            (),
            PluginError,
        >(PluginError::ProtocolViolation),
        (result.protocol_version matches Some(v) && result.server_info is Some
            && !is_supported_version(v@)) ==> r == Err::<(), PluginError>(
            PluginError::IncompatibleVersion,
        ),
        (result.protocol_version matches Some(v) && result.server_info is Some
            && is_supported_version(v@)) ==> r is Ok,
{
    match (&result.protocol_version, &result.server_info) {
        (Some(v), Some(_)) => {
            if supported_version(v) {
                Ok(())
            } else {
                Err(PluginError::IncompatibleVersion)
            }
        },
        _ => Err(PluginError::ProtocolViolation),
    }
}

/// Client half of the protocol for one connection.
#[derive(Debug, Clone)]
pub struct ProtocolClient {
    /// The id the next request gets.
    pub next_id: u64,
    /// Outstanding requests, oldest first.
    pub pending: Vec<PendingRequest>,
    /// Version agreed in the handshake.
    pub protocol_version: Option<String>,
    /// What the server said about itself in the handshake.
    pub server_info: Option<ServerInfo>,
    /// Cached tool list; `None` when it is stale or was never fetched.
    pub tools: Option<Vec<McpTool>>,
    /// Cached resource list; `None` when it is stale or was never fetched.
    pub resources: Option<Vec<McpResource>>,
}

impl ProtocolClient {
    /// Every pending id is below `next_id`, and no id is pending twice.
    pub open spec fn wf(&self) -> bool {
        &&& forall|i: int| 0 <= i < self.pending@.len() ==> self.pending@[i].id < self.next_id
        &&& ids_of(self.pending@).no_duplicates()
    }

    /// Whether a request with this id is outstanding.
    pub open spec fn is_pending(&self, id: u64) -> bool {
        ids_of(self.pending@).contains(id)
    }

    /// A client with no request issued and nothing cached.
    pub fn new() -> (r: Self)
        ensures
            r.wf(),
            r.next_id == 1,
            r.pending@.len() == 0,
            r.protocol_version is None,
            r.server_info is None,
            r.tools is None,
            r.resources is None,
    {
        let r = ProtocolClient {
            next_id: 1,
            pending: Vec::new(),
            protocol_version: None,
            server_info: None,
            tools: None,
            resources: None,
        };
        assert(ids_of(r.pending@) =~= Seq::<u64>::empty());
        r
    }

    /// Issues a request: it gets the next id, and an entry with that id and
    /// the deadline `now + timeout` joins the pending table.
    pub fn begin_call(
        &mut self,
        method: String,
        params: Option<String>,
        now_ms: u64,
        timeout_ms: u64,
    ) -> (r: McpRequest)
        requires
            old(self).wf(),
            old(self).next_id < u64::MAX,
        ensures
            final(self).wf(),
            r.id == old(self).next_id,
            !old(self).is_pending(r.id),
            r.method@ == method@,
            r.params == params,
            final(self).next_id == old(self).next_id + 1,
            final(self).pending@.len() == old(self).pending@.len() + 1,
            final(self).pending@.drop_last() == old(self).pending@,
            final(self).pending@.last().id == r.id,
            final(self).pending@.last().method@ == method@,
            final(self).pending@.last().deadline_ms == deadline_of(now_ms, timeout_ms),
            issued(*old(self), *final(self), r.id, method@, deadline_of(now_ms, timeout_ms)),
            final(self).protocol_version == old(self).protocol_version,
            final(self).server_info == old(self).server_info,
            final(self).tools == old(self).tools,
            final(self).resources == old(self).resources,
    {
        let id = self.next_id;
        let deadline = if now_ms <= u64::MAX - timeout_ms {
            now_ms + timeout_ms
        } else {
            u64::MAX
        };
        let entry = PendingRequest { id, method: method.clone(), deadline_ms: deadline };
        proof {
            if ids_of(self.pending@).contains(id) {
                let j = choose|j: int|
                    0 <= j < ids_of(self.pending@).len() && ids_of(self.pending@)[j] == id;
                assert(self.pending@[j].id == id);
            }
        }
        let ghost before = self.pending@;
        self.pending.push(entry);
        self.next_id = id + 1;
        assert(self.pending@.drop_last() =~= before);
        assert(ids_of(self.pending@) =~= ids_of(before).push(id));
        McpRequest { id, method, params }
    }

    /// Hands a response to its caller: the pending entry with the response's
    /// id leaves the table and is returned. A response whose id is not
    /// pending is dropped and changes nothing.
    #[verifier::loop_isolation(false)]
    pub fn complete(&mut self, id: u64) -> (r: Option<PendingRequest>)
        requires
            old(self).wf(),
        ensures
            final(self).wf(),
            final(self).next_id == old(self).next_id,
            r is None <==> !old(self).is_pending(id),
            r is None ==> final(self).pending@ == old(self).pending@,
            r matches Some(p) ==> p.id == id && exists|i: int|
                0 <= i < old(self).pending@.len() && old(self).pending@[i] == p && final(
                self).pending@ == old(self).pending@.remove(i),
            r is Some ==> !final(self).is_pending(id),
            final(self).protocol_version == old(self).protocol_version,
            final(self).server_info == old(self).server_info,
            final(self).tools == old(self).tools,
            final(self).resources == old(self).resources,
    {
        let mut i: usize = 0;
        while i < self.pending.len()
            invariant
                i <= self.pending.len(),
                *self == *old(self),
                forall|j: int| 0 <= j < i ==> self.pending@[j].id != id,
            decreases self.pending.len() - i,
        {
            if self.pending[i].id == id {
                let ghost before = self.pending@;
                proof {
                    lemma_remove_keeps_wf(before, i as int, self.next_id);
                }
                let p = self.pending.remove(i);
                assert(self.pending@ =~= before.remove(i as int));
                assert(before[i as int] == p);
                assert(ids_of(before)[i as int] == id);
                return Some(p);
            }
            i = i + 1;
        }
        proof {
            if ids_of(self.pending@).contains(id) {
                let j = choose|j: int|
                    0 <= j < ids_of(self.pending@).len() && ids_of(self.pending@)[j] == id;
                assert(self.pending@[j].id == id);
            }
        }
        None
    }

    /// Removes every request whose deadline is at or before `now` and returns
    /// their ids, oldest first: each of those calls fails with `Timeout`. The
    /// other requests stay pending, in order.
    #[verifier::loop_isolation(false)]
    pub fn expire(&mut self, now_ms: u64) -> (r: Vec<u64>)
        requires
            old(self).wf(),
        ensures
            final(self).wf(),
            final(self).next_id == old(self).next_id,
            final(self).pending@ == live_requests(old(self).pending@, now_ms),
            r@ == expired_ids(old(self).pending@, now_ms),
            final(self).protocol_version == old(self).protocol_version,
            final(self).server_info == old(self).server_info,
            final(self).tools == old(self).tools,
            final(self).resources == old(self).resources,
    {
        let ghost all = self.pending@;
        let mut kept: Vec<PendingRequest> = Vec::new();
        let mut gone: Vec<u64> = Vec::new();
        let mut i: usize = 0;
        while i < self.pending.len()
            invariant
                i <= self.pending.len(),
                self.pending@ == all,
                kept@ == live_requests(all.subrange(0, i as int), now_ms),
                gone@ == expired_ids(all.subrange(0, i as int), now_ms),
            decreases self.pending.len() - i,
        {
            proof {
                assert(all.subrange(0, i as int + 1).drop_last() =~= all.subrange(0, i as int));
            }
            if self.pending[i].deadline_ms > now_ms {
                kept.push(self.pending[i].copy());
            } else {
                gone.push(self.pending[i].id);
            }
            i = i + 1;
        }
        assert(all.subrange(0, i as int) =~= all);
        proof {
            lemma_live_keeps_wf(all, now_ms, self.next_id);
        }
        self.pending = kept;
        gone
    }

    /// Checks the answer to the initialize request. Without a protocol
    /// version or server info it is a `ProtocolViolation`; with a version this
    /// client does not speak it is `IncompatibleVersion`; both leave the client
    /// as it was. Otherwise the version and server info are recorded and the
    /// cached lists are dropped, to be fetched again.
    pub fn accept_initialize(&mut self, result: InitializeResult) -> (r: Result<(), PluginError>)
        ensures
            (result.protocol_version is None || result.server_info is None) ==> r == Err::<
                (),
                PluginError,
            >(PluginError::ProtocolViolation) && *final(self) == *old(self),
            (result.protocol_version matches Some(v) && result.server_info is Some
                && !is_supported_version(v@)) ==> r == Err::<(), PluginError>(
                PluginError::IncompatibleVersion,
            ) && *final(self) == *old(self),
            (result.protocol_version matches Some(v) && result.server_info is Some
                && is_supported_version(v@)) ==> r is Ok && *final(self) == (ProtocolClient {
                protocol_version: result.protocol_version,
                server_info: result.server_info,
                tools: None,
                resources: None,
                ..*old(self)
            }),
    {
        match (&result.protocol_version, &result.server_info) {
            (Some(v), Some(_)) => {
                if !supported_version(v) {
                    return Err(PluginError::IncompatibleVersion);
                }
            },
            _ => {
                return Err(PluginError::ProtocolViolation);
            },
        }
        self.protocol_version = result.protocol_version;
        self.server_info = result.server_info;
        self.tools = None;
        self.resources = None;
        Ok(())
    }

    /// Handles a notification: a list-changed notice drops the cached list
    /// it names; anything else changes nothing.
    pub fn on_notification(&mut self, method: &String)
        ensures
            final(self).tools == if tools_changed(method@) {
                None
            } else {
                old(self).tools
            },
            final(self).resources == if resources_changed(method@) {
                None
            } else {
                old(self).resources
            },
            final(self).next_id == old(self).next_id,
            final(self).pending == old(self).pending,
            final(self).protocol_version == old(self).protocol_version,
            final(self).server_info == old(self).server_info,
    {
        proof {
            reveal_strlit("notifications/tools/list_changed");
            reveal_strlit("notifications/resources/list_changed");
            assert("notifications/tools/list_changed"@.len() != "notifications/resources/list_changed"@.len());
        }
        if *method == String::from_str("notifications/tools/list_changed") {
            self.tools = None;
        } else if *method == String::from_str("notifications/resources/list_changed") {
            self.resources = None;
        }
    }

    /// Cancels one outstanding request; whether it was pending.
    pub fn cancel(&mut self, id: u64) -> (r: bool)
        requires
            old(self).wf(),
        ensures
            final(self).wf(),
            r == old(self).is_pending(id),
            !final(self).is_pending(id),
            withdrawn(*old(self), *final(self), id),
    {
        let c = self.complete(id);
        proof {
            if c is None {
                assert(!self.is_pending(id));
            }
        }
        c.is_some()
    }

    /// Cancels every outstanding request and returns their ids, oldest first:
    /// each of those calls fails with `ConnectionStopped`.
    #[verifier::loop_isolation(false)]
    pub fn cancel_all(&mut self) -> (r: Vec<u64>)
        ensures
            final(self).wf(),
            r@ == ids_of(old(self).pending@),
            final(self).pending@.len() == 0,
            final(self).next_id == old(self).next_id,
            final(self).protocol_version == old(self).protocol_version,
            final(self).server_info == old(self).server_info,
            final(self).tools == old(self).tools,
            final(self).resources == old(self).resources,
    {
        let mut ids: Vec<u64> = Vec::new();
        let mut i: usize = 0;
        while i < self.pending.len()
            invariant
                i <= self.pending.len(),
                ids@ == ids_of(self.pending@).subrange(0, i as int),
            decreases self.pending.len() - i,
        {
            ids.push(self.pending[i].id);
            i = i + 1;
            assert(ids@ =~= ids_of(self.pending@).subrange(0, i as int));
        }
        assert(ids_of(self.pending@).subrange(0, i as int) =~= ids_of(self.pending@));
        self.pending = Vec::new();
        assert(ids_of(self.pending@) =~= Seq::<u64>::empty());
        ids
    }
}

/// Responses reach their callers by id alone. In a pending table without
/// repeated ids, the entry handed out for a response carrying the id of
/// entry `i` is entry `i` and no other; afterwards that id is no longer
/// pending, and every other caller is still pending with its own entry, in
/// the same order. So whatever order responses come in, each caller gets the
/// response to its own request.
pub proof fn lemma_response_reaches_its_caller(pending: Seq<PendingRequest>, i: int)
    requires
        0 <= i < pending.len(),
        ids_of(pending).no_duplicates(),
    ensures
        forall|j: int| 0 <= j < pending.len() && pending[j].id == pending[i].id ==> j == i,
        !ids_of(pending.remove(i)).contains(pending[i].id),
        forall|j: int|
            0 <= j < pending.len() && j != i ==> pending.remove(i).contains(#[trigger] pending[j]),
        pending.remove(i) == pending.subrange(0, i) + pending.subrange(i + 1, pending.len() as int),
{
    assert forall|j: int| 0 <= j < pending.len() && pending[j].id == pending[i].id implies j
        == i by {
        assert(ids_of(pending)[j] == ids_of(pending)[i]);
    }
    let r = pending.remove(i);
    if ids_of(r).contains(pending[i].id) {
        let a = choose|a: int| 0 <= a < ids_of(r).len() && ids_of(r)[a] == pending[i].id;
        let a2 = if a < i { a } else { a + 1 };
        assert(pending[a2].id == pending[i].id);
    }
    assert forall|j: int| 0 <= j < pending.len() && j != i implies r.contains(
        #[trigger] pending[j],
    ) by {
        let j2 = if j < i { j } else { j - 1 };
        assert(r[j2] == pending[j]);
    }
    assert(r =~= pending.subrange(0, i) + pending.subrange(i + 1, pending.len() as int));
}

/// A call whose deadline has come is among the expired ids and leaves the
/// pending table; a call whose deadline lies ahead stays pending. (Expiry
/// touches nothing but the table: see `ServerConnection::expire_calls`,
/// which leaves the lifecycle, and so the process, as it was.)
pub proof fn lemma_deadline_decides_expiry(pending: Seq<PendingRequest>, i: int, now_ms: u64)
    requires
        0 <= i < pending.len(),
    ensures
        pending[i].deadline_ms <= now_ms ==> expired_ids(pending, now_ms).contains(pending[i].id)
            && !live_requests(pending, now_ms).contains(pending[i]),
        pending[i].deadline_ms > now_ms ==> live_requests(pending, now_ms).contains(pending[i]),
    decreases pending.len(),
{
    let d = pending.drop_last();
    lemma_live_members(pending, now_ms);
    if i < pending.len() - 1 {
        lemma_deadline_decides_expiry(d, i, now_ms);
        assert(d[i] == pending[i]);
        if pending[i].deadline_ms <= now_ms {
            let e = expired_ids(d, now_ms);
            let k = choose|k: int| 0 <= k < e.len() && e[k] == pending[i].id;
            if pending.last().deadline_ms <= now_ms {
                assert(expired_ids(pending, now_ms)[k] == pending[i].id);
            } else {
                assert(expired_ids(pending, now_ms)[k] == pending[i].id);
            }
        } else {
            let l = live_requests(d, now_ms);
            let k = choose|k: int| 0 <= k < l.len() && l[k] == pending[i];
            assert(live_requests(pending, now_ms)[k] == pending[i]);
        }
    } else {
        if pending[i].deadline_ms <= now_ms {
            let e = expired_ids(pending, now_ms);
            assert(e[e.len() - 1] == pending[i].id);
        } else {
            let l = live_requests(pending, now_ms);
            assert(l[l.len() - 1] == pending[i]);
        }
    }
}

proof fn lemma_live_members(s: Seq<PendingRequest>, now_ms: u64)
    ensures
        forall|x: PendingRequest|
            #[trigger] live_requests(s, now_ms).contains(x) ==> s.contains(x) && x.deadline_ms > now_ms,
    decreases s.len(),
{
    if s.len() > 0 {
        let d = s.drop_last();
        lemma_live_members(d, now_ms);
        let r = live_requests(d, now_ms);
        let l = live_requests(s, now_ms);
        assert(l == if s.last().deadline_ms > now_ms {
            r.push(s.last())
        } else {
            r
        });
        assert forall|x: PendingRequest| #[trigger] l.contains(x) implies s.contains(x)
            && x.deadline_ms > now_ms by {
            let k = choose|k: int| 0 <= k < l.len() && l[k] == x;
            if k < r.len() {
                assert(r[k] == x);
                assert(r.contains(x));
                let j = choose|j: int| 0 <= j < d.len() && d[j] == x;
                assert(s[j] == x);
            } else {
                assert(s[s.len() - 1] == x);
            }
        }
    }
}

proof fn lemma_remove_keeps_wf(s: Seq<PendingRequest>, i: int, next_id: u64)
    requires
        0 <= i < s.len(),
        forall|j: int| 0 <= j < s.len() ==> s[j].id < next_id,
        ids_of(s).no_duplicates(),
    ensures
        forall|j: int| 0 <= j < s.remove(i).len() ==> s.remove(i)[j].id < next_id,
        ids_of(s.remove(i)).no_duplicates(),
        !ids_of(s.remove(i)).contains(s[i].id),
{
    let k = ids_of(s);
    let r = ids_of(s.remove(i));
    assert(r =~= k.remove(i));
    assert forall|a: int, b: int| 0 <= a < r.len() && 0 <= b < r.len() && a != b implies r[a]
        != r[b] by {
        let a2 = if a < i { a } else { a + 1 };
        let b2 = if b < i { b } else { b + 1 };
        assert(r[a] == k[a2]);
        assert(r[b] == k[b2]);
    }
    if r.contains(s[i].id) {
        let a = choose|a: int| 0 <= a < r.len() && r[a] == s[i].id;
        let a2 = if a < i { a } else { a + 1 };
        assert(k[a2] == k[i]);
    }
}

proof fn lemma_live_keeps_wf(s: Seq<PendingRequest>, now_ms: u64, next_id: u64)
    requires
        forall|j: int| 0 <= j < s.len() ==> s[j].id < next_id,
        ids_of(s).no_duplicates(),
    ensures
        forall|j: int|
            0 <= j < live_requests(s, now_ms).len() ==> live_requests(s, now_ms)[j].id < next_id,
        ids_of(live_requests(s, now_ms)).no_duplicates(),
        forall|j: int|
            0 <= j < live_requests(s, now_ms).len() ==> ids_of(s).contains(
                live_requests(s, now_ms)[j].id,
            ),
    decreases s.len(),
{
    if s.len() > 0 {
        let d = s.drop_last();
        assert forall|a: int, b: int| 0 <= a < ids_of(d).len() && 0 <= b < ids_of(d).len() && a
            != b implies ids_of(d)[a] != ids_of(d)[b] by {
            assert(ids_of(d)[a] == ids_of(s)[a]);
            assert(ids_of(d)[b] == ids_of(s)[b]);
        }
        lemma_live_keeps_wf(d, now_ms, next_id);
        let r = live_requests(d, now_ms);
        if s.last().deadline_ms > now_ms {
            let x = s.last();
            assert(live_requests(s, now_ms) == r.push(x));
            assert(ids_of(r.push(x)) =~= ids_of(r).push(x.id));
            if ids_of(r).contains(x.id) {
                let a = choose|a: int| 0 <= a < ids_of(r).len() && ids_of(r)[a] == x.id;
                assert(r[a].id == x.id);
                assert(ids_of(d).contains(r[a].id));
                let b = choose|b: int| 0 <= b < ids_of(d).len() && ids_of(d)[b] == x.id;
                assert(ids_of(s)[b] == ids_of(s)[s.len() - 1]);
            }
            assert forall|j: int| 0 <= j < r.push(x).len() implies ids_of(s).contains(
                r.push(x)[j].id,
            ) by {
                if j < r.len() {
                    assert(ids_of(d).contains(r[j].id));
                    let b = choose|b: int| 0 <= b < ids_of(d).len() && ids_of(d)[b] == r[j].id;
                    assert(ids_of(s)[b] == r[j].id);
                } else {
                    assert(ids_of(s)[s.len() - 1] == x.id);
                }
            }
        } else {
            assert forall|j: int| 0 <= j < r.len() implies ids_of(s).contains(r[j].id) by {
                assert(ids_of(d).contains(r[j].id));
                let b = choose|b: int| 0 <= b < ids_of(d).len() && ids_of(d)[b] == r[j].id;
                assert(ids_of(s)[b] == r[j].id);
            }
        }
    }
}

} // verus!
