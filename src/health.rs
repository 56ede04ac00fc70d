//! Health classification of tool servers.
//!
//! A probe times an initialize round trip; when that succeeds fast enough it
//! lists the tools and calls the first one with empty arguments. The caller
//! runs those steps and hands their outcomes to [`McpHealthChecker::record_check`],
//! which updates the server's record. Classification is an observation only:
//! it changes no lifecycle state by itself.
use vstd::prelude::*;

use crate::lifecycle::McpServerStatus;
use crate::mcp_server::McpServerHealth;
use crate::wire::{decimal_string, decimal_text};

verus! {

/// Default time between two probes of a server, in milliseconds.
pub const DEFAULT_CHECK_INTERVAL_MS: u64 = 30000;

/// Default time a probe waits for an answer, in milliseconds.
pub const DEFAULT_RESPONSE_TIMEOUT_MS: u64 = 5000;

/// Default ceiling on the initialize round trip of a healthy server, in milliseconds.
pub const DEFAULT_MAX_RESPONSE_TIME_MS: u64 = 200;

/// `n + 1`, held at `u64::MAX`.
pub open spec fn inc64(n: u64) -> u64 {
    if n < u64::MAX {
        (n + 1) as u64
    } else {
        n
    }
}

fn inc64_exec(n: u64) -> (r: u64)
    ensures
        r == inc64(n),
{
    if n < u64::MAX {
        n + 1
    } else {
        n
    }
}

/// The error recorded for a server that answered, but too slowly.
pub open spec fn slow_message(response_time_ms: u64, ceiling_ms: u64) -> Seq<char> {
    "Response time "@ + decimal_text(response_time_ms as nat) + "ms exceeds maximum "@
        + decimal_text(ceiling_ms as nat) + "ms"@
}

/// How one probe updates a health record (see
/// [`McpHealthChecker::record_check`]), with `ceiling_ms` the slowest
/// acceptable initialize round trip.
pub open spec fn probe_recorded(
    ceiling_ms: u64,
    before: McpServerHealth,
    after: McpServerHealth,
    now_ms: u64,
    initialize: Result<(), String>,
    response_time_ms: u64,
    tools: Option<Result<(), String>>,
) -> bool {
    let fast = response_time_ms <= ceiling_ms;
    let first = initialize is Ok && fast;
    let tools_failed = first && tools matches Some(Err(_));
    &&& after.healthy == (first && !tools_failed)
    &&& (tools is None || tools matches Some(Ok(_))) ==> (after.healthy <==> (initialize is Ok
        && fast))
    &&& after.request_count == inc64(before.request_count)
    &&& after.success_count == if initialize is Ok {
        inc64(before.success_count)
    } else {
        before.success_count
    }
    &&& after.error_count == if initialize is Err || tools_failed {
        inc64(before.error_count)
    } else {
        before.error_count
    }
    &&& tools_failed ==> after.last_error == Some(tools->Some_0->Err_0)
    &&& initialize is Err ==> after.last_error == Some(initialize->Err_0)
    &&& (initialize is Ok && !fast) ==> (after.last_error matches Some(m) && m@ == slow_message(
        response_time_ms,
        ceiling_ms,
    ))
    &&& (first && !tools_failed) ==> after.last_error is None
    &&& after.last_check_ms == Some(now_ms)
    &&& after.response_time_ms == response_time_ms
    &&& after.status == before.status
    &&& after.uptime_ms == before.uptime_ms
}

/// Successes per thousand observations, rounded to the nearest (halves
/// up); 0 without observations.
pub open spec fn permille(successes: u64, errors: u64) -> nat {
    if successes + errors == 0 {
        0
    } else {
        ((successes * 2000 + (successes + errors)) / (2 * (successes + errors))) as nat
    }
}

impl McpServerHealth {
    /// A record with no observation yet.
    pub fn new(status: McpServerStatus) -> (r: Self)
        ensures
            r.status == status,
            !r.healthy,
            r.last_error is None,
            r.uptime_ms is None,
            r.request_count == 0,
            r.success_count == 0,
            r.error_count == 0,
            r.last_check_ms is None,
            r.response_time_ms == 0,
    {
        McpServerHealth {
            status,
            healthy: false,
            last_error: None,
            uptime_ms: None,
            request_count: 0,
            success_count: 0,
            error_count: 0,
            last_check_ms: None,
            response_time_ms: 0,
        }
    }

    /// Successes per thousand observations (successes and errors), rounded
    /// to the nearest; 0 when nothing was observed yet.
    pub fn success_rate_permille(&self) -> (r: u64)
        ensures
            r == permille(self.success_count, self.error_count),
            r <= 1000,
    {
        let s = self.success_count as u128;
        let total = s + self.error_count as u128;
        if total == 0 {
            0
        } else {
            let ghost si = s as int;
            let ghost ti = total as int;
            assert((si * 2000 + ti) / (2 * ti) <= 1000) by (nonlinear_arith)
                requires
                    0 <= si <= ti,
                    ti > 0,
            ;
            assert(si * 2000 + ti <= u128::MAX) by (nonlinear_arith)
                requires
                    0 <= si <= u64::MAX,
                    ti <= 2 * u64::MAX,
            ;
            ((s * 2000 + total) / (2 * total)) as u64
        }
    }

    /// A field-by-field copy.
    pub fn copy(&self) -> (r: Self)
        ensures
            r == *self,
    {
        McpServerHealth {
            status: self.status,
            healthy: self.healthy,
            last_error: copy_text(&self.last_error),
            uptime_ms: self.uptime_ms,
            request_count: self.request_count,
            success_count: self.success_count,
            error_count: self.error_count,
            last_check_ms: self.last_check_ms,
            response_time_ms: self.response_time_ms,
        }
    }
}

/// A copy of an optional string.
pub fn copy_text(t: &Option<String>) -> (r: Option<String>)
    ensures
        r == *t,
{
    match t {
        Some(s) => Some(s.clone()),
        None => None,
    }
}

/// Settings of the periodic health probe.
#[derive(Debug, Clone, Copy, PartialEq, Eq, Structural)]
pub struct McpHealthChecker {
    pub check_interval_ms: u64,
    pub response_timeout_ms: u64,
    /// Slowest initialize round trip of a healthy server.
    pub max_acceptable_response_time_ms: u64,
}

impl McpHealthChecker {
    /// A checker with the default interval, timeout and ceiling.
    pub fn new() -> (r: Self)
        ensures
            r.check_interval_ms == DEFAULT_CHECK_INTERVAL_MS,
            r.response_timeout_ms == DEFAULT_RESPONSE_TIMEOUT_MS,
            r.max_acceptable_response_time_ms == DEFAULT_MAX_RESPONSE_TIME_MS,
    {
        McpHealthChecker {
            check_interval_ms: DEFAULT_CHECK_INTERVAL_MS,
            response_timeout_ms: DEFAULT_RESPONSE_TIMEOUT_MS,
            max_acceptable_response_time_ms: DEFAULT_MAX_RESPONSE_TIME_MS,
        }
    }

    /// The same checker with another interval.
    pub fn with_check_interval(self, interval_ms: u64) -> (r: Self)
        ensures
            r == (McpHealthChecker { check_interval_ms: interval_ms, ..self }),
    {
        McpHealthChecker { check_interval_ms: interval_ms, ..self }
    }

    /// The same checker with another response timeout.
    pub fn with_timeout(self, timeout_ms: u64) -> (r: Self)
        ensures
            r == (McpHealthChecker { response_timeout_ms: timeout_ms, ..self }),
    {
        McpHealthChecker { response_timeout_ms: timeout_ms, ..self }
    }

    /// The same checker with another response-time ceiling.
    pub fn with_max_response_time(self, ceiling_ms: u64) -> (r: Self)
        ensures
            r == (McpHealthChecker { max_acceptable_response_time_ms: ceiling_ms, ..self }),
    {
        McpHealthChecker { max_acceptable_response_time_ms: ceiling_ms, ..self }
    }

    /// Whether a probe goes on to the tool step: only after an initialize
    /// that succeeded within the ceiling.
    pub fn should_probe_tools(&self, initialized: bool, response_time_ms: u64) -> (r: bool)
        ensures
            r == (initialized && response_time_ms <= self.max_acceptable_response_time_ms),
    {
        initialized && response_time_ms <= self.max_acceptable_response_time_ms
    }

    /// Records one probe made at `now_ms`: the outcome of its initialize step
    /// and its round trip, and the outcome of the tool step when it ran.
    ///
    /// The server is healthy iff the initialize step succeeded within the
    /// ceiling and the tool step did not fail. A successful initialize counts
    /// one success; a failed initialize, and a failed tool step after a good
    /// initialize, count one error each. The last error is the one that
    /// decided the outcome, or none for a healthy server.
    pub fn record_check(
        &self,
        health: &mut McpServerHealth,
        now_ms: u64,
        initialize: Result<(), String>,
        response_time_ms: u64,
        tools: Option<Result<(), String>>,
    )
        ensures
            probe_recorded(
                self.max_acceptable_response_time_ms,
                *old(health),
                *final(health),
                now_ms,
                initialize,
                response_time_ms,
                tools,
            ),
    {
        let ceiling = self.max_acceptable_response_time_ms;
        health.request_count = inc64_exec(health.request_count);
        health.last_check_ms = Some(now_ms);
        health.response_time_ms = response_time_ms;
        match initialize {
            Ok(()) => {
                health.success_count = inc64_exec(health.success_count);
                if response_time_ms <= ceiling {
                    match tools {
                        Some(Err(e)) => {
                            health.healthy = false;
                            health.error_count = inc64_exec(health.error_count);
                            health.last_error = Some(e);
                        },
                        _ => {
                            health.healthy = true;
                            health.last_error = None;
                        },
                    }
                } else {
                    health.healthy = false;
                    let m = String::from_str("Response time ");
                    let rt = decimal_string(response_time_ms);
                    let m = m.concat(rt.as_str());
                    let m = m.concat("ms exceeds maximum ");
                    let c = decimal_string(ceiling);
                    let m = m.concat(c.as_str());
                    let m = m.concat("ms");
                    health.last_error = Some(m);
                }
            },
            Err(e) => {
                health.healthy = false;
                health.error_count = inc64_exec(health.error_count);
                health.last_error = Some(e);
            },
        }
    }
}

/// One server's line of a health report.
#[derive(Debug, Clone)]
pub struct ServerHealthLine {
    pub id: String,
    pub healthy: bool,
    pub response_time_ms: u64,
    /// Successes per thousand observations.
    pub success_rate_permille: u64,
    pub success_count: u64,
    pub error_count: u64,
    pub last_error: Option<String>,
}

/// Health of every registered server, summarized.
#[derive(Debug, Clone)]
pub struct HealthSummary {
    pub total: usize,
    pub healthy: usize,
    pub unhealthy: usize,
    pub servers: Vec<ServerHealthLine>,
}

/// Number of healthy records.
pub open spec fn count_healthy(s: Seq<(Seq<char>, McpServerHealth)>) -> nat
    decreases s.len(),
{
    if s.len() == 0 {
        0
    } else {
        count_healthy(s.drop_last()) + if s.last().1.healthy {
            1nat
        } else {
            0nat
        }
    }
}

/// At most every record is healthy.
pub proof fn lemma_count_healthy_bounded(s: Seq<(Seq<char>, McpServerHealth)>)
    ensures
        count_healthy(s) <= s.len(),
    decreases s.len(),
{
    if s.len() > 0 {
        lemma_count_healthy_bounded(s.drop_last());
    }
}

/// The report line of one record.
pub open spec fn line_of(id: Seq<char>, h: McpServerHealth, l: ServerHealthLine) -> bool {
    &&& l.id@ == id
    &&& l.healthy == h.healthy
    &&& l.response_time_ms == h.response_time_ms
    &&& l.success_rate_permille == permille(h.success_count, h.error_count)
    &&& l.success_count == h.success_count
    &&& l.error_count == h.error_count
    &&& l.last_error == h.last_error
}

/// Summarizes records given as `(id, record)` pairs: totals, and one line per
/// record in the same order.
pub fn summarize(records: &Vec<(String, McpServerHealth)>) -> (r: HealthSummary)
    ensures
        ({
            let s = records@.map_values(|e: (String, McpServerHealth)| (e.0@, e.1));
            &&& r.total == s.len()
            &&& r.healthy == count_healthy(s)
            &&& r.unhealthy == s.len() - count_healthy(s)
            &&& r.healthy <= r.total
            &&& r.healthy + r.unhealthy == r.total
            &&& r.servers@.len() == s.len()
            &&& forall|i: int| 0 <= i < s.len() ==> line_of(s[i].0, s[i].1, #[trigger] r.servers@[i])
        }),
{
    let ghost s = records@.map_values(|e: (String, McpServerHealth)| (e.0@, e.1));
    let mut lines: Vec<ServerHealthLine> = Vec::new();
    let mut healthy: usize = 0;
    let mut i: usize = 0;
    while i < records.len()
        invariant
            i <= records.len(),
            s == records@.map_values(|e: (String, McpServerHealth)| (e.0@, e.1)),
            healthy == count_healthy(s.subrange(0, i as int)),
            lines@.len() == i,
            forall|j: int| 0 <= j < i ==> line_of(s[j].0, s[j].1, #[trigger] lines@[j]),
        decreases records.len() - i,
    {
        let h = &records[i].1;
        proof {
            assert(s.subrange(0, i as int + 1).drop_last() =~= s.subrange(0, i as int));
            lemma_count_healthy_bounded(s.subrange(0, i as int));
        }
        if h.healthy {
            healthy = healthy + 1;
        }
        let line = ServerHealthLine {
            id: records[i].0.clone(),
            healthy: h.healthy,
            response_time_ms: h.response_time_ms,
            success_rate_permille: h.success_rate_permille(),
            success_count: h.success_count,
            error_count: h.error_count,
            last_error: copy_text(&h.last_error),
        };
        lines.push(line);
        i = i + 1;
    }
    proof {
        assert(s.subrange(0, i as int) =~= s);
        lemma_count_healthy_bounded(s);
    }
    HealthSummary {
        total: records.len(),
        healthy,
        unhealthy: records.len() - healthy,
        servers: lines,
    }
}

/// Share of `part` in `total`, in whole percent rounded down; `total` 0
/// counts as 1.
pub open spec fn percent(part: nat, total: nat) -> nat {
    if total == 0 {
        part * 100
    } else {
        part * 100 / total
    }
}

/// The opening of a health report: title and totals.
pub open spec fn report_header(total: nat, healthy: nat, unhealthy: nat) -> Seq<char> {
    "MCP Server Health Report\n========================\n\nTotal Servers: "@ + decimal_text(total)
        + "\nHealthy: "@ + decimal_text(healthy) + " ("@ + decimal_text(percent(healthy, total))
        + "%)\nUnhealthy: "@ + decimal_text(unhealthy) + " ("@ + decimal_text(
        percent(unhealthy, total),
    ) + "%)\n\n"@
}

/// The block of one server in a health report.
pub open spec fn report_block(l: ServerHealthLine) -> Seq<char> {
    let status = if l.healthy {
        "\u{2705} HEALTHY"@
    } else {
        "\u{274c} UNHEALTHY"@
    };
    let body = "Server: "@ + l.id@ + " - "@ + status + "\n  Response Time: "@ + decimal_text(
        l.response_time_ms as nat,
    ) + "ms\n  Success Rate: "@ + decimal_text((l.success_rate_permille / 10) as nat) + "."@
        + decimal_text((l.success_rate_permille % 10) as nat) + "%\n  Success/Error Count: "@
        + decimal_text(l.success_count as nat) + "/"@ + decimal_text(l.error_count as nat) + "\n"@;
    match l.last_error {
        Some(e) => body + "  Last Error: "@ + e@ + "\n\n"@,
        None => body + "\n"@,
    }
}

/// The blocks of a sequence of servers, in order.
pub open spec fn report_blocks(s: Seq<ServerHealthLine>) -> Seq<char>
    decreases s.len(),
{
    if s.len() == 0 {
        Seq::empty()
    } else {
        report_blocks(s.drop_last()) + report_block(s.last())
    }
}

fn block_text(l: &ServerHealthLine) -> (r: String)
    ensures
        r@ == report_block(*l),
{
    let t = String::from_str("Server: ");
    let t = t.concat(l.id.as_str());
    let t = t.concat(" - ");
    let t = if l.healthy {
        t.concat("\u{2705} HEALTHY")
    } else {
        t.concat("\u{274c} UNHEALTHY")
    };
    let t = t.concat("\n  Response Time: ");
    let t = t.concat(decimal_string(l.response_time_ms).as_str());
    let t = t.concat("ms\n  Success Rate: ");
    let t = t.concat(decimal_string(l.success_rate_permille / 10).as_str());
    let t = t.concat(".");
    let t = t.concat(decimal_string(l.success_rate_permille % 10).as_str());
    let t = t.concat("%\n  Success/Error Count: ");
    let t = t.concat(decimal_string(l.success_count).as_str());
    let t = t.concat("/");
    let t = t.concat(decimal_string(l.error_count).as_str());
    let t = t.concat("\n");
    match &l.last_error {
        Some(e) => {
            let t = t.concat("  Last Error: ");
            let t = t.concat(e.as_str());
            t.concat("\n\n")
        },
        None => t.concat("\n"),
    }
}

fn percent_exec(part: usize, total: usize) -> (r: u64)
    requires
        part <= total || total == 0 && part == 0,
    ensures
        r == percent(part as nat, total as nat),
{
    if total == 0 {
        0
    } else {
        let p = part as u128 * 100;
        assert(p / (total as u128) <= 100) by (nonlinear_arith)
            requires
                p == part * 100,
                part <= total,
                total > 0,
        ;
        (p / total as u128) as u64
    }
}

/// The text of a health report: title, totals with their share in percent,
/// then one block per server with its state, response time, success rate
/// (one decimal), counts and last error.
pub fn render_report(summary: &HealthSummary) -> (r: String)
    requires
        summary.healthy <= summary.total,
        summary.unhealthy <= summary.total,
    ensures
        r@ == report_header(summary.total as nat, summary.healthy as nat, summary.unhealthy as nat)
            + report_blocks(summary.servers@),
{
    let t = String::from_str("MCP Server Health Report\n========================\n\nTotal Servers: ");
    let t = t.concat(decimal_string(summary.total as u64).as_str());
    let t = t.concat("\nHealthy: ");
    let t = t.concat(decimal_string(summary.healthy as u64).as_str());
    let t = t.concat(" (");
    let t = t.concat(decimal_string(percent_exec(summary.healthy, summary.total)).as_str());
    let t = t.concat("%)\nUnhealthy: ");
    let t = t.concat(decimal_string(summary.unhealthy as u64).as_str());
    let t = t.concat(" (");
    let t = t.concat(decimal_string(percent_exec(summary.unhealthy, summary.total)).as_str());
    let mut t = t.concat("%)\n\n");
    let ghost head = t@;
    let mut i: usize = 0;
    while i < summary.servers.len()
        invariant
            i <= summary.servers@.len(),
            t@ == head + report_blocks(summary.servers@.subrange(0, i as int)),
        decreases summary.servers@.len() - i,
    {
        proof {
            assert(summary.servers@.subrange(0, i as int + 1).drop_last() =~= summary.servers@.subrange(
                0,
                i as int,
            ));
        }
        let b = block_text(&summary.servers[i]);
        t = t.concat(b.as_str());
        i = i + 1;
        assert(t@ =~= head + report_blocks(summary.servers@.subrange(0, i as int)));
    }
    proof {
        assert(summary.servers@.subrange(0, i as int) =~= summary.servers@);
    }
    t
}

/// The error text of a probe whose tool listing failed.
pub open spec fn list_failure_text(e: Seq<char>) -> Seq<char> {
    "tools/list failed: "@ + e
}

/// The error text of a probe whose call of tool `name` failed.
pub open spec fn call_failure_text(name: Seq<char>, e: Seq<char>) -> Seq<char> {
    "tools/call failed for "@ + name + ": "@ + e
}

/// The tool step of a probe, from its two round trips: the listing (the
/// name of the first listed tool, if any) and, when a tool was listed, the
/// call of that tool with empty arguments. The error names the step that
/// failed; with no tool listed the step succeeds.
pub fn tool_step_outcome(listed: Result<Option<String>, String>, called: Result<(), String>) -> (r:
    Result<(), String>)
    ensures
        listed matches Err(e) ==> (r matches Err(m) && m@ == list_failure_text(e@)),
        listed matches Ok(None) ==> r is Ok,
        listed matches Ok(Some(name)) ==> (called is Ok ==> r is Ok) && (called matches Err(e)
            ==> (r matches Err(m) && m@ == call_failure_text(name@, e@))),
{
    match listed {
        Err(e) => {
            let m = String::from_str("tools/list failed: ");
            Err(m.concat(e.as_str()))
        },
        Ok(None) => Ok(()),
        Ok(Some(name)) => match called {
            Ok(()) => Ok(()),
            Err(e) => {
                let m = String::from_str("tools/call failed for ");
                let m = m.concat(name.as_str());
                let m = m.concat(": ");
                Err(m.concat(e.as_str()))
            },
        },
    }
}

/// The arguments of the smoke-test call: an empty JSON object.
pub const SMOKE_TEST_ARGUMENTS: &'static str = "{}";

} // verus!
