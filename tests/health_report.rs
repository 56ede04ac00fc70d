use catalyst_plugin_api::health::{render_report, summarize, tool_step_outcome, McpHealthChecker};
use catalyst_plugin_api::lifecycle::McpServerStatus;
use catalyst_plugin_api::mcp_server::McpServerHealth;

#[test]
fn healthy_probe() {
    let checker = McpHealthChecker::new();
    let mut h = McpServerHealth::new(McpServerStatus::Running);
    assert!(checker.should_probe_tools(true, 12));
    checker.record_check(&mut h, 1000, Ok(()), 12, Some(Ok(())));
    assert!(h.healthy);
    assert_eq!(h.success_count, 1);
    assert_eq!(h.error_count, 0);
    assert_eq!(h.last_error, None);
    assert_eq!(h.success_rate_permille(), 1000);
    assert_eq!(h.last_check_ms, Some(1000));
}

#[test]
fn slow_probe_is_unhealthy() {
    let checker = McpHealthChecker::new().with_timeout(2000);
    let mut h = McpServerHealth::new(McpServerStatus::Running);
    assert!(!checker.should_probe_tools(true, 300));
    checker.record_check(&mut h, 0, Ok(()), 300, None);
    assert!(!h.healthy);
    assert!(h.response_time_ms >= 300);
    let e = h.last_error.clone().unwrap();
    assert!(e.contains("Response time"));
    assert_eq!(e, "Response time 300ms exceeds maximum 200ms");
}

#[test]
fn failing_probe_is_unhealthy() {
    let checker = McpHealthChecker::new();
    let mut h = McpServerHealth::new(McpServerStatus::Running);
    checker.record_check(&mut h, 0, Err("Initialize failed: Mock server configured to fail".to_string()), 1, None);
    assert!(!h.healthy);
    assert_eq!(h.error_count, 1);
    assert_eq!(h.success_rate_permille(), 0);
    assert!(h.last_error.unwrap().contains("configured to fail"));
}

#[test]
fn tool_step_failure_is_recorded() {
    let checker = McpHealthChecker::new();
    let mut h = McpServerHealth::new(McpServerStatus::Running);
    checker.record_check(&mut h, 0, Ok(()), 5, Some(Err("tools/call failed for read_file: boom".to_string())));
    assert!(!h.healthy);
    assert_eq!(h.success_count, 1);
    assert_eq!(h.error_count, 1);
    assert_eq!(h.success_rate_permille(), 500);
}

#[test]
fn no_observation_rate_is_zero() {
    let h = McpServerHealth::new(McpServerStatus::Stopped);
    assert_eq!(h.success_rate_permille(), 0);
}

#[test]
fn summary_counts() {
    let checker = McpHealthChecker::new();
    let mut a = McpServerHealth::new(McpServerStatus::Running);
    checker.record_check(&mut a, 0, Ok(()), 10, Some(Ok(())));
    let mut b = McpServerHealth::new(McpServerStatus::Running);
    checker.record_check(&mut b, 0, Err("down".to_string()), 10, None);
    let s = summarize(&vec![("filesystem".to_string(), a), ("failing-server".to_string(), b)]);
    assert_eq!(s.total, 2);
    assert_eq!(s.healthy, 1);
    assert_eq!(s.unhealthy, 1);
    assert_eq!(s.servers[0].id, "filesystem");
    assert!(s.servers[0].healthy);
    assert_eq!(s.servers[1].last_error.as_deref(), Some("down"));
    assert_eq!(s.servers[1].success_rate_permille, 0);
}

#[test]
fn checker_settings() {
    let c = McpHealthChecker::new();
    assert_eq!(c.check_interval_ms, 30000);
    assert_eq!(c.max_acceptable_response_time_ms, 200);
    let c = c.with_check_interval(1000).with_max_response_time(50);
    assert_eq!(c.check_interval_ms, 1000);
    assert_eq!(c.max_acceptable_response_time_ms, 50);
    assert_eq!(c.response_timeout_ms, 5000);
}

#[test]
fn health_report_text() {
    let checker = McpHealthChecker::new();
    let mut a = McpServerHealth::new(McpServerStatus::Running);
    checker.record_check(&mut a, 0, Ok(()), 10, Some(Ok(())));
    let mut b = McpServerHealth::new(McpServerStatus::Running);
    checker.record_check(&mut b, 0, Err("Initialize failed: Mock server configured to fail".to_string()), 3, None);
    let report = render_report(&summarize(&vec![("filesystem".to_string(), a), ("failing-server".to_string(), b)]));
    assert!(report.contains("MCP Server Health Report"));
    assert!(report.contains("Total Servers: 2"));
    assert!(report.contains("Healthy: 1 (50%)"));
    assert!(report.contains("filesystem"));
    assert!(report.contains("failing-server"));
    assert!(report.contains("\u{2705} HEALTHY"));
    assert!(report.contains("\u{274c} UNHEALTHY"));
    assert!(report.contains("Server: filesystem - \u{2705} HEALTHY\n  Response Time: 10ms\n  Success Rate: 100.0%\n  Success/Error Count: 1/0\n\n"));
    assert!(report.contains("  Success Rate: 0.0%\n  Success/Error Count: 0/1\n  Last Error: Initialize failed: Mock server configured to fail\n"));
}

#[test]
fn success_rate_rounds_to_nearest() {
    let checker = McpHealthChecker::new();
    let mut h = McpServerHealth::new(McpServerStatus::Running);
    checker.record_check(&mut h, 0, Ok(()), 1, Some(Ok(())));
    checker.record_check(&mut h, 0, Ok(()), 1, Some(Ok(())));
    checker.record_check(&mut h, 0, Err("down".to_string()), 1, None);
    assert_eq!(h.success_rate_permille(), 667);
    let report = render_report(&summarize(&vec![("s".to_string(), h)]));
    assert!(report.contains("Success Rate: 66.7%"));
}

#[test]
fn tool_step_messages() {
    assert_eq!(tool_step_outcome(Err("boom".to_string()), Ok(())), Err("tools/list failed: boom".to_string()));
    assert_eq!(tool_step_outcome(Ok(None), Err("x".to_string())), Ok(()));
    assert_eq!(
        tool_step_outcome(Ok(Some("read_file".to_string())), Err("bad args".to_string())),
        Err("tools/call failed for read_file: bad args".to_string())
    );
    assert_eq!(tool_step_outcome(Ok(Some("read_file".to_string())), Ok(())), Ok(()));
}
