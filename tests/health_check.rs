use std::time::Instant;

use catalyst_plugin_api::health::{render_report, summarize, McpHealthChecker};
use catalyst_plugin_api::lifecycle::McpServerStatus;
use catalyst_plugin_api::mcp_server::McpServerHealth;
use catalyst_plugin_api::protocol::{InitializeResult, ServerInfo};

/// A stand-in server: answers on a simulated clock, or fails every request.
struct MockMcpServer {
    name: String,
    tools: Vec<String>,
    delay_ms: u64,
    should_fail: bool,
}

impl MockMcpServer {
    fn new(name: &str) -> Self {
        MockMcpServer { name: name.to_string(), tools: vec![], delay_ms: 0, should_fail: false }
    }
    fn with_tool(mut self, tool: &str) -> Self {
        self.tools.push(tool.to_string());
        self
    }
    fn with_delay(mut self, delay_ms: u64) -> Self {
        self.delay_ms = delay_ms;
        self
    }
    fn with_failure(mut self, should_fail: bool) -> Self {
        self.should_fail = should_fail;
        self
    }
    fn handle_initialize(&self) -> Result<InitializeResult, String> {
        if self.should_fail {
            return Err("Mock server configured to fail".to_string());
        }
        Ok(InitializeResult {
            protocol_version: Some("2024-11-05".to_string()),
            server_info: Some(ServerInfo { name: self.name.clone(), version: "1.0.0-mock".to_string() }),
        })
    }
    fn handle_tools_call(&self, tool: &str) -> Result<(), String> {
        if self.should_fail {
            return Err("Mock server configured to fail".to_string());
        }
        if self.tools.iter().any(|t| t == tool) { Ok(()) } else { Err(format!("Unknown tool: {}", tool)) }
    }
}

fn filesystem_server() -> MockMcpServer {
    MockMcpServer::new("filesystem").with_tool("read_file").with_tool("write_file")
}

fn git_server() -> MockMcpServer {
    MockMcpServer::new("git").with_tool("git_status").with_tool("git_commit")
}

fn all_servers() -> Vec<MockMcpServer> {
    vec![
        filesystem_server(),
        git_server(),
        MockMcpServer::new("docker").with_tool("list_containers").with_tool("run_container"),
        MockMcpServer::new("github").with_tool("create_issue").with_tool("create_pr"),
    ]
}

/// One probe of a mock server: the initialize step on the simulated clock
/// (its delay plus one millisecond of work), then the tool step when due.
fn check_server_health(checker: &McpHealthChecker, server: &MockMcpServer) -> (String, McpServerHealth) {
    let mut health = McpServerHealth::new(McpServerStatus::Running);
    let elapsed = server.delay_ms + 1;
    let init = match server.handle_initialize() {
        Ok(r) if r.protocol_version.is_none() => Err("Missing protocolVersion in response".to_string()),
        Ok(r) if r.server_info.is_none() => Err("Missing serverInfo in response".to_string()),
        Ok(_) => Ok(()),
        Err(e) => Err(format!("Initialize failed: {}", e)),
    };
    let tools = if checker.should_probe_tools(init.is_ok(), elapsed) {
        Some(match server.tools.first() {
            Some(first) => server
                .handle_tools_call(first)
                .map_err(|e| format!("tools/call failed for {}: {}", first, e)),
            None => Ok(()),
        })
    } else {
        None
    };
    checker.record_check(&mut health, 0, init, elapsed, tools);
    (server.name.clone(), health)
}

fn check_multiple_servers(checker: &McpHealthChecker, servers: &[MockMcpServer]) -> Vec<(String, McpServerHealth)> {
    servers.iter().map(|s| check_server_health(checker, s)).collect()
}

#[test]
fn test_healthy_server_check() {
    let checker = McpHealthChecker::new();
    let server = filesystem_server();
    let (name, health) = check_server_health(&checker, &server);
    assert!(health.healthy, "Server should be healthy");
    assert_eq!(name, "filesystem");
    assert!(health.response_time_ms > 0);
    assert!(health.success_count > 0);
    assert_eq!(health.error_count, 0);
    assert!(health.success_rate_permille() > 0);
    println!("✅ Healthy server check passed");
}

#[test]
fn test_failing_server_check() {
    let checker = McpHealthChecker::new();
    let server = MockMcpServer::new("failing-server").with_failure(true);
    let (name, health) = check_server_health(&checker, &server);
    assert!(!health.healthy, "Server should be unhealthy");
    assert_eq!(name, "failing-server");
    assert!(health.error_count > 0);
    assert!(health.last_error.is_some());
    assert_eq!(health.success_rate_permille(), 0);
    println!("✅ Failing server check passed");
}

#[test]
fn test_slow_server_check() {
    let checker = McpHealthChecker::new().with_timeout(2000);
    let server = MockMcpServer::new("slow-server").with_delay(300);
    let (_, health) = check_server_health(&checker, &server);
    assert!(!health.healthy, "Slow server should be marked unhealthy");
    assert!(health.response_time_ms >= 300);
    assert!(health.last_error.is_some());
    assert!(health.last_error.as_ref().unwrap().contains("Response time"));
    println!("✅ Slow server check passed");
}

#[test]
fn test_multiple_server_health_check() {
    let checker = McpHealthChecker::new();
    let servers = vec![filesystem_server(), git_server(), MockMcpServer::new("failing-server").with_failure(true)];
    let results = check_multiple_servers(&checker, &servers);
    assert_eq!(results.len(), 3);
    assert!(results[0].1.healthy);
    assert!(results[1].1.healthy);
    assert!(!results[2].1.healthy);
    println!("✅ Multiple server health check passed");
}

#[test]
fn test_health_report_generation() {
    let checker = McpHealthChecker::new();
    let servers = vec![filesystem_server(), MockMcpServer::new("failing-server").with_failure(true)];
    let results = check_multiple_servers(&checker, &servers);
    let report = render_report(&summarize(&results));
    assert!(report.contains("MCP Server Health Report"));
    assert!(report.contains("Total Servers: 2"));
    assert!(report.contains("filesystem"));
    assert!(report.contains("failing-server"));
    assert!(report.contains("✅ HEALTHY"));
    assert!(report.contains("❌ UNHEALTHY"));
    println!("Health Report:\n{}", report);
    println!("✅ Health report generation passed");
}

#[test]
fn test_health_check_performance_requirements() {
    let checker = McpHealthChecker::new();
    let server = filesystem_server();
    let start = Instant::now();
    let _health = check_server_health(&checker, &server);
    let check_duration = start.elapsed();
    assert!(check_duration.as_millis() < 1000, "Health check took too long: {:?}", check_duration);
    println!("✅ Health check performance requirements met ({:?})", check_duration);
}

#[test]
fn test_all_standard_mcp_servers_health() {
    let checker = McpHealthChecker::new();
    let servers = all_servers();
    let results = check_multiple_servers(&checker, &servers);
    let report = render_report(&summarize(&results));
    let all_healthy = results.iter().all(|(_, h)| h.healthy);
    assert!(all_healthy, "All standard MCP servers should be healthy");
    println!("Standard MCP Servers Health Report:\n{}", report);
    println!("✅ All {} standard MCP servers are healthy", servers.len());
}
