use catalyst_plugin_api::error::PluginError;
use catalyst_plugin_api::lifecycle::{backoff_delay_ms, LifecycleAction, LifecycleEvent, McpServerStatus};
use catalyst_plugin_api::connection::{finish_resource_read, finish_tool_call, smoke_test_target, ServerConnection};
use catalyst_plugin_api::mcp_server::{
    collect_stop_failures, McpContent, McpError, McpResourceContent, McpServerCapabilities,
    McpServerInfo, McpServerRegistry, McpTool,
};
use catalyst_plugin_api::plugin_api::SecurityLevel;
use catalyst_plugin_api::protocol::{IncomingMessage, InitializeResult, ServerInfo};

fn definition(id: &str, auto_start: bool, required_env: &[&str]) -> McpServerInfo {
    McpServerInfo {
        id: id.to_string(),
        name: id.to_string(),
        description: format!("{} server", id),
        version: "1.0.0".to_string(),
        command: vec![format!("mcp-server-{}", id)],
        args: vec![],
        env: vec![],
        required_env: required_env.iter().map(|s| s.to_string()).collect(),
        working_directory: None,
        auto_start,
        capabilities: McpServerCapabilities { tools: true, resources: true, prompts: false, logging: false, experimental: vec![] },
    }
}

fn good_handshake() -> InitializeResult {
    InitializeResult {
        protocol_version: Some("2024-11-05".to_string()),
        server_info: Some(ServerInfo { name: "mock".to_string(), version: "1.0.0-mock".to_string() }),
    }
}

fn running(id: &str) -> ServerConnection {
    let mut c = ServerConnection::new(definition(id, false, &[]));
    let t = c.start(&vec![]).unwrap();
    assert_eq!(t.action, LifecycleAction::Spawn);
    let init = c.begin_initialize(0, 5000);
    assert_eq!(init.method, "initialize");
    assert!(c.receive(IncomingMessage::Response { id: init.id }).is_some());
    let (ok, _) = c.finish_initialize(good_handshake());
    assert!(ok.is_ok());
    assert_eq!(c.status(), McpServerStatus::Running);
    c
}

fn tool(name: &str, level: SecurityLevel) -> McpTool {
    McpTool {
        name: name.to_string(),
        description: None,
        input_schema: "{\"type\":\"object\"}".to_string(),
        security_level: level,
    }
}

#[test]
fn duplicate_register_keeps_original() {
    let mut registry = McpServerRegistry::new();
    registry.register_server("fs".to_string(), running("fs")).unwrap();
    let second = registry.register_server("fs".to_string(), ServerConnection::new(definition("other", false, &[])));
    assert_eq!(second, Err(PluginError::DuplicateId));
    assert_eq!(registry.len(), 1);
    let kept = registry.get_server(&"fs".to_string()).unwrap();
    assert_eq!(kept.info.name, "fs");
    assert_eq!(kept.status(), McpServerStatus::Running);
}

#[test]
fn unregister_unknown_and_known() {
    let mut registry = McpServerRegistry::new();
    assert!(matches!(registry.unregister_server(&"nope".to_string()), Err(PluginError::NotFound)));
    registry.register_server("fs".to_string(), running("fs")).unwrap();
    let t = registry.unregister_server(&"fs".to_string()).unwrap();
    assert_eq!(t.action, LifecycleAction::Terminate);
    assert_eq!(registry.len(), 0);
}

#[test]
fn responses_reach_callers_out_of_order() {
    let mut c = running("fs");
    let a = c.call("tools/list".to_string(), None, 0, 1000).unwrap();
    let b = c.call("resources/list".to_string(), None, 0, 1000).unwrap();
    let d = c.call("tools/list".to_string(), None, 0, 1000).unwrap();
    assert!(a.id < b.id && b.id < d.id);
    let got_d = c.receive(IncomingMessage::Response { id: d.id }).unwrap();
    assert_eq!(got_d.id, d.id);
    assert!(c.receive(IncomingMessage::Response { id: 999 }).is_none());
    let got_a = c.receive(IncomingMessage::Response { id: a.id }).unwrap();
    assert_eq!(got_a.id, a.id);
    assert_eq!(got_a.method, "tools/list");
    let got_b = c.receive(IncomingMessage::Response { id: b.id }).unwrap();
    assert_eq!(got_b.method, "resources/list");
    assert!(c.receive(IncomingMessage::Response { id: a.id }).is_none());
}

#[test]
fn timeout_keeps_process_running() {
    let mut c = running("slow");
    let a = c.call("tools/list".to_string(), None, 100, 50).unwrap();
    let b = c.call("tools/list".to_string(), None, 100, 500).unwrap();
    assert!(c.expire_calls(149).is_empty());
    let expired = c.expire_calls(150);
    assert_eq!(expired, vec![a.id]);
    assert_eq!(c.status(), McpServerStatus::Running);
    assert!(c.receive(IncomingMessage::Response { id: a.id }).is_none());
    assert_eq!(c.receive(IncomingMessage::Response { id: b.id }).unwrap().id, b.id);
}

#[test]
fn stop_cancels_outstanding_calls() {
    let mut c = running("fs");
    let a = c.call("tools/list".to_string(), None, 0, 1000).unwrap();
    let t = c.stop();
    assert_eq!(t.action, LifecycleAction::Terminate);
    assert_eq!(t.cancelled, vec![a.id]);
    assert_eq!(c.status(), McpServerStatus::Stopped);
    assert!(matches!(c.call("tools/list".to_string(), None, 0, 1000), Err(PluginError::ConnectionStopped)));
}

#[test]
fn stop_all_stops_every_active_server() {
    let mut registry = McpServerRegistry::new();
    registry.register_server("a".to_string(), running("a")).unwrap();
    registry.register_server("b".to_string(), ServerConnection::new(definition("b", false, &[]))).unwrap();
    registry.register_server("c".to_string(), running("c")).unwrap();
    let outcomes = registry.stop_all_servers();
    let ids: Vec<&str> = outcomes.iter().map(|o| o.id.as_str()).collect();
    assert_eq!(ids, vec!["a", "c"]);
    for o in &outcomes {
        assert_eq!(o.result.as_ref().unwrap().action, LifecycleAction::Terminate);
    }
    for id in ["a", "b", "c"] {
        assert_eq!(registry.get_server(&id.to_string()).unwrap().status(), McpServerStatus::Stopped);
    }
}

#[test]
fn filesystem_tools_scenario() {
    let mut c = running("filesystem");
    assert!(c.cached_tools().is_none());
    let list = c.call("tools/list".to_string(), None, 0, 1000).unwrap();
    assert!(c.receive(IncomingMessage::Response { id: list.id }).is_some());
    c.store_tools(vec![tool("read_file", SecurityLevel::Safe), tool("write_file", SecurityLevel::Workspace)]);
    let names: Vec<&str> = c.cached_tools().unwrap().iter().map(|t| t.name.as_str()).collect();
    assert_eq!(names, vec!["read_file", "write_file"]);

    let req = c.call_tool("read_file".to_string(), "{\"path\":\"/a.txt\"}".to_string(), false, 0, 1000).unwrap();
    assert_eq!(req.method, "tools/call");
    assert_eq!(req.params.as_deref(), Some("{\"name\":\"read_file\",\"arguments\":{\"path\":\"/a.txt\"}}"));
    assert_eq!(c.receive(IncomingMessage::Response { id: req.id }).unwrap().id, req.id);
    let content = vec![McpContent { content_type: "text".to_string(), data: "Mock file content for: /a.txt".to_string() }];
    let result = finish_tool_call(None, content, false).unwrap();
    assert!(result.content[0].data.contains("/a.txt"));

    let unknown = c.call_tool("unknown_tool".to_string(), "{}".to_string(), false, 0, 1000).unwrap();
    assert!(c.receive(IncomingMessage::Response { id: unknown.id }).is_some());
    let err = McpError { code: -32601, message: "Unknown tool: unknown_tool".to_string(), data: None };
    let failed = finish_tool_call(Some(err), vec![], false);
    assert_eq!(failed.unwrap_err(), PluginError::RemoteToolError { code: -32601, message: "Unknown tool: unknown_tool".to_string() });
}

#[test]
fn confirmation_required_above_safe() {
    let mut c = running("fs");
    c.store_tools(vec![tool("write_file", SecurityLevel::Workspace)]);
    let refused = c.call_tool("write_file".to_string(), "{}".to_string(), false, 0, 1000);
    assert!(matches!(refused, Err(PluginError::ConfirmationRequired)));
    assert!(c.client.pending.is_empty());
    let allowed = c.call_tool("write_file".to_string(), "{}".to_string(), true, 0, 1000);
    assert!(allowed.is_ok());
}

#[test]
fn list_changed_notification_drops_cache() {
    let mut c = running("fs");
    c.store_tools(vec![tool("read_file", SecurityLevel::Safe)]);
    c.receive(IncomingMessage::Notification { method: "notifications/message".to_string() });
    assert!(c.cached_tools().is_some());
    c.receive(IncomingMessage::Notification { method: "notifications/tools/list_changed".to_string() });
    assert!(c.cached_tools().is_none());
}

#[test]
fn handshake_errors() {
    let mut c = ServerConnection::new(definition("x", false, &[]));
    c.start(&vec![]).unwrap();
    let (r, t) = c.finish_initialize(InitializeResult { protocol_version: Some("2024-11-05".to_string()), server_info: None });
    assert_eq!(r, Err(PluginError::ProtocolViolation));
    assert_eq!(t.action, LifecycleAction::ScheduleRestart { delay_ms: 250 });
    assert_eq!(c.status(), McpServerStatus::Restarting);
    c.apply(LifecycleEvent::BackoffElapsed);
    let (r, _) = c.finish_initialize(InitializeResult {
        protocol_version: Some("1999-01-01".to_string()),
        server_info: Some(ServerInfo { name: "x".to_string(), version: "0".to_string() }),
    });
    assert_eq!(r, Err(PluginError::IncompatibleVersion));
}

#[test]
fn failing_handshake_settles_in_error() {
    let mut c = ServerConnection::new(definition("failing-server", false, &[]));
    c.start(&vec![]).unwrap();
    let mut delays = vec![];
    for _ in 0..5 {
        assert_eq!(c.status(), McpServerStatus::Starting);
        let t = c.apply(LifecycleEvent::HandshakeFailed);
        assert_ne!(c.status(), McpServerStatus::Running);
        if let LifecycleAction::ScheduleRestart { delay_ms } = t.action {
            delays.push(delay_ms);
            c.apply(LifecycleEvent::BackoffElapsed);
        }
    }
    assert_eq!(delays, vec![250, 500, 1000, 2000]);
    assert_eq!(c.status(), McpServerStatus::Error);
    for e in [LifecycleEvent::BackoffElapsed, LifecycleEvent::HandshakeSucceeded, LifecycleEvent::ProcessExited, LifecycleEvent::StopRequested] {
        c.apply(e);
        assert_eq!(c.status(), McpServerStatus::Error);
    }
    let t = c.start(&vec![]).unwrap();
    assert_eq!(t.action, LifecycleAction::Spawn);
    assert_eq!(c.status(), McpServerStatus::Starting);
    assert_eq!(c.supervisor.failures, 0);
}

#[test]
fn auto_start_scenario() {
    let mut registry = McpServerRegistry::new();
    registry.register_server("A".to_string(), ServerConnection::new(definition("A", true, &[]))).unwrap();
    registry.register_server("B".to_string(), ServerConnection::new(definition("B", false, &[]))).unwrap();
    let outcomes = registry.start_auto_start_servers(&vec![]);
    assert_eq!(outcomes.len(), 1);
    assert_eq!(outcomes[0].id, "A");
    assert_eq!(outcomes[0].result.as_ref().unwrap().action, LifecycleAction::Spawn);
    let a = registry.get_server_mut(&"A".to_string()).unwrap();
    let init = a.begin_initialize(0, 1000);
    a.receive(IncomingMessage::Response { id: init.id });
    let (ok, _) = a.finish_initialize(good_handshake());
    assert!(ok.is_ok());
    assert_eq!(registry.get_server(&"A".to_string()).unwrap().status(), McpServerStatus::Running);
    assert_eq!(registry.get_server(&"B".to_string()).unwrap().status(), McpServerStatus::Stopped);
}

#[test]
fn missing_environment_and_spawn_failure() {
    let mut c = ServerConnection::new(definition("github", true, &["GITHUB_TOKEN"]));
    assert!(matches!(c.start(&vec!["HOME".to_string()]), Err(PluginError::MissingEnvironment)));
    assert_eq!(c.status(), McpServerStatus::Stopped);
    c.start(&vec!["GITHUB_TOKEN".to_string()]).unwrap();
    assert_eq!(c.status(), McpServerStatus::Starting);
    let (e, _) = c.spawn_failed();
    assert_eq!(e, PluginError::SpawnFailure);
    assert_eq!(c.status(), McpServerStatus::Stopped);

    let mut registry = McpServerRegistry::new();
    registry.register_server("github".to_string(), ServerConnection::new(definition("github", true, &["GITHUB_TOKEN"]))).unwrap();
    let outcomes = registry.start_auto_start_servers(&vec![]);
    assert!(matches!(outcomes[0].result, Err(PluginError::MissingEnvironment)));
}

#[test]
fn resource_read_picks_readable_content() {
    let empty = McpResourceContent { uri: "file:///a".to_string(), mime_type: None, text: None, blob: None };
    let text = McpResourceContent { uri: "file:///b".to_string(), mime_type: Some("text/plain".to_string()), text: Some("Test content".to_string()), blob: None };
    assert_eq!(finish_resource_read(vec![empty.clone()]).unwrap_err(), PluginError::ResourceNotFound);
    let got = finish_resource_read(vec![empty, text]).unwrap();
    assert_eq!(got.text.as_deref(), Some("Test content"));

    let mut c = running("fs");
    let req = c.resource_request("resources/read".to_string(), "file:///test.txt", 0, 1000).unwrap();
    assert_eq!(req.params.as_deref(), Some("{\"uri\":\"file:///test.txt\"}"));
}

#[test]
fn backoff_doubles_up_to_cap() {
    let got: Vec<u64> = (0..9).map(backoff_delay_ms).collect();
    assert_eq!(got, vec![250, 250, 500, 1000, 2000, 4000, 5000, 5000, 5000]);
}

#[test]
fn stop_all_reports_the_failed_termination() {
    let mut registry = McpServerRegistry::new();
    for id in ["a", "b", "c"] {
        registry.register_server(id.to_string(), running(id)).unwrap();
    }
    let orders = registry.stop_all_servers();
    let ids: Vec<String> = orders.iter().map(|o| o.id.clone()).collect();
    assert_eq!(ids.len(), 3);
    let terminated = vec![Ok(()), Err("kill failed".to_string()), Ok(())];
    let failures = collect_stop_failures(&ids, &terminated);
    assert_eq!(failures, vec![("b".to_string(), "kill failed".to_string())]);
    for id in ["a", "b", "c"] {
        assert_eq!(registry.get_server(&id.to_string()).unwrap().status(), McpServerStatus::Stopped);
    }
}

#[test]
fn cancelled_call_is_released() {
    let mut c = running("fs");
    let a = c.call("tools/list".to_string(), None, 0, 1000).unwrap();
    let b = c.call("tools/list".to_string(), None, 0, 1000).unwrap();
    assert!(c.cancel_call(a.id));
    assert!(!c.cancel_call(a.id));
    assert!(c.receive(IncomingMessage::Response { id: a.id }).is_none());
    assert_eq!(c.receive(IncomingMessage::Response { id: b.id }).unwrap().id, b.id);
    assert_eq!(c.status(), McpServerStatus::Running);
}

#[test]
fn unresolved_tool_needs_confirmation() {
    let mut c = running("fs");
    assert!(c.cached_tools().is_none());
    let refused = c.call_tool("read_file".to_string(), "{}".to_string(), false, 0, 1000);
    assert!(matches!(refused, Err(PluginError::ConfirmationRequired)));
    assert!(c.call_tool("read_file".to_string(), "{}".to_string(), true, 0, 1000).is_ok());
}

#[test]
fn smoke_test_picks_first_tool() {

    let tools = vec![tool("read_file", SecurityLevel::Safe), tool("write_file", SecurityLevel::Workspace)];
    assert_eq!(smoke_test_target(&tools).map(|s| s.as_str()), Some("read_file"));
    assert_eq!(smoke_test_target(&vec![]), None);
    assert_eq!(SecurityLevel::from_name(&"workspace".to_string()), SecurityLevel::Workspace);
    assert_eq!(SecurityLevel::from_name(&"network".to_string()), SecurityLevel::Network);
    assert_eq!(SecurityLevel::from_name(&"".to_string()), SecurityLevel::Safe);
}

#[test]
fn unregister_ends_calls_of_a_stopped_connection() {
    let mut c = ServerConnection::new(definition("idle", false, &[]));
    let init = c.begin_initialize(0, 1000);
    assert_eq!(c.status(), McpServerStatus::Stopped);
    let mut registry = McpServerRegistry::new();
    registry.register_server("idle".to_string(), c).unwrap();
    let t = registry.unregister_server(&"idle".to_string()).unwrap();
    assert_eq!(t.action, LifecycleAction::Nothing);
    assert_eq!(t.cancelled, vec![init.id]);
}

#[test]
fn accepted_handshake_is_recorded() {
    let c = running("fs");
    assert_eq!(c.client.protocol_version.as_deref(), Some("2024-11-05"));
    assert_eq!(c.client.server_info.as_ref().unwrap().name, "mock");
    assert_eq!(c.health.status, McpServerStatus::Running);
}
