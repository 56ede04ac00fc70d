use catalyst_plugin_api::connection::ServerConnection;
use catalyst_plugin_api::mcp_server::{McpServerCapabilities, McpServerInfo, McpServerRegistry};

fn server(name: &str, required_env: &[&str], description: &str) -> McpServerInfo {
    McpServerInfo {
        id: name.to_string(),
        name: name.to_string(),
        description: description.to_string(),
        version: "1.0.0".to_string(),
        command: vec![format!("mcp-server-{}", name)],
        args: vec![],
        env: vec![],
        required_env: required_env.iter().map(|s| s.to_string()).collect(),
        working_directory: None,
        auto_start: false,
        capabilities: McpServerCapabilities { tools: true, resources: true, prompts: false, logging: true, experimental: vec![] },
    }
}

fn get_all_mcp_servers() -> Vec<McpServerInfo> {
    vec![
        server("filesystem", &[], "Secure file operations with permission management"),
        server("git", &[], "Local Git repository operations"),
        server("github", &["GITHUB_TOKEN"], "GitHub API integration for repos, issues, PRs"),
        server("docker", &[], "Container and image management"),
        server("sentry", &["SENTRY_DSN"], "Production error monitoring and debugging"),
        server("socket", &["SOCKET_API_KEY"], "Security analysis for dependencies"),
        server("semgrep", &[], "Static code analysis for vulnerabilities"),
        server("jam", &["JAM_API_KEY"], "Debug recordings with video and logs"),
        server("puppeteer", &[], "Headless browser automation for testing"),
        server("playwright", &[], "Microsoft's web automation framework"),
        server("postgresql", &["DATABASE_URL"], "Read-only database queries and schema inspection"),
        server("mindsdb", &["MINDSDB_API_KEY"], "Unified interface to vector databases"),
        server("google-drive", &["GOOGLE_CLIENT_ID", "GOOGLE_CLIENT_SECRET"], "File search and management"),
        server("zapier", &["ZAPIER_API_KEY"], "Connect to 8,000+ applications"),
        server("pipedream", &["PIPEDREAM_API_KEY"], "Access to thousands of APIs"),
    ]
}

#[test]
fn test_all_mcp_servers_defined() {
    let servers = get_all_mcp_servers();
    assert!(servers.len() >= 15, "Should have at least 15 MCP servers, found {}", servers.len());

    let mut registry = McpServerRegistry::new();
    for s in servers.iter() {
        registry.register_server(s.id.clone(), ServerConnection::new(s.clone())).unwrap();
    }
    let ids = registry.get_server_ids();
    let server_names: Vec<&str> = ids.iter().map(|s| s.as_str()).collect();

    let required_servers = vec![
        "filesystem", "git", "github", "docker", "sentry", "socket", "semgrep", "jam",
        "puppeteer", "playwright", "postgresql", "mindsdb", "google-drive", "zapier", "pipedream",
    ];
    for required_server in &required_servers {
        assert!(server_names.contains(required_server), "Missing required MCP server: {}", required_server);
    }
    println!("✓ All {} required MCP servers are defined", servers.len());
}

#[test]
fn test_mcp_server_configuration_validity() {
    let servers = get_all_mcp_servers();
    for server in &servers {
        assert!(!server.name.is_empty(), "Server name cannot be empty");
        assert!(!server.command.is_empty(), "Server '{}' must have a command", server.name);
        assert!(!server.description.is_empty(), "Server '{}' must have a description", server.name);
        println!("✓ Server '{}': {}", server.name, server.description);
    }
}

#[test]
fn test_mcp_protocol_compliance() {
    let servers = get_all_mcp_servers();
    let required_methods = vec!["initialize", "tools/list", "tools/call", "resources/list"];
    println!("Required methods: {:?}", required_methods);
    println!("Servers to test: {}", servers.len());
    assert!(!servers.is_empty(), "Should have MCP servers defined");
}
