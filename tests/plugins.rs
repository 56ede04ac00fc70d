use catalyst_plugin_api::ai_assistant::AiPluginInfo;
use catalyst_plugin_api::error::PluginError;
use catalyst_plugin_api::manager::{PluginConfig, PluginManager, PluginType};
use catalyst_plugin_api::connection::ServerConnection;
use catalyst_plugin_api::mcp_server::{McpServerCapabilities, McpServerInfo};
use catalyst_plugin_api::plugin_api::{PluginRegistry, SecurityLevel};
use catalyst_plugin_api::sidebar::{SidebarPanelInfo, SidebarPanelRegistry, SidebarPosition};

fn panel_info(id: &str) -> SidebarPanelInfo {
    SidebarPanelInfo {
        id: id.to_string(),
        name: format!("{} panel", id),
        description: "a panel".to_string(),
        icon: None,
        position: SidebarPosition::Left,
        default_visible: true,
        resizable: true,
        minimum_width: Some(100),
        maximum_width: None,
    }
}

fn assistant_info(name: &str) -> AiPluginInfo {
    AiPluginInfo {
        name: name.to_string(),
        version: "2.0".to_string(),
        description: "assistant".to_string(),
        provider: "acme".to_string(),
        supports_streaming: true,
        supports_tools: false,
        supports_vision: false,
    }
}

#[test]
fn config_defaults() {
    let c = PluginConfig::default();
    assert!(c.enabled_plugins.is_empty());
    assert_eq!(c.plugin_directories, vec!["plugins".to_string(), "~/.catalyst/plugins".to_string()]);
    assert!(c.auto_load_plugins);
    assert_eq!(c.max_plugins, 50);
    assert_eq!(c.plugin_timeout_seconds, 30);
}

#[test]
fn panel_registry() {
    let mut r: SidebarPanelRegistry<u32> = SidebarPanelRegistry::new();
    r.register_panel("files".to_string(), panel_info("files"), 7).unwrap();
    assert_eq!(r.register_panel("files".to_string(), panel_info("files"), 8), Err(PluginError::DuplicateId));
    assert_eq!(r.get_panel(&"files".to_string()), Some(&7));
    *r.get_panel_mut(&"files".to_string()).unwrap() = 9;
    assert_eq!(r.get_panel(&"files".to_string()), Some(&9));
    assert_eq!(r.get_panel_ids(), vec!["files".to_string()]);
    assert_eq!(r.get_all_panel_info()[0].name, "files panel");
    assert_eq!(r.unregister_panel(&"other".to_string()), Err(PluginError::NotFound));
    assert_eq!(r.unregister_panel(&"files".to_string()), Ok(()));
    assert!(r.get_panel(&"files".to_string()).is_none());
}

#[test]
fn provider_registry_replaces_by_name() {
    let mut r: PluginRegistry<u32, u32, u32> = PluginRegistry::new();
    r.register_assistant("copilot".to_string(), 1);
    r.register_assistant("copilot".to_string(), 2);
    r.register_tool_provider("git".to_string(), 3);
    r.register_context_provider("lsp".to_string(), 4);
    assert_eq!(r.get_assistant(&"copilot".to_string()), Some(&2));
    assert_eq!(r.get_tool_provider(&"git".to_string()), Some(&3));
    assert_eq!(r.get_context_provider(&"lsp".to_string()), Some(&4));
    let info = r.list_providers();
    assert_eq!(info.assistants, vec!["copilot".to_string()]);
    assert_eq!(info.tool_providers, vec!["git".to_string()]);
}

#[test]
fn manager_listing_and_enablement() {
    let mut m: PluginManager<u32, u32> = PluginManager::new(PluginConfig::default());
    m.register_ai_assistant("copilot".to_string(), assistant_info("Copilot"), 1).unwrap();
    assert_eq!(m.register_ai_assistant("copilot".to_string(), assistant_info("Other"), 2), Err(PluginError::DuplicateId));
    m.get_sidebar_registry_mut().register_panel("files".to_string(), panel_info("files"), 5).unwrap();
    let def = McpServerInfo {
        id: "git".to_string(),
        name: "Git".to_string(),
        description: "Local Git repository operations".to_string(),
        version: "0.3".to_string(),
        command: vec!["mcp-server-git".to_string()],
        args: vec![],
        env: vec![],
        required_env: vec![],
        working_directory: None,
        auto_start: true,
        capabilities: McpServerCapabilities { tools: true, resources: false, prompts: false, logging: false, experimental: vec![] },
    };
    m.get_mcp_registry_mut().register_server("git".to_string(), ServerConnection::new(def)).unwrap();
    let list = m.get_plugin_info();
    assert_eq!(list.len(), 3);
    assert_eq!(list[0].plugin_type, PluginType::AiAssistant);
    assert_eq!(list[0].name, "Copilot");
    assert_eq!(list[1].plugin_type, PluginType::SidebarPanel);
    assert_eq!(list[1].version, "1.0.0");
    assert_eq!(list[2].plugin_type, PluginType::McpServer);
    assert_eq!(list[2].id, "git");

    m.enable_plugin(&"git".to_string()).unwrap();
    m.enable_plugin(&"git".to_string()).unwrap();
    m.enable_plugin(&"files".to_string()).unwrap();
    assert_eq!(m.get_config().enabled_plugins, vec!["git".to_string(), "files".to_string()]);
    m.disable_plugin(&"git".to_string()).unwrap();
    assert_eq!(m.get_config().enabled_plugins, vec!["files".to_string()]);

    let started = m.initialize(&vec![]).unwrap();
    assert_eq!(started.len(), 1);
    let stopped = m.shutdown();
    assert_eq!(stopped.len(), 1);
    assert!(m.get_ai_assistant(&"copilot".to_string()).is_none());
    assert!(m.get_ai_assistant_ids().is_empty());
}

#[test]
fn security_levels_are_ordered() {
    assert_eq!(SecurityLevel::Safe.rank(), 0);
    assert!(SecurityLevel::Safe.rank() < SecurityLevel::Workspace.rank());
    assert!(SecurityLevel::Workspace.rank() < SecurityLevel::System.rank());
    assert!(SecurityLevel::System.rank() < SecurityLevel::Network.rank());
    assert!(!SecurityLevel::Safe.requires_confirmation());
    assert!(SecurityLevel::Network.requires_confirmation());
}
