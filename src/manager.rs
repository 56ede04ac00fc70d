//! The plugin manager: configuration, assistant plugins, sidebar panels and
//! tool servers under one owner.
use vstd::prelude::*;

use crate::ai_assistant::AiPluginInfo;
use crate::error::PluginError;
use crate::connection::texts;
use crate::mcp_server::{all_stopped, auto_started, BatchOutcome, McpServerInfo, McpServerRegistry};
use crate::registry::{keys_of, IdMap};
use crate::sidebar::{SidebarPanelInfo, SidebarPanelRegistry};

verus! {

/// Configuration of the plugin system.
#[derive(Debug, Clone)]
pub struct PluginConfig {
    pub enabled_plugins: Vec<String>,
    pub plugin_directories: Vec<String>,
    pub auto_load_plugins: bool,
    pub max_plugins: usize,
    pub plugin_timeout_seconds: u64,
}

impl Default for PluginConfig {
    /// Nothing enabled, the local and per-user plugin directories, loading
    /// on, at most 50 plugins, 30 s per plugin call.
    fn default() -> (r: Self)
        ensures
            r.enabled_plugins@.len() == 0,
            texts(r.plugin_directories@) == seq!["plugins"@, "~/.catalyst/plugins"@],
            r.auto_load_plugins,
            r.max_plugins == 50,
            r.plugin_timeout_seconds == 30,
    {
        let mut dirs: Vec<String> = Vec::new();
        dirs.push(String::from_str("plugins"));
        dirs.push(String::from_str("~/.catalyst/plugins"));
        assert(texts(dirs@) =~= seq!["plugins"@, "~/.catalyst/plugins"@]);
        PluginConfig {
            enabled_plugins: Vec::new(),
            plugin_directories: dirs,
            auto_load_plugins: true,
            max_plugins: 50,
            plugin_timeout_seconds: 30,
        }
    }
}

/// One line of the plugin listing.
#[derive(Debug, Clone)]
pub struct PluginInfo {
    pub id: String,
    pub name: String,
    pub version: String,
    pub description: String,
    pub plugin_type: PluginType,
    pub enabled: bool,
    pub loaded: bool,
}

/// Kind of plugin.
#[derive(Debug, Clone, Copy, PartialEq, Eq, Structural)]
pub enum PluginType {
    AiAssistant,
    SidebarPanel,
    McpServer,
    Extension,
}

/// An assistant plugin with the description it was registered with.
#[derive(Debug)]
pub struct RegisteredAssistant<A> {
    pub info: AiPluginInfo,
    pub plugin: A,
}

/// The listing line of an assistant plugin.
pub open spec fn assistant_line(l: PluginInfo, id: Seq<char>, info: AiPluginInfo) -> bool {
    &&& l.id@ == id
    &&& l.name == info.name
    &&& l.version == info.version
    &&& l.description == info.description
    &&& l.plugin_type == PluginType::AiAssistant
    &&& l.enabled
    &&& l.loaded
}

/// The listing line of a sidebar panel; panels carry no version of their own.
pub open spec fn panel_line(l: PluginInfo, info: SidebarPanelInfo) -> bool {
    &&& l.id == info.id
    &&& l.name == info.name
    &&& l.version@ == "1.0.0"@
    &&& l.description == info.description
    &&& l.plugin_type == PluginType::SidebarPanel
    &&& l.enabled
    &&& l.loaded
}

/// The listing line of a tool server.
pub open spec fn server_line(l: PluginInfo, info: McpServerInfo) -> bool {
    &&& l.id == info.id
    &&& l.name == info.name
    &&& l.version == info.version
    &&& l.description == info.description
    &&& l.plugin_type == PluginType::McpServer
    &&& l.enabled
    &&& l.loaded
}

/// `s` without any occurrence of `x`.
pub open spec fn without(s: Seq<Seq<char>>, x: Seq<char>) -> Seq<Seq<char>>
    decreases s.len(),
{
    if s.len() == 0 {
        s
    } else if s.last() == x {
        without(s.drop_last(), x)
    } else {
        without(s.drop_last(), x).push(s.last())
    }
}

/// Owner of every plugin of the editor.
pub struct PluginManager<A, P> {
    ai_assistants: IdMap<RegisteredAssistant<A>>,
    sidebar_registry: SidebarPanelRegistry<P>,
    mcp_registry: McpServerRegistry,
    config: PluginConfig,
}

impl<A, P> PluginManager<A, P> {
    /// The assistant plugins, as `(id, plugin)` pairs in registration order.
    pub closed spec fn assistants(&self) -> Seq<(Seq<char>, RegisteredAssistant<A>)> {
        self.ai_assistants@
    }

    /// The sidebar panel registry.
    pub closed spec fn sidebar(&self) -> SidebarPanelRegistry<P> {
        self.sidebar_registry
    }

    /// The tool server registry.
    pub closed spec fn servers(&self) -> McpServerRegistry {
        self.mcp_registry
    }

    /// The configuration.
    pub closed spec fn config(&self) -> PluginConfig {
        self.config
    }

    /// Every registry is well formed.
    pub closed spec fn wf(&self) -> bool {
        &&& self.ai_assistants.wf()
        &&& self.sidebar_registry.wf()
        &&& self.mcp_registry.wf()
    }

    /// A manager with empty registries and the given configuration.
    pub fn new(config: PluginConfig) -> (r: Self)
        ensures
            r.wf(),
            r.assistants().len() == 0,
            r.sidebar().view().len() == 0,
            r.servers().view().len() == 0,
            r.config() == config,
    {
        PluginManager {
            ai_assistants: IdMap::new(),
            sidebar_registry: SidebarPanelRegistry::new(),
            mcp_registry: McpServerRegistry::new(),
            config,
        }
    }

    /// Loads plugins from one directory. Discovery of plugins on disk is not
    /// part of this system: definitions come fully resolved from
    /// configuration, so this succeeds and changes nothing.
    pub fn load_plugins_from_directory(&mut self, directory: &String) -> (r: Result<
        (),
        PluginError,
    >)
        ensures
            r is Ok,
            *final(self) == *old(self),
    {
        Ok(())
    }

    /// Loads plugins from every configured directory, in order.
    pub fn load_all_plugins(&mut self) -> (r: Result<(), PluginError>)
        ensures
            r is Ok,
            *final(self) == *old(self),
    {
        let mut i: usize = 0;
        while i < self.config.plugin_directories.len()
            invariant
                *self == *old(self),
            decreases self.config.plugin_directories@.len() - i,
        {
            let dir = self.config.plugin_directories[i].clone();
            let loaded = self.load_plugins_from_directory(&dir);
            if loaded.is_err() {
                return loaded;
            }
            i = i + 1;
        }
        Ok(())
    }

    /// Loads plugins when the configuration asks for it, then starts the
    /// auto-start tool servers; the outcomes are those of
    /// [`McpServerRegistry::start_auto_start_servers`].
    pub fn initialize(&mut self, present_env: &Vec<String>) -> (r: Result<
        Vec<BatchOutcome>,
        PluginError,
    >)
        requires
            old(self).wf(),
        ensures
            final(self).wf(),
            r matches Ok(v) && auto_started(
                old(self).servers().view(),
                final(self).servers().view(),
                present_env@,
                v@,
            ),
            final(self).assistants() == old(self).assistants(),
            final(self).sidebar() == old(self).sidebar(),
            final(self).config() == old(self).config(),
    {
        if self.config.auto_load_plugins {
            let loaded = self.load_all_plugins();
            if let Err(e) = loaded {
                return Err(e);
            }
        }
        Ok(self.mcp_registry.start_auto_start_servers(present_env))
    }

    /// Registers an assistant plugin under `id`; an id already registered
    /// fails with `DuplicateId` and changes nothing.
    pub fn register_ai_assistant(&mut self, id: String, info: AiPluginInfo, plugin: A) -> (r:
        Result<(), PluginError>)
        requires
            old(self).wf(),
        ensures
            final(self).wf(),
            keys_of(old(self).assistants()).contains(id@) ==> r == Err::<(), PluginError>(
                PluginError::DuplicateId,
            ) && final(self).assistants() == old(self).assistants(),
            !keys_of(old(self).assistants()).contains(id@) ==> r is Ok && final(self).assistants()
                == old(self).assistants().push((id@, RegisteredAssistant { info, plugin })),
            final(self).sidebar() == old(self).sidebar(),
            final(self).servers() == old(self).servers(),
            final(self).config() == old(self).config(),
    {
        self.ai_assistants.insert_new(id, RegisteredAssistant { info, plugin })
    }

    /// The assistant plugin registered under `id`.
    pub fn get_ai_assistant(&self, id: &String) -> (r: Option<&A>)
        ensures
            r is None <==> !keys_of(self.assistants()).contains(id@),
            r matches Some(p) ==> exists|i: int|
                0 <= i < self.assistants().len() && self.assistants()[i].0 == id@
                    && self.assistants()[i].1.plugin == *p,
    {
        let r = self.ai_assistants.get(id);
        proof {
            if r is Some {
                let i = choose|i: int|
                    0 <= i < self.ai_assistants@.len() && self.ai_assistants@[i].0 == id@
                        && self.ai_assistants@[i].1 == *r->Some_0;
                assert(self.assistants()[i].0 == id@);
            }
        }
        match r {
            Some(e) => Some(&e.plugin),
            None => None,
        }
    }

    /// The ids of the assistant plugins, in registration order.
    pub fn get_ai_assistant_ids(&self) -> (r: Vec<String>)
        ensures
            texts(r@) == keys_of(self.assistants()),
            self.wf() ==> texts(r@).no_duplicates(),
    {
        let r = self.ai_assistants.ids();
        assert(texts(r@) == r@.map_values(|s: String| s@));
        r
    }

    /// The sidebar panel registry.
    pub fn get_sidebar_registry(&self) -> (r: &SidebarPanelRegistry<P>)
        ensures
            *r == self.sidebar(),
    {
        &self.sidebar_registry
    }

    /// The sidebar panel registry, for update in place.
    pub fn get_sidebar_registry_mut(&mut self) -> (r: &mut SidebarPanelRegistry<P>)
        ensures
            *r == old(self).sidebar(),
            final(self).sidebar() == *final(r),
            final(self).assistants() == old(self).assistants(),
            final(self).servers() == old(self).servers(),
            final(self).config() == old(self).config(),
    {
        &mut self.sidebar_registry
    }

    /// The tool server registry.
    pub fn get_mcp_registry(&self) -> (r: &McpServerRegistry)
        ensures
            *r == self.servers(),
    {
        &self.mcp_registry
    }

    /// The tool server registry, for update in place.
    pub fn get_mcp_registry_mut(&mut self) -> (r: &mut McpServerRegistry)
        ensures
            *r == old(self).servers(),
            final(self).servers() == *final(r),
            final(self).assistants() == old(self).assistants(),
            final(self).sidebar() == old(self).sidebar(),
            final(self).config() == old(self).config(),
    {
        &mut self.mcp_registry
    }

    /// One listing line per plugin: the assistant plugins, then the sidebar
    /// panels, then the tool servers, each in registration order. Every
    /// registered plugin is listed as enabled and loaded.
    pub fn get_plugin_info(&self) -> (r: Vec<PluginInfo>)
        ensures
            ({
                let a = self.assistants().len();
                let p = self.sidebar().view().len();
                let m = self.servers().view().len();
                &&& r@.len() == a + p + m
                &&& forall|k: int|
                    0 <= k < a ==> assistant_line(
                        #[trigger] r@[k],
                        self.assistants()[k].0,
                        self.assistants()[k].1.info,
                    )
                &&& forall|k: int|
                    0 <= k < p ==> panel_line(#[trigger] r@[a + k], self.sidebar().view()[k].1.info)
                &&& forall|k: int|
                    0 <= k < m ==> server_line(
                        #[trigger] r@[a + p + k],
                        self.servers().view()[k].1.info,
                    )
            }),
    {
        let mut plugins: Vec<PluginInfo> = Vec::new();
        let n = self.ai_assistants.len();
        let mut i: usize = 0;
        while i < n
            invariant
                n == self.ai_assistants@.len(),
                i <= n,
                plugins@.len() == i,
                forall|k: int|
                    0 <= k < i ==> assistant_line(
                        #[trigger] plugins@[k],
                        self.ai_assistants@[k].0,
                        self.ai_assistants@[k].1.info,
                    ),
            decreases n - i,
        {
            let e = self.ai_assistants.value_at(i);
            let info = e.info.copy();
            plugins.push(
                PluginInfo {
                    id: self.ai_assistants.key_at(i).clone(),
                    name: info.name,
                    version: info.version,
                    description: info.description,
                    plugin_type: PluginType::AiAssistant,
                    enabled: true,
                    loaded: true,
                },
            );
            i = i + 1;
        }
        let panels = self.sidebar_registry.get_all_panel_info();
        let mut j: usize = 0;
        while j < panels.len()
            invariant
                n == self.ai_assistants@.len(),
                panels@.len() == self.sidebar_registry.view().len(),
                forall|k: int| 0 <= k < panels@.len() ==> *panels@[k] == self.sidebar_registry.view()[k].1.info,
                j <= panels@.len(),
                plugins@.len() == n + j,
                forall|k: int|
                    0 <= k < n ==> assistant_line(
                        #[trigger] plugins@[k],
                        self.ai_assistants@[k].0,
                        self.ai_assistants@[k].1.info,
                    ),
                forall|k: int| 0 <= k < j ==> panel_line(#[trigger] plugins@[n + k], *panels@[k]),
            decreases panels@.len() - j,
        {
            let p = panels[j];
            plugins.push(
                PluginInfo {
                    id: p.id.clone(),
                    name: p.name.clone(),
                    version: String::from_str("1.0.0"),
                    description: p.description.clone(),
                    plugin_type: PluginType::SidebarPanel,
                    enabled: true,
                    loaded: true,
                },
            );
            assert(plugins@[n + j as int] == plugins@.last());
            j = j + 1;
        }
        let servers = self.mcp_registry.get_all_server_info();
        let np = plugins.len();
        let mut s: usize = 0;
        while s < servers.len()
            invariant
                n == self.ai_assistants@.len(),
                panels@.len() == self.sidebar_registry.view().len(),
                forall|k: int| 0 <= k < panels@.len() ==> *panels@[k] == self.sidebar_registry.view()[k].1.info,
                np == n + panels@.len(),
                servers@.len() == self.mcp_registry.view().len(),
                forall|k: int| 0 <= k < servers@.len() ==> *servers@[k] == self.mcp_registry.view()[k].1.info,
                s <= servers@.len(),
                plugins@.len() == np + s,
                forall|k: int|
                    0 <= k < n ==> assistant_line(
                        #[trigger] plugins@[k],
                        self.ai_assistants@[k].0,
                        self.ai_assistants@[k].1.info,
                    ),
                forall|k: int|
                    0 <= k < panels@.len() ==> panel_line(#[trigger] plugins@[n + k], *panels@[k]),
                forall|k: int| 0 <= k < s ==> server_line(#[trigger] plugins@[np + k], *servers@[k]),
            decreases servers@.len() - s,
        {
            let m = servers[s];
            plugins.push(
                PluginInfo {
                    id: m.id.clone(),
                    name: m.name.clone(),
                    version: m.version.clone(),
                    description: m.description.clone(),
                    plugin_type: PluginType::McpServer,
                    enabled: true,
                    loaded: true,
                },
            );
            assert(plugins@[np + s as int] == plugins@.last());
            s = s + 1;
        }
        plugins
    }

    /// Marks a plugin enabled in the configuration; an id already enabled
    /// is not added twice.
    pub fn enable_plugin(&mut self, plugin_id: &String) -> (r: Result<(), PluginError>)
        ensures
            r is Ok,
            texts(old(self).config().enabled_plugins@).contains(plugin_id@) ==> final(self).config()
                == old(self).config(),
            !texts(old(self).config().enabled_plugins@).contains(plugin_id@) ==> texts(
                final(self).config().enabled_plugins@,
            ) == texts(old(self).config().enabled_plugins@).push(plugin_id@),
            final(self).config().plugin_directories == old(self).config().plugin_directories,
            final(self).config().auto_load_plugins == old(self).config().auto_load_plugins,
            final(self).config().max_plugins == old(self).config().max_plugins,
            final(self).config().plugin_timeout_seconds == old(self).config().plugin_timeout_seconds,
            final(self).assistants() == old(self).assistants(),
            final(self).sidebar() == old(self).sidebar(),
            final(self).servers() == old(self).servers(),
    {
        let mut i: usize = 0;
        let n = self.config.enabled_plugins.len();
        while i < n
            invariant
                n == self.config.enabled_plugins@.len(),
                i <= n,
                forall|k: int| 0 <= k < i ==> texts(self.config.enabled_plugins@)[k] != plugin_id@,
            decreases n - i,
        {
            if self.config.enabled_plugins[i] == *plugin_id {
                assert(texts(self.config.enabled_plugins@)[i as int] == plugin_id@);
                return Ok(());
            }
            i = i + 1;
        }
        let ghost before = self.config.enabled_plugins@;
        self.config.enabled_plugins.push(plugin_id.clone());
        assert(texts(self.config.enabled_plugins@) =~= texts(before).push(plugin_id@));
        Ok(())
    }

    /// Removes every occurrence of a plugin from the enabled list.
    pub fn disable_plugin(&mut self, plugin_id: &String) -> (r: Result<(), PluginError>)
        ensures
            r is Ok,
            texts(final(self).config().enabled_plugins@) == without(
                texts(old(self).config().enabled_plugins@),
                plugin_id@,
            ),
            final(self).assistants() == old(self).assistants(),
            final(self).sidebar() == old(self).sidebar(),
            final(self).servers() == old(self).servers(),
    {
        let ghost all = texts(self.config.enabled_plugins@);
        let mut kept: Vec<String> = Vec::new();
        let n = self.config.enabled_plugins.len();
        let mut i: usize = 0;
        while i < n
            invariant
                n == self.config.enabled_plugins@.len(),
                all == texts(self.config.enabled_plugins@),
                i <= n,
                texts(kept@) == without(all.subrange(0, i as int), plugin_id@),
            decreases n - i,
        {
            proof {
                assert(all.subrange(0, i as int + 1).drop_last() =~= all.subrange(0, i as int));
            }
            if self.config.enabled_plugins[i] != *plugin_id {
                let ghost before = kept@;
                kept.push(self.config.enabled_plugins[i].clone());
                assert(texts(kept@) =~= texts(before).push(all[i as int]));
            }
            i = i + 1;
        }
        proof {
            assert(all.subrange(0, i as int) =~= all);
        }
        self.config.enabled_plugins = kept;
        Ok(())
    }

    /// Stops every active tool server (see
    /// [`McpServerRegistry::stop_all_servers`]) and drops the assistant
    /// plugins.
    pub fn shutdown(&mut self) -> (r: Vec<BatchOutcome>)
        requires
            old(self).wf(),
        ensures
            final(self).wf(),
            all_stopped(old(self).servers().view(), final(self).servers().view(), r@),
            final(self).assistants().len() == 0,
            final(self).sidebar() == old(self).sidebar(),
            final(self).config() == old(self).config(),
    {
        let r = self.mcp_registry.stop_all_servers();
        self.ai_assistants = IdMap::new();
        r
    }

    /// The configuration.
    pub fn get_config(&self) -> (r: &PluginConfig)
        ensures
            *r == self.config(),
    {
        &self.config
    }

    /// Replaces the configuration.
    pub fn update_config(&mut self, config: PluginConfig)
        ensures
            final(self).config() == config,
            final(self).assistants() == old(self).assistants(),
            final(self).sidebar() == old(self).sidebar(),
            final(self).servers() == old(self).servers(),
    {
        self.config = config;
    }
}

} // verus!
