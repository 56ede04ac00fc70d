//! Extension points of the editor: editor context, assistant, tool and
//! context providers, and the registry that holds them by name.
//!
//! Paths are held as strings and times as milliseconds.
use vstd::prelude::*;

use crate::connection::texts;
use crate::registry::{keys_of, IdMap};

verus! {

/// Context information about the current editor state.
#[derive(Debug, Clone)]
pub struct EditorContext {
    pub current_file: Option<String>,
    pub selection: Option<TextRange>,
    pub cursor_position: Position,
    pub project_root: String,
    pub open_files: Vec<String>,
    pub git_status: Option<GitStatus>,
    pub diagnostics: Vec<Diagnostic>,
    pub language_servers: Vec<String>,
}

/// Text range in the editor.
#[derive(Debug, Clone, Copy, PartialEq, Eq, Structural)]
pub struct TextRange {
    pub start: Position,
    pub end: Position,
}

/// Position in a text document.
#[derive(Debug, Clone, Copy, PartialEq, Eq, Structural)]
pub struct Position {
    pub line: u32,
    pub character: u32,
}

/// Git repository status information.
#[derive(Debug, Clone)]
pub struct GitStatus {
    pub branch: String,
    pub modified_files: Vec<String>,
    pub untracked_files: Vec<String>,
    pub staged_files: Vec<String>,
}

/// Diagnostic information from language servers.
#[derive(Debug, Clone)]
pub struct Diagnostic {
    pub range: TextRange,
    pub severity: DiagnosticSeverity,
    pub message: String,
    pub source: Option<String>,
}

/// Diagnostic severity levels.
#[derive(Debug, Clone, Copy, PartialEq, Eq, Structural)]
pub enum DiagnosticSeverity {
    Error,
    Warning,
    Information,
    Hint,
}

/// Metadata about an assistant response.
#[derive(Debug, Clone)]
pub struct ResponseMetadata {
    pub model: String,
    pub tokens_used: Option<u32>,
    pub response_time_ms: u64,
    pub streamed: bool,
}

/// Types of actions that an assistant can suggest.
#[derive(Debug, Clone, Copy, PartialEq, Eq, Structural)]
pub enum ActionType {
    ApplyEdit,
    OpenFile,
    RunCommand,
    CreateFile,
    Explain,
}

/// A capability of an assistant provider.
#[derive(Debug, Clone)]
pub struct AssistantCapability {
    pub name: String,
    pub description: String,
    pub available: bool,
    pub parameters: Vec<CapabilityParameter>,
}

/// A parameter of a capability.
#[derive(Debug, Clone)]
pub struct CapabilityParameter {
    pub name: String,
    pub param_type: String,
    pub required: bool,
    pub description: String,
}

/// What invoking a tool may touch, from least to most sensitive.
#[derive(Debug, Clone, Copy, PartialEq, Eq, Structural)]
pub enum SecurityLevel {
    /// Reads only; changes nothing.
    Safe,
    /// Modifies files in the workspace.
    Workspace,
    /// Modifies system state.
    System,
    /// Reaches the network.
    Network,
}

/// Position of a level in the order `Safe < Workspace < System < Network`.
pub open spec fn level_rank(l: SecurityLevel) -> nat {
    match l {
        SecurityLevel::Safe => 0,
        SecurityLevel::Workspace => 1,
        SecurityLevel::System => 2,
        SecurityLevel::Network => 3,
    }
}

impl SecurityLevel {
    /// Position of the level in the order `Safe < Workspace < System < Network`.
    pub fn rank(&self) -> (r: u8)
        ensures
            r == level_rank(*self),
    {
        match self {
            SecurityLevel::Safe => 0,
            SecurityLevel::Workspace => 1,
            SecurityLevel::System => 2,
            SecurityLevel::Network => 3,
        }
    }

    /// Whether invoking a tool of this level needs explicit confirmation:
    /// every level above `Safe` does.
    pub fn requires_confirmation(&self) -> (r: bool)
        ensures
            r == (level_rank(*self) > 0),
    {
        self.rank() > 0
    }
}

/// The level a tool descriptor names: `"workspace"`, `"system"` or
/// `"network"`; any other name, or none, is `Safe`.
pub open spec fn level_named(name: Seq<char>) -> SecurityLevel {
    if name == "workspace"@ {
        SecurityLevel::Workspace
    } else if name == "system"@ {
        SecurityLevel::System
    } else if name == "network"@ {
        SecurityLevel::Network
    } else {
        SecurityLevel::Safe
    }
}

impl SecurityLevel {
    /// The level a tool descriptor names (see [`level_named`]).
    pub fn from_name(name: &String) -> (r: SecurityLevel)
        ensures
            r == level_named(name@),
    {
        if *name == String::from_str("workspace") {
            SecurityLevel::Workspace
        } else if *name == String::from_str("system") {
            SecurityLevel::System
        } else if *name == String::from_str("network") {
            SecurityLevel::Network
        } else {
            SecurityLevel::Safe
        }
    }
}

/// Names of the registered providers, by kind.
#[derive(Debug, Clone)]
pub struct PluginInfo {
    pub assistants: Vec<String>,
    pub tool_providers: Vec<String>,
    pub context_providers: Vec<String>,
}

/// Hook points in the editor where plugins can integrate.
#[derive(Debug, Clone)]
pub enum PluginHook {
    FileOpened(String),
    TextChanged(String, TextRange),
    FileSaving(String),
    ProjectOpened(String),
    DiagnosticsReceived(String, Vec<Diagnostic>),
}

/// Receiver of hook events; implemented by plugins.
pub trait PluginHookHandler {
    /// Handles one hook event; an error message when it could not.
    fn handle_hook(&self, hook: PluginHook, context: &EditorContext) -> Result<(), String>;
}

/// Providers of assistants, tools and context, each kind keyed by the
/// provider's name. Registering a name again replaces the earlier provider.
pub struct PluginRegistry<A, T, C> {
    assistant_providers: IdMap<A>,
    tool_providers: IdMap<T>,
    context_providers: IdMap<C>,
}

impl<A, T, C> PluginRegistry<A, T, C> {
    /// The assistant providers, as `(name, provider)` pairs.
    pub closed spec fn assistants(&self) -> Seq<(Seq<char>, A)> {
        self.assistant_providers@
    }

    /// The tool providers, as `(name, provider)` pairs.
    pub closed spec fn tools(&self) -> Seq<(Seq<char>, T)> {
        self.tool_providers@
    }

    /// The context providers, as `(name, provider)` pairs.
    pub closed spec fn contexts(&self) -> Seq<(Seq<char>, C)> {
        self.context_providers@
    }

    /// No name is registered twice within a kind.
    pub closed spec fn wf(&self) -> bool {
        &&& self.assistant_providers.wf()
        &&& self.tool_providers.wf()
        &&& self.context_providers.wf()
    }

    /// An empty registry.
    pub fn new() -> (r: Self)
        ensures
            r.wf(),
            r.assistants().len() == 0,
            r.tools().len() == 0,
            r.contexts().len() == 0,
    {
        PluginRegistry {
            assistant_providers: IdMap::new(),
            tool_providers: IdMap::new(),
            context_providers: IdMap::new(),
        }
    }

    /// Registers an assistant provider under its name, replacing one of the
    /// same name in place.
    pub fn register_assistant(&mut self, name: String, provider: A)
        requires
            old(self).wf(),
        ensures
            final(self).wf(),
            keys_of(final(self).assistants()).contains(name@),
            keys_of(old(self).assistants()).contains(name@) ==> exists|i: int|
                0 <= i < old(self).assistants().len() && old(self).assistants()[i].0 == name@
                    && final(self).assistants() == old(self).assistants().update(i, (name@, provider)),
            !keys_of(old(self).assistants()).contains(name@) ==> final(self).assistants() == old(
                self,
            ).assistants().push((name@, provider)),
            final(self).tools() == old(self).tools(),
            final(self).contexts() == old(self).contexts(),
    {
        self.assistant_providers.upsert(name, provider);
    }

    /// Registers a tool provider under its name, replacing one of the same
    /// name in place.
    pub fn register_tool_provider(&mut self, name: String, provider: T)
        requires
            old(self).wf(),
        ensures
            final(self).wf(),
            keys_of(final(self).tools()).contains(name@),
            keys_of(old(self).tools()).contains(name@) ==> exists|i: int|
                0 <= i < old(self).tools().len() && old(self).tools()[i].0 == name@ && final(
                self).tools() == old(self).tools().update(i, (name@, provider)),
            !keys_of(old(self).tools()).contains(name@) ==> final(self).tools() == old(
                self,
            ).tools().push((name@, provider)),
            final(self).assistants() == old(self).assistants(),
            final(self).contexts() == old(self).contexts(),
    {
        self.tool_providers.upsert(name, provider);
    }

    /// Registers a context provider under its name, replacing one of the
    /// same name in place.
    pub fn register_context_provider(&mut self, name: String, provider: C)
        requires
            old(self).wf(),
        ensures
            final(self).wf(),
            keys_of(final(self).contexts()).contains(name@),
            keys_of(old(self).contexts()).contains(name@) ==> exists|i: int|
                0 <= i < old(self).contexts().len() && old(self).contexts()[i].0 == name@
                    && final(self).contexts() == old(self).contexts().update(i, (name@, provider)),
            !keys_of(old(self).contexts()).contains(name@) ==> final(self).contexts() == old(
                self,
            ).contexts().push((name@, provider)),
            final(self).assistants() == old(self).assistants(),
            final(self).tools() == old(self).tools(),
    {
        self.context_providers.upsert(name, provider);
    }

    /// The assistant provider of that name.
    pub fn get_assistant(&self, name: &String) -> (r: Option<&A>)
        ensures
            r is None <==> !keys_of(self.assistants()).contains(name@),
            r matches Some(p) ==> exists|i: int|
                0 <= i < self.assistants().len() && self.assistants()[i].0 == name@ && self.assistants()[i].1 == *p,
    {
        let r = self.assistant_providers.get(name);
        proof {
            if r is Some {
                let i = choose|i: int|
                    0 <= i < self.assistant_providers@.len() && self.assistant_providers@[i].0 == name@ && self.assistant_providers@[i].1
                        == *r->Some_0;
                assert(self.assistants()[i].0 == name@);
            }
        }
        r
    }

    /// The tool provider of that name.
    pub fn get_tool_provider(&self, name: &String) -> (r: Option<&T>)
        ensures
            r is None <==> !keys_of(self.tools()).contains(name@),
            r matches Some(p) ==> exists|i: int|
                0 <= i < self.tools().len() && self.tools()[i].0 == name@ && self.tools()[i].1 == *p,
    {
        let r = self.tool_providers.get(name);
        proof {
            if r is Some {
                let i = choose|i: int|
                    0 <= i < self.tool_providers@.len() && self.tool_providers@[i].0 == name@ && self.tool_providers@[i].1
                        == *r->Some_0;
                assert(self.tools()[i].0 == name@);
            }
        }
        r
    }

    /// The context provider of that name.
    pub fn get_context_provider(&self, name: &String) -> (r: Option<&C>)
        ensures
            r is None <==> !keys_of(self.contexts()).contains(name@),
            r matches Some(p) ==> exists|i: int|
                0 <= i < self.contexts().len() && self.contexts()[i].0 == name@ && self.contexts()[i].1 == *p,
    {
        let r = self.context_providers.get(name);
        proof {
            if r is Some {
                let i = choose|i: int|
                    0 <= i < self.context_providers@.len() && self.context_providers@[i].0 == name@ && self.context_providers@[i].1
                        == *r->Some_0;
                assert(self.contexts()[i].0 == name@);
            }
        }
        r
    }

    /// The names of all registered providers, by kind, in registration order.
    pub fn list_providers(&self) -> (r: PluginInfo)
        ensures
            texts(r.assistants@) == keys_of(self.assistants()),
            texts(r.tool_providers@) == keys_of(self.tools()),
            texts(r.context_providers@) == keys_of(self.contexts()),
            self.wf() ==> texts(r.assistants@).no_duplicates() && texts(r.tool_providers@).no_duplicates()
                && texts(r.context_providers@).no_duplicates(),
    {
        let a = self.assistant_providers.ids();
        let t = self.tool_providers.ids();
        let c = self.context_providers.ids();
        assert(texts(a@) == a@.map_values(|s: String| s@));
        assert(texts(t@) == t@.map_values(|s: String| s@));
        assert(texts(c@) == c@.map_values(|s: String| s@));
        PluginInfo { assistants: a, tool_providers: t, context_providers: c }
    }
}

impl<A, T, C> Default for PluginRegistry<A, T, C> {
    /// An empty registry.
    fn default() -> (r: Self)
        ensures
            r.wf(),
            r.assistants().len() == 0,
            r.tools().len() == 0,
            r.contexts().len() == 0,
    {
        PluginRegistry::new()
    }
}

} // verus!
