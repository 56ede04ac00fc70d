//! Sidebar panels contributed by plugins, and their registry.
//!
//! The registry keeps each panel together with the description it was
//! registered with; the panel type itself is the caller's.
use vstd::prelude::*;

use crate::error::PluginError;
use crate::connection::texts;
use crate::registry::IdMap;

verus! {

/// Description of a sidebar panel.
#[derive(Debug, Clone)]
pub struct SidebarPanelInfo {
    pub id: String,
    pub name: String,
    pub description: String,
    pub icon: Option<String>,
    pub position: SidebarPosition,
    pub default_visible: bool,
    pub resizable: bool,
    pub minimum_width: Option<u32>,
    pub maximum_width: Option<u32>,
}

/// Where a sidebar panel is placed.
#[derive(Debug, Clone, Copy, PartialEq, Eq, Structural)]
pub enum SidebarPosition {
    Left,
    Right,
    Bottom,
}

/// A command sent to a panel.
#[derive(Debug, Clone)]
pub struct PanelCommand {
    pub command_id: String,
    /// Parameters as JSON text.
    pub parameters: String,
}

/// Result of executing a panel command.
#[derive(Debug, Clone)]
pub struct PanelCommandResult {
    pub success: bool,
    /// Result as JSON text.
    pub result: Option<String>,
    pub error: Option<String>,
}

/// A panel with the description it was registered with.
#[derive(Debug)]
pub struct RegisteredPanel<P> {
    pub info: SidebarPanelInfo,
    pub panel: P,
}

/// Registry of sidebar panels by id.
pub struct SidebarPanelRegistry<P> {
    panels: IdMap<RegisteredPanel<P>>,
}

impl<P> SidebarPanelRegistry<P> {
    /// The registered panels, as `(id, panel)` pairs in registration order.
    pub closed spec fn view(&self) -> Seq<(Seq<char>, RegisteredPanel<P>)> {
        self.panels@
    }

    /// No id is registered twice.
    pub closed spec fn wf(&self) -> bool {
        self.panels.wf()
    }

    /// The registered ids, in registration order.
    pub open spec fn ids(&self) -> Seq<Seq<char>> {
        crate::registry::keys_of(self.view())
    }

    proof fn lemma_ids(&self)
        ensures
            self.ids() == self.panels.keys(),
    {
        assert(self.ids() =~= self.panels.keys());
    }

    /// An empty registry.
    pub fn new() -> (r: Self)
        ensures
            r.wf(),
            r.view().len() == 0,
    {
        SidebarPanelRegistry { panels: IdMap::new() }
    }

    /// Registers a panel under `id`; an id already registered fails with
    /// `DuplicateId` and changes nothing.
    pub fn register_panel(&mut self, id: String, info: SidebarPanelInfo, panel: P) -> (r: Result<
        (),
        PluginError,
    >)
        requires
            old(self).wf(),
        ensures
            final(self).wf(),
            old(self).ids().contains(id@) ==> r == Err::<(), PluginError>(PluginError::DuplicateId)
                && final(self).view() == old(self).view(),
            !old(self).ids().contains(id@) ==> r is Ok && final(self).view() == old(
                self,
            ).view().push((id@, RegisteredPanel { info, panel })),
    {
        proof {
            self.lemma_ids();
        }
        self.panels.insert_new(id, RegisteredPanel { info, panel })
    }

    /// Removes the panel registered under `id`; an unknown id fails with
    /// `NotFound` and changes nothing.
    pub fn unregister_panel(&mut self, id: &String) -> (r: Result<(), PluginError>)
        requires
            old(self).wf(),
        ensures
            final(self).wf(),
            !old(self).ids().contains(id@) ==> r == Err::<(), PluginError>(PluginError::NotFound)
                && final(self).view() == old(self).view(),
            old(self).ids().contains(id@) ==> r is Ok && exists|i: int|
                0 <= i < old(self).view().len() && old(self).view()[i].0 == id@ && final(
                self).view() == old(self).view().remove(i),
    {
        proof {
            self.lemma_ids();
        }
        match self.panels.remove(id) {
            Ok(_) => Ok(()),
            Err(e) => Err(e),
        }
    }

    /// The panel registered under `id`.
    pub fn get_panel(&self, id: &String) -> (r: Option<&P>)
        ensures
            r is None <==> !self.ids().contains(id@),
            r matches Some(p) ==> exists|i: int|
                0 <= i < self.view().len() && self.view()[i].0 == id@ && self.view()[i].1.panel
                    == *p,
    {
        proof {
            self.lemma_ids();
        }
        match self.panels.get(id) {
            Some(e) => Some(&e.panel),
            None => None,
        }
    }

    /// The panel registered under `id`, for update in place; the ids stay
    /// as they are.
    pub fn get_panel_mut(&mut self, id: &String) -> (r: Option<&mut P>)
        requires
            old(self).wf(),
        ensures
            final(self).wf(),
            final(self).ids() == old(self).ids(),
            r is None <==> !old(self).ids().contains(id@),
    {
        proof {
            self.lemma_ids();
        }
        match self.panels.get_mut(id) {
            Some(e) => Some(&mut e.panel),
            None => None,
        }
    }

    /// The registered ids, in registration order.
    pub fn get_panel_ids(&self) -> (r: Vec<String>)
        ensures
            texts(r@) == self.ids(),
            self.wf() ==> texts(r@).no_duplicates(),
    {
        proof {
            self.lemma_ids();
        }
        let r = self.panels.ids();
        assert(texts(r@) == r@.map_values(|s: String| s@));
        r
    }

    /// The descriptions of all registered panels, in registration order.
    pub fn get_all_panel_info(&self) -> (r: Vec<&SidebarPanelInfo>)
        ensures
            r@.len() == self.view().len(),
            forall|i: int| 0 <= i < r@.len() ==> *r@[i] == self.view()[i].1.info,
    {
        let mut out: Vec<&SidebarPanelInfo> = Vec::new();
        let mut i: usize = 0;
        while i < self.panels.len()
            invariant
                i <= self.panels@.len(),
                out@.len() == i,
                forall|k: int| 0 <= k < i ==> *out@[k] == self.panels@[k].1.info,
            decreases self.panels@.len() - i,
        {
            out.push(&self.panels.value_at(i).info);
            i = i + 1;
        }
        out
    }
}

impl<P> Default for SidebarPanelRegistry<P> {
    /// An empty registry.
    fn default() -> (r: Self)
        ensures
            r.wf(),
            r.view().len() == 0,
    {
        SidebarPanelRegistry::new()
    }
}

} // verus!
