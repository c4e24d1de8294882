//! The browsing session: which pack and version the user has picked, and
//! whether an install is running. Each user action is a method whose
//! result tells the caller what outside work to start.

use vstd::prelude::*;
use crate::catalog::{FTBModpackList, first_version_name, version_id_for};

verus! {

/// The state of one browsing session over a catalog.
#[derive(Debug)]
pub struct Browser {
    pub modpack_list: FTBModpackList,
    /// The index in the catalog of the selected pack.
    pub selected: Option<usize>,
    pub selected_version: Option<String>,
    pub is_downloading: bool,
}

impl Browser {
    /// A selection, when there is one, is a pack of the catalog.
    pub open spec fn wf(&self) -> bool {
        self.selected matches Some(i) ==> i < self.modpack_list.packs@.len()
    }

    /// A session over `list` with nothing selected and no install running.
    pub fn new(list: FTBModpackList) -> (r: Browser)
        ensures
            r.wf(),
            r.modpack_list == list,
            r.selected is None,
            r.selected_version is None,
            !r.is_downloading,
    {
        Browser { modpack_list: list, selected: None, selected_version: None, is_downloading: false }
    }

    /// The window title.
    pub fn title(&self) -> (r: String)
        ensures
            r@ == "FTB 2 Modpack"@,
    {
        String::from_str("FTB 2 Modpack")
    }

    /// Selects the pack at `index` and its first version, unless an install
    /// is running or there is no such pack. Returns the logo of the newly
    /// selected pack, for the caller to load.
    pub fn select_modpack(&mut self, index: usize) -> (r: Option<String>)
        requires
            old(self).wf(),
        ensures
            final(self).wf(),
            final(self).modpack_list == old(self).modpack_list,
            final(self).is_downloading == old(self).is_downloading,
            if !old(self).is_downloading && index < old(self).modpack_list.packs@.len() {
                &&& final(self).selected == Some(index)
                &&& final(self).selected_version.deep_view() == first_version_name(
                    old(self).modpack_list.packs@[index as int].versions@,
                )
                &&& r.deep_view() == old(self).modpack_list.packs@[index as int].art.logo.deep_view()
            } else {
                &&& final(self).selected == old(self).selected
                &&& final(self).selected_version.deep_view() == old(self).selected_version.deep_view()
                &&& r is None
            },
    {
        if self.is_downloading || index >= self.modpack_list.packs.len() {
            return None;
        }
        let pack = &self.modpack_list.packs[index];
        let version = pack.first_version();
        let logo = match &pack.art.logo {
            Some(l) => Some(l.clone()),
            None => None,
        };
        self.selected = Some(index);
        self.selected_version = version;
        logo
    }

    /// Picks the version named `name`.
    pub fn choose_version(&mut self, name: String)
        requires
            old(self).wf(),
        ensures
            final(self).wf(),
            final(self).modpack_list == old(self).modpack_list,
            final(self).selected == old(self).selected,
            final(self).is_downloading == old(self).is_downloading,
            final(self).selected_version.deep_view() == Some(name@),
    {
        self.selected_version = Some(name);
    }

    /// The id of the selected version of the selected pack: the first
    /// version of the pack that carries the selected name.
    pub fn selected_version_id(&self) -> (r: Option<i64>)
        requires
            self.wf(),
        ensures
            r == (match (self.selected, self.selected_version) {
                (Some(i), Some(v)) => version_id_for(
                    self.modpack_list.packs@[i as int].versions@,
                    v@,
                ),
                _ => None,
            }),
    {
        match (&self.selected, &self.selected_version) {
            (Some(i), Some(v)) => self.modpack_list.packs[*i].version_id(v),
            _ => None,
        }
    }

    /// Marks an install as running; while it runs the selection is kept.
    pub fn begin_download(&mut self)
        requires
            old(self).wf(),
        ensures
            final(self).wf(),
            final(self).modpack_list == old(self).modpack_list,
            final(self).selected == old(self).selected,
            final(self).selected_version == old(self).selected_version,
            final(self).is_downloading,
    {
        self.is_downloading = true;
    }

    /// Marks the running install as finished.
    pub fn finish_download(&mut self)
        requires
            old(self).wf(),
        ensures
            final(self).wf(),
            final(self).modpack_list == old(self).modpack_list,
            final(self).selected == old(self).selected,
            final(self).selected_version == old(self).selected_version,
            !final(self).is_downloading,
    {
        self.is_downloading = false;
    }
}

} // verus!
