//! The ordered collection of tabs. Each tab has an id that stays valid while
//! other tabs are opened or closed; positions shift, ids never do, and an id
//! is never given out twice.
use vstd::prelude::*;
use crate::surface::{SurfaceCommand, TabUpdate};
use crate::tab::{publishes, Publication, Tab, TabState};

verus! {

pub struct TabCollection {
    ids: Vec<u64>,
    tabs: Vec<Tab>,
    next_id: u64,
}

impl TabCollection {
    /// The ids of the tabs, in tab order.
    pub closed spec fn ids(&self) -> Seq<u64> {
        self.ids@
    }

    /// The states of the tabs, in tab order.
    pub closed spec fn states(&self) -> Seq<TabState> {
        self.tabs@.map_values(|t: Tab| t@)
    }

    /// The id that the next opened tab gets.
    pub closed spec fn next_id(&self) -> u64 {
        self.next_id
    }

    pub closed spec fn wf(&self) -> bool {
        &&& self.ids@.len() == self.tabs@.len()
        &&& self.ids@.no_duplicates()
        &&& forall|i: int| 0 <= i < self.ids@.len() ==> self.ids@[i] < self.next_id
    }

    pub open spec fn len(&self) -> nat {
        self.ids().len()
    }

    pub open spec fn contains(&self, id: u64) -> bool {
        self.ids().contains(id)
    }

    /// The position of a tab that the collection holds.
    pub open spec fn index_of(&self, id: u64) -> int {
        choose|i: int| 0 <= i < self.ids().len() && self.ids()[i] == id
    }

    /// The state of a tab that the collection holds.
    pub open spec fn state_of(&self, id: u64) -> TabState {
        self.states()[self.index_of(id)]
    }

    pub proof fn lemma_wf(&self)
        requires
            self.wf(),
        ensures
            self.ids().len() == self.states().len(),
            self.ids().no_duplicates(),
            forall|i: int| 0 <= i < self.ids().len() ==> self.ids()[i] < self.next_id(),
    {
    }

    /// In a well-formed collection the position of an id is the one place
    /// where it stands.
    pub proof fn lemma_index_of(&self, i: int)
        requires
            self.wf(),
            0 <= i < self.len(),
        ensures
            self.index_of(self.ids()[i]) == i,
            self.contains(self.ids()[i]),
    {
        let id = self.ids()[i];
        assert(self.ids()[i] == id);
        let j = self.index_of(id);
        assert(self.ids()[j] == id);
    }

    pub fn new() -> (c: TabCollection)
        ensures
            c.wf(),
            c.ids().len() == 0,
            c.states().len() == 0,
            c.next_id() == 0,
    {
        TabCollection { ids: Vec::new(), tabs: Vec::new(), next_id: 0 }
    }

    pub fn len_exec(&self) -> (r: usize)
        requires
            self.wf(),
        ensures
            r == self.len(),
    {
        self.ids.len()
    }

    /// Opens a tab on `uri` at the end. Returns its id, or `None`, changing
    /// nothing, once every id has been given out.
    pub fn push(&mut self, uri: String) -> (r: Option<u64>)
        requires
            old(self).wf(),
        ensures
            final(self).wf(),
            r is None <==> old(self).next_id() == u64::MAX,
            r is None ==> *final(self) == *old(self),
            r is Some ==> {
                &&& !old(self).contains(r->0)
                &&& final(self).ids() == old(self).ids().push(r->0)
                &&& final(self).states() == old(self).states().push(TabState::opened(uri@))
            },
    {
        if self.next_id == u64::MAX {
            return None;
        }
        let id: u64 = self.next_id;
        let ghost old_ids = self.ids@;
        self.ids.push(id);
        self.tabs.push(Tab::new(uri));
        self.next_id = id + 1;
        assert(!old_ids.contains(id)) by {
            if old_ids.contains(id) {
                let k = choose|k: int| 0 <= k < old_ids.len() && old_ids[k] == id;
                assert(old_ids[k] < id);
            }
        }
        assert(self.states() =~= old(self).states().push(TabState::opened(uri@)));
        Some(id)
    }

    /// The position of a tab, if the collection holds it.
    pub fn position(&self, id: u64) -> (r: Option<usize>)
        requires
            self.wf(),
        ensures
            r is Some <==> self.contains(id),
            r is Some ==> r->0 < self.len() && self.ids()[r->0 as int] == id && self.index_of(id)
                == r->0,
    {
        let mut i: usize = 0;
        while i < self.ids.len()
            invariant
                self.wf(),
                i <= self.ids@.len(),
                forall|k: int| 0 <= k < i ==> self.ids@[k] != id,
            decreases self.ids@.len() - i,
        {
            if self.ids[i] == id {
                proof {
                    self.lemma_index_of(i as int);
                }
                return Some(i);
            }
            i = i + 1;
        }
        None
    }

    pub fn id_at(&self, i: usize) -> (r: u64)
        requires
            self.wf(),
            i < self.len(),
        ensures
            r == self.ids()[i as int],
    {
        self.ids[i]
    }

    pub fn tab_at(&self, i: usize) -> (r: &Tab)
        requires
            self.wf(),
            i < self.len(),
        ensures
            r@ == self.states()[i as int],
    {
        &self.tabs[i]
    }

    /// Records a renderer update in the tab at position `i`.
    pub fn apply_at(&mut self, i: usize, u: TabUpdate) -> (p: Publication)
        requires
            old(self).wf(),
            i < old(self).len(),
        ensures
            final(self).wf(),
            final(self).ids() == old(self).ids(),
            final(self).next_id() == old(self).next_id(),
            final(self).states() == old(self).states().update(
                i as int,
                old(self).states()[i as int].updated(u),
            ),
            publishes(u, final(self).states()[i as int], p),
    {
        let mut t = self.tabs.remove(i);
        let p = t.apply(u);
        self.tabs.insert(i, t);
        assert(self.states() =~= old(self).states().update(
            i as int,
            old(self).states()[i as int].updated(u),
        ));
        p
    }

    /// Points the tab at position `i` at a new address.
    pub fn navigate_at(&mut self, i: usize, uri: String) -> (c: SurfaceCommand)
        requires
            old(self).wf(),
            i < old(self).len(),
        ensures
            final(self).wf(),
            final(self).ids() == old(self).ids(),
            final(self).next_id() == old(self).next_id(),
            final(self).states() == old(self).states().update(
                i as int,
                TabState { uri: uri@, ..old(self).states()[i as int] },
            ),
            c == SurfaceCommand::LoadUri(uri),
    {
        let mut t = self.tabs.remove(i);
        let c = t.navigate_to(uri);
        self.tabs.insert(i, t);
        assert(self.states() =~= old(self).states().update(
            i as int,
            TabState { uri: uri@, ..old(self).states()[i as int] },
        ));
        c
    }

    /// Closes the tab at position `i` and returns its id; the tabs after it
    /// move up one place.
    pub fn remove_at(&mut self, i: usize) -> (r: u64)
        requires
            old(self).wf(),
            i < old(self).len(),
        ensures
            final(self).wf(),
            r == old(self).ids()[i as int],
            final(self).ids() == old(self).ids().remove(i as int),
            final(self).states() == old(self).states().remove(i as int),
            final(self).next_id() == old(self).next_id(),
    {
        let ghost old_ids = self.ids@;
        let id: u64 = self.ids.remove(i);
        self.tabs.remove(i);
        assert(self.states() =~= old(self).states().remove(i as int));
        assert forall|a: int, b: int|
            0 <= a < self.ids@.len() && 0 <= b < self.ids@.len() && a != b implies self.ids@[a]
            != self.ids@[b] by {
            let a2 = if a < i { a } else { a + 1 };
            let b2 = if b < i { b } else { b + 1 };
            assert(self.ids@[a] == old_ids[a2]);
            assert(self.ids@[b] == old_ids[b2]);
        }
        assert forall|a: int| 0 <= a < self.ids@.len() implies self.ids@[a] < self.next_id by {
            let a2 = if a < i { a } else { a + 1 };
            assert(self.ids@[a] == old_ids[a2]);
        }
        id
    }
}

} // verus!
