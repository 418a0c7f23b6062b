//! The application: the tabs, which of them is current, and the two
//! observers that must show the current tab and nothing else.
//!
//! Each user intent and each renderer signal is one method call, which
//! updates the state and returns the `Directive`s that the caller carries
//! out: open or close a tab's renderer, make a call on a renderer, or log a
//! warning. Updates that a tab publishes reach the observers only while that
//! tab is current; when another tab becomes current the observers are given
//! its stored state in full.
use vstd::prelude::*;
use crate::heading::HeadingNode;
use crate::observers::{NavBar, NavBarState, OutlineSidebar, SelectionError};
use crate::surface::{
    on_signal, plan_command, planned, signal_calls, signal_faults, EngineCall, EngineSignal,
    SurfaceCommand, SurfaceFault,
};
use crate::tab::{Publication, Tab, TabState};
use crate::tabs::TabCollection;

verus! {

/// Something that went wrong and is logged; none of these stops the viewer.
#[derive(Clone, Debug)]
pub enum Warning {
    /// An intent needed a current tab and there is none.
    MissingCurrentTab,
    /// An event named a tab that is not open (any more).
    UnknownTab(u64),
    /// Every tab id has been given out.
    TabIdsExhausted,
    /// An outline selection named no heading.
    Selection(SelectionError),
    /// A tab's renderer reported a failure.
    Surface(u64, SurfaceFault),
}

/// What the caller is to do after a step.
#[derive(Clone, Debug)]
pub enum Directive {
    /// Create the renderer of a new tab and load this address in it.
    OpenTab(u64, String),
    /// Destroy the renderer of a closed tab.
    CloseTab(u64),
    /// Make this call on the renderer of this tab.
    Call(u64, EngineCall),
    Warn(Warning),
}

/// `r` carries out `cmd` on the renderer of tab `id`.
pub open spec fn calls_for(id: u64, cmd: SurfaceCommand, r: Seq<Directive>) -> bool {
    &&& r.len() == 2
    &&& r[0] is Call && r[0]->Call_0 == id
    &&& r[1] is Call && r[1]->Call_0 == id
    &&& planned(cmd, seq![r[0]->Call_1, r[1]->Call_1])
}

pub struct App {
    starting_uri: String,
    tabs: TabCollection,
    current: Option<u64>,
    nav_bar: NavBar,
    outline_bar: OutlineSidebar,
}

fn missing_current() -> (r: Vec<Directive>)
    ensures
        r@ == seq![Directive::Warn(Warning::MissingCurrentTab)],
{
    let mut r: Vec<Directive> = Vec::new();
    r.push(Directive::Warn(Warning::MissingCurrentTab));
    r
}

fn one(d: Directive) -> (r: Vec<Directive>)
    ensures
        r@ == seq![d],
{
    let mut r: Vec<Directive> = Vec::new();
    r.push(d);
    r
}

impl App {
    pub closed spec fn tabs(&self) -> TabCollection {
        self.tabs
    }

    /// The id of the current tab.
    pub closed spec fn current(&self) -> Option<u64> {
        self.current
    }

    /// What the navigation bar shows.
    pub closed spec fn nav_bar_state(&self) -> NavBarState {
        self.nav_bar@
    }

    /// What the outline sidebar shows.
    pub closed spec fn shown_outline(&self) -> Option<Seq<HeadingNode>> {
        self.outline_bar@
    }

    /// The address that new tabs open on.
    pub closed spec fn starting_uri(&self) -> Seq<char> {
        self.starting_uri@
    }

    /// The observers show the state of tab `id`.
    pub open spec fn reflects(&self, id: u64) -> bool {
        &&& self.nav_bar_state().mirrors(self.tabs().state_of(id))
        &&& self.shown_outline() == self.tabs().state_of(id).outline
    }

    /// A current tab exists exactly while some tab is open; it is one of the
    /// open tabs, and both observers show its state.
    pub open spec fn wf(&self) -> bool {
        &&& self.tabs().wf()
        &&& (self.current() is None <==> self.tabs().len() == 0)
        &&& (self.current() matches Some(id) ==> self.tabs().contains(id) && self.reflects(id))
    }

    /// The viewer at startup: one tab on `starting_uri`, current and shown.
    pub fn new(starting_uri: String) -> (r: (App, Vec<Directive>))
        ensures
            r.0.wf(),
            r.0.starting_uri() == starting_uri@,
            r.0.tabs().len() == 1,
            r.0.tabs().states()[0] == TabState::opened(starting_uri@),
            r.0.current() == Some(r.0.tabs().ids()[0]),
            r.0.shown_outline() is None,
            !r.0.nav_bar_state().uri_editable,
            r.0.nav_bar_state().sidebar_visible,
            r.1@.len() == 1,
            r.1@[0] is OpenTab,
            r.1@[0]->OpenTab_0 == r.0.tabs().ids()[0],
            r.1@[0]->OpenTab_1@ == starting_uri@,
    {
        let mut tabs = TabCollection::new();
        let id: u64 = tabs.push(starting_uri.clone()).unwrap();
        proof {
            tabs.lemma_index_of(0);
        }
        let app = App {
            starting_uri: starting_uri.clone(),
            tabs,
            current: Some(id),
            nav_bar: NavBar::new(starting_uri.clone()),
            outline_bar: OutlineSidebar::new(),
        };
        (app, one(Directive::OpenTab(id, starting_uri)))
    }

    /// The current tab's id and position.
    fn current_position(&self) -> (r: Option<(u64, usize)>)
        requires
            self.wf(),
        ensures
            r is None <==> self.current() is None,
            r matches Some((id, i)) ==> self.current() == Some(id) && i < self.tabs().len()
                && self.tabs().ids()[i as int] == id && self.tabs().index_of(id) == i,
    {
        match self.current {
            None => None,
            Some(id) => {
                let p = self.tabs.position(id);
                Some((id, p.unwrap()))
            },
        }
    }

    /// Hands a command to the current tab's renderer.
    fn to_current(&self, cmd: SurfaceCommand) -> (r: Vec<Directive>)
        requires
            self.wf(),
        ensures
            match self.current() {
                Some(id) => calls_for(id, cmd, r@),
                None => r@ == seq![Directive::Warn(Warning::MissingCurrentTab)],
            },
    {
        match self.current {
            None => missing_current(),
            Some(id) => {
                let calls = plan_command(cmd);
                let mut r: Vec<Directive> = Vec::new();
                let mut i: usize = 0;
                while i < calls.len()
                    invariant
                        calls@.len() == 2,
                        i <= 2,
                        r@.len() == i,
                        forall|k: int| 0 <= k < i ==> r@[k] == Directive::Call(id, calls@[k]),
                    decreases 2 - i,
                {
                    r.push(Directive::Call(id, calls[i].clone_call()));
                    i = i + 1;
                }
                assert(seq![r@[0]->Call_1, r@[1]->Call_1] =~= calls@);
                r
            },
        }
    }

    /// Moves the current tab back in its history.
    pub fn go_back(&self) -> (r: Vec<Directive>)
        requires
            self.wf(),
        ensures
            match self.current() {
                Some(id) => calls_for(id, SurfaceCommand::GoBack, r@),
                None => r@ == seq![Directive::Warn(Warning::MissingCurrentTab)],
            },
    {
        self.to_current(SurfaceCommand::GoBack)
    }

    /// Moves the current tab forward in its history.
    pub fn go_forward(&self) -> (r: Vec<Directive>)
        requires
            self.wf(),
        ensures
            match self.current() {
                Some(id) => calls_for(id, SurfaceCommand::GoForward, r@),
                None => r@ == seq![Directive::Warn(Warning::MissingCurrentTab)],
            },
    {
        self.to_current(SurfaceCommand::GoForward)
    }

    /// Makes tab `id` current; both observers then show its stored state,
    /// whatever the previously current tab had pending.
    pub fn select_tab(&mut self, id: u64) -> (r: Vec<Directive>)
        requires
            old(self).wf(),
        ensures
            final(self).wf(),
            final(self).tabs() == old(self).tabs(),
            !old(self).tabs().contains(id) ==> *final(self) == *old(self) && r@ == seq![
                Directive::Warn(Warning::UnknownTab(id)),
            ],
            old(self).tabs().contains(id) ==> {
                &&& final(self).current() == Some(id)
                &&& final(self).shown_outline() == old(self).tabs().state_of(id).outline
                &&& final(self).nav_bar_state().mirrors(old(self).tabs().state_of(id))
                &&& final(self).nav_bar_state().uri_editable == old(self).nav_bar_state().uri_editable
                &&& final(self).nav_bar_state().sidebar_visible
                    == old(self).nav_bar_state().sidebar_visible
                &&& r@.len() == 0
            },
    {
        match self.tabs.position(id) {
            None => one(Directive::Warn(Warning::UnknownTab(id))),
            Some(i) => {
                self.show_at(i);
                Vec::new()
            },
        }
    }

    /// Makes the tab at position `i` current and shows it.
    fn show_at(&mut self, i: usize)
        requires
            old(self).tabs().wf(),
            i < old(self).tabs().len(),
        ensures
            final(self).tabs() == old(self).tabs(),
            final(self).starting_uri() == old(self).starting_uri(),
            final(self).current() == Some(old(self).tabs().ids()[i as int]),
            final(self).wf(),
            final(self).shown_outline() == old(self).tabs().states()[i as int].outline,
            final(self).nav_bar_state().mirrors(old(self).tabs().states()[i as int]),
            final(self).nav_bar_state().uri_editable == old(self).nav_bar_state().uri_editable,
            final(self).nav_bar_state().sidebar_visible == old(self).nav_bar_state().sidebar_visible,
    {
        proof {
            self.tabs.lemma_index_of(i as int);
            self.tabs.lemma_wf();
        }
        let id: u64 = self.tabs.id_at(i);
        let t = self.tabs.tab_at(i);
        self.nav_bar.show_tab(t);
        self.outline_bar.show(t.outline_copy());
        self.current = Some(id);
    }

    /// Closes tab `id`. When it was current, the tab that takes its place
    /// becomes current (the one after it, or else the one before it); when
    /// no tab is left, none is current.
    pub fn close_tab(&mut self, id: u64) -> (r: Vec<Directive>)
        requires
            old(self).wf(),
        ensures
            final(self).wf(),
            !old(self).tabs().contains(id) ==> *final(self) == *old(self) && r@ == seq![
                Directive::Warn(Warning::UnknownTab(id)),
            ],
            old(self).tabs().contains(id) ==> {
                let i = old(self).tabs().index_of(id);
                &&& r@ == seq![Directive::CloseTab(id)]
                &&& final(self).tabs().ids() == old(self).tabs().ids().remove(i)
                &&& final(self).tabs().states() == old(self).tabs().states().remove(i)
                &&& old(self).current() != Some(id) ==> final(self).current() == old(self).current()
                &&& old(self).current() == Some(id) ==> {
                    let n = final(self).tabs().len();
                    &&& n == 0 ==> final(self).current() is None
                    &&& n > 0 ==> final(self).current() == Some(
                        final(self).tabs().ids()[if i < n { i } else { n - 1 }],
                    )
                }
            },
    {
        match self.tabs.position(id) {
            None => one(Directive::Warn(Warning::UnknownTab(id))),
            Some(i) => {
                let ghost before = self.tabs;
                let ghost cur = self.current;
                proof {
                    before.lemma_wf();
                }
                self.tabs.remove_at(i);
                proof {
                    self.tabs.lemma_wf();
                }
                let n: usize = self.tabs.len_exec();
                if self.current == Some(id) {
                    if n == 0 {
                        self.current = None;
                    } else {
                        let j: usize = if i < n { i } else { n - 1 };
                        self.show_at(j);
                    }
                } else {
                    proof {
                        let c = cur->0;
                        let k = before.index_of(c);
                        before.lemma_index_of(k);
                        let k2 = if k < i { k } else { k - 1 };
                        assert(k != i);
                        assert(self.tabs.ids()[k2] == c);
                        self.tabs.lemma_index_of(k2);
                        assert(self.tabs.states()[k2] == before.states()[k]);
                    }
                }
                one(Directive::CloseTab(id))
            },
        }
    }

    /// Opens a tab on the starting address. It becomes current only when no
    /// tab was current.
    pub fn new_tab(&mut self) -> (r: Vec<Directive>)
        requires
            old(self).wf(),
        ensures
            final(self).wf(),
            old(self).tabs().next_id() == u64::MAX ==> *final(self) == *old(self) && r@ == seq![
                Directive::Warn(Warning::TabIdsExhausted),
            ],
            old(self).tabs().next_id() != u64::MAX ==> {
                &&& r@.len() == 1
                &&& r@[0] is OpenTab
                &&& r@[0]->OpenTab_1@ == old(self).starting_uri()
                &&& !old(self).tabs().contains(r@[0]->OpenTab_0)
                &&& final(self).tabs().ids() == old(self).tabs().ids().push(r@[0]->OpenTab_0)
                &&& final(self).tabs().states() == old(self).tabs().states().push(
                    TabState::opened(old(self).starting_uri()),
                )
                &&& old(self).current() is None ==> final(self).current() == Some(r@[0]->OpenTab_0)
                &&& old(self).current() is Some ==> final(self).current() == old(self).current()
                    && final(self).nav_bar_state() == old(self).nav_bar_state()
                    && final(self).shown_outline() == old(self).shown_outline()
            },
    {
        let ghost before = self.tabs;
        match self.tabs.push(self.starting_uri.clone()) {
            None => one(Directive::Warn(Warning::TabIdsExhausted)),
            Some(id) => {
                proof {
                    before.lemma_wf();
                    self.tabs.lemma_wf();
                }
                if self.current.is_none() {
                    let n: usize = self.tabs.len_exec();
                    self.show_at(n - 1);
                } else {
                    proof {
                        let c = self.current->0;
                        let k = before.index_of(c);
                        before.lemma_index_of(k);
                        assert(self.tabs.ids()[k] == c);
                        self.tabs.lemma_index_of(k);
                    }
                }
                one(Directive::OpenTab(id, self.starting_uri.clone()))
            },
        }
    }

    /// Shows or hides the outline sidebar.
    pub fn set_sidebar_visible(&mut self, visible: bool)
        requires
            old(self).wf(),
        ensures
            final(self).wf(),
            final(self).tabs() == old(self).tabs(),
            final(self).current() == old(self).current(),
            final(self).shown_outline() == old(self).shown_outline(),
            final(self).nav_bar_state() == (NavBarState {
                sidebar_visible: visible,
                ..old(self).nav_bar_state()
            }),
    {
        self.nav_bar.set_sidebar_visible(visible);
    }

    /// Enters editing of the address.
    pub fn start_editing_uri(&mut self)
        requires
            old(self).wf(),
        ensures
            final(self).wf(),
            final(self).tabs() == old(self).tabs(),
            final(self).current() == old(self).current(),
            final(self).shown_outline() == old(self).shown_outline(),
            final(self).nav_bar_state() == (NavBarState {
                uri_editable: true,
                ..old(self).nav_bar_state()
            }),
    {
        self.nav_bar.start_editing_uri();
    }

    /// Leaves editing of the address without loading anything.
    pub fn cancel_editing_uri(&mut self)
        requires
            old(self).wf(),
        ensures
            final(self).wf(),
            final(self).tabs() == old(self).tabs(),
            final(self).current() == old(self).current(),
            final(self).shown_outline() == old(self).shown_outline(),
            final(self).nav_bar_state() == (NavBarState {
                uri_editable: false,
                ..old(self).nav_bar_state()
            }),
    {
        self.nav_bar.cancel_editing_uri();
    }

    /// Confirms an edited address: the current tab loads it.
    pub fn submit_uri(&mut self, uri: String) -> (r: Vec<Directive>)
        requires
            old(self).wf(),
        ensures
            final(self).wf(),
            final(self).current() == old(self).current(),
            final(self).shown_outline() == old(self).shown_outline(),
            final(self).nav_bar_state() == (NavBarState {
                uri_editable: false,
                uri: uri@,
                ..old(self).nav_bar_state()
            }),
            final(self).tabs().ids() == old(self).tabs().ids(),
            match old(self).current() {
                Some(id) => {
                    &&& final(self).tabs().states() == old(self).tabs().states().update(
                        old(self).tabs().index_of(id),
                        TabState { uri: uri@, ..old(self).tabs().state_of(id) },
                    )
                    &&& calls_for(id, SurfaceCommand::LoadUri(uri), r@)
                },
                None => final(self).tabs() == old(self).tabs() && r@ == seq![
                    Directive::Warn(Warning::MissingCurrentTab),
                ],
            },
    {
        proof {
            self.tabs.lemma_wf();
        }
        match self.current_position() {
            None => {
                self.nav_bar.submit_uri(uri);
                missing_current()
            },
            Some((id, i)) => {
                let cmd = self.tabs.navigate_at(i, uri.clone());
                self.nav_bar.submit_uri(uri);
                proof {
                    self.tabs.lemma_wf();
                    self.tabs.lemma_index_of(i as int);
                }
                self.to_current(cmd)
            },
        }
    }

    /// The user picked the entry at `index` of the shown outline: the current
    /// tab scrolls to that heading.
    pub fn select_outline_item(&self, index: u32) -> (r: Vec<Directive>)
        requires
            self.wf(),
        ensures
            match self.shown_outline() {
                None => r@ == seq![Directive::Warn(Warning::Selection(SelectionError::NoOutline))],
                Some(o) => if index < o.len() {
                    match self.current() {
                        Some(id) => calls_for(id, SurfaceCommand::SelectHeading(o[index as int]), r@),
                        None => r@ == seq![Directive::Warn(Warning::MissingCurrentTab)],
                    }
                } else {
                    r@ == seq![
                        Directive::Warn(Warning::Selection(SelectionError::InvalidIndex { index })),
                    ]
                },
            },
    {
        match self.outline_bar.select_item(index) {
            Err(e) => one(Directive::Warn(Warning::Selection(e))),
            Ok(node) => self.to_current(SurfaceCommand::SelectHeading(node)),
        }
    }

    /// A signal from the renderer of tab `id`.
    ///
    /// The tab records it; the observers hear of it only when `id` is the
    /// current tab, so a late result for a tab in the background never shows.
    pub fn engine_signal(&mut self, id: u64, sig: EngineSignal) -> (r: Vec<Directive>)
        requires
            old(self).wf(),
        ensures
            final(self).wf(),
            !old(self).tabs().contains(id) ==> *final(self) == *old(self) && r@ == seq![
                Directive::Warn(Warning::UnknownTab(id)),
            ],
            old(self).tabs().contains(id) ==> {
                let i = old(self).tabs().index_of(id);
                let calls = signal_calls(sig);
                &&& final(self).tabs().ids() == old(self).tabs().ids()
                &&& final(self).tabs().states() == old(self).tabs().states().update(
                    i,
                    old(self).tabs().states()[i].after_signal(sig),
                )
                &&& final(self).current() == old(self).current()
                &&& (old(self).current() == Some(id) && sig is NavStateQueried)
                    ==> final(self).nav_bar_state().nav == sig->NavStateQueried_0
                &&& old(self).current() != Some(id) ==> final(self).nav_bar_state()
                    == old(self).nav_bar_state() && final(self).shown_outline()
                    == old(self).shown_outline()
                &&& r@.len() == calls.len() + if signal_faults(sig) { 1int } else { 0int }
                &&& forall|k: int| 0 <= k < calls.len() ==> r@[k] == Directive::Call(id, calls[k])
                &&& signal_faults(sig) ==> (r@.last() matches Directive::Warn(Warning::Surface(j, _))
                    && j == id)
            },
    {
        let i: usize = match self.tabs.position(id) {
            None => {
                return one(Directive::Warn(Warning::UnknownTab(id)));
            },
            Some(i) => i,
        };
        let ghost before = *self;
        let ghost sig_copy = sig;
        proof {
            self.tabs.lemma_wf();
        }
        let reaction = on_signal(sig);
        let mut r: Vec<Directive> = Vec::new();
        let mut k: usize = 0;
        while k < reaction.calls.len()
            invariant
                k <= reaction.calls@.len(),
                r@.len() == k,
                forall|m: int| 0 <= m < k ==> r@[m] == Directive::Call(id, reaction.calls@[m]),
            decreases reaction.calls@.len() - k,
        {
            r.push(Directive::Call(id, reaction.calls[k].clone_call()));
            k = k + 1;
        }
        match reaction.update {
            None => {},
            Some(u) => {
                let p = self.tabs.apply_at(i, u);
                proof {
                    self.tabs.lemma_wf();
                    self.tabs.lemma_index_of(i as int);
                }
                if self.current == Some(id) {
                    match p {
                        Publication::Nav(nu) => self.nav_bar.apply(nu),
                        Publication::Outline(o) => self.outline_bar.show(o),
                    }
                } else {
                    proof {
                        let c = self.current->0;
                        let kc = before.tabs.index_of(c);
                        before.tabs.lemma_index_of(kc);
                        self.tabs.lemma_index_of(kc);
                    }
                }
            },
        }
        match reaction.fault {
            None => {},
            Some(f) => r.push(Directive::Warn(Warning::Surface(id, f))),
        }
        r
    }

    /// The id of the current tab, if any.
    pub fn current_tab(&self) -> (r: Option<u64>)
        ensures
            r == self.current(),
    {
        self.current
    }

    /// The ids of the open tabs, in tab order.
    pub fn tab_ids(&self) -> (r: Vec<u64>)
        requires
            self.wf(),
        ensures
            r@ == self.tabs().ids(),
    {
        let n: usize = self.tabs.len_exec();
        let mut r: Vec<u64> = Vec::new();
        let mut i: usize = 0;
        while i < n
            invariant
                self.wf(),
                n == self.tabs().len(),
                i <= n,
                r@ == self.tabs().ids().subrange(0, i as int),
            decreases n - i,
        {
            r.push(self.tabs.id_at(i));
            i = i + 1;
        }
        assert(r@ =~= self.tabs().ids());
        r
    }

    /// The open tab with this id.
    pub fn tab(&self, id: u64) -> (r: Option<&Tab>)
        requires
            self.wf(),
        ensures
            r is Some <==> self.tabs().contains(id),
            r is Some ==> r->0@ == self.tabs().state_of(id),
    {
        match self.tabs.position(id) {
            None => None,
            Some(i) => Some(self.tabs.tab_at(i)),
        }
    }

    pub fn nav_bar(&self) -> (r: &NavBar)
        ensures
            r@ == self.nav_bar_state(),
    {
        &self.nav_bar
    }

    pub fn outline_sidebar(&self) -> (r: &OutlineSidebar)
        ensures
            r@ == self.shown_outline(),
    {
        &self.outline_bar
    }
}

} // verus!
