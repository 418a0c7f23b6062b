//! The two reflectors of the current tab: the navigation bar and the outline
//! sidebar. Each keeps a copy of the current tab's state that it displays,
//! plus state of its own that no tab owns.
use vstd::prelude::*;
use crate::heading::{outline_view, HeadingNode};
use crate::nav::NavigationState;
use crate::tab::{text_view, NavUpdate, Tab, TabState};

verus! {

/// The navigation bar's state, as values.
pub struct NavBarState {
    pub title: Option<Seq<char>>,
    pub uri: Seq<char>,
    pub nav: NavigationState,
    pub uri_editable: bool,
    pub sidebar_visible: bool,
    pub progress_visible: bool,
    pub progress: u16,
}

impl NavBarState {
    /// The state after a published change: the named field takes its value.
    pub open spec fn updated(self, u: NavUpdate) -> NavBarState {
        match u {
            NavUpdate::Uri(s) => NavBarState { uri: s@, ..self },
            NavUpdate::Title(t) => NavBarState { title: text_view(t), ..self },
            NavUpdate::Nav(n) => NavBarState { nav: n, ..self },
            NavUpdate::ProgressVisible(b) => NavBarState { progress_visible: b, ..self },
            NavUpdate::Progress(p) => NavBarState { progress: p, ..self },
        }
    }

    /// The bar shows the tab's address, title, history buttons and progress.
    pub open spec fn mirrors(self, t: TabState) -> bool {
        &&& self.uri == t.uri
        &&& self.title == t.title
        &&& self.nav == t.nav
        &&& self.progress_visible == t.progress_visible
        &&& self.progress == t.progress
    }
}

/// The navigation bar.
///
/// `uri_editable` is whether the address field is being edited; it belongs
/// to the bar alone and no tab update touches it.
pub struct NavBar {
    pub title: Option<String>,
    pub uri: String,
    pub nav_state: NavigationState,
    pub uri_editable: bool,
    pub sidebar_visible: bool,
    pub progress_visible: bool,
    pub load_progress: u16,
}

impl View for NavBar {
    type V = NavBarState;

    open spec fn view(&self) -> NavBarState {
        NavBarState {
            title: text_view(self.title),
            uri: self.uri@,
            nav: self.nav_state,
            uri_editable: self.uri_editable,
            sidebar_visible: self.sidebar_visible,
            progress_visible: self.progress_visible,
            progress: self.load_progress,
        }
    }
}

impl NavBar {
    /// A bar showing `uri`, with no title, no history, no progress, the
    /// address not being edited and the outline sidebar shown.
    pub fn new(uri: String) -> (b: NavBar)
        ensures
            b@ == (NavBarState {
                title: None,
                uri: uri@,
                nav: NavigationState { can_go_back: false, can_go_forward: false },
                uri_editable: false,
                sidebar_visible: true,
                progress_visible: false,
                progress: 0,
            }),
    {
        NavBar {
            title: None,
            uri,
            nav_state: NavigationState::initial(),
            uri_editable: false,
            sidebar_visible: true,
            progress_visible: false,
            load_progress: 0,
        }
    }

    /// Enters editing of the address; nothing else changes.
    pub fn start_editing_uri(&mut self)
        ensures
            final(self)@ == (NavBarState { uri_editable: true, ..old(self)@ }),
    {
        self.uri_editable = true;
    }

    /// Leaves editing of the address; the last known address stays shown.
    pub fn cancel_editing_uri(&mut self)
        ensures
            final(self)@ == (NavBarState { uri_editable: false, ..old(self)@ }),
    {
        self.uri_editable = false;
    }

    /// Confirms an edited address: editing ends, the bar shows it, and the
    /// returned address is to be loaded in the current tab.
    pub fn submit_uri(&mut self, uri: String) -> (r: String)
        ensures
            final(self)@ == (NavBarState { uri_editable: false, uri: uri@, ..old(self)@ }),
            r == uri,
    {
        self.uri_editable = false;
        self.uri = uri.clone();
        uri
    }

    pub fn set_sidebar_visible(&mut self, visible: bool)
        ensures
            final(self)@ == (NavBarState { sidebar_visible: visible, ..old(self)@ }),
    {
        self.sidebar_visible = visible;
    }

    /// Takes in a change published by the current tab.
    pub fn apply(&mut self, u: NavUpdate)
        ensures
            final(self)@ == old(self)@.updated(u),
    {
        match u {
            NavUpdate::Uri(s) => self.uri = s,
            NavUpdate::Title(t) => self.title = t,
            NavUpdate::Nav(n) => self.nav_state = n,
            NavUpdate::ProgressVisible(b) => self.progress_visible = b,
            NavUpdate::Progress(p) => self.load_progress = p,
        }
    }

    /// Shows everything the bar reflects of a tab that has just become current.
    pub fn show_tab(&mut self, t: &Tab)
        ensures
            final(self)@.mirrors(t@),
            final(self)@.uri_editable == old(self)@.uri_editable,
            final(self)@.sidebar_visible == old(self)@.sidebar_visible,
    {
        self.uri = t.uri.clone();
        self.title = t.title_copy();
        self.nav_state = t.nav_state;
        self.progress_visible = t.progress_visible;
        self.load_progress = t.load_progress;
    }
}

/// Why a selection in the outline sidebar names no heading.
#[derive(Clone, Copy, Debug, PartialEq, Eq, Structural)]
pub enum SelectionError {
    /// No outline is shown.
    NoOutline,
    /// The selected position is past the end of the shown outline.
    InvalidIndex { index: u32 },
}

/// The outline sidebar: the current tab's outline, or none.
pub struct OutlineSidebar {
    pub outline: Option<Vec<HeadingNode>>,
}

impl View for OutlineSidebar {
    type V = Option<Seq<HeadingNode>>;

    open spec fn view(&self) -> Option<Seq<HeadingNode>> {
        outline_view(self.outline)
    }
}

impl OutlineSidebar {
    pub fn new() -> (s: OutlineSidebar)
        ensures
            s@ is None,
    {
        OutlineSidebar { outline: None }
    }

    /// Replaces the shown outline.
    pub fn show(&mut self, outline: Option<Vec<HeadingNode>>)
        ensures
            final(self)@ == outline_view(outline),
    {
        self.outline = outline;
    }

    /// The heading at a selected position of the shown outline.
    pub fn select_item(&self, index: u32) -> (r: Result<HeadingNode, SelectionError>)
        ensures
            match self@ {
                None => r == Err::<HeadingNode, SelectionError>(SelectionError::NoOutline),
                Some(o) => if index < o.len() {
                    r == Ok::<HeadingNode, SelectionError>(o[index as int])
                } else {
                    r == Err::<HeadingNode, SelectionError>(
                        SelectionError::InvalidIndex { index },
                    )
                },
            },
    {
        match &self.outline {
            None => Err(SelectionError::NoOutline),
            Some(o) => {
                if (index as usize) < o.len() {
                    Ok(o[index as usize].duplicate())
                } else {
                    Err(SelectionError::InvalidIndex { index })
                }
            },
        }
    }
}

} // verus!
