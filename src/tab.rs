//! A tab: the state kept of one page, built from its renderer's updates, and
//! what each update publishes to the observers of the current tab.
use vstd::prelude::*;
use crate::heading::{copy_opt_outline, copy_opt_string, outline_view, HeadingNode, RawHeading};
use crate::nav::{clamp_progress, is_progress_visible, progress_shown, NavigationState, PROGRESS_FULL};
use crate::surface::{id_text, outline_result, EngineSignal, SurfaceCommand, TabUpdate};

verus! {

/// The state of a tab, as values.
pub struct TabState {
    pub uri: Seq<char>,
    pub title: Option<Seq<char>>,
    pub nav: NavigationState,
    /// Load progress in thousandths, at most `PROGRESS_FULL`.
    pub progress: u16,
    pub progress_visible: bool,
    /// Absent until an extraction succeeded; empty for a page without headings.
    pub outline: Option<Seq<HeadingNode>>,
}

pub open spec fn text_view(t: Option<String>) -> Option<Seq<char>> {
    match t {
        Some(s) => Some(s@),
        None => None,
    }
}

pub open spec fn clamped(p: u16) -> u16 {
    if p <= PROGRESS_FULL { p } else { PROGRESS_FULL }
}

impl TabState {
    /// A tab just opened on `uri`.
    pub open spec fn opened(uri: Seq<char>) -> TabState {
        TabState {
            uri,
            title: None,
            nav: NavigationState { can_go_back: false, can_go_forward: false },
            progress: 0,
            progress_visible: false,
            outline: None,
        }
    }

    /// The state after one update.
    pub open spec fn updated(self, u: TabUpdate) -> TabState {
        match u {
            TabUpdate::Uri(s) => TabState { uri: s@, ..self },
            TabUpdate::Title(t) => TabState { title: text_view(t), ..self },
            TabUpdate::Phase(p) => TabState { progress_visible: progress_shown(p), ..self },
            TabUpdate::Progress(p) => TabState { progress: clamped(p), ..self },
            TabUpdate::Nav(n) => TabState { nav: n, ..self },
            TabUpdate::Outline(o) => TabState { outline: outline_view(o), ..self },
        }
    }

    /// The state after the update that a renderer signal brings, if any.
    pub open spec fn after_signal(self, sig: EngineSignal) -> TabState {
        match sig {
            EngineSignal::UriChanged(u) => TabState { uri: id_text(u), ..self },
            EngineSignal::TitleChanged(t) => TabState { title: text_view(t), ..self },
            EngineSignal::LoadChanged(p) => TabState { progress_visible: progress_shown(p), ..self },
            EngineSignal::ProgressChanged(p) => TabState { progress: clamped(p), ..self },
            EngineSignal::NavStateQueried(n) => TabState { nav: n, ..self },
            EngineSignal::HeadingsExtracted(res) => TabState {
                outline: match res {
                    Ok(raw) => outline_result(raw@),
                    Err(_) => None,
                },
                ..self
            },
            EngineSignal::ScrollFinished(_) => self,
        }
    }

    pub open spec fn with_outline(self, o: Option<Seq<HeadingNode>>) -> TabState {
        TabState { outline: o, ..self }
    }
}

/// A change published to the navigation-bar observer.
#[derive(Clone, Debug)]
pub enum NavUpdate {
    Uri(String),
    Title(Option<String>),
    Nav(NavigationState),
    ProgressVisible(bool),
    Progress(u16),
}

/// What a tab publishes after an update: a navigation-bar change or its new
/// outline.
#[derive(Clone, Debug)]
pub enum Publication {
    Nav(NavUpdate),
    Outline(Option<Vec<HeadingNode>>),
}

/// `p` publishes the field that `u` changed, with its value in `s`.
pub open spec fn publishes(u: TabUpdate, s: TabState, p: Publication) -> bool {
    match u {
        TabUpdate::Uri(_) => p matches Publication::Nav(NavUpdate::Uri(x)) && x@ == s.uri,
        TabUpdate::Title(_) => p matches Publication::Nav(NavUpdate::Title(t)) && text_view(t)
            == s.title,
        TabUpdate::Phase(_) => p == Publication::Nav(NavUpdate::ProgressVisible(s.progress_visible)),
        TabUpdate::Progress(_) => p == Publication::Nav(NavUpdate::Progress(s.progress)),
        TabUpdate::Nav(_) => p == Publication::Nav(NavUpdate::Nav(s.nav)),
        TabUpdate::Outline(_) => p matches Publication::Outline(o) && outline_view(o) == s.outline,
    }
}

/// One tab's page state.
pub struct Tab {
    pub uri: String,
    pub title: Option<String>,
    pub nav_state: NavigationState,
    pub load_progress: u16,
    pub progress_visible: bool,
    pub outline: Option<Vec<HeadingNode>>,
}

impl View for Tab {
    type V = TabState;

    open spec fn view(&self) -> TabState {
        TabState {
            uri: self.uri@,
            title: text_view(self.title),
            nav: self.nav_state,
            progress: self.load_progress,
            progress_visible: self.progress_visible,
            outline: outline_view(self.outline),
        }
    }
}

impl Tab {
    /// A tab opened on `uri`: no title, no history, no outline yet.
    pub fn new(uri: String) -> (t: Tab)
        ensures
            t@ == TabState::opened(uri@),
    {
        Tab {
            uri,
            title: None,
            nav_state: NavigationState::initial(),
            load_progress: 0,
            progress_visible: false,
            outline: None,
        }
    }

    /// Records an update from the renderer and returns what the observers of
    /// the current tab are to be told: the changed field's new value.
    pub fn apply(&mut self, u: TabUpdate) -> (p: Publication)
        ensures
            final(self)@ == old(self)@.updated(u),
            publishes(u, final(self)@, p),
    {
        match u {
            TabUpdate::Uri(s) => {
                self.uri = s.clone();
                Publication::Nav(NavUpdate::Uri(s))
            },
            TabUpdate::Title(t) => {
                self.title = copy_opt_string(&t);
                Publication::Nav(NavUpdate::Title(t))
            },
            TabUpdate::Phase(phase) => {
                self.progress_visible = is_progress_visible(phase);
                Publication::Nav(NavUpdate::ProgressVisible(self.progress_visible))
            },
            TabUpdate::Progress(p) => {
                self.load_progress = clamp_progress(p);
                Publication::Nav(NavUpdate::Progress(self.load_progress))
            },
            TabUpdate::Nav(n) => {
                self.nav_state = n;
                Publication::Nav(NavUpdate::Nav(n))
            },
            TabUpdate::Outline(o) => {
                self.outline = copy_opt_outline(&o);
                Publication::Outline(o)
            },
        }
    }

    /// Points the tab at a new address; the returned command loads it.
    pub fn navigate_to(&mut self, uri: String) -> (c: SurfaceCommand)
        ensures
            final(self)@ == (TabState { uri: uri@, ..old(self)@ }),
            c == SurfaceCommand::LoadUri(uri),
    {
        self.uri = uri.clone();
        SurfaceCommand::LoadUri(uri)
    }

    /// A copy of the tab's outline.
    pub fn outline_copy(&self) -> (r: Option<Vec<HeadingNode>>)
        ensures
            outline_view(r) == self@.outline,
    {
        copy_opt_outline(&self.outline)
    }

    /// A copy of the tab's title.
    pub fn title_copy(&self) -> (r: Option<String>)
        ensures
            text_view(r) == self@.title,
    {
        copy_opt_string(&self.title)
    }
}

/// Extraction is idempotent on an unchanged page: the same report, recorded
/// once or twice, leaves a tab with the same outline.
pub proof fn lemma_extraction_idempotent(t: TabState, first: Seq<RawHeading>, second: Seq<RawHeading>)
    requires
        first == second,
    ensures
        outline_result(first) == outline_result(second),
        t.with_outline(outline_result(first)).with_outline(outline_result(second)) == t.with_outline(
            outline_result(first),
        ),
{
}

} // verus!
