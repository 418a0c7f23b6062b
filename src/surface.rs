//! The decisions of a render surface: which calls a tab's renderer receives
//! for each command, and how each renderer signal becomes a tab update.
//!
//! The renderer itself runs outside the library. Whoever drives it performs
//! the planned `EngineCall`s in order and hands every resulting signal back.
//! Navigation capability is only available from the renderer as a point in
//! time query, so every step that may change it is followed by
//! `EngineCall::QueryNavState`, whose answer comes back as
//! `EngineSignal::NavStateQueried`.
use vstd::prelude::*;
use crate::heading::{
    node_of, outline_from_raw, outline_view, scroll_request, well_formed, HeadingNode, RawHeading,
    ScrollRequest, OutlineError,
};
use crate::nav::{LoadPhase, NavigationState};

verus! {

/// A command that a tab forwards to its renderer.
#[derive(Clone, Debug)]
pub enum SurfaceCommand {
    GoBack,
    GoForward,
    LoadUri(String),
    SelectHeading(HeadingNode),
}

/// One call made on a renderer.
#[derive(Clone, Debug)]
pub enum EngineCall {
    LoadUri(String),
    GoBack,
    GoForward,
    /// Run the extraction script, which stashes the heading elements in the
    /// page and reports them; answered by `EngineSignal::HeadingsExtracted`.
    ExtractHeadings,
    /// Run the scroll script with these arguments; answered by
    /// `EngineSignal::ScrollFinished`.
    Scroll(ScrollRequest),
    /// Ask whether the renderer can go back and forward; answered by
    /// `EngineSignal::NavStateQueried`.
    QueryNavState,
}

impl EngineCall {
    /// A copy equal to this call.
    pub fn clone_call(&self) -> (r: EngineCall)
        ensures
            r == *self,
    {
        match self {
            EngineCall::LoadUri(u) => EngineCall::LoadUri(u.clone()),
            EngineCall::GoBack => EngineCall::GoBack,
            EngineCall::GoForward => EngineCall::GoForward,
            EngineCall::ExtractHeadings => EngineCall::ExtractHeadings,
            EngineCall::Scroll(req) => EngineCall::Scroll(
                ScrollRequest { index: req.index, id: req.id.clone() },
            ),
            EngineCall::QueryNavState => EngineCall::QueryNavState,
        }
    }
}

/// A script run that the renderer reported as failed.
#[derive(Clone, Debug)]
pub struct ScriptError {
    pub message: String,
}

/// What a renderer reports.
#[derive(Debug)]
pub enum EngineSignal {
    UriChanged(Option<String>),
    TitleChanged(Option<String>),
    LoadChanged(LoadPhase),
    /// Estimated load progress, in thousandths.
    ProgressChanged(u16),
    NavStateQueried(NavigationState),
    /// The extraction script's report, already decoded into entries, or the
    /// failure of the script run (a payload that could not be decoded counts
    /// as such a failure).
    HeadingsExtracted(Result<Vec<RawHeading>, ScriptError>),
    ScrollFinished(Result<(), ScriptError>),
}

/// A change to the state that a tab keeps of its page.
#[derive(Clone, Debug)]
pub enum TabUpdate {
    Uri(String),
    Title(Option<String>),
    Phase(LoadPhase),
    Progress(u16),
    Nav(NavigationState),
    Outline(Option<Vec<HeadingNode>>),
}

/// A failure on the renderer's side, reported for logging; it never stops
/// the surface.
#[derive(Clone, Debug)]
pub enum SurfaceFault {
    Script(ScriptError),
    Malformed(OutlineError),
}

/// What the surface does with one renderer signal.
pub struct Reaction {
    pub update: Option<TabUpdate>,
    pub calls: Vec<EngineCall>,
    pub fault: Option<SurfaceFault>,
}

/// The calls that a command becomes: the command's own call, then a
/// navigation-state query.
pub open spec fn planned(cmd: SurfaceCommand, calls: Seq<EngineCall>) -> bool {
    &&& calls.len() == 2
    &&& calls[1] is QueryNavState
    &&& match cmd {
        SurfaceCommand::GoBack => calls[0] is GoBack,
        SurfaceCommand::GoForward => calls[0] is GoForward,
        SurfaceCommand::LoadUri(u) => calls[0] is LoadUri && calls[0]->LoadUri_0 == u,
        SurfaceCommand::SelectHeading(n) => calls[0] is Scroll && calls[0]->Scroll_0.index
            == n.index && calls[0]->Scroll_0.id@ == id_text(n.dom_id),
    }
}

/// The text of an optional id, empty when there is none.
pub open spec fn id_text(id: Option<String>) -> Seq<char> {
    match id {
        Some(s) => s@,
        None => Seq::<char>::empty(),
    }
}

/// The calls that carry out a command on the renderer.
pub fn plan_command(cmd: SurfaceCommand) -> (r: Vec<EngineCall>)
    ensures
        planned(cmd, r@),
{
    let first = match cmd {
        SurfaceCommand::GoBack => EngineCall::GoBack,
        SurfaceCommand::GoForward => EngineCall::GoForward,
        SurfaceCommand::LoadUri(u) => EngineCall::LoadUri(u),
        SurfaceCommand::SelectHeading(n) => EngineCall::Scroll(scroll_request(&n)),
    };
    let mut r: Vec<EngineCall> = Vec::new();
    r.push(first);
    r.push(EngineCall::QueryNavState);
    r
}

/// The outline that an extraction report stands for: absent when the report
/// is not well-formed.
pub open spec fn outline_result(raw: Seq<RawHeading>) -> Option<Seq<HeadingNode>> {
    if well_formed(raw) {
        Some(raw.map_values(|h: RawHeading| node_of(h)))
    } else {
        None
    }
}

/// The calls that follow a renderer signal.
pub open spec fn signal_calls(sig: EngineSignal) -> Seq<EngineCall> {
    match sig {
        EngineSignal::UriChanged(_) => seq![EngineCall::QueryNavState],
        EngineSignal::LoadChanged(p) => if p is Finished {
            seq![EngineCall::ExtractHeadings]
        } else {
            seq![EngineCall::QueryNavState]
        },
        EngineSignal::HeadingsExtracted(_) => seq![EngineCall::QueryNavState],
        _ => Seq::empty(),
    }
}

/// Whether a renderer signal reports a failure.
pub open spec fn signal_faults(sig: EngineSignal) -> bool {
    match sig {
        EngineSignal::HeadingsExtracted(Ok(raw)) => !well_formed(raw@),
        EngineSignal::HeadingsExtracted(Err(_)) => true,
        EngineSignal::ScrollFinished(Err(_)) => true,
        _ => false,
    }
}

/// The reaction to a renderer signal.
///
/// A URI change or a load phase other than `Finished` is followed by a
/// navigation-state query. A finished load is followed by one extraction and
/// nothing else; the extraction's outcome, success or failure, becomes an
/// outline update followed by exactly one navigation-state query.
pub fn on_signal(sig: EngineSignal) -> (r: Reaction)
    ensures
        r.calls@ == signal_calls(sig),
        r.fault is Some <==> signal_faults(sig),
        match sig {
            EngineSignal::UriChanged(u) => r.update matches Some(TabUpdate::Uri(s)) && s@
                == id_text(u) && r.calls@ == seq![EngineCall::QueryNavState] && r.fault is None,
            EngineSignal::TitleChanged(t) => r.update == Some(TabUpdate::Title(t)) && r.calls@.len()
                == 0 && r.fault is None,
            EngineSignal::LoadChanged(p) => r.update == Some(TabUpdate::Phase(p)) && r.fault is None
                && if p is Finished {
                r.calls@ == seq![EngineCall::ExtractHeadings]
            } else {
                r.calls@ == seq![EngineCall::QueryNavState]
            },
            EngineSignal::ProgressChanged(p) => r.update == Some(TabUpdate::Progress(p))
                && r.calls@.len() == 0 && r.fault is None,
            EngineSignal::NavStateQueried(s) => r.update == Some(TabUpdate::Nav(s)) && r.calls@.len()
                == 0 && r.fault is None,
            EngineSignal::HeadingsExtracted(res) => r.update matches Some(TabUpdate::Outline(o))
                && r.calls@ == seq![EngineCall::QueryNavState] && match res {
                Ok(raw) => outline_view(o) == outline_result(raw@) && (r.fault is None
                    <==> well_formed(raw@)),
                Err(e) => o is None && r.fault == Some(SurfaceFault::Script(e)),
            },
            EngineSignal::ScrollFinished(res) => r.update is None && r.calls@.len() == 0 && match res {
                Ok(_) => r.fault is None,
                Err(e) => r.fault == Some(SurfaceFault::Script(e)),
            },
        },
{
    let mut calls: Vec<EngineCall> = Vec::new();
    match sig {
        EngineSignal::UriChanged(u) => {
            let s = match u {
                Some(s) => s,
                None => String::new(),
            };
            calls.push(EngineCall::QueryNavState);
            Reaction { update: Some(TabUpdate::Uri(s)), calls, fault: None }
        },
        EngineSignal::TitleChanged(t) => Reaction {
            update: Some(TabUpdate::Title(t)),
            calls,
            fault: None,
        },
        EngineSignal::LoadChanged(p) => {
            if p == LoadPhase::Finished {
                calls.push(EngineCall::ExtractHeadings);
            } else {
                calls.push(EngineCall::QueryNavState);
            }
            Reaction { update: Some(TabUpdate::Phase(p)), calls, fault: None }
        },
        EngineSignal::ProgressChanged(p) => Reaction {
            update: Some(TabUpdate::Progress(p)),
            calls,
            fault: None,
        },
        EngineSignal::NavStateQueried(s) => Reaction {
            update: Some(TabUpdate::Nav(s)),
            calls,
            fault: None,
        },
        EngineSignal::HeadingsExtracted(res) => {
            calls.push(EngineCall::QueryNavState);
            match res {
                Ok(raw) => match outline_from_raw(&raw) {
                    Ok(o) => Reaction { update: Some(TabUpdate::Outline(Some(o))), calls, fault: None },
                    Err(e) => Reaction {
                        update: Some(TabUpdate::Outline(None)),
                        calls,
                        fault: Some(SurfaceFault::Malformed(e)),
                    },
                },
                Err(e) => Reaction {
                    update: Some(TabUpdate::Outline(None)),
                    calls,
                    fault: Some(SurfaceFault::Script(e)),
                },
            }
        },
        EngineSignal::ScrollFinished(res) => match res {
            Ok(_) => Reaction { update: None, calls, fault: None },
            Err(e) => Reaction { update: None, calls, fault: Some(SurfaceFault::Script(e)) },
        },
    }
}

/// The calls of a run of commands, in order.
pub open spec fn all_calls(plans: Seq<Seq<EngineCall>>) -> Seq<EngineCall>
    decreases plans.len(),
{
    if plans.len() == 0 {
        Seq::empty()
    } else {
        all_calls(plans.drop_last()) + plans.last()
    }
}

/// Any run of back and forward commands reaches the renderer as that run of
/// calls with a navigation-state query right after each one.
pub proof fn lemma_history_moves_refresh(cmds: Seq<SurfaceCommand>, plans: Seq<Seq<EngineCall>>)
    requires
        plans.len() == cmds.len(),
        forall|i: int| 0 <= i < cmds.len() ==> planned(#[trigger] cmds[i], plans[i]),
        forall|i: int| 0 <= i < cmds.len() ==> (#[trigger] cmds[i] is GoBack || cmds[i] is GoForward),
    ensures
        all_calls(plans).len() == 2 * cmds.len(),
        forall|i: int|
            0 <= i < cmds.len() ==> {
                &&& (#[trigger] cmds[i] is GoBack ==> all_calls(plans)[2 * i] is GoBack)
                &&& (cmds[i] is GoForward ==> all_calls(plans)[2 * i] is GoForward)
                &&& all_calls(plans)[2 * i + 1] is QueryNavState
            },
    decreases cmds.len(),
{
    if cmds.len() > 0 {
        let n = cmds.len() - 1;
        lemma_history_moves_refresh(cmds.drop_last(), plans.drop_last());
        assert(planned(cmds[n], plans[n]));
        let prev = all_calls(plans.drop_last());
        assert(all_calls(plans) == prev + plans[n]);
        assert forall|i: int| 0 <= i < cmds.len() implies {
            &&& (#[trigger] cmds[i] is GoBack ==> all_calls(plans)[2 * i] is GoBack)
            &&& (cmds[i] is GoForward ==> all_calls(plans)[2 * i] is GoForward)
            &&& all_calls(plans)[2 * i + 1] is QueryNavState
        } by {
            if i < n {
                assert(cmds.drop_last()[i] == cmds[i]);
            }
        }
    }
}

} // verus!
