use docviewer::heading::{
    outline_from_raw, parse_tag_name, scroll_request, HeadingNode, OutlineError, RawHeading,
    TagKind,
};
use docviewer::nav::{clamp_progress, is_progress_visible, LoadPhase, NavigationState};
use docviewer::observers::{NavBar, OutlineSidebar, SelectionError};
use docviewer::orchestrator::{App, Directive, Warning};
use docviewer::surface::{
    on_signal, plan_command, EngineCall, EngineSignal, ScriptError, SurfaceCommand, SurfaceFault,
    TabUpdate,
};
use docviewer::tab::{NavUpdate, Publication, Tab};

const START: &str = "file:///tmp/man.html";

fn raw(tag: &str, text: &str, index: u64, id: Option<&str>) -> RawHeading {
    RawHeading {
        tag_name: tag.to_string(),
        inner_text: text.to_string(),
        index,
        id: id.map(|s| s.to_string()),
    }
}

/// The report of a page with `h1 Intro`, `h2 Details` (id `d1`), `h3 More`,
/// as the extraction script gives it: an element without id reports "".
fn example_report() -> Vec<RawHeading> {
    vec![
        raw("h1", "Intro", 0, Some("")),
        raw("h2", "Details", 1, Some("d1")),
        raw("h3", "More", 2, Some("")),
    ]
}

fn node(tag: TagKind, text: &str, index: usize, id: Option<&str>) -> HeadingNode {
    HeadingNode { tag, text: text.to_string(), index, dom_id: id.map(|s| s.to_string()) }
}

fn same_node(a: &HeadingNode, b: &HeadingNode) -> bool {
    a.tag == b.tag && a.text == b.text && a.index == b.index && a.dom_id == b.dom_id
}

fn same_outline(a: &[HeadingNode], b: &[HeadingNode]) -> bool {
    a.len() == b.len() && a.iter().zip(b.iter()).all(|(x, y)| same_node(x, y))
}

fn is_call(d: &Directive, tab: u64, pred: impl Fn(&EngineCall) -> bool) -> bool {
    match d {
        Directive::Call(id, c) => *id == tab && pred(c),
        _ => false,
    }
}

fn started() -> (App, u64) {
    let (app, dirs) = App::new(START.to_string());
    let id = match &dirs[0] {
        Directive::OpenTab(id, uri) => {
            assert_eq!(uri, START);
            *id
        }
        other => panic!("unexpected {:?}", other),
    };
    assert_eq!(dirs.len(), 1);
    (app, id)
}

fn open_tab(app: &mut App) -> u64 {
    let dirs = app.new_tab();
    assert_eq!(dirs.len(), 1);
    match &dirs[0] {
        Directive::OpenTab(id, uri) => {
            assert_eq!(uri, START);
            *id
        }
        other => panic!("unexpected {:?}", other),
    }
}

#[test]
fn example_outline_is_extracted_in_document_order() {
    let outline = outline_from_raw(&example_report()).unwrap();
    let expected = vec![
        node(TagKind::H1, "Intro", 0, None),
        node(TagKind::H2, "Details", 1, Some("d1")),
        node(TagKind::H3, "More", 2, None),
    ];
    assert!(same_outline(&outline, &expected));
}

#[test]
fn example_second_entry_scrolls_by_id() {
    let (mut app, id) = started();
    app.engine_signal(id, EngineSignal::HeadingsExtracted(Ok(example_report())));
    let dirs = app.select_outline_item(1);
    assert_eq!(dirs.len(), 2);
    assert!(is_call(&dirs[0], id, |c| matches!(c, EngineCall::Scroll(r) if r.id == "d1" && r.index == 1)));
    assert!(is_call(&dirs[1], id, |c| matches!(c, EngineCall::QueryNavState)));
}

#[test]
fn entry_without_id_scrolls_by_index() {
    let (mut app, id) = started();
    app.engine_signal(id, EngineSignal::HeadingsExtracted(Ok(example_report())));
    let dirs = app.select_outline_item(2);
    assert!(is_call(&dirs[0], id, |c| matches!(c, EngineCall::Scroll(r) if r.id.is_empty() && r.index == 2)));
}

#[test]
fn extraction_twice_gives_equal_outlines() {
    let a = outline_from_raw(&example_report()).unwrap();
    let b = outline_from_raw(&example_report()).unwrap();
    assert!(same_outline(&a, &b));
    let (mut app, id) = started();
    app.engine_signal(id, EngineSignal::HeadingsExtracted(Ok(example_report())));
    app.engine_signal(id, EngineSignal::HeadingsExtracted(Ok(example_report())));
    assert!(same_outline(app.tab(id).unwrap().outline.as_ref().unwrap(), &a));
}

#[test]
fn empty_page_has_empty_outline_not_none() {
    let outline = outline_from_raw(&Vec::new()).unwrap();
    assert!(outline.is_empty());
    let (mut app, id) = started();
    app.engine_signal(id, EngineSignal::HeadingsExtracted(Ok(Vec::new())));
    assert_eq!(app.outline_sidebar().outline.as_ref().map(|o| o.len()), Some(0));
}

#[test]
fn unknown_tag_is_refused_at_its_position() {
    let report = vec![raw("h1", "A", 0, None), raw("div", "B", 1, None)];
    assert_eq!(outline_from_raw(&report).unwrap_err(), OutlineError::UnknownTag { position: 1 });
}

#[test]
fn wrong_index_is_refused_at_its_position() {
    let report = vec![raw("h1", "A", 0, None), raw("h2", "B", 5, None)];
    assert_eq!(outline_from_raw(&report).unwrap_err(), OutlineError::IndexMismatch { position: 1 });
}

#[test]
fn first_fault_is_reported() {
    let report = vec![raw("h1", "A", 3, None), raw("p", "B", 1, None)];
    assert_eq!(outline_from_raw(&report).unwrap_err(), OutlineError::IndexMismatch { position: 0 });
}

#[test]
fn tag_names_in_either_case() {
    assert_eq!(parse_tag_name("h1"), Some(TagKind::H1));
    assert_eq!(parse_tag_name("H3"), Some(TagKind::H3));
    assert_eq!(parse_tag_name("h6"), Some(TagKind::H6));
    assert_eq!(parse_tag_name("h7"), None);
    assert_eq!(parse_tag_name("h"), None);
    assert_eq!(parse_tag_name("h10"), None);
    assert_eq!(parse_tag_name("x1"), None);
}

#[test]
fn indent_levels_follow_heading_level() {
    assert_eq!(node(TagKind::H1, "a", 0, None).indent_levels(), 0);
    assert_eq!(node(TagKind::H2, "a", 0, None).indent_levels(), 1);
    assert_eq!(node(TagKind::H4, "a", 0, None).indent_levels(), 3);
    assert_eq!(node(TagKind::H6, "a", 0, None).indent_levels(), 5);
}

#[test]
fn id_wins_over_stale_index() {
    let req = scroll_request(&node(TagKind::H2, "x", 99, Some("anchor")));
    assert_eq!(req.id, "anchor");
    assert_eq!(req.index, 99);
    let req = scroll_request(&node(TagKind::H2, "x", 4, None));
    assert_eq!(req.id, "");
    assert_eq!(req.index, 4);
}

#[test]
fn progress_visibility_per_phase() {
    assert!(is_progress_visible(LoadPhase::Started));
    assert!(is_progress_visible(LoadPhase::Committed));
    assert!(is_progress_visible(LoadPhase::Redirected));
    assert!(!is_progress_visible(LoadPhase::Finished));
    assert!(!is_progress_visible(LoadPhase::Failed));
}

#[test]
fn progress_is_clamped() {
    assert_eq!(clamp_progress(0), 0);
    assert_eq!(clamp_progress(420), 420);
    assert_eq!(clamp_progress(1000), 1000);
    assert_eq!(clamp_progress(1500), 1000);
}

#[test]
fn history_moves_are_followed_by_a_query() {
    for cmd in [SurfaceCommand::GoBack, SurfaceCommand::GoForward, SurfaceCommand::GoBack] {
        let back = matches!(cmd, SurfaceCommand::GoBack);
        let calls = plan_command(cmd);
        assert_eq!(calls.len(), 2);
        if back {
            assert!(matches!(calls[0], EngineCall::GoBack));
        } else {
            assert!(matches!(calls[0], EngineCall::GoForward));
        }
        assert!(matches!(calls[1], EngineCall::QueryNavState));
    }
}

#[test]
fn queried_nav_state_reaches_the_bar() {
    let (mut app, id) = started();
    let dirs = app.go_back();
    assert!(is_call(&dirs[0], id, |c| matches!(c, EngineCall::GoBack)));
    assert!(is_call(&dirs[1], id, |c| matches!(c, EngineCall::QueryNavState)));
    let s = NavigationState { can_go_back: false, can_go_forward: true };
    app.engine_signal(id, EngineSignal::NavStateQueried(s));
    assert_eq!(app.nav_bar().nav_state, s);
    assert_eq!(app.tab(id).unwrap().nav_state, s);
    let dirs = app.go_forward();
    assert!(is_call(&dirs[0], id, |c| matches!(c, EngineCall::GoForward)));
    assert!(is_call(&dirs[1], id, |c| matches!(c, EngineCall::QueryNavState)));
}

#[test]
fn finished_load_extracts_once_then_refreshes_once() {
    let (mut app, id) = started();
    let dirs = app.engine_signal(id, EngineSignal::LoadChanged(LoadPhase::Finished));
    assert_eq!(dirs.len(), 1);
    assert!(is_call(&dirs[0], id, |c| matches!(c, EngineCall::ExtractHeadings)));
    let dirs = app.engine_signal(id, EngineSignal::HeadingsExtracted(Ok(example_report())));
    assert_eq!(dirs.len(), 1);
    assert!(is_call(&dirs[0], id, |c| matches!(c, EngineCall::QueryNavState)));
}

#[test]
fn failed_extraction_refreshes_once_and_warns() {
    let (mut app, id) = started();
    app.engine_signal(id, EngineSignal::HeadingsExtracted(Ok(example_report())));
    let err = ScriptError { message: "navigated away".to_string() };
    let dirs = app.engine_signal(id, EngineSignal::HeadingsExtracted(Err(err)));
    assert_eq!(dirs.len(), 2);
    assert!(is_call(&dirs[0], id, |c| matches!(c, EngineCall::QueryNavState)));
    assert!(matches!(&dirs[1], Directive::Warn(Warning::Surface(t, SurfaceFault::Script(_))) if *t == id));
    assert!(app.tab(id).unwrap().outline.is_none());
    assert!(app.outline_sidebar().outline.is_none());
}

#[test]
fn malformed_report_gives_no_outline() {
    let (mut app, id) = started();
    let report = vec![raw("h1", "A", 1, None)];
    let dirs = app.engine_signal(id, EngineSignal::HeadingsExtracted(Ok(report)));
    assert_eq!(dirs.len(), 2);
    assert!(matches!(
        &dirs[1],
        Directive::Warn(Warning::Surface(_, SurfaceFault::Malformed(OutlineError::IndexMismatch { position: 0 })))
    ));
    assert!(app.outline_sidebar().outline.is_none());
}

#[test]
fn other_load_phases_refresh_nav_state() {
    let r = on_signal(EngineSignal::LoadChanged(LoadPhase::Started));
    assert_eq!(r.calls.len(), 1);
    assert!(matches!(r.calls[0], EngineCall::QueryNavState));
    assert!(matches!(r.update, Some(TabUpdate::Phase(LoadPhase::Started))));
}

#[test]
fn missing_uri_becomes_empty() {
    let r = on_signal(EngineSignal::UriChanged(None));
    assert!(matches!(&r.update, Some(TabUpdate::Uri(s)) if s.is_empty()));
    let (mut app, id) = started();
    app.engine_signal(id, EngineSignal::UriChanged(Some("file:///a.html".to_string())));
    assert_eq!(app.nav_bar().uri, "file:///a.html");
    assert_eq!(app.tab(id).unwrap().uri, "file:///a.html");
}

#[test]
fn title_and_progress_reach_the_bar() {
    let (mut app, id) = started();
    app.engine_signal(id, EngineSignal::TitleChanged(Some("ls(1)".to_string())));
    app.engine_signal(id, EngineSignal::LoadChanged(LoadPhase::Started));
    app.engine_signal(id, EngineSignal::ProgressChanged(250));
    let bar = app.nav_bar();
    assert_eq!(bar.title.as_deref(), Some("ls(1)"));
    assert!(bar.progress_visible);
    assert_eq!(bar.load_progress, 250);
}

#[test]
fn switching_tabs_shows_the_new_tabs_outline() {
    let (mut app, a) = started();
    let b = open_tab(&mut app);
    app.engine_signal(a, EngineSignal::HeadingsExtracted(Ok(example_report())));
    assert_eq!(app.outline_sidebar().outline.as_ref().map(|o| o.len()), Some(3));
    app.select_tab(b);
    assert!(app.outline_sidebar().outline.is_none());
    // A late result for the tab in the background does not show.
    app.engine_signal(a, EngineSignal::HeadingsExtracted(Ok(vec![raw("h1", "Late", 0, None)])));
    app.engine_signal(a, EngineSignal::TitleChanged(Some("A".to_string())));
    assert!(app.outline_sidebar().outline.is_none());
    assert_eq!(app.nav_bar().title, None);
    app.select_tab(a);
    let shown = app.outline_sidebar().outline.as_ref().unwrap();
    assert_eq!(shown.len(), 1);
    assert_eq!(shown[0].text, "Late");
    assert_eq!(app.nav_bar().title.as_deref(), Some("A"));
}

#[test]
fn closing_the_selected_middle_tab_selects_its_neighbour() {
    let (mut app, first) = started();
    let second = open_tab(&mut app);
    let third = open_tab(&mut app);
    assert!(app.select_tab(second).is_empty());
    assert_eq!(app.current_tab(), Some(second));
    let dirs = app.close_tab(second);
    assert!(matches!(dirs[..], [Directive::CloseTab(id)] if id == second));
    assert_eq!(app.current_tab(), Some(third));
    assert_eq!(app.tab_ids(), vec![first, third]);
    assert!(app.tab(app.current_tab().unwrap()).is_some());
}

#[test]
fn closing_the_last_tab_in_order_selects_the_one_before() {
    let (mut app, first) = started();
    let second = open_tab(&mut app);
    app.select_tab(second);
    app.close_tab(second);
    assert_eq!(app.current_tab(), Some(first));
}

#[test]
fn closing_a_background_tab_keeps_the_current_one() {
    let (mut app, first) = started();
    let second = open_tab(&mut app);
    assert_eq!(app.current_tab(), Some(first));
    app.close_tab(second);
    assert_eq!(app.current_tab(), Some(first));
    assert_eq!(app.tab_ids(), vec![first]);
}

#[test]
fn without_tabs_intents_only_warn() {
    let (mut app, first) = started();
    app.close_tab(first);
    assert_eq!(app.current_tab(), None);
    assert!(app.tab_ids().is_empty());
    for dirs in [app.go_back(), app.go_forward(), app.submit_uri("file:///b".to_string())] {
        assert!(matches!(dirs[..], [Directive::Warn(Warning::MissingCurrentTab)]));
    }
    let id = open_tab(&mut app);
    assert_eq!(app.current_tab(), Some(id));
}

#[test]
fn ids_are_never_reused() {
    let (mut app, first) = started();
    let second = open_tab(&mut app);
    app.close_tab(second);
    let third = open_tab(&mut app);
    assert_ne!(third, second);
    assert_ne!(third, first);
}

#[test]
fn unknown_tabs_are_reported() {
    let (mut app, _) = started();
    assert!(matches!(app.select_tab(77)[..], [Directive::Warn(Warning::UnknownTab(77))]));
    assert!(matches!(app.close_tab(77)[..], [Directive::Warn(Warning::UnknownTab(77))]));
    let dirs = app.engine_signal(77, EngineSignal::LoadChanged(LoadPhase::Finished));
    assert!(matches!(dirs[..], [Directive::Warn(Warning::UnknownTab(77))]));
}

#[test]
fn selection_without_outline_or_out_of_range() {
    let (mut app, id) = started();
    assert!(matches!(
        app.select_outline_item(0)[..],
        [Directive::Warn(Warning::Selection(SelectionError::NoOutline))]
    ));
    app.engine_signal(id, EngineSignal::HeadingsExtracted(Ok(example_report())));
    assert!(matches!(
        app.select_outline_item(3)[..],
        [Directive::Warn(Warning::Selection(SelectionError::InvalidIndex { index: 3 }))]
    ));
}

#[test]
fn editing_the_address() {
    let (mut app, id) = started();
    app.start_editing_uri();
    assert!(app.nav_bar().uri_editable);
    app.cancel_editing_uri();
    assert!(!app.nav_bar().uri_editable);
    assert_eq!(app.nav_bar().uri, START);
    app.start_editing_uri();
    let dirs = app.submit_uri("file:///usr/share/doc/x.html".to_string());
    assert!(!app.nav_bar().uri_editable);
    assert_eq!(app.nav_bar().uri, "file:///usr/share/doc/x.html");
    assert_eq!(app.tab(id).unwrap().uri, "file:///usr/share/doc/x.html");
    assert!(is_call(&dirs[0], id, |c| matches!(c, EngineCall::LoadUri(u) if u == "file:///usr/share/doc/x.html")));
    assert!(is_call(&dirs[1], id, |c| matches!(c, EngineCall::QueryNavState)));
}

#[test]
fn sidebar_visibility() {
    let (mut app, _) = started();
    assert!(app.nav_bar().sidebar_visible);
    app.set_sidebar_visible(false);
    assert!(!app.nav_bar().sidebar_visible);
}

#[test]
fn tab_publishes_what_it_records() {
    let mut t = Tab::new("a".to_string());
    match t.apply(TabUpdate::Progress(2000)) {
        Publication::Nav(NavUpdate::Progress(p)) => assert_eq!(p, 1000),
        other => panic!("unexpected {:?}", other),
    }
    assert_eq!(t.load_progress, 1000);
    match t.apply(TabUpdate::Phase(LoadPhase::Finished)) {
        Publication::Nav(NavUpdate::ProgressVisible(v)) => assert!(!v),
        other => panic!("unexpected {:?}", other),
    }
    assert!(matches!(t.navigate_to("b".to_string()), SurfaceCommand::LoadUri(u) if u == "b"));
    assert_eq!(t.uri, "b");
}

#[test]
fn observers_start_empty() {
    let bar = NavBar::new("u".to_string());
    assert_eq!(bar.uri, "u");
    assert!(bar.title.is_none());
    assert!(!bar.uri_editable);
    assert!(bar.sidebar_visible);
    let side = OutlineSidebar::new();
    assert!(side.outline.is_none());
    assert!(matches!(side.select_item(0), Err(SelectionError::NoOutline)));
}

#[test]
fn scroll_failure_is_only_warned() {
    let (mut app, id) = started();
    let err = ScriptError { message: "no element".to_string() };
    let dirs = app.engine_signal(id, EngineSignal::ScrollFinished(Err(err)));
    assert!(matches!(&dirs[..], [Directive::Warn(Warning::Surface(t, SurfaceFault::Script(_)))] if *t == id));
    assert!(app.engine_signal(id, EngineSignal::ScrollFinished(Ok(()))).is_empty());
}
