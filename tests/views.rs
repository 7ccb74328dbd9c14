use project_views::cursor::{CursorMap, Motion};
use project_views::fetch::{project_url, projects_url, FetchError};
use project_views::project::{AllProjects, AllProjectsMessage, Project, ProjectMessage};
use project_views::render::{Area, ScrollTracker, SCROLL_TRACK_LENGTH};

fn pairs(items: &[(&str, &str)]) -> Vec<(String, String)> {
    items.iter().map(|(n, s)| (n.to_string(), s.to_string())).collect()
}

fn populated(items: &[(&str, &str)], map: &mut CursorMap) -> AllProjects {
    let mut view = AllProjects::create();
    view.update(AllProjectsMessage::ProjectSummaries(pairs(items)), map);
    view
}

fn selection(view: &AllProjects) -> Vec<bool> {
    view.entries().iter().map(|e| e.2).collect()
}

fn labels(map: &CursorMap) -> Vec<String> {
    (0..map.len()).map(|i| map.label(i).clone()).collect()
}

#[test]
fn detail_view_starts_with_name_and_empty_body() {
    for name in ["alpha", "", "with space", "ünïcode"] {
        let view = Project::create(name.to_string());
        assert_eq!(view.name(), name);
        assert_eq!(view.body(), "");
        assert_eq!(view.scroll(), 0);
    }
}

#[test]
fn summary_overwrites_body() {
    let mut map = CursorMap::new("root".to_string());
    let mut view = Project::create("alpha".to_string());
    view.update(ProjectMessage::Summary("X".to_string()), &mut map);
    assert_eq!(view.body(), "X");
    view.update(ProjectMessage::Summary("Y".to_string()), &mut map);
    assert_eq!(view.body(), "Y");
    assert_eq!(view.name(), "alpha");
}

#[test]
fn detail_update_clears_cursor_rows() {
    let mut map = CursorMap::new("root".to_string());
    map.append_and_push("stale".to_string());
    let mut view = Project::create("alpha".to_string());
    view.update(ProjectMessage::Summary("text".to_string()), &mut map);
    assert_eq!(labels(&map), vec!["root".to_string()]);
}

#[test]
fn cursor_on_second_row_selects_second_entry() {
    let mut map = CursorMap::new("root".to_string());
    let mut view = populated(&[("A", "a"), ("B", "b"), ("C", "c")], &mut map);
    map.set_position(0, 2);
    view.handle_motion(Motion::Down, &map);
    assert_eq!(selection(&view), vec![false, true, false]);
}

#[test]
fn cursor_off_entries_selects_nothing() {
    let mut map = CursorMap::new("root".to_string());
    let mut view = populated(&[("A", "a"), ("B", "b"), ("C", "c")], &mut map);
    map.set_position(0, 2);
    view.handle_motion(Motion::Down, &map);
    for (column, row) in [(0, 0), (1, 2), (0, 4), (3, 0)] {
        map.set_position(column, row);
        view.handle_motion(Motion::Right, &map);
        assert_eq!(selection(&view), vec![false, false, false]);
    }
}

#[test]
fn cursor_on_last_row_selects_last_entry() {
    let mut map = CursorMap::new("root".to_string());
    let mut view = populated(&[("A", "a"), ("B", "b"), ("C", "c")], &mut map);
    map.set_position(0, 3);
    view.handle_motion(Motion::Up, &map);
    assert_eq!(selection(&view), vec![false, false, true]);
}

#[test]
fn one_cursor_row_per_entry_in_order() {
    let mut map = CursorMap::new("root".to_string());
    let view = populated(&[("A", "a"), ("B", "b"), ("C", "c")], &mut map);
    assert_eq!(view.len(), 3);
    assert_eq!(labels(&map), vec!["root", "A", "B", "C"]);
}

#[test]
fn empty_list_adds_no_rows() {
    let mut map = CursorMap::new("root".to_string());
    let mut view = populated(&[], &mut map);
    assert_eq!(view.len(), 0);
    assert_eq!(labels(&map), vec!["root"]);
    map.set_position(0, 1);
    view.handle_motion(Motion::Down, &map);
    assert_eq!(view.len(), 0);
}

#[test]
fn repopulating_replaces_entries_and_rows() {
    let mut map = CursorMap::new("root".to_string());
    let mut view = populated(&[("A", "a"), ("B", "b"), ("C", "c")], &mut map);
    map.set_position(0, 1);
    view.handle_motion(Motion::Down, &map);
    view.update(AllProjectsMessage::ProjectSummaries(pairs(&[("D", "d"), ("E", "e")])), &mut map);
    let expected: Vec<(String, String, bool)> =
        vec![("D".to_string(), "d".to_string(), false), ("E".to_string(), "e".to_string(), false)];
    assert_eq!(view.entries(), &expected);
    assert_eq!(labels(&map), vec!["root", "D", "E"]);
}

#[test]
fn fetched_list_then_cursor_moves() {
    let mut map = CursorMap::new("root".to_string());
    let mut view = AllProjects::create();
    assert_eq!(view.endpoint("http://host:8080"), "http://host:8080/api/v1/projects");
    let fetched = Ok(pairs(&[("alpha", "sum-a"), ("beta", "sum-b")]));
    view.update(AllProjectsMessage::from_fetch(fetched), &mut map);
    let expected: Vec<(String, String, bool)> = vec![
        ("alpha".to_string(), "sum-a".to_string(), false),
        ("beta".to_string(), "sum-b".to_string(), false),
    ];
    assert_eq!(view.entries(), &expected);
    map.set_position(0, 1);
    view.handle_motion(Motion::Down, &map);
    assert_eq!(selection(&view), vec![true, false]);
    map.set_position(0, 0);
    view.handle_motion(Motion::Up, &map);
    assert_eq!(selection(&view), vec![false, false]);
}

#[test]
fn failed_detail_fetch_leaves_body_empty() {
    let mut map = CursorMap::new("root".to_string());
    let mut view = Project::create("alpha".to_string());
    assert_eq!(view.endpoint("http://host"), "http://host/api/v1/projects/alpha");
    view.update(ProjectMessage::from_fetch(Err(FetchError::Transport)), &mut map);
    assert_eq!(view.body(), "");
}

#[test]
fn failed_fetches_give_empty_payloads() {
    assert_eq!(ProjectMessage::from_fetch(Err(FetchError::Decode)), ProjectMessage::Summary(String::new()));
    assert_eq!(
        ProjectMessage::from_fetch(Ok("body".to_string())),
        ProjectMessage::Summary("body".to_string())
    );
    let mut map = CursorMap::new("root".to_string());
    let mut view = populated(&[("A", "a")], &mut map);
    view.update(AllProjectsMessage::from_fetch(Err(FetchError::Decode)), &mut map);
    assert_eq!(view.len(), 0);
    assert_eq!(labels(&map), vec!["root"]);
    view.update(AllProjectsMessage::from_fetch(Err(FetchError::Transport)), &mut map);
    assert_eq!(view.len(), 0);
}

#[test]
fn endpoint_urls() {
    assert_eq!(projects_url(""), "/api/v1/projects");
    assert_eq!(projects_url("http://localhost:3000"), "http://localhost:3000/api/v1/projects");
    assert_eq!(project_url("http://h", "beta"), "http://h/api/v1/projects/beta");
}

#[test]
fn detail_pane_layout() {
    let mut map = CursorMap::new("root".to_string());
    let mut view = Project::create("alpha".to_string());
    view.update(ProjectMessage::Summary("line one\nline two".to_string()), &mut map);
    let area = Area { x: 2, y: 5, width: 40, height: 10 };
    let pane = view.draw(area);
    assert_eq!(pane.area, area);
    assert_eq!(pane.title.as_deref(), Some("alpha"));
    assert_eq!(pane.lines.len(), 1);
    assert_eq!(pane.lines[0].text, "line one\nline two");
    assert!(!pane.lines[0].highlighted);
    assert_eq!(pane.scroll, 0);
    assert_eq!(pane.scrollbar, ScrollTracker { content_length: SCROLL_TRACK_LENGTH, position: 0 });
    assert_eq!(pane.scrollbar.content_length, 100);
    assert_eq!(pane.next, Area { x: 2, y: 15, width: 40, height: 10 });
}

#[test]
fn list_pane_highlights_selected_row() {
    let mut map = CursorMap::new("root".to_string());
    let mut view = populated(&[("A", "a"), ("B", "b")], &mut map);
    map.set_position(0, 2);
    view.handle_motion(Motion::Down, &map);
    let pane = view.draw(Area { x: 0, y: 0, width: 20, height: 7 });
    assert_eq!(pane.title, None);
    let lines: Vec<(String, bool)> = pane.lines.iter().map(|l| (l.text.clone(), l.highlighted)).collect();
    assert_eq!(lines, vec![("A".to_string(), false), ("B".to_string(), true)]);
    assert_eq!(pane.scrollbar.content_length, 100);
    assert_eq!(pane.next, Area { x: 0, y: 7, width: 20, height: 7 });
}

#[test]
fn area_below_reaches_bottom_edge() {
    let area = Area { x: 1, y: 65000, width: 3, height: 535 };
    assert_eq!(area.below(), Area { x: 1, y: 65535, width: 3, height: 535 });
}

#[test]
fn scroll_tracker_reset() {
    let mut t = ScrollTracker::new();
    assert_eq!(t, ScrollTracker { content_length: 0, position: 0 });
    t.position = 7;
    t.reset(100);
    assert_eq!(t, ScrollTracker { content_length: 100, position: 0 });
}

#[test]
fn cursor_map_operations() {
    let mut map = CursorMap::new("root".to_string());
    assert_eq!(map.get_position(), (0, 0));
    map.append_and_push("a".to_string());
    map.append_and_push("b".to_string());
    map.set_position(1, 2);
    assert_eq!(map.get_position(), (1, 2));
    map.clear_after(2);
    assert_eq!(labels(&map), vec!["root", "a"]);
    map.clear_after(5);
    assert_eq!(labels(&map), vec!["root", "a"]);
    assert_eq!(map.get_position(), (1, 2));
}
