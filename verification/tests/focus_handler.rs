use leftwm_core::config::Config;
use leftwm_core::layouts::Layouts;
use leftwm_core::models::{
    find_tag, FocusManager, Screen, Tag, Window, WindowHandle, Workspace, XyhwBuilder,
    FOCUS_HISTORY_LIMIT,
};
use leftwm_core::Manager;

fn manager_with_windows(count: i32) -> Manager {
    let mut manager = Manager::new_test(vec!["web".to_string(), "code".to_string()]);
    for i in 0..count {
        manager.state.windows.push(Window::new(WindowHandle::MockHandle(i)));
    }
    manager
}

fn workspace(id: Option<i32>, tag: Option<&Tag>) -> Workspace {
    let mut workspace = Workspace::new(id, XyhwBuilder::default().into(), Layouts::Monocle, None);
    if let Some(tag) = tag {
        workspace.show_tag(tag);
    }
    workspace
}

#[test]
fn window_that_asks_gets_the_focus() {
    let mut manager = manager_with_windows(3);
    assert!(manager.focus_window(&WindowHandle::MockHandle(1)));
    assert_eq!(manager.state.focus_manager.window(), Some(WindowHandle::MockHandle(1)));
    assert!(manager.focus_window(&WindowHandle::MockHandle(2)));
    assert_eq!(
        manager.state.focus_manager.window_history,
        vec![WindowHandle::MockHandle(2), WindowHandle::MockHandle(1)]
    );
}

#[test]
fn focused_window_that_asks_again_changes_nothing() {
    let mut manager = manager_with_windows(3);
    manager.focus_window(&WindowHandle::MockHandle(1));
    manager.focus_window(&WindowHandle::MockHandle(2));
    let before = format!("{:?}", manager);
    assert!(!manager.focus_window(&WindowHandle::MockHandle(2)));
    assert_eq!(format!("{:?}", manager), before);
    assert_eq!(manager.state.focus_manager.window_history.len(), 2);
}

#[test]
fn unknown_window_gets_no_focus() {
    let mut manager = manager_with_windows(2);
    let before = format!("{:?}", manager);
    assert!(!manager.focus_window(&WindowHandle::MockHandle(5)));
    assert!(!manager.focus_window(&WindowHandle::XlibHandle(1)));
    assert_eq!(format!("{:?}", manager), before);
}

#[test]
fn history_keeps_the_latest_entries() {
    let mut manager = manager_with_windows(30);
    for i in 0..30 {
        manager.focus_window(&WindowHandle::MockHandle(i));
    }
    let expected: Vec<WindowHandle> = (20..30).rev().map(WindowHandle::MockHandle).collect();
    assert_eq!(expected.len(), FOCUS_HISTORY_LIMIT);
    assert_eq!(manager.state.focus_manager.window_history, expected);
}

#[test]
fn workspace_focus_takes_its_tag_along() {
    let mut manager = Manager::new_test(vec!["web".to_string(), "code".to_string()]);
    let first = workspace(Some(0), Some(&manager.state.tags[0]));
    let second = workspace(Some(1), Some(&manager.state.tags[1]));
    assert!(manager.focus_workspace(&first));
    assert!(manager.focus_workspace(&second));
    assert!(!manager.focus_workspace(&second));
    assert!(manager.focus_workspace(&first));
    assert_eq!(manager.state.focus_manager.workspace_history, vec![0, 1, 0]);
    assert_eq!(manager.state.focus_manager.tag_history, vec![1, 2, 1]);
    assert_eq!(manager.state.focus_manager.workspace(), Some(0));
    assert_eq!(manager.state.focus_manager.tag(), Some(1));
}

#[test]
fn workspace_without_an_id_gets_no_focus() {
    let mut manager = Manager::new_test(vec!["web".to_string()]);
    let nameless = workspace(None, Some(&manager.state.tags[0]));
    assert!(!manager.focus_workspace(&nameless));
    assert!(manager.state.focus_manager.workspace_history.is_empty());
    assert!(manager.state.focus_manager.tag_history.is_empty());
}

#[test]
fn workspace_that_shows_no_tag_leaves_the_tags() {
    let mut manager = Manager::new_test(vec!["web".to_string()]);
    assert!(manager.focus_workspace(&workspace(Some(4), None)));
    assert_eq!(manager.state.focus_manager.workspace_history, vec![4]);
    assert!(manager.state.focus_manager.tag_history.is_empty());
}

#[test]
fn tag_focus_goes_to_the_workspaces_that_show_it() {
    let mut manager = Manager::new_test(vec!["web".to_string(), "code".to_string()]);
    manager.screen_create_handler(Screen::default());
    manager.screen_create_handler(Screen::default());
    assert_eq!(manager.state.focus_manager.workspace(), Some(1));
    assert!(manager.focus_tag("web"));
    assert_eq!(manager.state.focus_manager.tag(), Some(1));
    assert_eq!(manager.state.focus_manager.workspace(), Some(0));
    assert_eq!(manager.state.focus_manager.workspace_history, vec![0, 1, 0]);
    assert_eq!(manager.state.focus_manager.tag_history, vec![1, 2, 1]);
}

#[test]
fn focused_or_unknown_tag_changes_nothing() {
    let mut manager = Manager::new_test(vec!["web".to_string(), "code".to_string()]);
    manager.screen_create_handler(Screen::default());
    let before = format!("{:?}", manager);
    assert!(!manager.focus_tag("web"));
    assert!(!manager.focus_tag("mail"));
    assert_eq!(format!("{:?}", manager), before);
}

#[test]
fn first_tag_of_a_label_is_found() {
    let tags = vec![
        Tag::new(1, "web", Layouts::Monocle),
        Tag::new(2, "code", Layouts::Monocle),
        Tag::new(3, "code", Layouts::Monocle),
    ];
    assert_eq!(find_tag(&tags, "web"), Some(0));
    assert_eq!(find_tag(&tags, "code"), Some(1));
    assert_eq!(find_tag(&tags, "cod"), None);
    assert_eq!(find_tag(&Vec::new(), "web"), None);
}

#[test]
fn tag_focus_by_the_first_of_a_label() {
    let tags = vec![Tag::new(7, "code", Layouts::Monocle), Tag::new(8, "code", Layouts::Monocle)];
    let workspaces = vec![
        workspace(Some(3), Some(&tags[1])),
        workspace(None, Some(&tags[0])),
        workspace(Some(5), None),
        workspace(Some(6), Some(&tags[0])),
    ];
    let mut focus = FocusManager::new();
    assert!(focus.focus_tag(&tags, &workspaces, "code"));
    assert_eq!(focus.tag_history, vec![7]);
    assert_eq!(focus.workspace_history, vec![6, 3]);
    assert!(!focus.focus_tag(&tags, &workspaces, "code"));
    assert_eq!(focus.workspace_history, vec![6, 3]);
}

#[test]
fn empty_manager_has_no_focus() {
    let manager = Manager::new(Config::default());
    assert_eq!(manager.state.focus_manager.workspace(), None);
    assert_eq!(manager.state.focus_manager.tag(), None);
    assert_eq!(manager.state.focus_manager.window(), None);
    assert!(manager.state.tags.is_empty());
}

#[test]
fn tag_clone_is_the_same_tag() {
    let tag = Tag::new(4, "mail", Layouts::Monocle);
    let copy = tag.clone();
    assert_eq!((copy.id, copy.label.as_str(), copy.hidden, copy.layout), (4, "mail", false, Layouts::Monocle));
}
