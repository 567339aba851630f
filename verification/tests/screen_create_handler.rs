use leftwm_core::config::{Config, FocusBehaviour};
use leftwm_core::layouts::Layouts;
use leftwm_core::models::{Screen, Tag, XyhwBuilder};
use leftwm_core::Manager;

fn screen(wsid: Option<i32>) -> Screen {
    Screen {
        wsid,
        ..Screen::default()
    }
}

fn labels(manager: &Manager) -> Vec<String> {
    manager.state.tags.iter().map(|tag| tag.label.clone()).collect()
}

fn workspace_ids(manager: &Manager) -> Vec<Option<i32>> {
    manager.state.workspaces.iter().map(|workspace| workspace.id).collect()
}

#[test]
fn creating_two_screens_should_tag_them_with_first_and_second_tags() {
    let mut manager = Manager::new_test(vec!["1".to_string(), "2".to_string()]);
    manager.screen_create_handler(Screen::default());
    manager.screen_create_handler(Screen::default());
    assert!(manager.state.workspaces[0].has_tag("1"));
    assert!(manager.state.workspaces[1].has_tag("2"));
}

#[test]
fn should_be_able_to_add_screens_with_preexisting_tags() {
    let mut manager = Manager::new_test(vec![
        "web".to_string(),
        "console".to_string(),
        "code".to_string(),
    ]);
    manager.screen_create_handler(Screen::default());
    manager.screen_create_handler(Screen::default());
    assert!(manager.state.workspaces[0].has_tag("web"));
    assert!(manager.state.workspaces[1].has_tag("console"));
}

#[test]
fn preexisting_tags_are_left_as_they_are() {
    let mut manager = Manager::new_test(vec![
        "web".to_string(),
        "console".to_string(),
        "code".to_string(),
    ]);
    manager.screen_create_handler(Screen::default());
    manager.screen_create_handler(Screen::default());
    assert_eq!(labels(&manager), vec!["web", "console", "code"]);
    assert!(!manager.state.workspaces[0].has_tag("console"));
    assert!(!manager.state.workspaces[1].has_tag("code"));
}

#[test]
fn new_test_numbers_the_tags_from_one() {
    let manager = Manager::new_test(vec!["web".to_string(), "code".to_string()]);
    let ids: Vec<usize> = manager.state.tags.iter().map(|tag| tag.id).collect();
    assert_eq!(ids, vec![1, 2]);
    assert_eq!(labels(&manager), vec!["web", "code"]);
    assert!(manager.state.tags.iter().all(|tag| !tag.hidden && tag.layout == Layouts::Monocle));
    assert!(manager.state.workspaces.is_empty());
    assert!(manager.state.screens.is_empty());
    assert!(manager.state.check_wf());
}

#[test]
fn handler_asks_for_no_render() {
    let mut manager = Manager::new_test(vec![]);
    assert!(!manager.screen_create_handler(Screen::default()));
}

#[test]
fn missing_tags_are_made() {
    let mut manager = Manager::new_test(vec![]);
    for _ in 0..3 {
        assert!(manager.can_create_screen(&Screen::default()));
        manager.screen_create_handler(Screen::default());
    }
    assert_eq!(labels(&manager), vec!["1", "2", "3"]);
    let ids: Vec<usize> = manager.state.tags.iter().map(|tag| tag.id).collect();
    assert_eq!(ids, vec![1, 2, 3]);
    assert!(manager.state.workspaces[2].has_tag("3"));
    assert_eq!(manager.state.workspaces[2].tag.as_ref().unwrap().id, 3);
    assert!(manager.state.check_wf());
}

#[test]
fn one_tag_for_two_screens_gets_a_second() {
    let mut manager = Manager::new_test(vec!["web".to_string()]);
    manager.screen_create_handler(Screen::default());
    assert_eq!(labels(&manager), vec!["web"]);
    manager.screen_create_handler(Screen::default());
    assert_eq!(labels(&manager), vec!["web", "2"]);
    assert_eq!(manager.state.tags[1].id, 2);
    assert!(manager.state.workspaces[1].has_tag("2"));
}

#[test]
fn workspace_ids_count_up_from_zero() {
    let mut manager = Manager::new_test(vec!["a".to_string()]);
    let mut tag_count = manager.state.tags.len();
    for expected in 0..12 {
        assert_eq!(manager.state.next_workspace_id(), Some(expected));
        manager.screen_create_handler(Screen::default());
        assert!(manager.state.tags.len() >= tag_count);
        tag_count = manager.state.tags.len();
        assert_eq!(manager.state.workspaces.last().unwrap().id, Some(expected));
    }
    assert_eq!(workspace_ids(&manager), (0..12).map(Some).collect::<Vec<_>>());
    assert_eq!(manager.state.screens.len(), 12);
    assert_eq!(manager.state.tags.len(), 12);
}

#[test]
fn asked_id_is_given_and_workspaces_stay_in_order() {
    let mut manager = Manager::new_test(vec![]);
    manager.screen_create_handler(screen(Some(5)));
    manager.screen_create_handler(screen(Some(2)));
    manager.screen_create_handler(screen(None));
    manager.screen_create_handler(screen(Some(2)));
    assert_eq!(workspace_ids(&manager), vec![Some(2), Some(2), Some(5), Some(6)]);
    assert!(manager.state.workspaces[0].has_tag("2"));
    assert!(manager.state.workspaces[1].has_tag("4"));
    assert!(manager.state.workspaces[2].has_tag("1"));
    assert!(manager.state.workspaces[3].has_tag("3"));
    assert_eq!(manager.state.insert_position(2), 2);
    assert_eq!(manager.state.insert_position(1), 0);
    assert_eq!(manager.state.insert_position(7), 4);
    assert!(manager.state.check_wf());
}

#[test]
fn negative_ids_are_followed_by_the_next() {
    let mut manager = Manager::new_test(vec![]);
    manager.screen_create_handler(screen(Some(-5)));
    assert_eq!(manager.state.next_workspace_id(), Some(-4));
    manager.screen_create_handler(screen(None));
    assert_eq!(workspace_ids(&manager), vec![Some(-5), Some(-4)]);
}

#[test]
fn id_beyond_the_tags_is_flagged_and_taken() {
    let mut manager = Manager::new_test(vec!["a".to_string(), "b".to_string()]);
    assert!(manager.state.workspace_id_in_range(0));
    assert!(manager.state.workspace_id_in_range(1));
    assert!(!manager.state.workspace_id_in_range(2));
    assert!(!manager.state.workspace_id_in_range(-1));
    manager.screen_create_handler(screen(Some(9)));
    assert_eq!(workspace_ids(&manager), vec![Some(9)]);
    assert!(manager.state.workspaces[0].has_tag("a"));
}

#[test]
fn greatest_id_leaves_no_next() {
    let mut manager = Manager::new_test(vec![]);
    manager.screen_create_handler(screen(Some(i32::MAX)));
    assert_eq!(manager.state.next_workspace_id(), None);
    assert!(!manager.can_create_screen(&screen(None)));
    assert!(manager.can_create_screen(&screen(Some(3))));
}

#[test]
fn hidden_tag_is_not_counted() {
    let mut manager = Manager::new_test(vec!["a".to_string()]);
    let mut hidden = Tag::new(2, "NSP", Layouts::Monocle);
    hidden.hidden = true;
    manager.state.tags.push(hidden);
    assert_eq!(manager.state.visible_tag_count(), 1);
    manager.screen_create_handler(Screen::default());
    assert_eq!(labels(&manager), vec!["a", "NSP"]);
    manager.screen_create_handler(Screen::default());
    assert_eq!(labels(&manager), vec!["a", "2", "NSP"]);
    assert!(manager.state.workspaces[1].has_tag("2"));
    assert_eq!(manager.state.visible_tag_count(), 2);
}

#[test]
fn ill_formed_model_is_told() {
    let mut manager = Manager::new_test(vec![]);
    manager.screen_create_handler(Screen::default());
    manager.state.tags.clear();
    assert!(!manager.state.check_wf());
    assert!(!manager.can_create_screen(&Screen::default()));
    let mut manager = Manager::new_test(vec![]);
    manager.screen_create_handler(screen(Some(1)));
    manager.screen_create_handler(screen(Some(0)));
    manager.state.workspaces.swap(0, 1);
    assert!(!manager.state.check_wf());
    manager.state.workspaces.swap(0, 1);
    assert!(manager.state.check_wf());
    manager.state.workspaces[0].id = None;
    assert!(!manager.state.check_wf());
}

#[test]
fn workspace_takes_region_and_width_of_the_screen() {
    let mut manager = Manager::new(Config {
        max_window_width: Some(640),
        focus_behaviour: FocusBehaviour::ClickTo,
    });
    let bbox = XyhwBuilder { x: 1920, y: 0, w: 1280, h: 1024 }.into();
    manager.screen_create_handler(Screen { bbox, wsid: None, max_window_width: Some(800) });
    manager.screen_create_handler(Screen { bbox, wsid: None, max_window_width: None });
    assert_eq!(manager.state.workspaces[0].xyhw, bbox);
    assert_eq!(manager.state.workspaces[0].max_window_width, Some(800));
    assert_eq!(manager.state.workspaces[1].max_window_width, Some(640));
    assert_eq!(manager.state.workspaces[0].layout, Layouts::Monocle);
    assert_eq!(manager.state.screens.len(), 2);
    assert_eq!(manager.state.screens[1].max_window_width, None);
    assert_eq!(manager.state.config.max_window_width(), Some(640));
}

#[test]
fn new_workspace_and_its_tag_get_the_focus() {
    let mut manager = Manager::new_test(vec!["web".to_string(), "code".to_string()]);
    manager.screen_create_handler(Screen::default());
    assert_eq!(manager.state.focus_manager.workspace(), Some(0));
    assert_eq!(manager.state.focus_manager.tag(), Some(1));
    manager.screen_create_handler(Screen::default());
    assert_eq!(manager.state.focus_manager.workspace(), Some(1));
    assert_eq!(manager.state.focus_manager.tag(), Some(2));
    assert_eq!(manager.state.focus_manager.workspace_history, vec![1, 0]);
    assert_eq!(manager.state.focus_manager.tag_history, vec![2, 1]);
    assert_eq!(manager.state.focus_manager.window(), None);
}
