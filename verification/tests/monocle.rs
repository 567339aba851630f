use leftwm_core::layouts::monocle;
use leftwm_core::layouts::{Layout, LayoutModifiers, Layouts, Monocle};
use leftwm_core::models::{Window, WindowHandle, Workspace, Xyhw, XyhwBuilder};

fn region(x: i32, y: i32, w: i32, h: i32) -> Xyhw {
    XyhwBuilder { x, y, w, h }.into()
}

fn modifiers(container: Xyhw) -> LayoutModifiers {
    LayoutModifiers {
        container,
        master_width_percentage: 50,
        master_window_count: 1,
    }
}

fn windows(count: i32) -> Vec<Window> {
    (0..count)
        .map(|i| {
            let mut window = Window::new(WindowHandle::MockHandle(i));
            window.set_x(7 + i);
            window.set_visible(i % 2 == 1);
            window.tags.push(3);
            window
        })
        .collect()
}

#[test]
fn monocle_should_return_only_one_size() {
    let calculated = Monocle::calculate(
        3,
        LayoutModifiers {
            container: XyhwBuilder {
                ..Default::default()
            }
            .into(),
            master_width_percentage: 50,
            master_window_count: 1,
        },
    );

    assert_eq!(calculated.len(), 3);
    assert!(calculated.get(0).unwrap().is_some());
    assert!(calculated.get(1).unwrap().is_none());
    assert!(calculated.get(2).unwrap().is_none());
}

#[test]
fn monocle_gives_the_first_window_the_container() {
    let container = region(10, 20, 800, 600);
    let calculated = Monocle::calculate(4, modifiers(container));
    assert_eq!(calculated, vec![Some(container), None, None, None]);
}

#[test]
fn monocle_of_no_window_is_empty() {
    let calculated = Monocle::calculate(0, modifiers(region(0, 0, 800, 600)));
    assert!(calculated.is_empty());
}

#[test]
fn monocle_of_one_window_is_the_container() {
    let container = region(0, 0, 1920, 1080);
    assert_eq!(Monocle::calculate(1, modifiers(container)), vec![Some(container)]);
}

#[test]
fn every_count_gives_as_many_slots() {
    for count in [0u8, 1, 2, 17, 255] {
        let calculated = Layouts::Monocle.calculate(count, modifiers(region(0, 0, 100, 100)));
        assert_eq!(calculated.len(), count as usize);
    }
}

#[test]
fn update_shows_the_first_window_only() {
    let workspace = Workspace::new(Some(0), region(5, 6, 1000, 700), Layouts::Monocle, None);
    let mut owned = windows(3);
    {
        let mut refs: Vec<&mut Window> = owned.iter_mut().collect();
        monocle::update(&workspace, &mut refs);
        assert_eq!(refs.len(), 3);
    }
    for (i, window) in owned.iter().enumerate() {
        assert_eq!(window.visible(), i == 0);
        assert_eq!((window.x, window.y, window.width, window.height), (5, 6, 1000, 700));
        assert_eq!(window.handle, WindowHandle::MockHandle(i as i32));
        assert_eq!(window.tags, vec![3]);
    }
}

#[test]
fn update_limits_the_width_to_one_column() {
    let workspace = Workspace::new(Some(0), region(100, 0, 1000, 700), Layouts::Monocle, Some(400));
    let mut owned = windows(2);
    {
        let mut refs: Vec<&mut Window> = owned.iter_mut().collect();
        workspace.update_windows(&mut refs);
    }
    for window in &owned {
        assert_eq!((window.x, window.y, window.width, window.height), (400, 0, 400, 700));
    }
    assert!(owned[0].visible());
    assert!(!owned[1].visible());
}

#[test]
fn update_of_no_window_changes_nothing() {
    let workspace = Workspace::new(Some(0), region(0, 0, 10, 10), Layouts::Monocle, None);
    let mut refs: Vec<&mut Window> = Vec::new();
    monocle::update(&workspace, &mut refs);
    assert!(refs.is_empty());
}

#[test]
fn update_and_calculate_agree_on_the_first_window() {
    let workspace = Workspace::new(Some(0), region(0, 0, 1000, 700), Layouts::Monocle, Some(300));
    let container = workspace.container(1);
    let calculated = Monocle::calculate(2, modifiers(container));
    let mut owned = windows(2);
    {
        let mut refs: Vec<&mut Window> = owned.iter_mut().collect();
        Layouts::Monocle.update_windows(&workspace, &mut refs);
    }
    let first = calculated[0].unwrap();
    assert_eq!((first.x(), first.y(), first.w(), first.h()), (350, 0, 300, 700));
    assert_eq!(
        (owned[0].x, owned[0].y, owned[0].width, owned[0].height),
        (first.x(), first.y(), first.w(), first.h())
    );
}
