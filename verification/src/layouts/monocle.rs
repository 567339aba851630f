//! The layout that gives one window the whole workspace.

use super::{Layout, LayoutModifiers};
use crate::models::{lemma_limited_within, Rect, Window, Workspace, Xyhw};
use vstd::prelude::*;

verus! {

/// The regions of the monocle layout: the container for the first window, none
/// for the others.
pub open spec fn monocle_regions(window_count: nat, container: Xyhw) -> Seq<Option<Xyhw>> {
    Seq::new(
        window_count,
        |i: int|
            if i == 0 {
                Some(container)
            } else {
                None
            },
    )
}

/// A window as the monocle layout leaves it: in `region`, shown if it is the
/// first, and otherwise as it was.
pub open spec fn monocle_window(before: Window, region: Rect, first: bool) -> Window {
    Window {
        x: region.x as i32,
        y: region.y as i32,
        width: region.w as i32,
        height: region.h as i32,
        visible: first,
        ..before
    }
}

/// Gives every window the workspace's region, limited to one column of the
/// maximum window width, and shows the first window only. The windows that are
/// hidden get the region too. With no window, nothing changes.
pub fn update(workspace: &Workspace, windows: &mut Vec<&mut Window>)
    ensures
        final(windows)@.len() == old(windows)@.len(),
        forall|i: int|
            0 <= i < old(windows)@.len() ==> *#[trigger] final(windows)@[i] == monocle_window(
                *old(windows)@[i],
                workspace.xyhw@.limited(workspace.max_window_width, 1),
                i == 0,
            ),
        forall|i: int|
            0 <= i < old(windows)@.len() ==> *final(#[trigger] final(windows)@[i])
                == *final(old(windows)@[i]),
{
    let window_count: usize = windows.len();
    if window_count == 0 {
        return ;
    }
    let region: Xyhw = workspace.xyhw.limited(workspace.max_window_width, 1);
    region.validity();
    let mut i: usize = 0;
    while i < window_count
        invariant
            i <= window_count,
            windows@.len() == window_count,
            old(windows)@.len() == window_count,
            region@ == workspace.xyhw@.limited(workspace.max_window_width, 1),
            region@.valid(),
            forall|j: int|
                0 <= j < i ==> *#[trigger] windows@[j] == monocle_window(
                    *old(windows)@[j],
                    region@,
                    j == 0,
                ),
            forall|j: int| i <= j < window_count ==> *#[trigger] windows@[j] == *old(windows)@[j],
            forall|j: int|
                0 <= j < window_count ==> *final(#[trigger] windows@[j])
                    == *final(old(windows)@[j]),
        decreases window_count - i,
    {
        windows[i].set_height(region.h());
        windows[i].set_width(region.w());
        windows[i].set_x(region.x());
        windows[i].set_y(region.y());
        windows[i].set_visible(i == 0);
        i = i + 1;
    }
}

/// The two ways into the layout agree: where the container is the workspace's
/// region limited to one column, the first window is shown in the region
/// that `calculate` gives the first slot, and every other window is hidden,
/// as a slot of `None` says, with the same region for its geometry.
pub proof fn lemma_update_matches_calculate(
    before: Window,
    workspace: Workspace,
    container: Xyhw,
    window_count: nat,
    i: int,
)
    requires
        workspace.xyhw@.valid(),
        container@ == workspace.xyhw@.limited(workspace.max_window_width, 1),
        0 <= i < window_count,
    ensures
        container@.valid(),
        monocle_window(before, container@, i == 0).visible == (monocle_regions(
            window_count,
            container,
        )[i] is Some),
        monocle_window(before, container@, i == 0).x == container@.x,
        monocle_window(before, container@, i == 0).y == container@.y,
        monocle_window(before, container@, i == 0).width == container@.w,
        monocle_window(before, container@, i == 0).height == container@.h,
        monocle_regions(window_count, container)[0] == Some(container),
{
    lemma_limited_within(workspace.xyhw@, workspace.max_window_width, 1);
}

/// The monocle layout.
pub struct Monocle;

impl Layout for Monocle {
    /// The container for the first window and `None` for every other.
    fn calculate(window_count: u8, modifiers: LayoutModifiers) -> (regions: Vec<Option<Xyhw>>)
        ensures
            regions@ == monocle_regions(window_count as nat, modifiers.container),
            window_count >= 1 ==> regions@[0] == Some(modifiers.container),
            forall|i: int| 1 <= i < window_count ==> regions@[i] is None,
    {
        let mut regions: Vec<Option<Xyhw>> = Vec::new();
        let mut i: u8 = 0;
        while i < window_count
            invariant
                i <= window_count,
                regions@ == monocle_regions(i as nat, modifiers.container),
            decreases window_count - i,
        {
            if i == 0 {
                regions.push(Some(modifiers.container));
            } else {
                regions.push(None);
            }
            i = i + 1;
        }
        regions
    }
}

} // verus!
