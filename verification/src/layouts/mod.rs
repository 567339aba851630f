//! Layouts: the algorithms that give the windows of a workspace their regions.

pub mod monocle;

use crate::models::{Window, Workspace, Xyhw};
use monocle::{monocle_regions, monocle_window};
use vstd::prelude::*;

pub use monocle::Monocle;

verus! {

/// The layouts that a tag can have.
#[derive(Clone, Copy, Debug, PartialEq, Eq, Structural, Hash)]
pub enum Layouts {
    Monocle,
}

impl Layouts {
    /// The regions that this layout gives `window_count` windows.
    pub fn calculate(&self, window_count: u8, modifiers: LayoutModifiers) -> (regions: Vec<
        Option<Xyhw>,
    >)
        ensures
            regions@.len() == window_count,
            match self {
                Layouts::Monocle => regions@ == monocle_regions(
                    window_count as nat,
                    modifiers.container,
                ),
            },
    {
        match self {
            Layouts::Monocle => Monocle::calculate(window_count, modifiers),
        }
    }

    /// Places the windows of a workspace as this layout has them.
    pub fn update_windows(&self, workspace: &Workspace, windows: &mut Vec<&mut Window>)
        ensures
            final(windows)@.len() == old(windows)@.len(),
            forall|i: int|
                0 <= i < old(windows)@.len() ==> *final(#[trigger] final(windows)@[i])
                    == *final(old(windows)@[i]),
            match self {
                Layouts::Monocle => forall|i: int|
                    0 <= i < old(windows)@.len() ==> *#[trigger] final(windows)@[i]
                        == monocle_window(
                        *old(windows)@[i],
                        workspace.xyhw@.limited(workspace.max_window_width, 1),
                        i == 0,
                    ),
            },
    {
        match self {
            Layouts::Monocle => monocle::update(workspace, windows),
        }
    }
}

/// Hands out the layout that new tags and workspaces start with.
#[derive(Clone, Copy, Debug, PartialEq, Eq)]
pub struct LayoutManager {
    pub default: Layouts,
}

impl LayoutManager {
    pub fn new_layout(&self) -> (layout: Layouts)
        ensures
            layout == self.default,
    {
        self.default
    }
}

impl Default for LayoutManager {
    fn default() -> (manager: Self)
        ensures
            manager.default == Layouts::Monocle,
    {
        LayoutManager { default: Layouts::Monocle }
    }
}

/// What a layout is given besides the number of windows.
#[derive(Clone, Copy, Debug, PartialEq, Eq)]
pub struct LayoutModifiers {
    /// The region that the windows share.
    pub container: Xyhw,
    /// The share of the width that the master pane takes, in percent.
    pub master_width_percentage: u8,
    /// The number of windows in the master pane.
    pub master_window_count: u8,
}

/// A layout gives every window slot a region, or none.
pub trait Layout {
    /// One entry for each of `window_count` windows, in the caller's order:
    /// the window's region, or `None` for a window that the layout does not
    /// place.
    fn calculate(window_count: u8, modifiers: LayoutModifiers) -> (regions: Vec<Option<Xyhw>>)
        ensures
            regions@.len() == window_count,
    ;
}

} // verus!
