//! Workspaces: the part of the model that is bound to one screen and shows one
//! tag.

use super::tag::{Tag, TagId};
use super::xyhw::{limited_width, limited_x, Xyhw};
use super::window::Window;
use crate::layouts::monocle::monocle_window;
use crate::layouts::Layouts;
use vstd::prelude::*;

verus! {

/// The tag that a workspace shows.
#[derive(Debug)]
pub struct ShownTag {
    pub id: TagId,
    pub label: String,
}

/// A workspace.
#[derive(Debug)]
pub struct Workspace {
    pub id: Option<i32>,
    pub layout: Layouts,
    pub xyhw: Xyhw,
    pub max_window_width: Option<u32>,
    pub tag: Option<ShownTag>,
}

impl Workspace {
    /// A workspace that shows no tag yet.
    pub fn new(id: Option<i32>, bbox: Xyhw, layout: Layouts, max_window_width: Option<u32>) -> (workspace:
        Workspace)
        ensures
            workspace.id == id,
            workspace.xyhw == bbox,
            workspace.layout == layout,
            workspace.max_window_width == max_window_width,
            workspace.tag is None,
    {
        Workspace { id, layout, xyhw: bbox, max_window_width, tag: None }
    }

    /// Whether the workspace shows the tag with this label.
    pub open spec fn shows(self, label: Seq<char>) -> bool {
        self.tag matches Some(shown) && shown.label@ == label
    }

    /// The id of the tag that the workspace shows.
    pub open spec fn shown_id(self) -> Option<TagId> {
        match self.tag {
            Some(shown) => Some(shown.id),
            None => None,
        }
    }

    /// Makes `tag` the one tag that the workspace shows.
    pub fn show_tag(&mut self, tag: &Tag)
        ensures
            final(self).tag matches Some(shown) && shown.id == tag.id && shown.label == tag.label,
            final(self).id == old(self).id,
            final(self).layout == old(self).layout,
            final(self).xyhw == old(self).xyhw,
            final(self).max_window_width == old(self).max_window_width,
    {
        self.tag = Some(ShownTag { id: tag.id, label: tag.label.clone() });
    }

    /// Whether the workspace shows the tag with this label.
    pub fn has_tag(&self, label: &str) -> (shown: bool)
        ensures
            shown == self.shows(label@),
    {
        match &self.tag {
            Some(shown) => {
                let wanted: String = label.to_owned();
                shown.label == wanted
            },
            None => false,
        }
    }

    pub fn x(&self) -> (x: i32)
        ensures
            x == self.xyhw@.x,
    {
        self.xyhw.x()
    }

    pub fn y(&self) -> (y: i32)
        ensures
            y == self.xyhw@.y,
    {
        self.xyhw.y()
    }

    pub fn width(&self) -> (width: i32)
        ensures
            width == self.xyhw@.w,
            0 <= width,
    {
        self.xyhw.w()
    }

    pub fn height(&self) -> (height: i32)
        ensures
            height == self.xyhw@.h,
            0 <= height,
    {
        self.xyhw.h()
    }

    /// The region that `column_count` columns take of the workspace under its
    /// maximum window width: what a layout gets as its container.
    pub fn container(&self, column_count: usize) -> (region: Xyhw)
        ensures
            region@ == self.xyhw@.limited(self.max_window_width, column_count as int),
    {
        self.xyhw.limited(self.max_window_width, column_count)
    }

    /// Places the windows of the workspace as its layout has them.
    pub fn update_windows(&self, windows: &mut Vec<&mut Window>)
        ensures
            final(windows)@.len() == old(windows)@.len(),
            forall|i: int|
                0 <= i < old(windows)@.len() ==> *final(#[trigger] final(windows)@[i])
                    == *final(old(windows)@[i]),
            match self.layout {
                Layouts::Monocle => forall|i: int|
                    0 <= i < old(windows)@.len() ==> *#[trigger] final(windows)@[i]
                        == monocle_window(
                        *old(windows)@[i],
                        self.xyhw@.limited(self.max_window_width, 1),
                        i == 0,
                    ),
            },
    {
        self.layout.update_windows(self, windows)
    }

    /// The width that `column_count` columns take of the workspace under its
    /// maximum window width.
    pub fn width_limited(&self, column_count: usize) -> (width: i32)
        ensures
            width == limited_width(self.xyhw@.w, self.max_window_width, column_count as int),
            0 <= width <= self.xyhw@.w,
    {
        self.xyhw.width_limited(self.max_window_width, column_count)
    }

    /// The origin that centres those columns in the workspace.
    pub fn x_limited(&self, column_count: usize) -> (x: i32)
        ensures
            x == limited_x(self.xyhw@.x, self.xyhw@.w, self.max_window_width, column_count as int),
            self.xyhw@.x <= x,
            x + limited_width(self.xyhw@.w, self.max_window_width, column_count as int)
                <= self.xyhw@.x + self.xyhw@.w,
    {
        self.xyhw.x_limited(self.max_window_width, column_count)
    }
}

} // verus!
