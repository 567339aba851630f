//! The histories of what had the focus: workspaces, tags and windows.

use super::tag::{Tag, TagId};
use super::window::{Window, WindowHandle};
use super::workspace::Workspace;
use vstd::prelude::*;

verus! {

/// The number of entries that a focus history keeps.
pub const FOCUS_HISTORY_LIMIT: usize = 10;

/// A history with `item` put before it, the oldest entry dropped where the
/// history is full.
pub open spec fn remembered<T>(history: Seq<T>, item: T) -> Seq<T> {
    if history.len() < FOCUS_HISTORY_LIMIT {
        seq![item] + history
    } else {
        seq![item] + history.take(FOCUS_HISTORY_LIMIT - 1)
    }
}

/// A history after `item` got the focus: as it was where `item` had the focus
/// already, and with `item` put before it otherwise.
pub open spec fn focused<T>(history: Seq<T>, item: T) -> Seq<T> {
    if history.len() > 0 && history[0] == item {
        history
    } else {
        remembered(history, item)
    }
}

/// What has the focus in a history: its first entry.
pub open spec fn current<T>(history: Seq<T>) -> Option<T> {
    if history.len() > 0 {
        Some(history[0])
    } else {
        None
    }
}

/// To give the focus to what has it changes nothing, and after any focus the
/// item has it.
pub proof fn lemma_focused_idempotent<T>(history: Seq<T>, item: T)
    ensures
        current(focused(history, item)) == Some(item),
        focused(focused(history, item), item) == focused(history, item),
        current(history) == Some(item) ==> focused(history, item) == history,
{
}

/// A focus never makes a history longer than the limit, and never repeats the
/// entry before it.
pub proof fn lemma_focused_bounded<T>(history: Seq<T>, item: T)
    requires
        history.len() <= FOCUS_HISTORY_LIMIT,
    ensures
        focused(history, item).len() <= FOCUS_HISTORY_LIMIT,
        focused(history, item).len() >= history.len(),
        no_repeats(history) ==> no_repeats(focused(history, item)),
{
    let after = focused(history, item);
    if no_repeats(history) {
        assert forall|i: int| 0 <= i < after.len() - 1 implies #[trigger] after[i] != after[i + 1] by {
            if !(history.len() > 0 && history[0] == item) {
                if i > 0 {
                    assert(after[i] == history[i - 1]);
                    assert(after[i + 1] == history[i]);
                }
            }
        }
    }
}

/// No entry of the history is followed by itself.
pub open spec fn no_repeats<T>(history: Seq<T>) -> bool {
    forall|i: int| 0 <= i < history.len() - 1 ==> #[trigger] history[i] != history[i + 1]
}

fn remember<T>(history: &mut Vec<T>, item: T)
    ensures
        final(history)@ == remembered(old(history)@, item),
{
    history.truncate(FOCUS_HISTORY_LIMIT - 1);
    history.insert(0, item);
    assert(history@ =~= remembered(old(history)@, item));
}

/// The index of the first tag with this label is `i`.
pub open spec fn is_first_labelled(tags: Seq<Tag>, label: Seq<char>, i: int) -> bool {
    &&& 0 <= i < tags.len()
    &&& tags[i].label@ == label
    &&& forall|j: int| 0 <= j < i ==> tags[j].label@ != label
}

/// The index of the first tag with this label, if a tag has it.
pub open spec fn tag_labelled(tags: Seq<Tag>, label: Seq<char>) -> Option<int> {
    if exists|i: int| is_first_labelled(tags, label, i) {
        Some(choose|i: int| is_first_labelled(tags, label, i))
    } else {
        None
    }
}

/// A workspace history after each workspace that shows the tag with this
/// label got the focus, in the order of the workspaces. A workspace without
/// an id gets none.
pub open spec fn focus_showing(history: Seq<i32>, workspaces: Seq<Workspace>, label: Seq<char>) -> Seq<
    i32,
>
    decreases workspaces.len(),
{
    if workspaces.len() == 0 {
        history
    } else {
        let before = focus_showing(history, workspaces.drop_last(), label);
        let last = workspaces.last();
        match last.id {
            Some(id) if last.shows(label) => focused(before, id),
            _ => before,
        }
    }
}

/// Whether a window with this handle is among `windows`.
pub open spec fn is_managed(windows: Seq<Window>, handle: WindowHandle) -> bool {
    exists|i: int| 0 <= i < windows.len() && #[trigger] windows[i].handle == handle
}

/// The three histories of the focus, the most recent entry first.
pub struct Focus {
    /// The ids of the workspaces.
    pub workspaces: Seq<i32>,
    /// The ids of the tags.
    pub tags: Seq<TagId>,
    pub windows: Seq<WindowHandle>,
}

impl Focus {
    /// The focus after a workspace with this id, which shows this tag, got
    /// it: the workspace has the focus, and so has the tag that it shows. A
    /// workspace without an id gets no focus.
    pub open spec fn workspace_focused(self, id: Option<i32>, shown: Option<TagId>) -> Focus {
        match id {
            Some(id) => Focus {
                workspaces: focused(self.workspaces, id),
                tags: match shown {
                    Some(tag) => focused(self.tags, tag),
                    None => self.tags,
                },
                windows: self.windows,
            },
            None => self,
        }
    }

    /// The focus after the tag with this label got it. Nothing changes where
    /// no tag has the label or the first tag that has it has the focus.
    /// Otherwise that tag gets the focus, and then each workspace that shows
    /// a tag with the label.
    pub open spec fn tag_focused(
        self,
        tags: Seq<Tag>,
        workspaces: Seq<Workspace>,
        label: Seq<char>,
    ) -> Focus {
        match tag_labelled(tags, label) {
            Some(i) => if current(self.tags) == Some(tags[i].id) {
                self
            } else {
                Focus {
                    workspaces: focus_showing(self.workspaces, workspaces, label),
                    tags: remembered(self.tags, tags[i].id),
                    windows: self.windows,
                }
            },
            None => self,
        }
    }

    /// The focus after this window asked for it: the window has it, if it is
    /// one of `windows`.
    pub open spec fn window_focused(self, windows: Seq<Window>, handle: WindowHandle) -> Focus {
        if is_managed(windows, handle) {
            Focus { windows: focused(self.windows, handle), ..self }
        } else {
            self
        }
    }
}

/// What had the focus, the most recent first.
#[derive(Debug)]
pub struct FocusManager {
    /// The ids of the workspaces.
    pub workspace_history: Vec<i32>,
    /// The ids of the tags.
    pub tag_history: Vec<TagId>,
    pub window_history: Vec<WindowHandle>,
}

impl View for FocusManager {
    type V = Focus;

    open spec fn view(&self) -> Focus {
        Focus {
            workspaces: self.workspace_history@,
            tags: self.tag_history@,
            windows: self.window_history@,
        }
    }
}

/// The index of the first tag with this label.
pub fn find_tag(tags: &Vec<Tag>, label: &str) -> (found: Option<usize>)
    ensures
        match found {
            Some(i) => tag_labelled(tags@, label@) == Some(i as int),
            None => tag_labelled(tags@, label@) is None,
        },
{
    let wanted: String = label.to_owned();
    let mut i: usize = 0;
    while i < tags.len()
        invariant
            i <= tags@.len(),
            wanted@ == label@,
            forall|j: int| 0 <= j < i ==> tags@[j].label@ != label@,
        decreases tags@.len() - i,
    {
        if tags[i].label == wanted {
            proof {
                assert(is_first_labelled(tags@, label@, i as int));
                let k = choose|k: int| is_first_labelled(tags@, label@, k);
                assert(k == i);
            }
            return Some(i);
        }
        i = i + 1;
    }
    None
}

impl FocusManager {
    /// Nothing has had the focus yet.
    pub fn new() -> (focus: FocusManager)
        ensures
            focus@ == (Focus { workspaces: Seq::empty(), tags: Seq::empty(), windows: Seq::empty() }),
    {
        FocusManager {
            workspace_history: Vec::new(),
            tag_history: Vec::new(),
            window_history: Vec::new(),
        }
    }

    /// The id of the workspace that has the focus.
    pub fn workspace(&self) -> (id: Option<i32>)
        ensures
            id == current(self@.workspaces),
    {
        if self.workspace_history.len() > 0 {
            Some(self.workspace_history[0])
        } else {
            None
        }
    }

    /// The id of the tag that has the focus.
    pub fn tag(&self) -> (id: Option<TagId>)
        ensures
            id == current(self@.tags),
    {
        if self.tag_history.len() > 0 {
            Some(self.tag_history[0])
        } else {
            None
        }
    }

    /// The window that has the focus.
    pub fn window(&self) -> (handle: Option<WindowHandle>)
        ensures
            handle == current(self@.windows),
    {
        if self.window_history.len() > 0 {
            Some(self.window_history[0])
        } else {
            None
        }
    }

    /// Gives the focus to the workspace with this id, and to the tag that it
    /// shows. Says whether another workspace had the focus.
    pub fn focus_workspace(&mut self, id: Option<i32>, shown: Option<TagId>) -> (changed: bool)
        ensures
            final(self)@ == old(self)@.workspace_focused(id, shown),
            changed == (id is Some && current(old(self)@.workspaces) != id),
            final(self)@ == old(self)@ ==> *final(self) == *old(self),
    {
        let id: i32 = match id {
            Some(id) => id,
            None => {
                return false;
            },
        };
        let changed: bool = !(self.workspace_history.len() > 0 && self.workspace_history[0] == id);
        if changed {
            remember(&mut self.workspace_history, id);
        }
        if let Some(tag) = shown {
            if !(self.tag_history.len() > 0 && self.tag_history[0] == tag) {
                remember(&mut self.tag_history, tag);
            }
        }
        changed
    }

    /// Gives the focus to the first of `tags` with this label, and to the
    /// workspaces that show a tag with it. Says whether the focus changed.
    pub fn focus_tag(&mut self, tags: &Vec<Tag>, workspaces: &Vec<Workspace>, label: &str) -> (changed:
        bool)
        ensures
            final(self)@ == old(self)@.tag_focused(tags@, workspaces@, label@),
            changed == match tag_labelled(tags@, label@) {
                Some(i) => current(old(self)@.tags) != Some(tags@[i].id),
                None => false,
            },
            !changed ==> *final(self) == *old(self),
    {
        let index: usize = match find_tag(tags, label) {
            Some(index) => index,
            None => {
                return false;
            },
        };
        let id: TagId = tags[index].id;
        if self.tag_history.len() > 0 && self.tag_history[0] == id {
            return false;
        }
        remember(&mut self.tag_history, id);
        let mut i: usize = 0;
        while i < workspaces.len()
            invariant
                i <= workspaces@.len(),
                self.workspace_history@ == focus_showing(
                    old(self).workspace_history@,
                    workspaces@.take(i as int),
                    label@,
                ),
                self.tag_history@ == remembered(old(self).tag_history@, id),
                self.window_history == old(self).window_history,
            decreases workspaces@.len() - i,
        {
            proof {
                assert(workspaces@.take(i + 1).drop_last() =~= workspaces@.take(i as int));
            }
            if workspaces[i].has_tag(label) {
                if let Some(id) = workspaces[i].id {
                    if !(self.workspace_history.len() > 0 && self.workspace_history[0] == id) {
                        remember(&mut self.workspace_history, id);
                    }
                }
            }
            i = i + 1;
        }
        proof {
            assert(workspaces@.take(i as int) =~= workspaces@);
        }
        true
    }

    /// Gives the focus to a window that asks for it, if it is one of
    /// `windows`. Says whether the focus changed. A window that has the focus
    /// changes nothing by asking again.
    pub fn focus_window(&mut self, windows: &Vec<Window>, handle: WindowHandle) -> (changed: bool)
        ensures
            final(self)@ == old(self)@.window_focused(windows@, handle),
            changed == (is_managed(windows@, handle) && current(old(self)@.windows) != Some(
                handle,
            )),
            !changed ==> *final(self) == *old(self),
    {
        if self.window_history.len() > 0 && self.window_history[0] == handle {
            return false;
        }
        let mut i: usize = 0;
        while i < windows.len()
            invariant
                i <= windows@.len(),
                *self == *old(self),
                current(self@.windows) != Some(handle),
                forall|j: int| 0 <= j < i ==> windows@[j].handle != handle,
            decreases windows@.len() - i,
        {
            if windows[i].handle == handle {
                assert(is_managed(windows@, handle));
                remember(&mut self.window_history, handle);
                return true;
            }
            i = i + 1;
        }
        false
    }
}

} // verus!
