//! The handlers that move the focus.

use crate::models::{current, is_managed, tag_labelled, WindowHandle, Workspace};
use crate::state::{Manager, State};
use vstd::prelude::*;

verus! {

/// Two models differ in the focus at most.
pub open spec fn same_but_focus(pre: State, post: State) -> bool {
    &&& post.screens == pre.screens
    &&& post.windows == pre.windows
    &&& post.workspaces == pre.workspaces
    &&& post.tags == pre.tags
    &&& post.layout_manager == pre.layout_manager
    &&& post.config == pre.config
}

impl Manager {
    /// Gives the focus to a workspace, and to the tag that it shows. Says
    /// whether another workspace had the focus. A workspace without an id
    /// gets no focus.
    pub fn focus_workspace(&mut self, workspace: &Workspace) -> (changed: bool)
        ensures
            same_but_focus(old(self).state, final(self).state),
            final(self).state.focus_manager@ == old(self).state.focus_manager@.workspace_focused(
                workspace.id,
                workspace.shown_id(),
            ),
            changed == (workspace.id is Some && current(old(self).state.focus_manager@.workspaces)
                != workspace.id),
            final(self).state.focus_manager@ == old(self).state.focus_manager@ ==> *final(self)
                == *old(self),
    {
        let shown: Option<usize> = match &workspace.tag {
            Some(shown) => Some(shown.id),
            None => None,
        };
        self.state.focus_manager.focus_workspace(workspace.id, shown)
    }

    /// Gives the focus to the first tag with this label, and to the
    /// workspaces that show a tag with it. Says whether the focus changed:
    /// it does not where no tag has the label or the tag has the focus.
    pub fn focus_tag(&mut self, label: &str) -> (changed: bool)
        ensures
            same_but_focus(old(self).state, final(self).state),
            final(self).state.focus_manager@ == old(self).state.focus_manager@.tag_focused(
                old(self).state.tags@,
                old(self).state.workspaces@,
                label@,
            ),
            changed == match tag_labelled(old(self).state.tags@, label@) {
                Some(i) => current(old(self).state.focus_manager@.tags) != Some(
                    old(self).state.tags@[i].id,
                ),
                None => false,
            },
            !changed ==> *final(self) == *old(self),
    {
        self.state.focus_manager.focus_tag(&self.state.tags, &self.state.workspaces, label)
    }

    /// Gives the focus to a window that asks for it. Says whether the focus
    /// changed. Nothing changes where the window has the focus already, or
    /// where the model holds no window with this handle.
    pub fn focus_window(&mut self, handle: &WindowHandle) -> (changed: bool)
        ensures
            same_but_focus(old(self).state, final(self).state),
            final(self).state.focus_manager@ == old(self).state.focus_manager@.window_focused(
                old(self).state.windows@,
                *handle,
            ),
            changed == (is_managed(old(self).state.windows@, *handle) && current(
                old(self).state.focus_manager@.windows,
            ) != Some(*handle)),
            !changed ==> *final(self) == *old(self),
    {
        self.state.focus_manager.focus_window(&self.state.windows, *handle)
    }
}

/// A window that has the focus and asks for it again leaves the model as it
/// is, and so does any window that asks twice.
pub proof fn lemma_focus_window_idempotent(pre: State, handle: WindowHandle)
    ensures
        current(pre.focus_manager@.windows) == Some(handle) ==> pre.focus_manager@.window_focused(
            pre.windows@,
            handle,
        ) == pre.focus_manager@,
        pre.focus_manager@.window_focused(pre.windows@, handle).window_focused(
            pre.windows@,
            handle,
        ) == pre.focus_manager@.window_focused(pre.windows@, handle),
{
}

} // verus!
