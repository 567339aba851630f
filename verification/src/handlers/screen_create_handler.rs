//! The handler for a screen that the display server newly reports.

use crate::models::{decimal_digits, decimal_label, Screen, Tag, Workspace};
use crate::state::{
    count_visible, id_key, insert_position, lemma_count_visible_at_most,
    lemma_count_visible_insert, lemma_insert_position,
    lemma_next_workspace_id, next_workspace_id, sequential, Manager, State,
};
use vstd::prelude::*;

verus! {

/// The id that the workspace of a new screen gets: the one that the screen
/// asks for, or else the next.
pub open spec fn new_workspace_id(workspaces: Seq<Workspace>, screen: Screen) -> int {
    match screen.wsid {
        Some(id) => id as int,
        None => next_workspace_id(workspaces),
    }
}

/// Whether a new workspace needs a new tag: no visible tag is left for it.
pub open spec fn needs_tag(pre: State) -> bool {
    count_visible(pre.tags@) <= pre.workspaces@.len()
}

/// `post` is the model `pre` after `screen` was created.
///
/// With n workspaces before: where no visible tag is left, a tag with the id
/// n + 1 and that number as its label is put at place n of the tags. The new
/// workspace has the screen's region, the screen's maximum window width or
/// else the configured one, and a fresh layout; it shows the tag at place n
/// and stands among the workspaces in the order of the ids. The screen is the
/// last of the screens. The focus went to the new workspace, then to the tag,
/// then to the new workspace again.
pub open spec fn screen_created(pre: State, screen: Screen, post: State) -> bool {
    let n = pre.workspaces@.len() as int;
    let id = new_workspace_id(pre.workspaces@, screen);
    let at = insert_position(pre.workspaces@, id);
    let workspace = post.workspaces@[at];
    let tag = post.tags@[n];
    &&& post.screens@ == pre.screens@.push(screen)
    &&& post.windows == pre.windows
    &&& post.layout_manager == pre.layout_manager
    &&& post.config == pre.config
    &&& if needs_tag(pre) {
        &&& post.tags@ == pre.tags@.insert(n, tag)
        &&& tag.id == n + 1
        &&& tag.label@ == decimal_digits((n + 1) as nat)
        &&& !tag.hidden
        &&& tag.layout == pre.layout_manager.default
    } else {
        post.tags@ == pre.tags@
    }
    &&& post.workspaces@ == pre.workspaces@.insert(at, workspace)
    &&& workspace.id == Some(id as i32)
    &&& workspace.xyhw == screen.bbox
    &&& workspace.layout == pre.layout_manager.default
    &&& workspace.max_window_width == match screen.max_window_width {
        Some(width) => Some(width),
        None => pre.config.max_window_width,
    }
    &&& workspace.tag matches Some(shown) && shown.id == tag.id && shown.label@ == tag.label@
    &&& post.focus_manager@ == pre.focus_manager@.workspace_focused(
        Some(id as i32),
        None,
    ).tag_focused(post.tags@, pre.workspaces@, tag.label@).workspace_focused(
        Some(id as i32),
        Some(tag.id),
    )
}

/// A new screen takes no tag away: every tag stays, in its order, and at most
/// one is added.
pub proof fn lemma_screen_created_keeps_tags(pre: State, screen: Screen, post: State)
    requires
        pre.wf(),
        screen_created(pre, screen, post),
    ensures
        post.tags@.len() >= pre.tags@.len(),
        post.tags@.len() == pre.tags@.len() + if needs_tag(pre) {
            1nat
        } else {
            0nat
        },
        forall|i: int|
            0 <= i < pre.tags@.len() ==> #[trigger] pre.tags@[i] == post.tags@[if i
                < pre.workspaces@.len() || !needs_tag(pre) {
                i
            } else {
                i + 1
            }],
        count_visible(post.tags@) >= post.workspaces@.len(),
{
    let n = pre.workspaces@.len() as int;
    lemma_count_visible_at_most(pre.tags@);
    lemma_count_visible_insert(pre.tags@, n, post.tags@[n]);
    lemma_insert_position(pre.workspaces@, new_workspace_id(pre.workspaces@, screen));
}

/// A screen that asks for no workspace id gets one that no workspace has: it
/// is greater than every id before it, and its workspace is the last.
pub proof fn lemma_screen_created_fresh_id(pre: State, screen: Screen, post: State)
    requires
        pre.wf(),
        screen.wsid is None,
        next_workspace_id(pre.workspaces@) <= i32::MAX,
        screen_created(pre, screen, post),
    ensures
        forall|i: int|
            0 <= i < pre.workspaces@.len() ==> id_key(#[trigger] pre.workspaces@[i])
                < next_workspace_id(pre.workspaces@),
        post.workspaces@.len() == pre.workspaces@.len() + 1,
        post.workspaces@.last().id == Some(next_workspace_id(pre.workspaces@) as i32),
        post.workspaces@.drop_last() == pre.workspaces@,
{
    let id = next_workspace_id(pre.workspaces@);
    lemma_next_workspace_id(pre.workspaces@);
    lemma_insert_position(pre.workspaces@, id);
    let at = insert_position(pre.workspaces@, id);
    if at < pre.workspaces@.len() {
        assert(id_key(pre.workspaces@[at]) > id);
    }
    assert(post.workspaces@.drop_last() =~= pre.workspaces@);
}

/// Screens that ask for no workspace id get the ids 0, 1, 2 and so on: where
/// the workspaces have these ids, they have them after one more screen, and
/// the new workspace shows the tag at the place of its id. Where a visible
/// tag was left for it, that is the tag that stood there before.
pub proof fn lemma_screen_created_sequential(pre: State, screen: Screen, post: State)
    requires
        pre.wf(),
        sequential(pre.workspaces@),
        pre.workspaces@.len() < i32::MAX,
        screen.wsid is None,
        screen_created(pre, screen, post),
    ensures
        sequential(post.workspaces@),
        post.workspaces@.len() == pre.workspaces@.len() + 1,
        post.workspaces@.last().id == Some(pre.workspaces@.len() as i32),
        post.workspaces@.drop_last() == pre.workspaces@,
        post.workspaces@.last().shows(post.tags@[pre.workspaces@.len() as int].label@),
        post.workspaces@.last().shown_id() == Some(post.tags@[pre.workspaces@.len() as int].id),
        pre.workspaces@.len() < post.tags@.len(),
        !needs_tag(pre) ==> post.tags@ == pre.tags@,
{
    lemma_screen_created_keeps_tags(pre, screen, post);
    lemma_count_visible_at_most(post.tags@);
    lemma_next_workspace_id(pre.workspaces@);
    lemma_screen_created_fresh_id(pre, screen, post);
    lemma_insert_position(pre.workspaces@, pre.workspaces@.len() as int);
    assert forall|i: int| 0 <= i < post.workspaces@.len() implies (#[trigger] post.workspaces@[i]).id
        == Some(i as i32) by {
        if i < pre.workspaces@.len() {
            assert(post.workspaces@.drop_last()[i] == pre.workspaces@[i]);
        }
    }
}

/// Every workspace shows the tag at its own place among the tags.
pub open spec fn aligned(state: State) -> bool {
    forall|i: int|
        0 <= i < state.workspaces@.len() ==> {
            &&& i < state.tags@.len()
            &&& (#[trigger] state.workspaces@[i]).shows(state.tags@[i].label@)
            &&& state.workspaces@[i].shown_id() == Some(state.tags@[i].id)
        }
}

/// Every tag has its place, counted from 1, as its id: the ids are unique and
/// in the order of the tags.
pub open spec fn numbered(tags: Seq<Tag>) -> bool {
    forall|i: int| 0 <= i < tags.len() ==> (#[trigger] tags[i]).id == i + 1
}

/// While the screens ask for no workspace id, the first workspace shows the
/// first tag, the second the second, and so on: where that holds before a
/// new screen, it holds after it.
pub proof fn lemma_screen_created_aligned(pre: State, screen: Screen, post: State)
    requires
        pre.wf(),
        sequential(pre.workspaces@),
        aligned(pre),
        pre.workspaces@.len() < i32::MAX,
        screen.wsid is None,
        screen_created(pre, screen, post),
    ensures
        aligned(post),
        sequential(post.workspaces@),
{
    lemma_screen_created_sequential(pre, screen, post);
    lemma_screen_created_keeps_tags(pre, screen, post);
    let n = pre.workspaces@.len() as int;
    assert forall|i: int| 0 <= i < post.workspaces@.len() implies {
        &&& i < post.tags@.len()
        &&& (#[trigger] post.workspaces@[i]).shows(post.tags@[i].label@)
        &&& post.workspaces@[i].shown_id() == Some(post.tags@[i].id)
    } by {
        if i < n {
            assert(post.workspaces@.drop_last()[i] == pre.workspaces@[i]);
            assert(pre.workspaces@[i].shows(pre.tags@[i].label@));
            assert(pre.tags@[i] == post.tags@[i]);
        } else {
            assert(post.workspaces@[i] == post.workspaces@.last());
        }
    }
}

/// Where no tag is hidden and every tag has its place as its id, a new
/// screen leaves it so: a tag that it adds is the last, with the next id.
pub proof fn lemma_screen_created_numbered(pre: State, screen: Screen, post: State)
    requires
        pre.wf(),
        numbered(pre.tags@),
        count_visible(pre.tags@) == pre.tags@.len(),
        screen_created(pre, screen, post),
    ensures
        numbered(post.tags@),
        count_visible(post.tags@) == post.tags@.len(),
{
    let n = pre.workspaces@.len() as int;
    lemma_count_visible_at_most(pre.tags@);
    if needs_tag(pre) {
        lemma_count_visible_insert(pre.tags@, n, post.tags@[n]);
        assert forall|i: int| 0 <= i < post.tags@.len() implies (#[trigger] post.tags@[i]).id == i
            + 1 by {
            if i < n {
                assert(post.tags@[i] == pre.tags@[i]);
            }
        }
    }
}

impl Manager {
    /// Whether `screen_create_handler` can take this screen: the model is
    /// well formed, and neither the next workspace id nor the number of the
    /// tags is at the limit of the machine's integers.
    pub fn can_create_screen(&self, screen: &Screen) -> (can: bool)
        ensures
            can == (self.state.wf() && self.state.tags@.len() < usize::MAX && (screen.wsid is None
                ==> next_workspace_id(self.state.workspaces@) <= i32::MAX)),
    {
        if !self.state.check_wf() || self.state.tags.len() == usize::MAX {
            return false;
        }
        match screen.wsid {
            Some(_) => true,
            None => self.state.next_workspace_id().is_some(),
        }
    }

    /// Takes a new screen into the model: gives it a workspace, and the
    /// workspace a tag and the focus.
    ///
    /// Returns whether the change needs to be rendered at once, which it
    /// never does.
    pub fn screen_create_handler(&mut self, screen: Screen) -> (render: bool)
        requires
            old(self).state.wf(),
            old(self).state.tags@.len() < usize::MAX,
            screen.wsid is None ==> next_workspace_id(old(self).state.workspaces@) <= i32::MAX,
        ensures
            !render,
            final(self).state.wf(),
            screen_created(old(self).state, screen, final(self).state),
    {
        let current_workspace_count: usize = self.state.workspaces.len();
        let id: i32 = match screen.wsid {
            Some(id) => id,
            None => match self.state.next_workspace_id() {
                Some(id) => id,
                None => {
                    return false;
                },
            },
        };
        let max_window_width: Option<u32> = match screen.max_window_width {
            Some(width) => Some(width),
            None => self.state.config.max_window_width(),
        };
        let mut workspace: Workspace = Workspace::new(
            Some(id),
            screen.bbox,
            self.state.layout_manager.new_layout(),
            max_window_width,
        );
        proof {
            lemma_count_visible_at_most(old(self).state.tags@);
        }
        let tag_count: usize = self.state.visible_tag_count();
        if tag_count <= current_workspace_count {
            let tag_id: usize = current_workspace_count + 1;
            let label: String = decimal_label(tag_id);
            let new_tag: Tag = Tag::new(
                tag_id,
                label.as_str(),
                self.state.layout_manager.new_layout(),
            );
            proof {
                lemma_count_visible_insert(
                    old(self).state.tags@,
                    current_workspace_count as int,
                    new_tag,
                );
            }
            self.state.tags.insert(current_workspace_count, new_tag);
        }
        let next_tag: Tag = self.state.tags[current_workspace_count].clone();
        self.focus_workspace(&workspace);
        self.focus_tag(next_tag.label.as_str());
        workspace.show_tag(&next_tag);
        let at: usize = self.state.insert_position(id);
        proof {
            lemma_insert_position(old(self).state.workspaces@, id as int);
        }
        self.state.workspaces.insert(at, workspace);
        self.state.screens.push(screen);
        self.state.focus_manager.focus_workspace(Some(id), Some(next_tag.id));
        proof {
            let pre = old(self).state.workspaces@;
            let post = self.state.workspaces@;
            assert forall|i: int, j: int| 0 <= i < j < post.len() implies id_key(
                post[i],
            ) <= id_key(post[j]) by {
                if j < at {
                } else if j == at {
                } else if i < at {
                    assert(post[j] == pre[j - 1]);
                } else if i == at {
                    assert(post[j] == pre[j - 1]);
                } else {
                    assert(post[i] == pre[i - 1]);
                    assert(post[j] == pre[j - 1]);
                }
            }
            assert forall|i: int| 0 <= i < post.len() implies (#[trigger] post[i]).id is Some by {
                if i < at {
                } else if i > at {
                    assert(post[i] == pre[i - 1]);
                }
            }
        }
        false
    }
}

} // verus!
