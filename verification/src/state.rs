//! The model as a whole: screens, workspaces, tags, windows and the focus.

use crate::config::Config;
use crate::layouts::LayoutManager;
use crate::models::{FocusManager, Screen, Tag, Window, Workspace};
use vstd::prelude::*;

verus! {

/// The number of tags that are not hidden.
pub open spec fn count_visible(tags: Seq<Tag>) -> nat
    decreases tags.len(),
{
    if tags.len() == 0 {
        0
    } else {
        count_visible(tags.drop_last()) + if tags.last().hidden {
            0nat
        } else {
            1nat
        }
    }
}

/// The number by which a workspace is ordered: its id, and less than every id
/// where it has none.
pub open spec fn id_key(workspace: Workspace) -> int {
    match workspace.id {
        Some(id) => id as int,
        None => i32::MIN - 1,
    }
}

/// The greatest id of the workspaces, a workspace without an id counting as
/// -1; `None` where there is no workspace.
pub open spec fn max_workspace_id(workspaces: Seq<Workspace>) -> Option<int>
    decreases workspaces.len(),
{
    if workspaces.len() == 0 {
        None
    } else {
        let last: int = match workspaces.last().id {
            Some(id) => id as int,
            None => -1,
        };
        match max_workspace_id(workspaces.drop_last()) {
            Some(max) => Some(
                if max >= last {
                    max
                } else {
                    last
                },
            ),
            None => Some(last),
        }
    }
}

/// The id for a workspace that asks for none: one more than the greatest, and
/// 0 for the first workspace.
pub open spec fn next_workspace_id(workspaces: Seq<Workspace>) -> int {
    match max_workspace_id(workspaces) {
        Some(max) => max + 1,
        None => 0,
    }
}

/// The place of a workspace with this id among workspaces in the order of
/// their ids: behind those whose id is not greater.
pub open spec fn insert_position(workspaces: Seq<Workspace>, id: int) -> int
    decreases workspaces.len(),
{
    if workspaces.len() == 0 || id_key(workspaces[0]) > id {
        0
    } else {
        1 + insert_position(workspaces.drop_first(), id)
    }
}

/// The workspaces are in the order of their ids.
pub open spec fn sorted_by_id(workspaces: Seq<Workspace>) -> bool {
    forall|i: int, j: int|
        0 <= i < j < workspaces.len() ==> id_key(workspaces[i]) <= id_key(workspaces[j])
}

/// The workspaces have the ids 0, 1, 2 and so on, in this order.
pub open spec fn sequential(workspaces: Seq<Workspace>) -> bool {
    forall|i: int| 0 <= i < workspaces.len() ==> (#[trigger] workspaces[i]).id == Some(i as i32)
}

/// No more tags are visible than there are tags.
pub proof fn lemma_count_visible_at_most(tags: Seq<Tag>)
    ensures
        count_visible(tags) <= tags.len(),
    decreases tags.len(),
{
    if tags.len() > 0 {
        lemma_count_visible_at_most(tags.drop_last());
    }
}

/// Where no tag is hidden, all are visible.
pub proof fn lemma_count_visible_all(tags: Seq<Tag>)
    requires
        forall|i: int| 0 <= i < tags.len() ==> !(#[trigger] tags[i]).hidden,
    ensures
        count_visible(tags) == tags.len(),
    decreases tags.len(),
{
    if tags.len() > 0 {
        let rest = tags.drop_last();
        assert forall|i: int| 0 <= i < rest.len() implies !(#[trigger] rest[i]).hidden by {
            assert(rest[i] == tags[i]);
        }
        lemma_count_visible_all(rest);
        assert(tags.last() == tags[tags.len() - 1]);
    }
}

/// A tag that is put among others adds itself to the count of the visible
/// ones, if it is not hidden, and changes nothing else of it.
pub proof fn lemma_count_visible_insert(tags: Seq<Tag>, i: int, tag: Tag)
    requires
        0 <= i <= tags.len(),
    ensures
        count_visible(tags.insert(i, tag)) == count_visible(tags) + if tag.hidden {
            0nat
        } else {
            1nat
        },
    decreases tags.len(),
{
    if i == tags.len() {
        assert(tags.insert(i, tag).drop_last() =~= tags);
    } else {
        assert(tags.insert(i, tag).drop_last() =~= tags.drop_last().insert(i, tag));
        assert(tags.insert(i, tag).last() == tags.last());
        lemma_count_visible_insert(tags.drop_last(), i, tag);
    }
}

/// The place for an id lies behind every workspace whose id is not greater
/// and, among workspaces in order, before every other.
pub proof fn lemma_insert_position(workspaces: Seq<Workspace>, id: int)
    ensures
        0 <= insert_position(workspaces, id) <= workspaces.len(),
        forall|i: int|
            0 <= i < insert_position(workspaces, id) ==> id_key(#[trigger] workspaces[i]) <= id,
        sorted_by_id(workspaces) ==> forall|i: int|
            insert_position(workspaces, id) <= i < workspaces.len() ==> id_key(
                #[trigger] workspaces[i],
            ) > id,
    decreases workspaces.len(),
{
    if workspaces.len() == 0 || id_key(workspaces[0]) > id {
        if sorted_by_id(workspaces) {
            assert forall|i: int| 0 <= i < workspaces.len() implies id_key(
                #[trigger] workspaces[i],
            ) > id by {
                if i > 0 {
                    assert(id_key(workspaces[0]) <= id_key(workspaces[i]));
                }
            }
        }
    } else {
        let rest = workspaces.drop_first();
        lemma_insert_position(rest, id);
        let at = insert_position(workspaces, id);
        assert forall|i: int| 0 <= i < at implies id_key(#[trigger] workspaces[i]) <= id by {
            if i > 0 {
                assert(workspaces[i] == rest[i - 1]);
            }
        }
        if sorted_by_id(workspaces) {
            assert(sorted_by_id(rest)) by {
                assert forall|i: int, j: int| 0 <= i < j < rest.len() implies id_key(rest[i])
                    <= id_key(rest[j]) by {
                    assert(rest[i] == workspaces[i + 1]);
                    assert(rest[j] == workspaces[j + 1]);
                }
            }
            assert forall|i: int| at <= i < workspaces.len() implies id_key(
                #[trigger] workspaces[i],
            ) > id by {
                assert(workspaces[i] == rest[i - 1]);
            }
        }
    }
}

/// No workspace has an id as great as the next id, and the next id of
/// workspaces with the ids 0, 1, 2 and so on is their number.
pub proof fn lemma_next_workspace_id(workspaces: Seq<Workspace>)
    ensures
        forall|i: int|
            0 <= i < workspaces.len() ==> id_key(#[trigger] workspaces[i]) < next_workspace_id(
                workspaces,
            ),
        i32::MIN < next_workspace_id(workspaces) <= i32::MAX + 1,
        sequential(workspaces) && workspaces.len() <= i32::MAX ==> next_workspace_id(workspaces)
            == workspaces.len(),
    decreases workspaces.len(),
{
    if workspaces.len() > 0 {
        let rest = workspaces.drop_last();
        lemma_next_workspace_id(rest);
        assert forall|i: int| 0 <= i < workspaces.len() implies id_key(#[trigger] workspaces[i])
            < next_workspace_id(workspaces) by {
            if i < rest.len() {
                assert(workspaces[i] == rest[i]);
            }
        }
        if sequential(workspaces) && workspaces.len() <= i32::MAX {
            assert(sequential(rest)) by {
                assert forall|i: int| 0 <= i < rest.len() implies (#[trigger] rest[i]).id == Some(
                    i as i32,
                ) by {
                    assert(rest[i] == workspaces[i]);
                }
            }
            assert(workspaces.last() == workspaces[workspaces.len() - 1]);
        }
    }
}

/// The model: what the handlers read and change.
#[derive(Debug)]
pub struct State {
    pub screens: Vec<Screen>,
    pub windows: Vec<Window>,
    pub workspaces: Vec<Workspace>,
    pub tags: Vec<Tag>,
    pub focus_manager: FocusManager,
    pub layout_manager: LayoutManager,
    pub config: Config,
}

impl State {
    /// What holds of the model between two events: there is a visible tag for
    /// every workspace, and the workspaces have ids and are in their order.
    pub open spec fn wf(&self) -> bool {
        &&& self.workspaces@.len() <= count_visible(self.tags@)
        &&& forall|i: int| 0 <= i < self.workspaces@.len() ==> (#[trigger] self.workspaces@[i]).id is Some
        &&& sorted_by_id(self.workspaces@)
    }

    /// A model with nothing in it.
    pub fn new(config: Config) -> (state: State)
        ensures
            state.wf(),
            state.screens@.len() == 0,
            state.windows@.len() == 0,
            state.workspaces@.len() == 0,
            state.tags@.len() == 0,
            state.focus_manager@.workspaces.len() == 0,
            state.focus_manager@.tags.len() == 0,
            state.focus_manager@.windows.len() == 0,
            state.layout_manager.default == crate::layouts::Layouts::Monocle,
            state.config == config,
    {
        State {
            screens: Vec::new(),
            windows: Vec::new(),
            workspaces: Vec::new(),
            tags: Vec::new(),
            focus_manager: FocusManager::new(),
            layout_manager: LayoutManager::default(),
            config,
        }
    }

    /// Whether the model is well formed.
    pub fn check_wf(&self) -> (wf: bool)
        ensures
            wf == self.wf(),
    {
        if self.workspaces.len() > self.visible_tag_count() {
            return false;
        }
        let mut i: usize = 0;
        while i < self.workspaces.len()
            invariant
                i <= self.workspaces@.len(),
                forall|j: int| 0 <= j < i ==> (#[trigger] self.workspaces@[j]).id is Some,
                forall|j: int, k: int|
                    0 <= j < k < i ==> id_key(self.workspaces@[j]) <= id_key(self.workspaces@[k]),
            decreases self.workspaces@.len() - i,
        {
            let id: i32 = match self.workspaces[i].id {
                Some(id) => id,
                None => {
                    return false;
                },
            };
            if i > 0 {
                let before: i32 = match self.workspaces[i - 1].id {
                    Some(id) => id,
                    None => {
                        return false;
                    },
                };
                if before > id {
                    assert(id_key(self.workspaces@[i - 1]) > id_key(self.workspaces@[i as int]));
                    return false;
                }
                assert forall|j: int| 0 <= j < i implies id_key(self.workspaces@[j]) <= id_key(
                    self.workspaces@[i as int],
                ) by {
                    if j < i - 1 {
                        assert(id_key(self.workspaces@[j]) <= id_key(self.workspaces@[i - 1]));
                    }
                }
            }
            i = i + 1;
        }
        true
    }

    /// The number of tags that are not hidden.
    pub fn visible_tag_count(&self) -> (count: usize)
        ensures
            count == count_visible(self.tags@),
    {
        let mut count: usize = 0;
        let mut i: usize = 0;
        while i < self.tags.len()
            invariant
                i <= self.tags@.len(),
                count <= i,
                count == count_visible(self.tags@.take(i as int)),
            decreases self.tags@.len() - i,
        {
            proof {
                assert(self.tags@.take(i + 1).drop_last() =~= self.tags@.take(i as int));
            }
            if !self.tags[i].hidden {
                count = count + 1;
            }
            i = i + 1;
        }
        proof {
            assert(self.tags@.take(i as int) =~= self.tags@);
        }
        count
    }

    /// The id for a workspace that asks for none, unless it is too great for
    /// an `i32`.
    pub fn next_workspace_id(&self) -> (id: Option<i32>)
        ensures
            match id {
                Some(id) => id == next_workspace_id(self.workspaces@),
                None => next_workspace_id(self.workspaces@) > i32::MAX,
            },
    {
        let mut max: Option<i32> = None;
        let mut i: usize = 0;
        while i < self.workspaces.len()
            invariant
                i <= self.workspaces@.len(),
                match max {
                    Some(m) => max_workspace_id(self.workspaces@.take(i as int)) == Some(m as int),
                    None => max_workspace_id(self.workspaces@.take(i as int)) is None,
                },
            decreases self.workspaces@.len() - i,
        {
            proof {
                assert(self.workspaces@.take(i + 1).drop_last() =~= self.workspaces@.take(i as int));
            }
            let id: i32 = match self.workspaces[i].id {
                Some(id) => id,
                None => -1,
            };
            max = match max {
                Some(m) => Some(
                    if m >= id {
                        m
                    } else {
                        id
                    },
                ),
                None => Some(id),
            };
            i = i + 1;
        }
        proof {
            assert(self.workspaces@.take(i as int) =~= self.workspaces@);
        }
        match max {
            Some(m) => m.checked_add(1),
            None => Some(0),
        }
    }

    /// The place of a workspace with this id among the workspaces.
    pub fn insert_position(&self, id: i32) -> (at: usize)
        ensures
            at == insert_position(self.workspaces@, id as int),
            at <= self.workspaces@.len(),
    {
        let mut at: usize = 0;
        assert(self.workspaces@.skip(0) =~= self.workspaces@);
        while at < self.workspaces.len()
            invariant
                at <= self.workspaces@.len(),
                insert_position(self.workspaces@, id as int) == at + insert_position(
                    self.workspaces@.skip(at as int),
                    id as int,
                ),
            decreases self.workspaces@.len() - at,
        {
            let behind: bool = match self.workspaces[at].id {
                Some(other) => other <= id,
                None => true,
            };
            assert(self.workspaces@.skip(at as int)[0] == self.workspaces@[at as int]);
            if !behind {
                return at;
            }
            proof {
                assert(self.workspaces@.skip(at as int).drop_first() =~= self.workspaces@.skip(
                    at + 1,
                ));
            }
            at = at + 1;
        }
        assert(self.workspaces@.skip(at as int).len() == 0);
        at
    }

    /// Whether a workspace id is also the place of a tag: not negative and
    /// less than the number of tags. A workspace whose id is not does not fit
    /// the tags that are configured.
    pub fn workspace_id_in_range(&self, id: i32) -> (fits: bool)
        ensures
            fits == (0 <= id < self.tags@.len()),
    {
        id >= 0 && (id as usize) < self.tags.len()
    }
}

/// The window manager: the model and the handlers that change it.
#[derive(Debug)]
pub struct Manager {
    pub state: State,
}

impl Manager {
    /// A window manager with the default settings and nothing in its model.
    pub fn new(config: Config) -> (manager: Manager)
        ensures
            manager.state.wf(),
            manager.state.screens@.len() == 0,
            manager.state.windows@.len() == 0,
            manager.state.workspaces@.len() == 0,
            manager.state.tags@.len() == 0,
            manager.state.focus_manager@.workspaces.len() == 0,
            manager.state.focus_manager@.tags.len() == 0,
            manager.state.focus_manager@.windows.len() == 0,
            manager.state.layout_manager.default == crate::layouts::Layouts::Monocle,
            manager.state.config == config,
    {
        Manager { state: State::new(config) }
    }

    /// A window manager with the default settings whose model holds one tag
    /// for each of the labels, numbered from 1 in their order, and nothing
    /// else.
    pub fn new_test(tags: Vec<String>) -> (manager: Manager)
        ensures
            manager.state.wf(),
            manager.state.screens@.len() == 0,
            manager.state.windows@.len() == 0,
            manager.state.workspaces@.len() == 0,
            manager.state.focus_manager@.workspaces.len() == 0,
            manager.state.focus_manager@.tags.len() == 0,
            manager.state.focus_manager@.windows.len() == 0,
            manager.state.layout_manager.default == crate::layouts::Layouts::Monocle,
            manager.state.config == (Config {
                max_window_width: None,
                focus_behaviour: crate::config::FocusBehaviour::Sloppy,
            }),
            manager.state.tags@.len() == tags@.len(),
            forall|i: int|
                0 <= i < tags@.len() ==> {
                    let tag = #[trigger] manager.state.tags@[i];
                    &&& tag.id == i + 1
                    &&& tag.label@ == tags@[i]@
                    &&& !tag.hidden
                    &&& tag.layout == crate::layouts::Layouts::Monocle
                },
            count_visible(manager.state.tags@) == tags@.len(),
    {
        let mut manager: Manager = Manager::new(Config::default());
        let mut i: usize = 0;
        while i < tags.len()
            invariant
                i <= tags@.len(),
                manager.state.screens@.len() == 0,
                manager.state.windows@.len() == 0,
                manager.state.workspaces@.len() == 0,
                manager.state.focus_manager@.workspaces.len() == 0,
                manager.state.focus_manager@.tags.len() == 0,
                manager.state.focus_manager@.windows.len() == 0,
                manager.state.layout_manager.default == crate::layouts::Layouts::Monocle,
                manager.state.config == (Config {
                max_window_width: None,
                focus_behaviour: crate::config::FocusBehaviour::Sloppy,
            }),
                manager.state.tags@.len() == i,
                forall|j: int|
                    0 <= j < i ==> {
                        let tag = #[trigger] manager.state.tags@[j];
                        &&& tag.id == j + 1
                        &&& tag.label@ == tags@[j]@
                        &&& !tag.hidden
                        &&& tag.layout == crate::layouts::Layouts::Monocle
                    },
            decreases tags@.len() - i,
        {
            let tag: Tag = Tag::new(
                i + 1,
                tags[i].as_str(),
                manager.state.layout_manager.new_layout(),
            );
            manager.state.tags.push(tag);
            i = i + 1;
        }
        proof {
            lemma_count_visible_all(manager.state.tags@);
        }
        manager
    }
}

} // verus!
