//! The list of state markers on a window, and what a request for fullscreen
//! makes of it.

use super::event_translate_client_message::FullscreenRequest;
use super::{contains_id, XContext};
use crate::display_event::WindowChange;
use crate::models::WindowHandle;
use vstd::prelude::*;

verus! {

/// Every marker is less than the next: the list is in order and holds nothing
/// twice.
pub open spec fn strictly_increasing(markers: Seq<u64>) -> bool {
    forall|i: int, j: int| 0 <= i < j < markers.len() ==> markers[i] < markers[j]
}

/// Whether the window is to be fullscreen after the request.
pub open spec fn wants_fullscreen(
    request: FullscreenRequest,
    states: Seq<u64>,
    fullscreen: u64,
) -> bool {
    match request {
        FullscreenRequest::Add => true,
        FullscreenRequest::Remove => false,
        FullscreenRequest::Toggle => !states.contains(fullscreen),
    }
}

/// `markers` is what the request makes of the markers `states`: the same
/// markers but for `fullscreen`, which is among them if and only if the
/// request wants it, each once and in increasing order.
pub open spec fn markers_after(
    states: Seq<u64>,
    request: FullscreenRequest,
    fullscreen: u64,
    markers: Seq<u64>,
) -> bool {
    &&& strictly_increasing(markers)
    &&& forall|atom: u64| #[trigger]
        markers.contains(atom) <==> if atom == fullscreen {
            wants_fullscreen(request, states, fullscreen)
        } else {
            states.contains(atom)
        }
}

/// Two lists in strictly increasing order that hold the same markers are the
/// same list.
pub proof fn lemma_increasing_unique(a: Seq<u64>, b: Seq<u64>)
    requires
        strictly_increasing(a),
        strictly_increasing(b),
        forall|atom: u64| #[trigger] a.contains(atom) <==> b.contains(atom),
    ensures
        a == b,
    decreases a.len(),
{
    if a.len() == 0 {
        if b.len() > 0 {
            assert(b.contains(b[0]));
            assert(a.contains(b[0]));
        }
        assert(a =~= b);
    } else {
        // Each list holds the other's first marker, so neither first is the
        // greater, and `b` is not empty.
        assert(a.contains(a[0]));
        assert(b.contains(a[0]));
        let kb = choose|k: int| 0 <= k < b.len() && b[k] == a[0];
        assert(b.contains(b[0]));
        assert(a.contains(b[0]));
        let ka = choose|k: int| 0 <= k < a.len() && a[k] == b[0];
        assert(a[0] == b[0]);
        let ta = a.drop_first();
        let tb = b.drop_first();
        assert forall|atom: u64| #[trigger] ta.contains(atom) <==> tb.contains(atom) by {
            if ta.contains(atom) {
                let k = choose|k: int| 0 <= k < ta.len() && ta[k] == atom;
                assert(a[k + 1] == atom);
                assert(a[0] < a[k + 1]);
                assert(a.contains(atom));
                assert(b.contains(atom));
                let m = choose|m: int| 0 <= m < b.len() && b[m] == atom;
                assert(m != 0);
                assert(tb[m - 1] == atom);
            }
            if tb.contains(atom) {
                let k = choose|k: int| 0 <= k < tb.len() && tb[k] == atom;
                assert(b[k + 1] == atom);
                assert(b[0] < b[k + 1]);
                assert(b.contains(atom));
                assert(a.contains(atom));
                let m = choose|m: int| 0 <= m < a.len() && a[m] == atom;
                assert(m != 0);
                assert(ta[m - 1] == atom);
            }
        }
        assert(strictly_increasing(ta)) by {
            assert forall|i: int, j: int| 0 <= i < j < ta.len() implies ta[i] < ta[j] by {
                assert(a[i + 1] < a[j + 1]);
            }
        }
        assert(strictly_increasing(tb)) by {
            assert forall|i: int, j: int| 0 <= i < j < tb.len() implies tb[i] < tb[j] by {
                assert(b[i + 1] < b[j + 1]);
            }
        }
        lemma_increasing_unique(ta, tb);
        assert(a =~= seq![a[0]] + ta);
        assert(b =~= seq![b[0]] + tb);
    }
}

/// What a request makes of a window's markers is one list and no other.
pub proof fn lemma_markers_after_unique(
    states: Seq<u64>,
    request: FullscreenRequest,
    fullscreen: u64,
    a: Seq<u64>,
    b: Seq<u64>,
)
    requires
        markers_after(states, request, fullscreen, a),
        markers_after(states, request, fullscreen, b),
    ensures
        a == b,
{
    lemma_increasing_unique(a, b);
}

/// A request to toggle puts the fullscreen marker on a window that lacks it,
/// once, and the same request again takes it off: the window then has the
/// markers that it had at first.
pub proof fn lemma_toggle_twice(
    states: Seq<u64>,
    fullscreen: u64,
    once: Seq<u64>,
    twice: Seq<u64>,
)
    requires
        !states.contains(fullscreen),
        markers_after(states, FullscreenRequest::Toggle, fullscreen, once),
        markers_after(once, FullscreenRequest::Toggle, fullscreen, twice),
    ensures
        once.contains(fullscreen),
        forall|i: int, j: int|
            0 <= i < once.len() && 0 <= j < once.len() && once[i] == fullscreen && once[j]
                == fullscreen ==> i == j,
        !twice.contains(fullscreen),
        forall|atom: u64| #[trigger] twice.contains(atom) <==> states.contains(atom),
        strictly_increasing(states) ==> twice == states,
{
    assert forall|atom: u64| #[trigger] twice.contains(atom) <==> states.contains(atom) by {
        if atom != fullscreen {
            assert(twice.contains(atom) <==> once.contains(atom));
            assert(once.contains(atom) <==> states.contains(atom));
        }
    }
    if strictly_increasing(states) {
        lemma_increasing_unique(twice, states);
    }
}

/// Puts `atom` at its place in a list in strictly increasing order, unless the
/// list holds it.
pub fn insert_marker(markers: &mut Vec<u64>, atom: u64)
    requires
        strictly_increasing(old(markers)@),
    ensures
        strictly_increasing(final(markers)@),
        forall|other: u64| #[trigger]
            final(markers)@.contains(other) <==> old(markers)@.contains(other) || other == atom,
{
    let mut i: usize = 0;
    while i < markers.len() && markers[i] < atom
        invariant
            i <= markers@.len(),
            markers@ == old(markers)@,
            forall|j: int| 0 <= j < i ==> markers@[j] < atom,
        decreases markers@.len() - i,
    {
        i = i + 1;
    }
    if i < markers.len() && markers[i] == atom {
        assert(markers@.contains(atom));
        return ;
    }
    let ghost before = markers@;
    markers.insert(i, atom);
    proof {
        let after = markers@;
        assert(after == before.insert(i as int, atom));
        assert(forall|j: int| i <= j < before.len() ==> atom < before[j]) by {
            assert forall|j: int| i <= j < before.len() implies atom < before[j] by {
                if i < j {
                    assert(before[i as int] < before[j]);
                }
            }
        }
        assert forall|a: int, b: int| 0 <= a < b < after.len() implies after[a] < after[b] by {
            if b < i {
            } else if b == i {
            } else if a < i {
                assert(after[b] == before[b - 1]);
            } else if a == i {
                assert(after[b] == before[b - 1]);
            } else {
                assert(after[a] == before[a - 1]);
                assert(after[b] == before[b - 1]);
            }
        }
        assert forall|other: u64| #[trigger]
            after.contains(other) <==> before.contains(other) || other == atom by {
            if after.contains(other) {
                let k = choose|k: int| 0 <= k < after.len() && after[k] == other;
                if k < i {
                    assert(before[k] == other);
                } else if k > i {
                    assert(before[k - 1] == other);
                }
            }
            if before.contains(other) {
                let k = choose|k: int| 0 <= k < before.len() && before[k] == other;
                if k < i {
                    assert(after[k] == other);
                } else {
                    assert(after[k + 1] == other);
                }
            }
            if other == atom {
                assert(after[i as int] == other);
            }
        }
    }
}

/// What the request makes of the markers `states`.
pub fn fullscreen_markers(states: &Vec<u64>, request: FullscreenRequest, fullscreen: u64) -> (markers:
    Vec<u64>)
    ensures
        markers_after(states@, request, fullscreen, markers@),
{
    let wanted: bool = match request {
        FullscreenRequest::Add => true,
        FullscreenRequest::Remove => false,
        FullscreenRequest::Toggle => !contains_id(states, fullscreen),
    };
    let mut markers: Vec<u64> = Vec::new();
    let mut i: usize = 0;
    while i < states.len()
        invariant
            i <= states@.len(),
            strictly_increasing(markers@),
            forall|atom: u64| #[trigger]
                markers@.contains(atom) <==> atom != fullscreen && exists|j: int|
                    0 <= j < i && states@[j] == atom,
        decreases states@.len() - i,
    {
        let atom: u64 = states[i];
        let ghost before = markers@;
        if atom != fullscreen {
            insert_marker(&mut markers, atom);
        }
        proof {
            assert forall|other: u64| #[trigger]
                markers@.contains(other) <==> other != fullscreen && exists|j: int|
                    0 <= j < i + 1 && states@[j] == other by {
                if before.contains(other) {
                    let j = choose|j: int| 0 <= j < i && states@[j] == other;
                    assert(0 <= j < i + 1 && states@[j] == other);
                }
                if other != fullscreen && exists|j: int| 0 <= j < i + 1 && states@[j] == other {
                    let j = choose|j: int| 0 <= j < i + 1 && states@[j] == other;
                    if j < i {
                        assert(before.contains(other));
                    }
                }
                if other == atom && atom != fullscreen {
                    assert(0 <= i < i + 1 && states@[i as int] == other);
                }
            }
        }
        i = i + 1;
    }
    let ghost kept = markers@;
    if wanted {
        insert_marker(&mut markers, fullscreen);
    }
    proof {
        assert forall|atom: u64| #[trigger]
            markers@.contains(atom) <==> if atom == fullscreen {
                wants_fullscreen(request, states@, fullscreen)
            } else {
                states@.contains(atom)
            } by {
            if atom != fullscreen {
                if kept.contains(atom) {
                    let j = choose|j: int| 0 <= j < states@.len() && states@[j] == atom;
                    assert(states@.contains(atom));
                }
                if states@.contains(atom) {
                    let j = choose|j: int| 0 <= j < states@.len() && states@[j] == atom;
                    assert(0 <= j < i && states@[j] == atom);
                }
            }
        }
    }
    markers
}

/// What the driver is to do with a window's markers, and the change to
/// report.
#[derive(Clone, Debug, PartialEq)]
pub struct StateChange {
    /// Whether the driver is to replace the window's markers by those of the
    /// change before it reports the change.
    pub rewrite: bool,
    pub change: WindowChange,
}

/// Decides a state message once the window's markers `states` are read. With
/// a request for fullscreen the markers are rewritten as the request asks;
/// without one they stay. The change reports the markers that the window then
/// has.
pub fn window_states_changed(
    ctx: &XContext,
    window: u64,
    request: Option<FullscreenRequest>,
    states: Vec<u64>,
) -> (outcome: StateChange)
    ensures
        outcome.change.handle == WindowHandle::XlibHandle(window),
        outcome.rewrite == (request is Some),
        outcome.change.states matches Some(markers) && match request {
            Some(asked) => markers_after(
                states@,
                asked,
                ctx.atoms.net_wm_state_fullscreen,
                markers@,
            ),
            None => markers@ == states@,
        },
{
    let mut change: WindowChange = WindowChange::new(WindowHandle::XlibHandle(window));
    match request {
        Some(asked) => {
            let markers: Vec<u64> = fullscreen_markers(
                &states,
                asked,
                ctx.atoms.net_wm_state_fullscreen,
            );
            change.states = Some(markers);
            StateChange { rewrite: true, change }
        },
        None => {
            change.states = Some(states);
            StateChange { rewrite: false, change }
        },
    }
}

} // verus!
