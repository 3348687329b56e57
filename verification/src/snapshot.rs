//! Reading a snapshot of the workspaces from the compositor's reply.

use vstd::prelude::*;
use crate::json::{
    decode_lossy, display, is_true, json_array, json_is_true, json_member, json_text, lossy_text, member,
    parse_array,
};
use crate::workspace::{views, Workspace, WorkspaceView};

verus! {

/// Why a reply gives no snapshot to work on.
#[derive(Debug)]
pub enum SnapshotError {
    /// The reply is not a JSON array; the parser's account of it is inside.
    Malformed(serde_json::Error),
    /// No workspace of the snapshot has the focus.
    NoFocus,
}

/// The workspace that a document of the reply describes. The name and the
/// output are the members `name` and `output` as JSON text, so a string keeps
/// its quotes; the workspace is focused where the member `focused` is the
/// boolean `true`.
pub open spec fn described(value: serde_json::Value) -> WorkspaceView {
    WorkspaceView {
        name: json_text(json_member(value, "name"@)),
        output: json_text(json_member(value, "output"@)),
        focused: json_is_true(json_member(value, "focused"@)),
    }
}

/// The snapshot that a list of documents describes.
pub open spec fn described_all(values: Seq<serde_json::Value>) -> Seq<WorkspaceView> {
    values.map_values(|v: serde_json::Value| described(v))
}

/// The first position of a focused workspace in the snapshot, if it has one.
pub open spec fn first_focused(snapshot: Seq<WorkspaceView>) -> Option<int> {
    if exists|i: int| 0 <= i < snapshot.len() && (#[trigger] snapshot[i]).focused {
        Some(
            choose|i: int|
                0 <= i < snapshot.len() && (#[trigger] snapshot[i]).focused && forall|j: int|
                    0 <= j < i ==> !(#[trigger] snapshot[j]).focused,
        )
    } else {
        None
    }
}

/// Where a snapshot has a focused workspace, `first_focused` is the position
/// of one before which none is focused; where it has none, it is `None`.
pub proof fn lemma_first_focused(snapshot: Seq<WorkspaceView>)
    ensures
        match first_focused(snapshot) {
            Some(i) => {
                &&& 0 <= i < snapshot.len()
                &&& snapshot[i].focused
                &&& forall|j: int| 0 <= j < i ==> !(#[trigger] snapshot[j]).focused
            },
            None => forall|j: int| 0 <= j < snapshot.len() ==> !(#[trigger] snapshot[j]).focused,
        },
{
    if exists|i: int| 0 <= i < snapshot.len() && (#[trigger] snapshot[i]).focused {
        let w = choose|i: int| 0 <= i < snapshot.len() && (#[trigger] snapshot[i]).focused;
        lemma_least_focused(snapshot, w);
    }
}

/// Below a focused position there is a least one.
proof fn lemma_least_focused(snapshot: Seq<WorkspaceView>, w: int)
    requires
        0 <= w < snapshot.len(),
        snapshot[w].focused,
    ensures
        exists|i: int|
            0 <= i <= w && (#[trigger] snapshot[i]).focused && forall|j: int|
                0 <= j < i ==> !(#[trigger] snapshot[j]).focused,
    decreases w,
{
    if exists|k: int| 0 <= k < w && (#[trigger] snapshot[k]).focused {
        let k = choose|k: int| 0 <= k < w && (#[trigger] snapshot[k]).focused;
        lemma_least_focused(snapshot, k);
    } else {
        assert(snapshot[w].focused && forall|j: int| 0 <= j < w ==> !(#[trigger] snapshot[j]).focused);
    }
}

/// Reads one workspace from a document of the reply.
pub fn workspace_from(value: &serde_json::Value) -> (w: Workspace)
    ensures
        w@ == described(*value),
{
    Workspace {
        name: display(member(value, "name")),
        output: display(member(value, "output")),
        focused: is_true(member(value, "focused")),
    }
}

/// Reads the workspaces from the documents of the reply, one from each, in
/// their order.
pub fn workspaces_from(values: &Vec<serde_json::Value>) -> (workspaces: Vec<Workspace>)
    ensures
        views(workspaces@) == described_all(values@),
{
    let mut workspaces: Vec<Workspace> = Vec::new();
    let mut i: usize = 0;
    while i < values.len()
        invariant
            i <= values.len(),
            workspaces@.len() == i,
            forall|j: int| 0 <= j < i ==> (#[trigger] workspaces@[j])@ == described(values@[j]),
        decreases values.len() - i,
    {
        workspaces.push(workspace_from(&values[i]));
        i = i + 1;
    }
    proof {
        assert(views(workspaces@) =~= described_all(values@));
    }
    workspaces
}

/// Reads the snapshot from the compositor's reply to the request for its
/// workspaces: the bytes are decoded as UTF-8, leniently, and parsed as a
/// JSON array, each element of which describes one workspace. A reply that
/// is no JSON array gives [`SnapshotError::Malformed`], and no other error
/// comes from here.
pub fn read_workspaces(reply: &[u8]) -> (r: Result<Vec<Workspace>, SnapshotError>)
    ensures
        match json_array(lossy_text(reply@)) {
            Some(values) => r matches Ok(workspaces) && views(workspaces@) == described_all(values),
            None => r matches Err(SnapshotError::Malformed(_)),
        },
{
    let text: String = decode_lossy(reply);
    match parse_array(text.as_str()) {
        Ok(values) => Ok(workspaces_from(&values)),
        Err(e) => Err(SnapshotError::Malformed(e)),
    }
}

/// Finds the workspace that has the focus: the position of the first focused
/// workspace of the snapshot, or `None` where no workspace is focused.
pub fn focused_workspace(workspaces: &Vec<Workspace>) -> (found: Option<usize>)
    ensures
        match found {
            Some(i) => first_focused(views(workspaces@)) == Some(i as int) && i < workspaces.len(),
            None => first_focused(views(workspaces@)) == None::<int>,
        },
{
    let mut i: usize = 0;
    proof {
        lemma_first_focused(views(workspaces@));
    }
    while i < workspaces.len()
        invariant
            i <= workspaces.len(),
            forall|j: int| 0 <= j < i ==> !(#[trigger] views(workspaces@)[j]).focused,
        decreases workspaces.len() - i,
    {
        if workspaces[i].focused {
            proof {
                lemma_first_focused(views(workspaces@));
                assert(views(workspaces@)[i as int].focused);
            }
            return Some(i);
        }
        i = i + 1;
    }
    proof {
        lemma_first_focused(views(workspaces@));
    }
    None
}

} // verus!
