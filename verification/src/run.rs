//! One run: from the compositor's reply to what is to be done.

use vstd::prelude::*;
use crate::command::{effect_views, effects, planned, Effect, Switches};
use crate::json::{json_array, lossy_text};
use crate::select::{lemma_member_in_own_group, lemma_selection_outcomes, select, selection};
use crate::snapshot::{
    described_all, first_focused, focused_workspace, lemma_first_focused, read_workspaces, SnapshotError,
};
use crate::workspace::{views, Direction, Workspace, WorkspaceView};

verus! {

/// The neighbour of the focused workspace: what selection yields from the
/// name and the output of the first focused workspace of the snapshot. It is
/// `None` only where no workspace is focused, for a workspace stands in the
/// group of its own output.
pub open spec fn focused_neighbour(snapshot: Seq<WorkspaceView>, direction: Direction) -> Option<
    Seq<char>,
> {
    match first_focused(snapshot) {
        None => None,
        Some(i) => match selection(snapshot, snapshot[i].name, direction, snapshot[i].output) {
            Ok(name) => Some(name),
            Err(_) => None,
        },
    }
}

/// Selection from the focused workspace cannot fail: where a snapshot has a
/// focused workspace, it has a neighbour for it, which is a name of the
/// group of its output.
pub proof fn lemma_focused_has_neighbour(snapshot: Seq<WorkspaceView>, direction: Direction)
    ensures
        first_focused(snapshot) is Some <==> focused_neighbour(snapshot, direction) is Some,
        first_focused(snapshot) matches Some(i) ==> selection(
            snapshot,
            snapshot[i].name,
            direction,
            snapshot[i].output,
        ) is Ok,
{
    lemma_first_focused(snapshot);
    match first_focused(snapshot) {
        None => {},
        Some(i) => {
            lemma_member_in_own_group(snapshot, i);
            lemma_selection_outcomes(snapshot, snapshot[i].name, direction, snapshot[i].output);
        },
    }
}

/// Selects the neighbour of the focused workspace on the output of that
/// workspace. Gives `None` where no workspace of the snapshot is focused, and
/// a name in every other case.
pub fn select_from_focused(workspaces: &Vec<Workspace>, direction: Direction) -> (r: Option<String>)
    ensures
        match r {
            Some(name) => focused_neighbour(views(workspaces@), direction) == Some(name@),
            None => focused_neighbour(views(workspaces@), direction) == None::<Seq<char>>,
        },
        r is Some <==> first_focused(views(workspaces@)) is Some,
{
    proof {
        lemma_focused_has_neighbour(views(workspaces@), direction);
    }
    match focused_workspace(workspaces) {
        None => None,
        Some(i) => {
            let current: &Workspace = &workspaces[i];
            assert(views(workspaces@)[i as int] == current@);
            match select(workspaces, current.name.as_str(), direction, current.output.as_str()) {
                Ok(name) => Some(name),
                // Not reached: the focused workspace is in the group of its output.
                Err(_) => None,
            }
        },
    }
}

/// Decides what a run does, from the compositor's reply to the request for
/// its workspaces: reads the snapshot, selects the neighbour of the focused
/// workspace in `direction`, and lists the effects that the switches ask for
/// on it. A reply that is no JSON array gives [`SnapshotError::Malformed`]; a
/// snapshot without a focused workspace gives [`SnapshotError::NoFocus`].
pub fn plan(reply: &[u8], direction: Direction, switches: Switches) -> (r: Result<
    Vec<Effect>,
    SnapshotError,
>)
    ensures
        match json_array(lossy_text(reply@)) {
            None => r matches Err(SnapshotError::Malformed(_)),
            Some(values) => match focused_neighbour(described_all(values), direction) {
                None => r matches Err(SnapshotError::NoFocus),
                Some(name) => r matches Ok(list) && effect_views(list@) == planned(name, switches),
            },
        },
{
    match read_workspaces(reply) {
        Err(e) => Err(e),
        Ok(workspaces) => match select_from_focused(&workspaces, direction) {
            None => Err(SnapshotError::NoFocus),
            Some(name) => Ok(effects(name.as_str(), switches)),
        },
    }
}

} // verus!
