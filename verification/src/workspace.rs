//! The data model: workspaces, snapshots, directions.

use vstd::prelude::*;

verus! {

/// One workspace as the compositor reports it.
#[derive(Clone, Debug, PartialEq, Eq)]
pub struct Workspace {
    /// Identifier of the workspace, unique among the workspaces of a snapshot.
    pub name: String,
    /// Identifier of the display that the workspace is bound to.
    pub output: String,
    /// True for the one workspace that has the focus.
    pub focused: bool,
}

/// The mathematical value of a [`Workspace`].
pub struct WorkspaceView {
    pub name: Seq<char>,
    pub output: Seq<char>,
    pub focused: bool,
}

impl View for Workspace {
    type V = WorkspaceView;

    open spec fn view(&self) -> WorkspaceView {
        WorkspaceView { name: self.name@, output: self.output@, focused: self.focused }
    }
}

/// The mathematical value of a snapshot: the view of each workspace, in the
/// order of the snapshot.
pub open spec fn views(workspaces: Seq<Workspace>) -> Seq<WorkspaceView> {
    workspaces.map_values(|w: Workspace| w@)
}

/// The mathematical value of a list of strings.
pub open spec fn texts(strings: Seq<String>) -> Seq<Seq<char>> {
    strings.map_values(|s: String| s@)
}

/// A snapshot is well formed when no two of its workspaces share a name.
pub open spec fn unique_names(snapshot: Seq<WorkspaceView>) -> bool {
    forall|i: int, j: int|
        0 <= i < j < snapshot.len() ==> (#[trigger] snapshot[i]).name != (#[trigger] snapshot[j]).name
}

/// The way to go round the workspaces of an output.
#[derive(Clone, Copy, Debug, PartialEq, Eq, Structural)]
pub enum Direction {
    /// To the workspace that follows the current one.
    Next,
    /// To the workspace that precedes the current one.
    Previous,
}

impl Direction {
    /// The signed step of a direction: one forward or one backward.
    pub open spec fn step(self) -> int {
        match self {
            Direction::Next => 1,
            Direction::Previous => -1,
        }
    }

    /// The direction that undoes this one.
    pub open spec fn reverse(self) -> Direction {
        match self {
            Direction::Next => Direction::Previous,
            Direction::Previous => Direction::Next,
        }
    }
}

/// Why no neighbour could be selected.
#[derive(Clone, Copy, Debug, PartialEq, Eq, Structural)]
pub enum SelectionError {
    /// No workspace of the snapshot is bound to the given output.
    EmptyGroup,
    /// The given output has workspaces, but none with the current name.
    CurrentNotFound,
}

} // verus!
