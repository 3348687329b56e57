//! Selection of the neighbouring workspace on an output.

use vstd::prelude::*;
use crate::cycle::{lemma_neighbour_cases, lemma_neighbour_round_trip, neighbour, neighbour_index};
use crate::workspace::{texts, unique_names, views, Direction, SelectionError, Workspace, WorkspaceView};

verus! {

/// The test that a workspace is bound to `output`.
pub open spec fn on_output(output: Seq<char>) -> spec_fn(WorkspaceView) -> bool {
    |w: WorkspaceView| w.output == output
}

/// The name of a workspace.
pub open spec fn name_of() -> spec_fn(WorkspaceView) -> Seq<char> {
    |w: WorkspaceView| w.name
}

/// The group of an output: the names of the workspaces of the snapshot that
/// are bound to `output`, in the order of the snapshot.
pub open spec fn output_group(snapshot: Seq<WorkspaceView>, output: Seq<char>) -> Seq<Seq<char>> {
    snapshot.filter(on_output(output)).map_values(name_of())
}

/// What selection yields: the name that stands one step in `direction` from
/// the first occurrence of `current` in the group of `output`, the group being
/// taken as a cycle; or the reason why there is none.
pub open spec fn selection(
    snapshot: Seq<WorkspaceView>,
    current: Seq<char>,
    direction: Direction,
    output: Seq<char>,
) -> Result<Seq<char>, SelectionError> {
    let group = output_group(snapshot, output);
    if group.len() == 0 {
        Err(SelectionError::EmptyGroup)
    } else {
        match group.index_of_first(current) {
            None => Err(SelectionError::CurrentNotFound),
            Some(p) => Ok(group[neighbour(p, group.len() as int, direction)]),
        }
    }
}

/// A snapshot with one more workspace at its end has the same group, with the
/// name of that workspace at its end if it is bound to the output.
pub proof fn lemma_output_group_push(snapshot: Seq<WorkspaceView>, w: WorkspaceView, output: Seq<char>)
    ensures
        output_group(snapshot.push(w), output) == if w.output == output {
            output_group(snapshot, output).push(w.name)
        } else {
            output_group(snapshot, output)
        },
{
    reveal(Seq::filter);
    assert(snapshot.push(w).drop_last() == snapshot);
}

/// Every name of a group is the name of a workspace of the snapshot that is
/// bound to the output.
pub proof fn lemma_output_group_members(snapshot: Seq<WorkspaceView>, output: Seq<char>, k: int)
    requires
        0 <= k < output_group(snapshot, output).len(),
    ensures
        exists|i: int|
            0 <= i < snapshot.len() && (#[trigger] snapshot[i]).output == output && snapshot[i].name
                == output_group(snapshot, output)[k],
    decreases snapshot.len(),
{
    reveal(Seq::filter);
    if snapshot.len() > 0 {
        let rest = snapshot.drop_last();
        let w = snapshot.last();
        assert(rest.push(w) == snapshot);
        lemma_output_group_push(rest, w, output);
        if k < output_group(rest, output).len() {
            lemma_output_group_members(rest, output, k);
            let i = choose|i: int|
                0 <= i < rest.len() && (#[trigger] rest[i]).output == output && rest[i].name
                    == output_group(rest, output)[k];
            assert(snapshot[i] == rest[i]);
        } else {
            assert(snapshot[snapshot.len() - 1] == w);
        }
    }
}

/// In a well-formed snapshot no name occurs twice in a group.
pub proof fn lemma_group_names_distinct(snapshot: Seq<WorkspaceView>, output: Seq<char>)
    requires
        unique_names(snapshot),
    ensures
        output_group(snapshot, output).no_duplicates(),
    decreases snapshot.len(),
{
    reveal(Seq::filter);
    if snapshot.len() > 0 {
        let rest = snapshot.drop_last();
        let w = snapshot.last();
        assert(rest.push(w) == snapshot);
        lemma_output_group_push(rest, w, output);
        assert(unique_names(rest)) by {
            assert forall|i: int, j: int| 0 <= i < j < rest.len() implies (#[trigger] rest[i]).name != (
            #[trigger] rest[j]).name by {
                assert(rest[i] == snapshot[i]);
                assert(rest[j] == snapshot[j]);
            }
        }
        lemma_group_names_distinct(rest, output);
        let group = output_group(rest, output);
        if w.output == output {
            assert forall|k: int| 0 <= k < group.len() implies group[k] != w.name by {
                lemma_output_group_members(rest, output, k);
                let i = choose|i: int|
                    0 <= i < rest.len() && (#[trigger] rest[i]).output == output && rest[i].name == group[k];
                assert(rest[i] == snapshot[i]);
                assert(snapshot[snapshot.len() - 1] == w);
            }
        }
    }
}

/// Collects the names of the workspaces that are bound to `output`, in the
/// order of the snapshot.
pub fn group_names(workspaces: &Vec<Workspace>, output: &str) -> (names: Vec<String>)
    ensures
        texts(names@) == output_group(views(workspaces@), output@),
{
    let wanted: String = output.to_owned();
    let mut names: Vec<String> = Vec::new();
    let mut i: usize = 0;
    proof {
        reveal(Seq::filter);
        assert(views(workspaces@.take(0)) == Seq::<WorkspaceView>::empty());
        assert(texts(names@) == output_group(views(workspaces@.take(0)), output@));
    }
    while i < workspaces.len()
        invariant
            i <= workspaces.len(),
            wanted@ == output@,
            texts(names@) == output_group(views(workspaces@.take(i as int)), output@),
        decreases workspaces.len() - i,
    {
        let ghost before = names@;
        let on_it: bool = workspaces[i].output == wanted;
        if on_it {
            names.push(workspaces[i].name.clone());
        }
        proof {
            let seen = views(workspaces@.take(i as int));
            let w = workspaces@[i as int]@;
            assert(views(workspaces@.take(i + 1)) == seen.push(w));
            lemma_output_group_push(seen, w, output@);
            if on_it {
                assert(texts(names@) == texts(before).push(w.name));
            }
        }
        i = i + 1;
    }
    proof {
        assert(workspaces@.take(i as int) == workspaces@);
    }
    names
}

/// Finds the first position at which `name` stands in `names`.
pub fn position(names: &Vec<String>, name: &str) -> (found: Option<usize>)
    ensures
        match found {
            Some(p) => texts(names@).index_of_first(name@) == Some(p as int),
            None => texts(names@).index_of_first(name@) == None::<int>,
        },
{
    let wanted: String = name.to_owned();
    let mut i: usize = 0;
    proof {
        texts(names@).index_of_first_ensures(name@);
    }
    while i < names.len()
        invariant
            i <= names.len(),
            wanted@ == name@,
            forall|j: int| 0 <= j < i ==> texts(names@)[j] != name@,
        decreases names.len() - i,
    {
        if names[i] == wanted {
            proof {
                texts(names@).index_of_first_ensures(name@);
                assert(texts(names@)[i as int] == name@);
            }
            return Some(i);
        }
        i = i + 1;
    }
    proof {
        texts(names@).index_of_first_ensures(name@);
    }
    None
}

/// Selects the workspace that stands next to the current one on its output.
///
/// The workspaces of the snapshot that are bound to `current_output` form a
/// cycle, in the order of the snapshot. The result is the name one step in
/// `direction` from `current_name` on that cycle; the step from the last
/// position forward leads to the first, and the step from the first backward
/// to the last. An output without workspaces gives
/// [`SelectionError::EmptyGroup`], a name that none of its workspaces bears
/// gives [`SelectionError::CurrentNotFound`].
///
/// Names are meant to be unique; of a name that occurs more than once on the
/// output, the first occurrence counts as the current position.
pub fn select(
    workspaces: &Vec<Workspace>,
    current_name: &str,
    direction: Direction,
    current_output: &str,
) -> (r: Result<String, SelectionError>)
    ensures
        match r {
            Ok(name) => selection(views(workspaces@), current_name@, direction, current_output@) == Ok::<
                Seq<char>,
                SelectionError,
            >(name@),
            Err(e) => selection(views(workspaces@), current_name@, direction, current_output@) == Err::<
                Seq<char>,
                SelectionError,
            >(e),
        },
        r == Err::<String, SelectionError>(SelectionError::EmptyGroup) <==> output_group(
            views(workspaces@),
            current_output@,
        ).len() == 0,
        r == Err::<String, SelectionError>(SelectionError::CurrentNotFound) <==> output_group(
            views(workspaces@),
            current_output@,
        ).len() > 0 && !output_group(views(workspaces@), current_output@).contains(current_name@),
        r matches Ok(name) ==> output_group(views(workspaces@), current_output@).contains(name@),
{
    let names: Vec<String> = group_names(workspaces, current_output);
    let n: usize = names.len();
    proof {
        texts(names@).index_of_first_ensures(current_name@);
    }
    if n == 0 {
        return Err(SelectionError::EmptyGroup);
    }
    match position(&names, current_name) {
        None => Err(SelectionError::CurrentNotFound),
        Some(p) => {
            let q: usize = neighbour_index(p, n, direction);
            let name: String = names[q].clone();
            proof {
                assert(texts(names@)[q as int] == name@);
            }
            Ok(name)
        },
    }
}

/// In a group without repeated names, the name at position `p` is first found
/// at `p`.
pub proof fn lemma_first_position(group: Seq<Seq<char>>, p: int)
    requires
        group.no_duplicates(),
        0 <= p < group.len(),
    ensures
        group.index_of_first(group[p]) == Some(p),
{
    group.index_of_first_ensures(group[p]);
}

/// Selection from a position: in a group of `n` distinct names, selection
/// from the name at position `p` yields the name at `(p + 1) mod n` going
/// forward and the name at `(p - 1 + n) mod n` going backward.
pub proof fn lemma_selection_from_position(
    snapshot: Seq<WorkspaceView>,
    output: Seq<char>,
    p: int,
    direction: Direction,
)
    requires
        output_group(snapshot, output).no_duplicates(),
        0 <= p < output_group(snapshot, output).len(),
    ensures
        ({
            let group = output_group(snapshot, output);
            let n = group.len() as int;
            let target = match direction {
                Direction::Next => (p + 1) % n,
                Direction::Previous => (p - 1 + n) % n,
            };
            &&& 0 <= target < n
            &&& selection(snapshot, group[p], direction, output) == Ok::<Seq<char>, SelectionError>(
                group[target],
            )
        }),
{
    let group = output_group(snapshot, output);
    lemma_first_position(group, p);
    lemma_neighbour_cases(p, group.len() as int, direction);
}

/// Going one way and back: in a group of distinct names, selection in one
/// direction followed by selection in the reverse direction, from the name
/// that the first one gave, yields the name that the first one started from.
pub proof fn lemma_selection_round_trip(
    snapshot: Seq<WorkspaceView>,
    current: Seq<char>,
    direction: Direction,
    output: Seq<char>,
)
    requires
        output_group(snapshot, output).no_duplicates(),
        output_group(snapshot, output).contains(current),
    ensures
        selection(snapshot, current, direction, output) is Ok,
        selection(
            snapshot,
            selection(snapshot, current, direction, output)->Ok_0,
            direction.reverse(),
            output,
        ) == Ok::<Seq<char>, SelectionError>(current),
{
    let group = output_group(snapshot, output);
    let n = group.len() as int;
    group.index_of_first_ensures(current);
    let p = group.index_of_first(current)->Some_0;
    lemma_neighbour_cases(p, n, direction);
    let q = neighbour(p, n, direction);
    lemma_first_position(group, q);
    lemma_neighbour_round_trip(p, n, direction);
}

/// A group of one: on an output with a single workspace, selection from its
/// name yields that same name in either direction.
pub proof fn lemma_selection_single(
    snapshot: Seq<WorkspaceView>,
    direction: Direction,
    output: Seq<char>,
)
    requires
        output_group(snapshot, output).len() == 1,
    ensures
        selection(snapshot, output_group(snapshot, output)[0], direction, output) == Ok::<
            Seq<char>,
            SelectionError,
        >(output_group(snapshot, output)[0]),
{
    let group = output_group(snapshot, output);
    group.index_of_first_ensures(group[0]);
    lemma_neighbour_cases(0, 1, direction);
}

/// Wrapping around: in a group of distinct names, going backward from the
/// first name yields the last, and going forward from the last yields the
/// first.
pub proof fn lemma_selection_wraps(snapshot: Seq<WorkspaceView>, output: Seq<char>)
    requires
        output_group(snapshot, output).no_duplicates(),
        output_group(snapshot, output).len() > 0,
    ensures
        selection(snapshot, output_group(snapshot, output).first(), Direction::Previous, output) == Ok::<
            Seq<char>,
            SelectionError,
        >(output_group(snapshot, output).last()),
        selection(snapshot, output_group(snapshot, output).last(), Direction::Next, output) == Ok::<
            Seq<char>,
            SelectionError,
        >(output_group(snapshot, output).first()),
{
    let group = output_group(snapshot, output);
    let n = group.len() as int;
    lemma_first_position(group, 0);
    lemma_first_position(group, n - 1);
    lemma_neighbour_cases(0, n, Direction::Previous);
    lemma_neighbour_cases(n - 1, n, Direction::Next);
}

/// What cannot be selected: an output without workspaces yields `EmptyGroup`,
/// whatever the name; an output with workspaces yields `CurrentNotFound` for
/// a name that none of them bears, and a name of the group for any other.
pub proof fn lemma_selection_outcomes(
    snapshot: Seq<WorkspaceView>,
    current: Seq<char>,
    direction: Direction,
    output: Seq<char>,
)
    ensures
        ({
            let group = output_group(snapshot, output);
            let outcome = selection(snapshot, current, direction, output);
            &&& group.len() == 0 <==> outcome == Err::<Seq<char>, SelectionError>(
                SelectionError::EmptyGroup,
            )
            &&& group.len() > 0 && !group.contains(current) <==> outcome == Err::<
                Seq<char>,
                SelectionError,
            >(SelectionError::CurrentNotFound)
            &&& group.contains(current) <==> outcome is Ok
            &&& outcome matches Ok(name) ==> group.contains(name)
        }),
{
    let group = output_group(snapshot, output);
    group.index_of_first_ensures(current);
    if group.len() > 0 {
        match group.index_of_first(current) {
            Some(p) => {
                lemma_neighbour_cases(p, group.len() as int, direction);
            },
            None => {},
        }
    }
}

/// A workspace of the snapshot stands in the group of its own output: its
/// name can be selected from.
pub proof fn lemma_member_in_own_group(snapshot: Seq<WorkspaceView>, i: int)
    requires
        0 <= i < snapshot.len(),
    ensures
        output_group(snapshot, snapshot[i].output).contains(snapshot[i].name),
    decreases snapshot.len(),
{
    let output = snapshot[i].output;
    let rest = snapshot.drop_last();
    let w = snapshot.last();
    assert(rest.push(w) == snapshot);
    lemma_output_group_push(rest, w, output);
    if i == snapshot.len() - 1 {
        let group = output_group(rest, output).push(w.name);
        assert(group[group.len() - 1] == w.name);
    } else {
        assert(rest[i] == snapshot[i]);
        lemma_member_in_own_group(rest, i);
        let group = output_group(rest, output);
        let k = choose|k: int| 0 <= k < group.len() && group[k] == snapshot[i].name;
        assert(output_group(snapshot, output)[k] == snapshot[i].name);
    }
}

} // verus!
