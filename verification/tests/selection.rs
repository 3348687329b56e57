use sway_workspace::cycle::neighbour_index;
use sway_workspace::select::{group_names, position, select};
use sway_workspace::workspace::{Direction, SelectionError, Workspace};

fn workspace(name: &str, output: &str, focused: bool) -> Workspace {
    Workspace { name: name.to_string(), output: output.to_string(), focused }
}

fn on_one_output(names: &[&str]) -> Vec<Workspace> {
    names.iter().map(|n| workspace(n, "DP-1", false)).collect()
}

#[test]
fn next_from_the_middle() {
    let snapshot = on_one_output(&["1", "2", "3"]);
    assert_eq!(select(&snapshot, "2", Direction::Next, "DP-1"), Ok("3".to_string()));
}

#[test]
fn previous_from_the_middle() {
    let snapshot = on_one_output(&["1", "2", "3"]);
    assert_eq!(select(&snapshot, "2", Direction::Previous, "DP-1"), Ok("1".to_string()));
}

#[test]
fn single_workspace_returns_itself() {
    let snapshot = on_one_output(&["1"]);
    assert_eq!(select(&snapshot, "1", Direction::Next, "DP-1"), Ok("1".to_string()));
    assert_eq!(select(&snapshot, "1", Direction::Previous, "DP-1"), Ok("1".to_string()));
}

#[test]
fn previous_wraps_from_the_first() {
    let snapshot = on_one_output(&["1", "2", "3"]);
    assert_eq!(select(&snapshot, "1", Direction::Previous, "DP-1"), Ok("3".to_string()));
}

#[test]
fn next_wraps_from_the_last() {
    let snapshot = on_one_output(&["1", "2", "3"]);
    assert_eq!(select(&snapshot, "3", Direction::Next, "DP-1"), Ok("1".to_string()));
}

#[test]
fn every_position_of_a_group_of_four() {
    let names = ["a", "b", "c", "d"];
    let snapshot = on_one_output(&names);
    for p in 0..4usize {
        assert_eq!(
            select(&snapshot, names[p], Direction::Next, "DP-1"),
            Ok(names[(p + 1) % 4].to_string())
        );
        assert_eq!(
            select(&snapshot, names[p], Direction::Previous, "DP-1"),
            Ok(names[(p + 4 - 1) % 4].to_string())
        );
    }
}

#[test]
fn there_and_back_again() {
    let names = ["a", "b", "c"];
    let snapshot = on_one_output(&names);
    for name in names {
        let forward = select(&snapshot, name, Direction::Next, "DP-1").unwrap();
        assert_eq!(select(&snapshot, &forward, Direction::Previous, "DP-1"), Ok(name.to_string()));
        let backward = select(&snapshot, name, Direction::Previous, "DP-1").unwrap();
        assert_eq!(select(&snapshot, &backward, Direction::Next, "DP-1"), Ok(name.to_string()));
    }
}

#[test]
fn other_outputs_are_left_out() {
    let snapshot = vec![
        workspace("1", "DP-1", false),
        workspace("4", "HDMI-1", false),
        workspace("2", "DP-1", true),
        workspace("5", "HDMI-1", false),
        workspace("3", "DP-1", false),
    ];
    assert_eq!(select(&snapshot, "2", Direction::Next, "DP-1"), Ok("3".to_string()));
    assert_eq!(select(&snapshot, "3", Direction::Next, "DP-1"), Ok("1".to_string()));
    assert_eq!(select(&snapshot, "1", Direction::Previous, "DP-1"), Ok("3".to_string()));
    assert_eq!(select(&snapshot, "4", Direction::Next, "HDMI-1"), Ok("5".to_string()));
    assert_eq!(select(&snapshot, "5", Direction::Next, "HDMI-1"), Ok("4".to_string()));
}

#[test]
fn output_without_workspaces_is_an_empty_group() {
    let snapshot = on_one_output(&["1", "2"]);
    assert_eq!(select(&snapshot, "1", Direction::Next, "HDMI-1"), Err(SelectionError::EmptyGroup));
    assert_eq!(
        select(&snapshot, "absent", Direction::Previous, "HDMI-1"),
        Err(SelectionError::EmptyGroup)
    );
}

#[test]
fn empty_snapshot_is_an_empty_group() {
    let snapshot: Vec<Workspace> = Vec::new();
    assert_eq!(select(&snapshot, "1", Direction::Next, "DP-1"), Err(SelectionError::EmptyGroup));
}

#[test]
fn absent_name_is_not_found() {
    let snapshot = on_one_output(&["1", "2", "3"]);
    assert_eq!(select(&snapshot, "9", Direction::Next, "DP-1"), Err(SelectionError::CurrentNotFound));
    assert_eq!(
        select(&snapshot, "9", Direction::Previous, "DP-1"),
        Err(SelectionError::CurrentNotFound)
    );
}

#[test]
fn name_on_another_output_is_not_found() {
    let snapshot = vec![workspace("1", "DP-1", false), workspace("4", "HDMI-1", true)];
    assert_eq!(select(&snapshot, "4", Direction::Next, "DP-1"), Err(SelectionError::CurrentNotFound));
}

#[test]
fn names_and_outputs_match_exactly() {
    let snapshot = on_one_output(&["1", "10"]);
    assert_eq!(select(&snapshot, "10", Direction::Next, "DP-1"), Ok("1".to_string()));
    assert_eq!(select(&snapshot, "1", Direction::Next, "DP"), Err(SelectionError::EmptyGroup));
    assert_eq!(select(&snapshot, "", Direction::Next, "DP-1"), Err(SelectionError::CurrentNotFound));
}

#[test]
fn first_occurrence_of_a_repeated_name_counts() {
    let snapshot = on_one_output(&["a", "b", "a", "c"]);
    assert_eq!(select(&snapshot, "a", Direction::Next, "DP-1"), Ok("b".to_string()));
    assert_eq!(select(&snapshot, "a", Direction::Previous, "DP-1"), Ok("c".to_string()));
}

#[test]
fn group_names_keeps_the_order_of_the_snapshot() {
    let snapshot = vec![
        workspace("3", "DP-1", false),
        workspace("9", "HDMI-1", false),
        workspace("1", "DP-1", false),
        workspace("2", "DP-1", false),
    ];
    assert_eq!(group_names(&snapshot, "DP-1"), vec!["3".to_string(), "1".to_string(), "2".to_string()]);
    assert_eq!(group_names(&snapshot, "HDMI-1"), vec!["9".to_string()]);
    assert_eq!(group_names(&snapshot, "eDP-1"), Vec::<String>::new());
}

#[test]
fn position_is_that_of_the_first_match() {
    let names = vec!["a".to_string(), "b".to_string(), "a".to_string()];
    assert_eq!(position(&names, "a"), Some(0));
    assert_eq!(position(&names, "b"), Some(1));
    assert_eq!(position(&names, "c"), None);
    assert_eq!(position(&Vec::new(), "a"), None);
}

#[test]
fn neighbour_index_steps_and_wraps() {
    assert_eq!(neighbour_index(0, 3, Direction::Next), 1);
    assert_eq!(neighbour_index(1, 3, Direction::Next), 2);
    assert_eq!(neighbour_index(2, 3, Direction::Next), 0);
    assert_eq!(neighbour_index(0, 3, Direction::Previous), 2);
    assert_eq!(neighbour_index(1, 3, Direction::Previous), 0);
    assert_eq!(neighbour_index(2, 3, Direction::Previous), 1);
    assert_eq!(neighbour_index(0, 1, Direction::Next), 0);
    assert_eq!(neighbour_index(0, 1, Direction::Previous), 0);
    assert_eq!(neighbour_index(usize::MAX - 1, usize::MAX, Direction::Next), 0);
    assert_eq!(neighbour_index(0, usize::MAX, Direction::Previous), usize::MAX - 1);
}
