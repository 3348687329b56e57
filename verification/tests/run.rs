use sway_workspace::command::{effects, focus_command, move_command, Effect, Switches};
use sway_workspace::run::{plan, select_from_focused};
use sway_workspace::snapshot::SnapshotError;
use sway_workspace::workspace::{Direction, Workspace};

const REPLY: &[u8] = b"[\
  {\"name\": \"1\", \"output\": \"DP-1\", \"focused\": false},\
  {\"name\": \"4\", \"output\": \"HDMI-A-1\", \"focused\": false},\
  {\"name\": \"2\", \"output\": \"DP-1\", \"focused\": true},\
  {\"name\": \"3\", \"output\": \"DP-1\", \"focused\": false}\
]";

fn entry(name: &str, output: &str, focused: bool) -> Workspace {
    Workspace { name: name.to_string(), output: output.to_string(), focused }
}

fn switches(move_ws: bool, no_focus_ws: bool, stdout_ws: bool) -> Switches {
    Switches { move_ws, no_focus_ws, stdout_ws }
}

#[test]
fn focus_command_text() {
    assert_eq!(focus_command("3"), "workspace 3");
    assert_eq!(focus_command("\"5: web\""), "workspace \"5: web\"");
    assert_eq!(focus_command(""), "workspace ");
}

#[test]
fn move_command_text() {
    assert_eq!(move_command("3"), "move workspace 3");
    assert_eq!(move_command("\"5: web\""), "move workspace \"5: web\"");
    assert_eq!(move_command(""), "move workspace ");
}

#[test]
fn effects_by_default_are_the_focus_alone() {
    assert_eq!(effects("3", switches(false, false, false)), vec![Effect::Run("workspace 3".to_string())]);
}

#[test]
fn effects_come_in_the_order_move_focus_print() {
    assert_eq!(
        effects("3", switches(true, false, true)),
        vec![
            Effect::Run("move workspace 3".to_string()),
            Effect::Run("workspace 3".to_string()),
            Effect::Print("3".to_string()),
        ]
    );
}

#[test]
fn effects_of_each_switch() {
    assert_eq!(effects("3", switches(false, true, false)), Vec::<Effect>::new());
    assert_eq!(
        effects("3", switches(true, true, false)),
        vec![Effect::Run("move workspace 3".to_string())]
    );
    assert_eq!(effects("3", switches(false, true, true)), vec![Effect::Print("3".to_string())]);
    assert_eq!(
        effects("3", switches(true, false, false)),
        vec![Effect::Run("move workspace 3".to_string()), Effect::Run("workspace 3".to_string())]
    );
    assert_eq!(
        effects("3", switches(false, false, true)),
        vec![Effect::Run("workspace 3".to_string()), Effect::Print("3".to_string())]
    );
    assert_eq!(
        effects("3", switches(true, true, true)),
        vec![Effect::Run("move workspace 3".to_string()), Effect::Print("3".to_string())]
    );
}

#[test]
fn select_from_focused_uses_the_output_of_the_focused() {
    let snapshot = vec![
        entry("1", "DP-1", false),
        entry("4", "HDMI-A-1", false),
        entry("2", "DP-1", true),
        entry("3", "DP-1", false),
    ];
    assert_eq!(select_from_focused(&snapshot, Direction::Next), Some("3".to_string()));
    assert_eq!(select_from_focused(&snapshot, Direction::Previous), Some("1".to_string()));
}

#[test]
fn select_from_focused_alone_on_its_output() {
    let snapshot = vec![entry("1", "DP-1", false), entry("4", "HDMI-A-1", true), entry("2", "DP-1", false)];
    assert_eq!(select_from_focused(&snapshot, Direction::Next), Some("4".to_string()));
    assert_eq!(select_from_focused(&snapshot, Direction::Previous), Some("4".to_string()));
}

#[test]
fn select_from_focused_without_focus() {
    let snapshot = vec![entry("1", "DP-1", false), entry("2", "DP-1", false)];
    assert_eq!(select_from_focused(&snapshot, Direction::Next), None);
    assert_eq!(select_from_focused(&Vec::new(), Direction::Previous), None);
}

#[test]
fn plan_focuses_the_next_workspace() {
    let planned = plan(REPLY, Direction::Next, switches(false, false, false)).unwrap();
    assert_eq!(planned, vec![Effect::Run("workspace \"3\"".to_string())]);
}

#[test]
fn plan_moves_focuses_and_prints_the_previous_workspace() {
    let planned = plan(REPLY, Direction::Previous, switches(true, false, true)).unwrap();
    assert_eq!(
        planned,
        vec![
            Effect::Run("move workspace \"1\"".to_string()),
            Effect::Run("workspace \"1\"".to_string()),
            Effect::Print("\"1\"".to_string()),
        ]
    );
}

#[test]
fn plan_wraps_around_on_the_output() {
    let reply = b"[{\"name\": \"1\", \"output\": \"DP-1\", \"focused\": false},\
                   {\"name\": \"2\", \"output\": \"DP-1\", \"focused\": false},\
                   {\"name\": \"3\", \"output\": \"DP-1\", \"focused\": true}]";
    let planned = plan(reply, Direction::Next, switches(false, true, true)).unwrap();
    assert_eq!(planned, vec![Effect::Print("\"1\"".to_string())]);
}

#[test]
fn plan_of_a_malformed_reply() {
    let r = plan(b"{\"success\": true}", Direction::Next, switches(false, false, false));
    assert!(matches!(r, Err(SnapshotError::Malformed(_))));
}

#[test]
fn plan_without_a_focused_workspace() {
    let reply = b"[{\"name\": \"1\", \"output\": \"DP-1\", \"focused\": false}]";
    let r = plan(reply, Direction::Next, switches(false, false, false));
    assert!(matches!(r, Err(SnapshotError::NoFocus)));
    assert!(matches!(plan(b"[]", Direction::Next, switches(true, true, true)), Err(SnapshotError::NoFocus)));
}
