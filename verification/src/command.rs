//! The compositor commands that act on a selected workspace, and the order
//! in which a run issues them.

use vstd::prelude::*;

verus! {

/// What the caller asked for beyond the selection itself.
#[derive(Clone, Copy, Debug, PartialEq, Eq, Structural)]
pub struct Switches {
    /// Move the focused container to the selected workspace.
    pub move_ws: bool,
    /// Leave the focus where it is.
    pub no_focus_ws: bool,
    /// Print the name of the selected workspace.
    pub stdout_ws: bool,
}

/// One thing to do with the selected workspace.
#[derive(Clone, Debug, PartialEq, Eq)]
pub enum Effect {
    /// Send this command to the compositor.
    Run(String),
    /// Write this text to the standard output, with nothing after it.
    Print(String),
}

/// The mathematical value of an [`Effect`].
pub enum EffectView {
    Run(Seq<char>),
    Print(Seq<char>),
}

impl View for Effect {
    type V = EffectView;

    open spec fn view(&self) -> EffectView {
        match self {
            Effect::Run(text) => EffectView::Run(text@),
            Effect::Print(text) => EffectView::Print(text@),
        }
    }
}

/// The mathematical value of a list of effects.
pub open spec fn effect_views(effects: Seq<Effect>) -> Seq<EffectView> {
    effects.map_values(|e: Effect| e@)
}

/// The text of the command that gives the focus to the workspace `name`.
pub open spec fn focus_text(name: Seq<char>) -> Seq<char> {
    "workspace "@ + name
}

/// The text of the command that moves the focused container to the workspace
/// `name`.
pub open spec fn move_text(name: Seq<char>) -> Seq<char> {
    "move workspace "@ + name
}

/// What a run does with the selected workspace `name`, in this order: the
/// move, if it was asked for; the focus, unless it was declined; the print,
/// if it was asked for.
pub open spec fn planned(name: Seq<char>, switches: Switches) -> Seq<EffectView> {
    (if switches.move_ws {
        seq![EffectView::Run(move_text(name))]
    } else {
        Seq::<EffectView>::empty()
    }) + (if switches.no_focus_ws {
        Seq::<EffectView>::empty()
    } else {
        seq![EffectView::Run(focus_text(name))]
    }) + (if switches.stdout_ws {
        seq![EffectView::Print(name)]
    } else {
        Seq::<EffectView>::empty()
    })
}

/// Builds the command that gives the focus to the workspace `name`.
pub fn focus_command(name: &str) -> (command: String)
    ensures
        command@ == focus_text(name@),
{
    let mut command: String = String::from_str("workspace ");
    command.append(name);
    command
}

/// Builds the command that moves the focused container to the workspace
/// `name`.
pub fn move_command(name: &str) -> (command: String)
    ensures
        command@ == move_text(name@),
{
    let mut command: String = String::from_str("move workspace ");
    command.append(name);
    command
}

/// Lists what a run does with the selected workspace `name`: the move before
/// the focus, the focus before the print, each only where the switches ask
/// for it.
pub fn effects(name: &str, switches: Switches) -> (list: Vec<Effect>)
    ensures
        effect_views(list@) == planned(name@, switches),
{
    let mut list: Vec<Effect> = Vec::new();
    if switches.move_ws {
        list.push(Effect::Run(move_command(name)));
    }
    if !switches.no_focus_ws {
        list.push(Effect::Run(focus_command(name)));
    }
    if switches.stdout_ws {
        list.push(Effect::Print(name.to_owned()));
    }
    proof {
        assert(effect_views(list@) =~= planned(name@, switches));
    }
    list
}

} // verus!
