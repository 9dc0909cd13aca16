//! What arrives from the keyboard, which command it stands for, and what
//! one round of input does to the dashboard.

use vstd::prelude::*;
use crate::focus::KeyCommand;
use crate::ui::ActiveFrame;

verus! {

/// How long one poll for input may wait, in milliseconds.  It bounds a
/// round of the render loop, so the screen is redrawn in time when no key is
/// pressed.
pub const POLL_INTERVAL_MILLIS: u64 = 50;

/// What happened to a key.
#[derive(Clone, Copy, Debug, PartialEq, Eq, Structural)]
pub enum KeyKind {
    Press,
    Repeat,
    Release,
}

/// The outcome of one poll for input.
#[derive(Clone, Copy, Debug, PartialEq, Eq, Structural)]
pub enum InputEvent {
    /// Nothing arrived within the poll interval.
    Idle,
    /// A key event; `symbol` is the character of a character key, and `None`
    /// for every other key.
    Key { kind: KeyKind, symbol: Option<char> },
    /// Anything else the terminal reports: a resize, the mouse, a paste.
    Other,
}

/// The command bound to a character key, `NoOp` for a key that has none.
pub open spec fn bound_command(symbol: char) -> KeyCommand {
    if symbol == 'q' {
        KeyCommand::Quit
    } else if symbol == 's' {
        KeyCommand::FocusStatus
    } else if symbol == 'b' {
        KeyCommand::ToggleBranchesBookmarks
    } else if symbol == 'l' {
        KeyCommand::FocusLog
    } else {
        KeyCommand::NoOp
    }
}

impl InputEvent {
    /// The command that the event stands for: that of the key for the press
    /// of a character key, and `NoOp` for everything else.
    pub open spec fn command(self) -> KeyCommand {
        match self {
            InputEvent::Key { kind: KeyKind::Press, symbol: Some(symbol) } => bound_command(symbol),
            _ => KeyCommand::NoOp,
        }
    }

    /// Works out the command that the event stands for.
    pub fn to_command(&self) -> (command: KeyCommand)
        ensures
            command == self.command(),
    {
        match self {
            InputEvent::Key { kind: KeyKind::Press, symbol: Some(symbol) } => {
                let symbol: char = *symbol;
                if symbol == 'q' {
                    KeyCommand::Quit
                } else if symbol == 's' {
                    KeyCommand::FocusStatus
                } else if symbol == 'b' {
                    KeyCommand::ToggleBranchesBookmarks
                } else if symbol == 'l' {
                    KeyCommand::FocusLog
                } else {
                    KeyCommand::NoOp
                }
            },
            _ => KeyCommand::NoOp,
        }
    }
}

/// The commands that a run of events stands for, one for each event.
pub open spec fn commands_of(events: Seq<InputEvent>) -> Seq<KeyCommand> {
    events.map_values(|event: InputEvent| event.command())
}

/// Handles the outcome of one poll: moves the focus as the event's command
/// says and tells whether the render loop is to end.  It ends on `Quit` and
/// on nothing else.
pub fn handle_events(active_frame: &mut ActiveFrame, event: InputEvent) -> (quit: bool)
    ensures
        *final(active_frame) == old(active_frame).after(event.command()),
        quit == (event.command() == KeyCommand::Quit),
{
    let command = event.to_command();
    *active_frame = active_frame.apply(command);
    match command {
        KeyCommand::Quit => true,
        _ => false,
    }
}

/// Only the press of `q` ends the render loop.  A poll that times out, the
/// release or repeat of a key, a key without a character and an event that
/// is no key event never do.
pub proof fn law_only_quit_ends(event: InputEvent)
    ensures
        event.command() == KeyCommand::Quit <==> event == (InputEvent::Key {
            kind: KeyKind::Press,
            symbol: Some('q'),
        }),
        InputEvent::Idle.command() == KeyCommand::NoOp,
{
}

/// An event leaves the focus where it was unless it is the press of `s`,
/// `b` or `l`: a poll that times out, an event that is no key press, `q` and
/// every key without a command change nothing.
pub proof fn law_other_keys_keep_focus(focus: ActiveFrame, event: InputEvent)
    requires
        !(event matches InputEvent::Key { kind: KeyKind::Press, symbol: Some(symbol) } && (symbol
            == 's' || symbol == 'b' || symbol == 'l')),
    ensures
        focus.after(event.command()) == focus,
{
}

} // verus!
