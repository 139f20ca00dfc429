use vstd::prelude::*;
use crate::listing::DirectoryListing;
use crate::viewport::{enter_changes, spec_move_down, spec_move_up, NavigationState};

verus! {

/// A discrete user intent, decoded from one key press.
#[derive(Clone, Copy, Debug, PartialEq, Eq, Structural)]
pub enum KeyCommand {
    MoveUp,
    MoveDown,
    Enter,
    Ascend,
    Search,
    CopyPath,
    Quit,
}

/// What the surrounding terminal loop must do after one turn.
#[derive(Clone, Copy, Debug, PartialEq, Eq, Structural)]
pub enum Action {
    /// Re-list the current directory and render again.
    Redraw,
    /// Read one line of search text, then apply the jump.
    PromptSearch,
    /// Put the current path's text on the system clipboard.
    CopyPath,
    /// Leave the event loop.
    Quit,
}

/// The controller's key map. Unrecognized keys decode to `None` and are
/// ignored, not an error.
pub open spec fn spec_translate_key(c: char) -> Option<KeyCommand> {
    if c == 'q' {
        Some(KeyCommand::Quit)
    } else if c == 'w' || c == 'k' {
        Some(KeyCommand::MoveUp)
    } else if c == 'd' || c == 'j' {
        Some(KeyCommand::MoveDown)
    } else if c == 'e' || c == 'l' {
        Some(KeyCommand::Enter)
    } else if c == 'a' || c == 'h' {
        Some(KeyCommand::Ascend)
    } else if c == 's' || c == '/' {
        Some(KeyCommand::Search)
    } else if c == 'c' || c == 'y' {
        Some(KeyCommand::CopyPath)
    } else {
        None
    }
}

/// Decode one key press into a command.
pub fn translate_key(c: char) -> (r: Option<KeyCommand>)
    ensures
        r == spec_translate_key(c),
{
    match c {
        'q' => Some(KeyCommand::Quit),
        'w' | 'k' => Some(KeyCommand::MoveUp),
        'd' | 'j' => Some(KeyCommand::MoveDown),
        'e' | 'l' => Some(KeyCommand::Enter),
        'a' | 'h' => Some(KeyCommand::Ascend),
        's' | '/' => Some(KeyCommand::Search),
        'c' | 'y' => Some(KeyCommand::CopyPath),
        _ => None,
    }
}

/// One turn of the navigation controller: apply `cmd` to the state and
/// report what the terminal loop must do next. `listing` is a listing of
/// the current directory read at the time of the command; only Enter reads
/// it, so a selection gone stale on disk resolves to a no-op rather than an
/// indexing fault. Search is applied separately with
/// `NavigationState::apply_jump` once the term has been read.
pub fn step(state: &mut NavigationState, cmd: KeyCommand, listing: &DirectoryListing) -> (a:
    Action)
    requires
        old(state).wf(),
    ensures
        final(state).wf(),
        match cmd {
            KeyCommand::MoveUp => {
                &&& a == Action::Redraw
                &&& final(state).current_path == old(state).current_path
                &&& final(state).entry_count == old(state).entry_count
                &&& final(state).selected_index == spec_move_up(
                    old(state).selected_index as int,
                    old(state).entry_count as int,
                )
            },
            KeyCommand::MoveDown => {
                &&& a == Action::Redraw
                &&& final(state).current_path == old(state).current_path
                &&& final(state).entry_count == old(state).entry_count
                &&& final(state).selected_index == spec_move_down(
                    old(state).selected_index as int,
                    old(state).entry_count as int,
                )
            },
            KeyCommand::Enter => {
                &&& a == Action::Redraw
                &&& enter_changes(old(state).selected_index as int, listing@)
                    ==> final(state).current_path@ == old(state).current_path@.push(
                    listing@[old(state).selected_index as int].name,
                ) && final(state).selected_index == 0
                &&& !enter_changes(old(state).selected_index as int, listing@) ==> *final(state)
                    == *old(state)
            },
            KeyCommand::Ascend => {
                &&& a == Action::Redraw
                &&& !old(state).current_path.is_root() ==> final(state).current_path@ == old(
                    state,
                ).current_path@.drop_last() && final(state).selected_index == 0
                &&& old(state).current_path.is_root() ==> *final(state) == *old(state)
            },
            KeyCommand::Search => a == Action::PromptSearch && *final(state) == *old(state),
            KeyCommand::CopyPath => a == Action::CopyPath && *final(state) == *old(state),
            KeyCommand::Quit => a == Action::Quit && *final(state) == *old(state),
        },
{
    match cmd {
        KeyCommand::MoveUp => {
            state.move_up();
            Action::Redraw
        },
        KeyCommand::MoveDown => {
            state.move_down();
            Action::Redraw
        },
        KeyCommand::Enter => {
            state.apply_enter(listing);
            Action::Redraw
        },
        KeyCommand::Ascend => {
            state.apply_ascend();
            Action::Redraw
        },
        KeyCommand::Search => Action::PromptSearch,
        KeyCommand::CopyPath => Action::CopyPath,
        KeyCommand::Quit => Action::Quit,
    }
}

} // verus!
