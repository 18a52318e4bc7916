//! How browser input is read.

use vstd::prelude::*;
use crate::workspace::views::PanelKind;

verus! {

/// What the keyboard acts on.
#[derive(Debug, Clone, Copy, PartialEq, Eq)]
pub enum Focus<K> {
    /// A focused editor receives the key first.
    TextInput,
    Panel(K),
    Workspace,
}

/// What the keyboard acts on: an editor that is being typed in, else the focused panel, else
/// the workspace.
pub fn handle_key<K: PanelKind>(editing: bool, focused: Option<K>) -> (r: Focus<K>)
    ensures
        r == (if editing {
            Focus::TextInput
        } else {
            match focused {
                Some(k) => Focus::Panel(k),
                None => Focus::Workspace,
            }
        }),
{
    if editing {
        Focus::TextInput
    } else {
        match focused {
            Some(k) => Focus::Panel(k),
            None => Focus::Workspace,
        }
    }
}

/// What the pointer is doing.
#[derive(Debug, Clone, Copy, PartialEq, Eq, Structural)]
pub enum Pointer {
    /// It drags something, with the primary button down.
    Drag,
    Moved,
}

/// What a motion of the pointer means: a drag while one is in flight.
pub fn handle_pointer_move(dragging: bool) -> (r: Pointer)
    ensures
        r == (if dragging {
            Pointer::Drag
        } else {
            Pointer::Moved
        }),
{
    if dragging {
        Pointer::Drag
    } else {
        Pointer::Moved
    }
}

} // verus!
