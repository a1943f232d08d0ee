//! Key action dispatcher: turns a resolved token and a note status into the
//! keyboard-emulation commands owed for it.

use vstd::prelude::*;
use crate::decode::Status;
use crate::token::{KeyToken, ModifierKind, WhitespaceKind};

verus! {

/// One call against the keyboard-emulation collaborator.
#[derive(Clone, Copy, Debug, PartialEq, Eq, Structural)]
pub enum KeyCommand {
    /// Hold the key down.
    KeyDown(KeyToken),
    /// Let the key up.
    KeyUp(KeyToken),
    /// Press and release the key in one stroke.
    KeyClick(KeyToken),
}

/// Commands owed for a token and a status: a modifier is held on press and
/// let up on release; every other mapped token is clicked on press and
/// ignored on release; the unmapped token emits nothing for either status.
pub open spec fn spec_dispatch(token: KeyToken, status: Status) -> Seq<KeyCommand> {
    match token {
        KeyToken::Modifier(_) => match status {
            Status::Press => seq![KeyCommand::KeyDown(token)],
            Status::Release => seq![KeyCommand::KeyUp(token)],
        },
        KeyToken::Whitespace(_) => match status {
            Status::Press => seq![KeyCommand::KeyClick(token)],
            Status::Release => Seq::empty(),
        },
        KeyToken::Character(_) => match status {
            Status::Press => seq![KeyCommand::KeyClick(token)],
            Status::Release => Seq::empty(),
        },
        KeyToken::Unmapped => Seq::empty(),
    }
}

/// Compute the keyboard commands for one token and status.
pub fn dispatch(token: KeyToken, status: Status) -> (r: Vec<KeyCommand>)
    ensures
        r@ == spec_dispatch(token, status),
{
    let mut commands: Vec<KeyCommand> = Vec::new();
    match token {
        KeyToken::Modifier(_) => {
            match status {
                Status::Press => commands.push(KeyCommand::KeyDown(token)),
                Status::Release => commands.push(KeyCommand::KeyUp(token)),
            }
        },
        KeyToken::Whitespace(_) => {
            if let Status::Press = status {
                commands.push(KeyCommand::KeyClick(token));
            }
        },
        KeyToken::Character(_) => {
            if let Status::Press = status {
                commands.push(KeyCommand::KeyClick(token));
            }
        },
        KeyToken::Unmapped => {},
    }
    proof {
        assert(commands@ =~= spec_dispatch(token, status));
    }
    commands
}

/// Dispatcher laws: a released modifier emits exactly one key-up command
/// and nothing else; a released whitespace key emits nothing; the unmapped
/// token emits nothing whatever the status.
pub proof fn lemma_dispatch_release(m: ModifierKind, w: WhitespaceKind, status: Status)
    ensures
        spec_dispatch(KeyToken::Modifier(m), Status::Release) =~= seq![
            KeyCommand::KeyUp(KeyToken::Modifier(m)),
        ],
        spec_dispatch(KeyToken::Whitespace(w), Status::Release) =~= Seq::<KeyCommand>::empty(),
        spec_dispatch(KeyToken::Unmapped, status) =~= Seq::<KeyCommand>::empty(),
{
}

} // verus!
