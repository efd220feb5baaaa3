//! The decisions of the interactive save prompt: whether to save at all,
//! and the character-by-character capture of a filename. The host shows
//! the messages, reads the keys and performs the save; every choice made
//! on a key is taken here.

use vstd::prelude::*;

use crate::events::KeyCode;

verus! {

/// The answer to "save file? (y/n)".
#[derive(Clone, Copy, Debug, PartialEq, Eq, Structural)]
pub enum PromptChoice {
    SaveNow,
    Discard,
    Undecided,
}

/// What one keystroke of filename entry led to.
#[derive(Clone, Copy, Debug, PartialEq, Eq, Structural)]
pub enum EntryOutcome {
    Editing,
    Confirmed,
    Cancelled,
}

/// Interprets a key at the yes/no prompt: `y` saves, `n` discards,
/// anything else leaves the question open.
pub fn prompt_decision(key: KeyCode) -> (r: PromptChoice)
    ensures
        r == (if key == KeyCode::Char('y') {
            PromptChoice::SaveNow
        } else if key == KeyCode::Char('n') {
            PromptChoice::Discard
        } else {
            PromptChoice::Undecided
        }),
{
    match key {
        KeyCode::Char(c) => {
            if c == 'y' {
                PromptChoice::SaveNow
            } else if c == 'n' {
                PromptChoice::Discard
            } else {
                PromptChoice::Undecided
            }
        }
        _ => PromptChoice::Undecided,
    }
}

/// One keystroke of filename entry: a printable character appends,
/// backspace removes the last character, enter confirms the name as it
/// stands, escape cancels the whole save, and any other key changes
/// nothing.
pub open spec fn entry_step(pre: Seq<char>, key: KeyCode, post: Seq<char>, r: EntryOutcome) -> bool {
    match key {
        KeyCode::Char(c) => post == pre.push(c) && r == EntryOutcome::Editing,
        KeyCode::Backspace => {
            &&& post == (if pre.len() > 0 {
                pre.drop_last()
            } else {
                pre
            })
            &&& r == EntryOutcome::Editing
        }
        KeyCode::Enter => post == pre && r == EntryOutcome::Confirmed,
        KeyCode::Esc => post == pre && r == EntryOutcome::Cancelled,
        _ => post == pre && r == EntryOutcome::Editing,
    }
}

/// Applies one keystroke to the filename being entered.
pub fn filename_entry_step(name: &mut Vec<char>, key: KeyCode) -> (r: EntryOutcome)
    ensures
        entry_step(old(name)@, key, final(name)@, r),
{
    match key {
        KeyCode::Char(c) => {
            name.push(c);
            EntryOutcome::Editing
        }
        KeyCode::Backspace => {
            if name.len() > 0 {
                name.pop();
                proof {
                    assert(name@ =~= old(name)@.drop_last());
                }
            }
            EntryOutcome::Editing
        }
        KeyCode::Enter => EntryOutcome::Confirmed,
        KeyCode::Esc => EntryOutcome::Cancelled,
        _ => EntryOutcome::Editing,
    }
}

} // verus!
