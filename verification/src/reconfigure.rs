//! Changing the global shortcut while the application runs.
//!
//! The old shortcut goes first, whatever becomes of the new one: the table is
//! emptied, then the new accelerator is read and, where it reads, registered.
//! There is no way back. Where the new one is refused, by the parser or by
//! the system, no shortcut is registered afterwards. Nothing is stored
//! either: the next start registers [`DEFAULT_ACCELERATOR`] again.

use crate::command::Command;
use crate::shortcut::accelerator_parses;
use crate::shortcut::Shortcut;
use vstd::prelude::*;
use vstd::string::StringExecFns;

verus! {

/// The shortcut that is registered at startup.
pub const DEFAULT_ACCELERATOR: &'static str = "CommandOrControl+Shift+X";

/// What a request to change the shortcut comes to, before the host has done
/// anything.
#[derive(Debug, Clone, PartialEq, Eq)]
pub enum ShortcutUpdate {
    /// The accelerator did not read. `message` says so to the caller.
    Rejected { message: String },
    /// The accelerator reads as `shortcut`, which is to be registered.
    Accepted { shortcut: Shortcut },
}

/// What the caller is told about an accelerator that does not read.
pub open spec fn rejection_message(accelerator: Seq<char>) -> Seq<char> {
    "invalid shortcut: "@ + accelerator
}

/// The commands of an update: empty the shortcut table, then register the
/// new shortcut if there is one.
pub open spec fn update_commands(update: ShortcutUpdate) -> Seq<Command> {
    match update {
        ShortcutUpdate::Rejected { .. } => seq![Command::UnregisterAll],
        ShortcutUpdate::Accepted { shortcut } => seq![
            Command::UnregisterAll,
            Command::Register(shortcut),
        ],
    }
}

/// Whether `update` is what [`update_super_key`] makes of `accelerator`:
/// accepted exactly where the accelerator reads, and rejected with the
/// message that is due otherwise.
pub open spec fn plans_update(accelerator: Seq<char>, update: ShortcutUpdate) -> bool {
    &&& update is Accepted <==> accelerator_parses(accelerator)
    &&& update matches ShortcutUpdate::Rejected { message } ==> message@ == rejection_message(
        accelerator,
    )
}

/// What the caller of an update is told, given the host's answer to the
/// registration.
pub open spec fn update_outcome(update: ShortcutUpdate, registration: Result<(), String>) -> Result<
    (),
    String,
> {
    match update {
        ShortcutUpdate::Rejected { message } => Err(message),
        ShortcutUpdate::Accepted { .. } => registration,
    }
}

/// The shortcut to register at startup: [`DEFAULT_ACCELERATOR`], read.
/// `None` if the hotkey crate does not accept it.
pub fn default_shortcut() -> (shortcut: Option<Shortcut>)
    ensures
        shortcut is Some <==> accelerator_parses(DEFAULT_ACCELERATOR@),
{
    Shortcut::parse(DEFAULT_ACCELERATOR)
}

/// Turns what the parser made of `shortcut_str` into an update.
///
/// A shortcut is accepted as it is. Without one the update is rejected, with
/// the message `invalid shortcut: ` followed by the string as it was given.
pub fn plan_update(shortcut_str: &str, parsed: Option<Shortcut>) -> (update: ShortcutUpdate)
    ensures
        match parsed {
            Some(shortcut) => update == (ShortcutUpdate::Accepted { shortcut }),
            None => update matches ShortcutUpdate::Rejected { message } && message@
                == rejection_message(shortcut_str@),
        },
{
    match parsed {
        Some(shortcut) => ShortcutUpdate::Accepted { shortcut },
        None => {
            let message = String::from_str("invalid shortcut: ").concat(shortcut_str);
            ShortcutUpdate::Rejected { message }
        },
    }
}

/// Plans the change of the global shortcut to `shortcut_str`.
///
/// The update is accepted exactly where the hotkey crate reads the string,
/// and is then to register what it read. Otherwise it is rejected with the
/// message `invalid shortcut: ` followed by the string as it was given.
/// Either way [`ShortcutUpdate::commands`] begins by emptying the table.
pub fn update_super_key(shortcut_str: &str) -> (update: ShortcutUpdate)
    ensures
        plans_update(shortcut_str@, update),
{
    plan_update(shortcut_str, Shortcut::parse(shortcut_str))
}

impl ShortcutUpdate {
    /// The commands for the host, in order. The first empties the shortcut
    /// table, and its failure is passed over; an accepted update then
    /// registers its shortcut.
    pub fn commands(&self) -> (commands: Vec<Command>)
        ensures
            commands@ == update_commands(*self),
    {
        let mut commands: Vec<Command> = Vec::new();
        commands.push(Command::UnregisterAll);
        match self {
            ShortcutUpdate::Rejected { .. } => {},
            ShortcutUpdate::Accepted { shortcut } => {
                commands.push(Command::Register(*shortcut));
            },
        }
        commands
    }

    /// What the caller of the update is told in the end.
    ///
    /// `registration` is the host's answer to the registration, with the
    /// host's error as text; it is not looked at for a rejected update, which
    /// registers nothing. A rejected update fails with its message. An
    /// accepted one succeeds or fails as the registration did, with the
    /// host's text unchanged.
    pub fn conclude(self, registration: Result<(), String>) -> (outcome: Result<(), String>)
        ensures
            outcome == update_outcome(self, registration),
    {
        match self {
            ShortcutUpdate::Rejected { message } => Err(message),
            ShortcutUpdate::Accepted { .. } => registration,
        }
    }
}

/// The message of a rejected update ends with the string that was given,
/// letter for letter.
pub proof fn rejection_message_ends_with_input(accelerator: Seq<char>)
    ensures
        rejection_message(accelerator).len() >= accelerator.len(),
        rejection_message(accelerator).subrange(
            rejection_message(accelerator).len() - accelerator.len(),
            rejection_message(accelerator).len() as int,
        ) == accelerator,
{
    let message = rejection_message(accelerator);
    assert(message.subrange(message.len() - accelerator.len(), message.len() as int)
        =~= accelerator);
}

} // verus!
