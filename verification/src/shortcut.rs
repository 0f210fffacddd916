//! Global shortcuts, as the hotkey crate understands them.
//!
//! A shortcut is written as an accelerator string such as
//! `"CommandOrControl+Shift+X"`. Reading one is the hotkey crate's business;
//! this module trusts it and states what it trusts.

use global_hotkey::hotkey::HotKey;
use global_hotkey::hotkey::HotKeyParseError;
use std::str::FromStr;
use vstd::prelude::*;

verus! {

#[verifier::external_type_specification]
#[verifier::external_body]
pub struct ExHotKey(HotKey);

#[verifier::external_type_specification]
#[verifier::external_body]
pub struct ExHotKeyParseError(HotKeyParseError);

/// Whether the hotkey crate's parser accepts `accelerator`.
///
/// The grammar (tokens split at `+`, modifiers first, one key from a table of
/// some hundred names, case ignored) is the crate's own and is not repeated
/// here. Which modifier `CommandOrControl` stands for depends on the platform
/// the crate was compiled for, but whether a string is accepted does not.
pub uninterp spec fn accelerator_parses(accelerator: Seq<char>) -> bool;

/// Calls `<HotKey as FromStr>::from_str` of the hotkey crate.
///
/// Trusted: the call succeeds on exactly the strings that
/// [`accelerator_parses`] names. Nothing is claimed about the hotkey or the
/// error that comes back. The parser does not panic.
#[verifier::external_body]
fn parse_hotkey(accelerator: &str) -> (parsed: Result<HotKey, HotKeyParseError>)
    ensures
        parsed is Ok <==> accelerator_parses(accelerator@),
{
    HotKey::from_str(accelerator)
}

/// Calls `HotKey::id` of the hotkey crate: the number under which the host
/// files a registered hotkey and reports its presses.
///
/// Trusted to return; nothing is claimed about the number.
#[verifier::external_body]
fn hotkey_id(hotkey: &HotKey) -> (id: u32) {
    hotkey.id()
}

/// A shortcut that the hotkey crate has read from an accelerator string.
#[derive(Debug, Clone, Copy, PartialEq, Eq)]
pub struct Shortcut {
    hotkey: HotKey,
    id: u32,
}

impl Shortcut {
    /// The number under which the host files the shortcut.
    pub closed spec fn spec_id(&self) -> u32 {
        self.id
    }

    /// The number under which the host files the shortcut, and which its
    /// press and release events carry.
    #[verifier::when_used_as_spec(spec_id)]
    pub fn id(&self) -> (id: u32)
        ensures
            id == self.spec_id(),
    {
        self.id
    }

    /// The hotkey crate's value of the shortcut.
    pub closed spec fn spec_hotkey(&self) -> HotKey {
        self.hotkey
    }

    /// The hotkey to hand to the host when the shortcut is registered: the
    /// value that the hotkey crate read, untouched.
    #[verifier::when_used_as_spec(spec_hotkey)]
    pub fn hotkey(&self) -> (hotkey: HotKey)
        ensures
            hotkey == self.spec_hotkey(),
    {
        self.hotkey
    }

    /// Reads an accelerator string. `None` where the hotkey crate does not
    /// accept it.
    pub fn parse(accelerator: &str) -> (parsed: Option<Shortcut>)
        ensures
            parsed is Some <==> accelerator_parses(accelerator@),
    {
        match parse_hotkey(accelerator) {
            Ok(hotkey) => {
                let id = hotkey_id(&hotkey);
                Some(Shortcut { hotkey, id })
            },
            Err(_) => None,
        }
    }
}

} // verus!
