use global_hotkey::hotkey::Code;
use global_hotkey::hotkey::HotKey;
use global_hotkey::hotkey::Modifiers;
use global_hotkey::hotkey::CMD_OR_CTRL;
use notch_shell::command::Command;
use notch_shell::reconfigure::default_shortcut;
use notch_shell::reconfigure::plan_update;
use notch_shell::reconfigure::update_super_key;
use notch_shell::reconfigure::ShortcutUpdate;
use notch_shell::reconfigure::DEFAULT_ACCELERATOR;
use notch_shell::shortcut::Shortcut;

fn rejected(message: &str) -> ShortcutUpdate {
    ShortcutUpdate::Rejected { message: message.to_string() }
}

#[test]
fn parse_reads_what_the_hotkey_crate_reads() {
    let shortcut = Shortcut::parse("CommandOrControl+Shift+Y").unwrap();
    let expected = HotKey::new(Some(CMD_OR_CTRL | Modifiers::SHIFT), Code::KeyY);
    assert_eq!(shortcut.hotkey(), expected);
    assert_eq!(shortcut.id(), expected.id());
    assert_eq!(shortcut.hotkey().key, Code::KeyY);
}

#[test]
fn parse_ignores_case_and_token_spacing() {
    let a = Shortcut::parse("shift+alt+KeyQ").unwrap();
    let b = Shortcut::parse("SHIFT + Alt + q").unwrap();
    assert_eq!(a, b);
    assert_eq!(a.hotkey(), HotKey::new(Some(Modifiers::SHIFT | Modifiers::ALT), Code::KeyQ));
    let single = Shortcut::parse("F5").unwrap();
    assert_eq!(single.hotkey(), HotKey::new(None, Code::F5));
}

#[test]
fn different_shortcuts_have_different_ids() {
    let x = Shortcut::parse("CommandOrControl+Shift+X").unwrap();
    let y = Shortcut::parse("CommandOrControl+Shift+Y").unwrap();
    let plain = Shortcut::parse("X").unwrap();
    assert_ne!(x.id(), y.id());
    assert_ne!(x.id(), plain.id());
    assert_ne!(x, y);
}

#[test]
fn parse_refuses_what_the_hotkey_crate_refuses() {
    assert_eq!(Shortcut::parse(""), None);
    assert_eq!(Shortcut::parse("###"), None);
    assert_eq!(Shortcut::parse("Shift+Ctrl"), None);
    assert_eq!(Shortcut::parse("shift+KeyQ+alt"), None);
    assert_eq!(Shortcut::parse("Ctrl+Shift+C+A"), None);
    assert_eq!(Shortcut::parse("Ctrl++X"), None);
    assert_eq!(Shortcut::parse("Shift"), None);
    assert_eq!(Shortcut::parse(" X"), None);
}

#[test]
fn default_shortcut_reads() {
    assert_eq!(DEFAULT_ACCELERATOR, "CommandOrControl+Shift+X");
    let shortcut = default_shortcut().unwrap();
    assert_eq!(shortcut.hotkey(), HotKey::new(Some(CMD_OR_CTRL | Modifiers::SHIFT), Code::KeyX));
    assert_eq!(Some(shortcut), Shortcut::parse("CommandOrControl+Shift+X"));
}

#[test]
fn update_with_empty_string_is_rejected() {
    assert_eq!(update_super_key(""), rejected("invalid shortcut: "));
}

#[test]
fn update_with_garbage_is_rejected_with_the_input_in_the_message() {
    assert_eq!(update_super_key("###"), rejected("invalid shortcut: ###"));
    assert_eq!(update_super_key("Shift+Ctrl"), rejected("invalid shortcut: Shift+Ctrl"));
    assert_eq!(update_super_key("  spaced  "), rejected("invalid shortcut:   spaced  "));
    match update_super_key("no such key") {
        ShortcutUpdate::Rejected { message } => assert!(message.ends_with("no such key")),
        ShortcutUpdate::Accepted { .. } => panic!("accepted"),
    }
}

#[test]
fn update_with_a_valid_accelerator_is_accepted() {
    let shortcut = Shortcut::parse("CommandOrControl+Shift+Y").unwrap();
    assert_eq!(update_super_key("CommandOrControl+Shift+Y"), ShortcutUpdate::Accepted { shortcut });
}

#[test]
fn plan_update_follows_the_parser() {
    let shortcut = Shortcut::parse("Alt+Space").unwrap();
    assert_eq!(plan_update("Alt+Space", Some(shortcut)), ShortcutUpdate::Accepted { shortcut });
    assert_eq!(plan_update("anything", Some(shortcut)), ShortcutUpdate::Accepted { shortcut });
    assert_eq!(plan_update("###", None), rejected("invalid shortcut: ###"));
    assert_eq!(plan_update("", None), rejected("invalid shortcut: "));
    assert_eq!(plan_update("Alt+Space", None), rejected("invalid shortcut: Alt+Space"));
}

#[test]
fn every_update_empties_the_table_first() {
    assert_eq!(update_super_key("###").commands(), vec![Command::UnregisterAll]);
    let shortcut = Shortcut::parse("Alt+Space").unwrap();
    assert_eq!(
        update_super_key("Alt+Space").commands(),
        vec![Command::UnregisterAll, Command::Register(shortcut)]
    );
}

#[test]
fn rejected_update_fails_with_its_message() {
    assert_eq!(update_super_key("###").conclude(Ok(())), Err("invalid shortcut: ###".to_string()));
    assert_eq!(
        update_super_key("###").conclude(Err("refused".to_string())),
        Err("invalid shortcut: ###".to_string())
    );
}

#[test]
fn accepted_update_ends_as_the_registration_did() {
    assert_eq!(update_super_key("Alt+Space").conclude(Ok(())), Ok(()));
    assert_eq!(
        update_super_key("Alt+Space").conclude(Err("hotkey already registered".to_string())),
        Err("hotkey already registered".to_string())
    );
}
