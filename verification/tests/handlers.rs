use notch_shell::command::Command;
use notch_shell::command::Fault;
use notch_shell::command::KeyState;
use notch_shell::command::NotchProbe;
use notch_shell::command::OnFailure;
use notch_shell::command::Signal;
use notch_shell::command::TraySignal;
use notch_shell::command::WindowLabel;
use notch_shell::command::WindowSignal;
use notch_shell::reconfigure::default_shortcut;
use notch_shell::shell::on_menu_event;
use notch_shell::shell::on_shortcut;
use notch_shell::shell::on_tray_icon_event;
use notch_shell::shell::on_window_event;
use notch_shell::shell::reveal_notch;
use notch_shell::shell::tray_menu;
use notch_shell::shell::QUIT_EXIT_CODE;
use notch_shell::shell::QUIT_ID;
use notch_shell::shell::SHOW_ID;

fn hidden(monitor_width: Option<u32>, outer_width: Option<u32>) -> NotchProbe {
    NotchProbe { visible: Some(false), monitor_width, outer_width }
}

fn visible(monitor_width: Option<u32>, outer_width: Option<u32>) -> NotchProbe {
    NotchProbe { visible: Some(true), monitor_width, outer_width }
}

fn reveal_at(x: i32) -> Vec<Command> {
    vec![
        Command::MoveTo { window: WindowLabel::Notch, x, y: 0 },
        Command::Show(WindowLabel::Notch),
        Command::Focus(WindowLabel::Notch),
    ]
}

#[test]
fn window_and_signal_names() {
    assert_eq!(WindowLabel::Main.name(), "main");
    assert_eq!(WindowLabel::Notch.name(), "notch");
    assert_eq!(Signal::SuperKeyPress.name(), "super-key-press");
}

#[test]
fn tray_menu_has_open_then_quit() {
    let entries = tray_menu();
    assert_eq!(entries.len(), 2);
    assert_eq!(entries[0].id, "show");
    assert_eq!(entries[0].label, "Open App");
    assert!(entries[0].enabled);
    assert_eq!(entries[1].id, "quit");
    assert_eq!(entries[1].label, "Quit");
    assert!(entries[1].enabled);
    assert_eq!(SHOW_ID, "show");
    assert_eq!(QUIT_ID, "quit");
    assert_eq!(QUIT_EXIT_CODE, 0);
}

#[test]
fn quit_exits_with_code_zero() {
    assert_eq!(on_menu_event("quit", true), vec![Command::Exit { code: 0 }]);
    assert_eq!(on_menu_event("quit", false), vec![Command::Exit { code: 0 }]);
}

#[test]
fn show_shows_and_focuses_the_primary_window() {
    assert_eq!(
        on_menu_event("show", true),
        vec![Command::Show(WindowLabel::Main), Command::Focus(WindowLabel::Main)]
    );
}

#[test]
fn show_without_a_primary_window_does_nothing() {
    assert_eq!(on_menu_event("show", false), vec![]);
}

#[test]
fn unknown_menu_ids_do_nothing() {
    assert_eq!(on_menu_event("", true), vec![]);
    assert_eq!(on_menu_event("Quit", true), vec![]);
    assert_eq!(on_menu_event("quit ", true), vec![]);
    assert_eq!(on_menu_event("shows", true), vec![]);
    assert_eq!(on_menu_event("settings", false), vec![]);
}

#[test]
fn reveal_centres_on_the_monitor() {
    assert_eq!(reveal_notch(&hidden(Some(1920), Some(400))), Ok(reveal_at(760)));
    assert_eq!(reveal_notch(&hidden(Some(1921), Some(400))), Ok(reveal_at(760)));
    assert_eq!(reveal_notch(&hidden(Some(800), Some(1000))), Ok(reveal_at(-100)));
}

#[test]
fn reveal_without_a_monitor_shows_in_place() {
    let in_place = vec![Command::Show(WindowLabel::Notch), Command::Focus(WindowLabel::Notch)];
    assert_eq!(reveal_notch(&hidden(None, Some(400))), Ok(in_place.clone()));
    assert_eq!(reveal_notch(&hidden(None, None)), Ok(in_place));
}

#[test]
fn reveal_needs_the_width_where_there_is_a_monitor() {
    assert_eq!(reveal_notch(&hidden(Some(1920), None)), Err(Fault::SizeUnknown));
}

#[test]
fn tray_click_shows_a_hidden_notch() {
    assert_eq!(
        on_tray_icon_event(TraySignal::Click, Some(hidden(Some(1920), Some(400)))),
        Ok(reveal_at(760))
    );
}

#[test]
fn tray_click_hides_a_visible_notch() {
    assert_eq!(
        on_tray_icon_event(TraySignal::Click, Some(visible(Some(1920), Some(400)))),
        Ok(vec![Command::Hide(WindowLabel::Notch)])
    );
    assert_eq!(
        on_tray_icon_event(TraySignal::Click, Some(visible(None, None))),
        Ok(vec![Command::Hide(WindowLabel::Notch)])
    );
}

#[test]
fn tray_click_without_a_notch_does_nothing() {
    assert_eq!(on_tray_icon_event(TraySignal::Click, None), Ok(vec![]));
}

#[test]
fn other_tray_events_do_nothing() {
    assert_eq!(on_tray_icon_event(TraySignal::Other, Some(hidden(Some(1920), Some(400)))), Ok(vec![]));
    assert_eq!(on_tray_icon_event(TraySignal::Other, Some(visible(Some(1920), Some(400)))), Ok(vec![]));
    let unknown = NotchProbe { visible: None, monitor_width: None, outer_width: None };
    assert_eq!(on_tray_icon_event(TraySignal::Other, Some(unknown)), Ok(vec![]));
    assert_eq!(on_tray_icon_event(TraySignal::Other, None), Ok(vec![]));
}

#[test]
fn tray_click_faults_where_the_host_cannot_tell() {
    let unknown = NotchProbe { visible: None, monitor_width: Some(1920), outer_width: Some(400) };
    assert_eq!(on_tray_icon_event(TraySignal::Click, Some(unknown)), Err(Fault::VisibilityUnknown));
    assert_eq!(
        on_tray_icon_event(TraySignal::Click, Some(hidden(Some(1920), None))),
        Err(Fault::SizeUnknown)
    );
}

#[test]
fn shortcut_press_shows_a_hidden_notch_and_notifies() {
    let mut expected = reveal_at(760);
    expected.push(Command::Emit(Signal::SuperKeyPress));
    assert_eq!(on_shortcut(KeyState::Pressed, Some(hidden(Some(1920), Some(400)))), Ok(expected));
}

#[test]
fn shortcut_press_never_hides() {
    assert_eq!(
        on_shortcut(KeyState::Pressed, Some(visible(Some(1920), Some(400)))),
        Ok(vec![Command::Emit(Signal::SuperKeyPress)])
    );
}

#[test]
fn shortcut_press_without_a_notch_still_notifies() {
    assert_eq!(on_shortcut(KeyState::Pressed, None), Ok(vec![Command::Emit(Signal::SuperKeyPress)]));
}

#[test]
fn shortcut_release_does_nothing() {
    assert_eq!(on_shortcut(KeyState::Released, Some(hidden(Some(1920), Some(400)))), Ok(vec![]));
    assert_eq!(on_shortcut(KeyState::Released, Some(visible(Some(1920), Some(400)))), Ok(vec![]));
    assert_eq!(on_shortcut(KeyState::Released, None), Ok(vec![]));
    let unknown = NotchProbe { visible: None, monitor_width: None, outer_width: None };
    assert_eq!(on_shortcut(KeyState::Released, Some(unknown)), Ok(vec![]));
}

#[test]
fn shortcut_press_faults_without_notifying() {
    let unknown = NotchProbe { visible: None, monitor_width: Some(1920), outer_width: Some(400) };
    assert_eq!(on_shortcut(KeyState::Pressed, Some(unknown)), Err(Fault::VisibilityUnknown));
    assert_eq!(on_shortcut(KeyState::Pressed, Some(hidden(Some(1920), None))), Err(Fault::SizeUnknown));
}

#[test]
fn close_request_is_turned_into_hiding() {
    assert_eq!(
        on_window_event(WindowSignal::CloseRequested),
        vec![Command::PreventClose, Command::Hide(WindowLabel::Main)]
    );
}

#[test]
fn other_window_events_are_left_alone() {
    assert_eq!(on_window_event(WindowSignal::Other), vec![]);
}

#[test]
fn failure_policy_of_each_command() {
    assert_eq!(Command::Show(WindowLabel::Main).on_failure(), OnFailure::Abort);
    assert_eq!(Command::Focus(WindowLabel::Notch).on_failure(), OnFailure::Abort);
    assert_eq!(Command::Hide(WindowLabel::Notch).on_failure(), OnFailure::Abort);
    assert_eq!(
        Command::MoveTo { window: WindowLabel::Notch, x: 1, y: 0 }.on_failure(),
        OnFailure::Abort
    );
    assert_eq!(Command::Emit(Signal::SuperKeyPress).on_failure(), OnFailure::Ignore);
    assert_eq!(Command::UnregisterAll.on_failure(), OnFailure::Ignore);
    assert_eq!(Command::Exit { code: 0 }.on_failure(), OnFailure::Ignore);
    assert_eq!(Command::PreventClose.on_failure(), OnFailure::Ignore);
    let shortcut = default_shortcut().unwrap();
    assert_eq!(Command::Register(shortcut).on_failure(), OnFailure::Report);
}
