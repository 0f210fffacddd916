//! What the shell guarantees, proved on the model of the host.

use crate::command::Command;
use crate::command::KeyState;
use crate::command::Signal;
use crate::command::TraySignal;
use crate::command::WindowLabel;
use crate::command::WindowSignal;
use crate::host::after_all_push;
use crate::host::after_all_unfold;
use crate::host::HostState;
use crate::host::WindowState;
use crate::placement::centered_offset;
use crate::placement::spec_centered_x;
use crate::placement::NOTCH_TOP;
use crate::reconfigure::plans_update;
use crate::reconfigure::rejection_message;
use crate::reconfigure::rejection_message_ends_with_input;
use crate::reconfigure::update_outcome;
use crate::reconfigure::ShortcutUpdate;
use crate::shortcut::accelerator_parses;
use crate::shortcut::Shortcut;
use crate::shell::menu_plan;
use crate::shell::reveal_plan;
use crate::shell::shortcut_plan;
use crate::shell::show_if_hidden_plan;
use crate::shell::tray_plan;
use crate::shell::window_plan;
use crate::shell::QUIT_ID;
use crate::shell::SHOW_ID;
use vstd::prelude::*;

verus! {

/// The two menu ids are different strings.
proof fn menu_ids_differ()
    ensures
        QUIT_ID@ != SHOW_ID@,
{
    reveal_strlit("quit");
    reveal_strlit("show");
    assert(QUIT_ID@[0] == 'q');
    assert(SHOW_ID@[0] == 's');
}

/// Where the notch window of `host` ends up when it is revealed: centred at
/// the top of the primary monitor if there is one, and where it stands
/// otherwise; on screen either way.
pub open spec fn revealed(host: HostState, window: WindowState) -> WindowState {
    match host.monitor_width {
        Some(monitor_width) => WindowState {
            visible: true,
            x: spec_centered_x(monitor_width, window.outer_width),
            y: NOTCH_TOP,
            ..window
        },
        None => WindowState { visible: true, ..window },
    }
}

/// Revealing the hidden notch window of a running host puts it on screen at
/// its place and gives it the focus, and changes nothing else.
proof fn reveal_plan_reveals(host: HostState, window: WindowState)
    requires
        host.running(),
        host.notch == Some(window),
    ensures
        reveal_plan(host.notch_probe().unwrap()) matches Ok(commands) && host.after_all(commands)
            == (HostState {
            notch: Some(revealed(host, window)),
            focus: Some(WindowLabel::Notch),
            ..host
        }),
{
    let filler = Command::PreventClose;
    let show = Command::Show(WindowLabel::Notch);
    let focus = Command::Focus(WindowLabel::Notch);
    match host.monitor_width {
        Some(monitor_width) => {
            let place = Command::MoveTo {
                window: WindowLabel::Notch,
                x: spec_centered_x(monitor_width, window.outer_width),
                y: NOTCH_TOP,
            };
            after_all_unfold(host, place, show, focus, filler);
        },
        None => {
            after_all_unfold(host, show, focus, filler, filler);
        },
    }
}

/// Choosing "quit" in the tray menu ends the process with exit code 0,
/// whatever state the host is in, and touches nothing else.
pub proof fn quit_ends_the_process(host: HostState)
    requires
        host.running(),
    ensures
        host.menu_selected(QUIT_ID@) == (HostState { exit_code: Some(0i32), ..host }),
        !host.menu_selected(QUIT_ID@).running(),
{
    let filler = Command::PreventClose;
    after_all_unfold(host, Command::Exit { code: 0 }, filler, filler, filler);
}

/// Choosing "show" in the tray menu puts the primary window on screen and
/// gives it the focus. Without a primary window it changes nothing.
pub proof fn show_brings_up_the_primary_window(host: HostState)
    requires
        host.running(),
    ensures
        host.main matches Some(window) ==> host.menu_selected(SHOW_ID@) == (HostState {
            main: Some(WindowState { visible: true, ..window }),
            focus: Some(WindowLabel::Main),
            ..host
        }),
        host.main is None ==> host.menu_selected(SHOW_ID@) == host,
{
    menu_ids_differ();
    let filler = Command::PreventClose;
    after_all_unfold(
        host,
        Command::Show(WindowLabel::Main),
        Command::Focus(WindowLabel::Main),
        filler,
        filler,
    );
}

/// A tray menu item with any other id changes nothing.
pub proof fn other_menu_items_do_nothing(host: HostState, id: Seq<char>)
    requires
        id != QUIT_ID@,
        id != SHOW_ID@,
    ensures
        host.menu_selected(id) == host,
{
}

/// A click on the tray icon while the notch window is hidden moves the
/// window to the horizontal centre of the primary monitor, at the top, shows
/// it and gives it the focus. A second click right after hides it again,
/// where it then stands.
pub proof fn tray_click_toggles_the_notch(host: HostState, window: WindowState)
    requires
        host.running(),
        host.notch == Some(window),
        !window.visible,
    ensures
        ({
            let shown = host.tray_signalled(TraySignal::Click);
            let hidden = shown.tray_signalled(TraySignal::Click);
            &&& shown == (HostState {
                notch: Some(revealed(host, window)),
                focus: Some(WindowLabel::Notch),
                ..host
            })
            &&& host.monitor_width matches Some(monitor_width) ==> {
                &&& shown.notch.unwrap().x == centered_offset(
                    monitor_width as int,
                    window.outer_width as int,
                )
                &&& shown.notch.unwrap().y == 0
            }
            &&& shown.notch.unwrap().visible
            &&& hidden == (HostState {
                notch: Some(WindowState { visible: false, ..revealed(host, window) }),
                focus: None,
                ..host
            })
        }),
{
    reveal_plan_reveals(host, window);
    let shown = host.tray_signalled(TraySignal::Click);
    let filler = Command::PreventClose;
    after_all_unfold(shown, Command::Hide(WindowLabel::Notch), filler, filler, filler);
}

/// Tray icon events other than a click change nothing, and without a notch
/// window a click changes nothing either.
pub proof fn other_tray_events_do_nothing(host: HostState, event: TraySignal)
    requires
        event != TraySignal::Click || host.notch is None,
    ensures
        host.tray_signalled(event) == host,
{
}

/// An update with an accelerator that does not read fails with a message
/// that ends with the accelerator as it was given, whatever the host would
/// have answered, and leaves no shortcut registered: the one that was there
/// before is gone and is not put back.
pub proof fn rejected_update_leaves_no_shortcut(
    host: HostState,
    accelerator: Seq<char>,
    update: ShortcutUpdate,
    registration: Result<(), String>,
)
    requires
        host.running(),
        plans_update(accelerator, update),
        !accelerator_parses(accelerator),
    ensures
        host.updated(update) == (HostState { shortcuts: Seq::empty(), ..host }),
        update_outcome(update, registration) matches Err(message) && message@ == rejection_message(
            accelerator,
        ),
        rejection_message(accelerator).subrange(
            rejection_message(accelerator).len() - accelerator.len(),
            rejection_message(accelerator).len() as int,
        ) == accelerator,
{
    rejection_message_ends_with_input(accelerator);
    let filler = Command::PreventClose;
    after_all_unfold(host, Command::UnregisterAll, filler, filler, filler);
}

/// An update with an accelerator that reads succeeds where the registration
/// does and leaves its shortcut as the only one registered. A press of that
/// shortcut then broadcasts the press exactly once and has the notch window
/// on screen: a hidden one centred at the top of the primary monitor and
/// focused, a visible one as it was. A release changes nothing.
pub proof fn accepted_update_then_press_notifies_once(
    host: HostState,
    accelerator: Seq<char>,
    update: ShortcutUpdate,
)
    requires
        host.running(),
        plans_update(accelerator, update),
        accelerator_parses(accelerator),
    ensures
        update_outcome(update, Ok(())) is Ok,
        update matches ShortcutUpdate::Accepted { shortcut } && ({
            let ready = host.updated(update);
            let pressed = ready.shortcut_signalled(shortcut.id(), KeyState::Pressed);
            &&& ready == (HostState { shortcuts: seq![shortcut.id()], ..host })
            &&& pressed.emitted == host.emitted.push(Signal::SuperKeyPress)
            &&& pressed.shortcuts == ready.shortcuts
            &&& pressed.running()
            &&& host.notch matches Some(window) ==> {
                &&& pressed.notch matches Some(after) && after.visible
                &&& window.visible ==> pressed.notch == host.notch && pressed.focus == host.focus
                &&& !window.visible ==> {
                    &&& pressed.notch == Some(revealed(host, window))
                    &&& pressed.focus == Some(WindowLabel::Notch)
                }
                &&& !window.visible ==> (host.monitor_width matches Some(monitor_width) ==> {
                    &&& pressed.notch.unwrap().x == centered_offset(
                        monitor_width as int,
                        window.outer_width as int,
                    )
                    &&& pressed.notch.unwrap().y == 0
                })
            }
            &&& host.notch is None ==> pressed.notch is None
            &&& ready.shortcut_signalled(shortcut.id(), KeyState::Released) == ready
        }),
{
    let shortcut = update->shortcut;
    let filler = Command::PreventClose;
    after_all_unfold(host, Command::UnregisterAll, Command::Register(shortcut), filler, filler);
    let ready = host.updated(update);
    assert(ready.shortcuts =~= seq![shortcut.id()]);
    assert(ready.shortcuts[0] == shortcut.id());
    let emit = Command::Emit(Signal::SuperKeyPress);
    let shown = show_if_hidden_plan(ready.notch_probe());
    match ready.notch {
        Some(window) => {
            if window.visible {
                after_all_push(ready, seq![], emit);
                after_all_unfold(ready, filler, filler, filler, filler);
            } else {
                reveal_plan_reveals(ready, window);
                after_all_push(ready, shown.unwrap(), emit);
            }
        },
        None => {
            after_all_push(ready, seq![], emit);
            after_all_unfold(ready, filler, filler, filler, filler);
        },
    }
}

/// A shortcut event is lost on a host that has no shortcut with that id.
pub proof fn unregistered_shortcut_does_nothing(host: HostState, id: u32, state: KeyState)
    requires
        !host.shortcuts.contains(id),
    ensures
        host.shortcut_signalled(id, state) == host,
{
}

/// A close request on the primary window does not destroy it. The window is
/// still there afterwards, hidden and otherwise as it was, and the process
/// goes on running.
pub proof fn close_request_hides_the_primary_window(host: HostState, window: WindowState)
    requires
        host.running(),
        host.main == Some(window),
    ensures
        ({
            let after = host.window_signalled(WindowSignal::CloseRequested);
            &&& after.main == Some(WindowState { visible: false, ..window })
            &&& after.running()
            &&& after.notch == host.notch
            &&& after.shortcuts == host.shortcuts
            &&& after.emitted == host.emitted
        }),
{
    let filler = Command::PreventClose;
    let start = HostState { close_prevented: false, ..host };
    after_all_unfold(start, Command::PreventClose, Command::Hide(WindowLabel::Main), filler, filler);
}

/// No event destroys the primary window, and none but the choice of "quit"
/// ends the process.
pub proof fn the_shell_stays_alive(
    host: HostState,
    id: Seq<char>,
    tray: TraySignal,
    shortcut: u32,
    key: KeyState,
    window: WindowSignal,
    update: ShortcutUpdate,
)
    requires
        host.running(),
        host.main is Some,
    ensures
        host.menu_selected(id).main is Some,
        id != QUIT_ID@ ==> host.menu_selected(id).running(),
        host.tray_signalled(tray).main is Some,
        host.tray_signalled(tray).running(),
        host.shortcut_signalled(shortcut, key).main is Some,
        host.shortcut_signalled(shortcut, key).running(),
        host.window_signalled(window).main is Some,
        host.window_signalled(window).running(),
        host.updated(update).main is Some,
        host.updated(update).running(),
{
    let filler = Command::PreventClose;
    let show_main = Command::Show(WindowLabel::Main);
    let focus_main = Command::Focus(WindowLabel::Main);
    let hide_notch = Command::Hide(WindowLabel::Notch);
    let emit = Command::Emit(Signal::SuperKeyPress);
    after_all_unfold(host, Command::Exit { code: 0 }, filler, filler, filler);
    after_all_unfold(host, show_main, focus_main, filler, filler);
    after_all_unfold(host, hide_notch, filler, filler, filler);
    match host.notch {
        Some(notch) => {
            reveal_plan_reveals(host, notch);
            let shown = show_if_hidden_plan(host.notch_probe());
            after_all_push(host, shown.unwrap(), emit);
        },
        None => {},
    }
    after_all_push(host, seq![], emit);
    let start = HostState { close_prevented: false, ..host };
    after_all_unfold(start, Command::PreventClose, Command::Hide(WindowLabel::Main), filler, filler);
    match update {
        ShortcutUpdate::Rejected { .. } => {
            after_all_unfold(host, Command::UnregisterAll, filler, filler, filler);
        },
        ShortcutUpdate::Accepted { shortcut } => {
            after_all_unfold(
                host,
                Command::UnregisterAll,
                Command::Register(shortcut),
                filler,
                filler,
            );
        },
    }
}

/// At most one global shortcut is registered at any time: the first
/// registration on an empty table makes it one, no event adds one to the
/// table, and an update leaves the new one alone in it, or none.
pub proof fn at_most_one_shortcut_is_registered(
    host: HostState,
    first: Shortcut,
    id: Seq<char>,
    tray: TraySignal,
    shortcut: u32,
    key: KeyState,
    window: WindowSignal,
    update: ShortcutUpdate,
)
    requires
        host.shortcuts.len() <= 1,
    ensures
        host.shortcuts.len() == 0 ==> host.after(Command::Register(first)).shortcuts.len() <= 1,
        host.menu_selected(id).shortcuts == host.shortcuts,
        host.tray_signalled(tray).shortcuts == host.shortcuts,
        host.shortcut_signalled(shortcut, key).shortcuts == host.shortcuts,
        host.window_signalled(window).shortcuts == host.shortcuts,
        host.updated(update).shortcuts.len() <= 1,
{
    commands_keep_the_table(host, menu_plan(id, host.main is Some));
    match tray_plan(tray, host.notch_probe()) {
        Ok(commands) => commands_keep_the_table(host, commands),
        Err(_) => {},
    }
    match shortcut_plan(key, host.notch_probe()) {
        Ok(commands) => commands_keep_the_table(host, commands),
        Err(_) => {},
    }
    let start = HostState { close_prevented: false, ..host };
    commands_keep_the_table(start, window_plan(window));
    let filler = Command::PreventClose;
    match update {
        ShortcutUpdate::Rejected { .. } => {
            after_all_unfold(host, Command::UnregisterAll, filler, filler, filler);
        },
        ShortcutUpdate::Accepted { shortcut } => {
            after_all_unfold(
                host,
                Command::UnregisterAll,
                Command::Register(shortcut),
                filler,
                filler,
            );
        },
    }
}

/// Commands other than the two that are about shortcuts leave the shortcut
/// table as it is.
proof fn commands_keep_the_table(host: HostState, commands: Seq<Command>)
    requires
        forall|i: int|
            0 <= i < commands.len() ==> !(#[trigger] commands[i] is Register) && !(commands[i]
                is UnregisterAll),
    ensures
        host.after_all(commands).shortcuts == host.shortcuts,
    decreases commands.len(),
{
    if commands.len() > 0 {
        commands_keep_the_table(host, commands.drop_last());
    }
}

} // verus!
