//! The shell's handlers, one for each source of events.
//!
//! A handler is told what happened and what the host can say about the
//! windows, and answers with the commands for the host to carry out, in
//! order. It asks the host nothing itself and keeps no state: the windows and
//! the shortcut table are the host's.

use crate::command::Command;
use crate::command::Fault;
use crate::command::KeyState;
use crate::command::NotchProbe;
use crate::command::Signal;
use crate::command::TraySignal;
use crate::command::WindowLabel;
use crate::command::WindowSignal;
use crate::placement::centered_x;
use crate::placement::spec_centered_x;
use crate::placement::NOTCH_TOP;
use vstd::prelude::*;

verus! {

/// The id of the tray menu item that ends the application.
pub const QUIT_ID: &'static str = "quit";

/// The id of the tray menu item that brings up the primary window.
pub const SHOW_ID: &'static str = "show";

/// The exit code of an application that was quit from the tray menu.
pub const QUIT_EXIT_CODE: i32 = 0;

/// One item of the tray icon's menu.
#[derive(Debug, Clone, Copy, PartialEq, Eq)]
pub struct MenuEntry {
    /// The id that the host reports when the item is chosen.
    pub id: &'static str,
    /// The text the user sees.
    pub label: &'static str,
    /// Whether the item can be chosen.
    pub enabled: bool,
}

/// The tray icon's menu, top to bottom: "Open App", then "Quit". Both can be
/// chosen and neither has a keyboard accelerator.
pub fn tray_menu() -> (entries: Vec<MenuEntry>)
    ensures
        entries@.len() == 2,
        entries@[0].id@ == SHOW_ID@,
        entries@[0].label@ == "Open App"@,
        entries@[0].enabled,
        entries@[1].id@ == QUIT_ID@,
        entries@[1].label@ == "Quit"@,
        entries@[1].enabled,
{
    let mut entries: Vec<MenuEntry> = Vec::new();
    entries.push(MenuEntry { id: SHOW_ID, label: "Open App", enabled: true });
    entries.push(MenuEntry { id: QUIT_ID, label: "Quit", enabled: true });
    entries
}

/// What choosing the tray menu item `id` leads to.
pub open spec fn menu_plan(id: Seq<char>, main_present: bool) -> Seq<Command> {
    if id == QUIT_ID@ {
        seq![Command::Exit { code: QUIT_EXIT_CODE }]
    } else if id == SHOW_ID@ && main_present {
        seq![Command::Show(WindowLabel::Main), Command::Focus(WindowLabel::Main)]
    } else {
        seq![]
    }
}

/// The commands that put the hidden notch window on screen: centred on the
/// primary monitor at its top edge where the monitor is known, and where it
/// stands otherwise. With a monitor but without the window's width there is
/// no plan.
pub open spec fn reveal_plan(probe: NotchProbe) -> Result<Seq<Command>, Fault> {
    match probe.monitor_width {
        Some(monitor_width) => match probe.outer_width {
            Some(outer_width) => Ok(
                seq![
                    Command::MoveTo {
                        window: WindowLabel::Notch,
                        x: spec_centered_x(monitor_width, outer_width),
                        y: NOTCH_TOP,
                    },
                    Command::Show(WindowLabel::Notch),
                    Command::Focus(WindowLabel::Notch),
                ],
            ),
            None => Err(Fault::SizeUnknown),
        },
        None => Ok(seq![Command::Show(WindowLabel::Notch), Command::Focus(WindowLabel::Notch)]),
    }
}

/// What a tray icon event leads to: a click toggles the notch window.
pub open spec fn tray_plan(event: TraySignal, notch: Option<NotchProbe>) -> Result<
    Seq<Command>,
    Fault,
> {
    match (event, notch) {
        (TraySignal::Click, Some(probe)) => match probe.visible {
            None => Err(Fault::VisibilityUnknown),
            Some(true) => Ok(seq![Command::Hide(WindowLabel::Notch)]),
            Some(false) => reveal_plan(probe),
        },
        _ => Ok(seq![]),
    }
}

/// What the shortcut does to the notch window: it shows a hidden one and
/// leaves a visible one alone.
pub open spec fn show_if_hidden_plan(notch: Option<NotchProbe>) -> Result<Seq<Command>, Fault> {
    match notch {
        None => Ok(seq![]),
        Some(probe) => match probe.visible {
            None => Err(Fault::VisibilityUnknown),
            Some(true) => Ok(seq![]),
            Some(false) => reveal_plan(probe),
        },
    }
}

/// What a shortcut event leads to: a press shows the notch window and then
/// broadcasts the press; a release does nothing.
pub open spec fn shortcut_plan(state: KeyState, notch: Option<NotchProbe>) -> Result<
    Seq<Command>,
    Fault,
> {
    match state {
        KeyState::Released => Ok(seq![]),
        KeyState::Pressed => match show_if_hidden_plan(notch) {
            Ok(commands) => Ok(commands.push(Command::Emit(Signal::SuperKeyPress))),
            Err(fault) => Err(fault),
        },
    }
}

/// What an event of the primary window leads to: a close request is turned
/// into hiding the window.
pub open spec fn window_plan(event: WindowSignal) -> Seq<Command> {
    match event {
        WindowSignal::CloseRequested => seq![
            Command::PreventClose,
            Command::Hide(WindowLabel::Main),
        ],
        WindowSignal::Other => seq![],
    }
}

/// A handler's answer with the command list taken as a sequence.
pub open spec fn plan_view(plan: Result<Vec<Command>, Fault>) -> Result<Seq<Command>, Fault> {
    match plan {
        Ok(commands) => Ok(commands@),
        Err(fault) => Err(fault),
    }
}

/// Handles the choice of a tray menu item.
///
/// "quit" ends the process with exit code 0, without asking. "show" puts the
/// primary window on screen and focuses it; where there is no primary window
/// (`main_present` is false) it does nothing. Any other id does nothing.
pub fn on_menu_event(id: &str, main_present: bool) -> (plan: Vec<Command>)
    ensures
        plan@ == menu_plan(id@, main_present),
{
    let id = id.to_owned();
    let mut plan: Vec<Command> = Vec::new();
    if id == QUIT_ID.to_owned() {
        plan.push(Command::Exit { code: QUIT_EXIT_CODE });
    } else if id == SHOW_ID.to_owned() && main_present {
        plan.push(Command::Show(WindowLabel::Main));
        plan.push(Command::Focus(WindowLabel::Main));
    }
    plan
}

/// Plans how to put the hidden notch window on screen.
///
/// With a primary monitor the window is first moved so that it is centred
/// horizontally at the monitor's top edge, from the widths as they are now;
/// without one it is shown where it stands. Then it is shown and focused.
/// `Fault::SizeUnknown` where the monitor is known and the window's width is
/// not.
pub fn reveal_notch(probe: &NotchProbe) -> (plan: Result<Vec<Command>, Fault>)
    ensures
        plan_view(plan) == reveal_plan(*probe),
{
    let mut commands: Vec<Command> = Vec::new();
    if let Some(monitor_width) = probe.monitor_width {
        match probe.outer_width {
            Some(outer_width) => {
                commands.push(
                    Command::MoveTo {
                        window: WindowLabel::Notch,
                        x: centered_x(monitor_width, outer_width),
                        y: NOTCH_TOP,
                    },
                );
            },
            None => {
                return Err(Fault::SizeUnknown);
            },
        }
    }
    commands.push(Command::Show(WindowLabel::Notch));
    commands.push(Command::Focus(WindowLabel::Notch));
    assert(reveal_plan(*probe) matches Ok(planned) && commands@ =~= planned);
    Ok(commands)
}

/// Handles an event of the tray icon.
///
/// A click toggles the notch window: a visible one is hidden, a hidden one
/// is put on screen as [`reveal_notch`] plans it. Without a notch window
/// (`notch` is `None`) a click does nothing, and so does every other event.
/// `Fault::VisibilityUnknown` where the host could not tell whether the
/// window is visible.
pub fn on_tray_icon_event(event: TraySignal, notch: Option<NotchProbe>) -> (plan: Result<
    Vec<Command>,
    Fault,
>)
    ensures
        plan_view(plan) == tray_plan(event, notch),
{
    match (event, notch) {
        (TraySignal::Click, Some(probe)) => match probe.visible {
            None => Err(Fault::VisibilityUnknown),
            Some(true) => {
                let mut commands: Vec<Command> = Vec::new();
                commands.push(Command::Hide(WindowLabel::Notch));
                Ok(commands)
            },
            Some(false) => reveal_notch(&probe),
        },
        _ => Ok(Vec::new()),
    }
}

/// Handles an event of the global shortcut.
///
/// Only a press counts. It puts a hidden notch window on screen as
/// [`reveal_notch`] plans it, leaves a visible one as it is, and never hides
/// one. After that it broadcasts [`Signal::SuperKeyPress`], whether the
/// window was visible, hidden or missing. Where the host could not answer a
/// query that the plan needs, there is no plan and nothing is broadcast.
pub fn on_shortcut(state: KeyState, notch: Option<NotchProbe>) -> (plan: Result<
    Vec<Command>,
    Fault,
>)
    ensures
        plan_view(plan) == shortcut_plan(state, notch),
{
    match state {
        KeyState::Released => Ok(Vec::new()),
        KeyState::Pressed => {
            let shown = match notch {
                None => Ok(Vec::new()),
                Some(probe) => match probe.visible {
                    None => Err(Fault::VisibilityUnknown),
                    Some(true) => Ok(Vec::new()),
                    Some(false) => reveal_notch(&probe),
                },
            };
            match shown {
                Ok(mut commands) => {
                    commands.push(Command::Emit(Signal::SuperKeyPress));
                    Ok(commands)
                },
                Err(fault) => Err(fault),
            }
        },
    }
}

/// Handles an event of the primary window.
///
/// A close request does not close: the default is called off and the window
/// is hidden, so the application goes on running in the tray. Every other
/// event is left to the host.
pub fn on_window_event(event: WindowSignal) -> (plan: Vec<Command>)
    ensures
        plan@ == window_plan(event),
{
    let mut plan: Vec<Command> = Vec::new();
    match event {
        WindowSignal::CloseRequested => {
            plan.push(Command::PreventClose);
            plan.push(Command::Hide(WindowLabel::Main));
        },
        WindowSignal::Other => {},
    }
    plan
}

} // verus!
