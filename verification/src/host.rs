//! A model of the host: the windows, the shortcut table and the process, as
//! far as the shell can see and change them.
//!
//! [`HostState`] is the model, [`HostState::after`] says what each command
//! does to it, and the `*_signalled` functions say what becomes of it when an
//! event is delivered to the shell's handlers. [`Host`] is the same thing in
//! executable form, proved to follow the model step for step, so that the
//! shell can be run without a window system.
//!
//! The model's system never refuses a command. A command for a window that
//! is not there changes nothing, and so does registering a shortcut that is
//! in the table already. Once the process has exited nothing changes any
//! more.

use crate::command::Command;
use crate::command::KeyState;
use crate::command::NotchProbe;
use crate::command::Signal;
use crate::command::TraySignal;
use crate::command::WindowLabel;
use crate::command::WindowSignal;
use crate::reconfigure::update_commands;
use crate::reconfigure::update_outcome;
use crate::reconfigure::ShortcutUpdate;
use crate::shell::menu_plan;
use crate::shell::on_menu_event;
use crate::shell::on_shortcut;
use crate::shell::on_tray_icon_event;
use crate::shell::on_window_event;
use crate::shell::shortcut_plan;
use crate::shell::tray_plan;
use crate::shell::window_plan;
use vstd::prelude::*;

verus! {

/// What the model knows of one window.
#[derive(Debug, Clone, Copy, PartialEq, Eq, Structural)]
pub struct WindowState {
    /// Whether the window is on screen.
    pub visible: bool,
    /// The physical position of its top left corner.
    pub x: i32,
    pub y: i32,
    /// Its outer width in physical pixels.
    pub outer_width: u32,
}

/// The state of the host.
pub struct HostState {
    /// The primary window, while it is alive.
    pub main: Option<WindowState>,
    /// The notch window, while it is alive.
    pub notch: Option<WindowState>,
    /// The width of the primary monitor, if there is one.
    pub monitor_width: Option<u32>,
    /// The window that has the input focus.
    pub focus: Option<WindowLabel>,
    /// The ids of the registered global shortcuts, oldest first.
    pub shortcuts: Seq<u32>,
    /// Every notification broadcast so far, oldest first.
    pub emitted: Seq<Signal>,
    /// The exit code, once the process has ended.
    pub exit_code: Option<i32>,
    /// Whether the close request being handled has been called off.
    pub close_prevented: bool,
}

impl HostState {
    /// Whether the process is still alive.
    pub open spec fn running(self) -> bool {
        self.exit_code is None
    }

    /// The window that goes by `label`.
    pub open spec fn window(self, label: WindowLabel) -> Option<WindowState> {
        match label {
            WindowLabel::Main => self.main,
            WindowLabel::Notch => self.notch,
        }
    }

    /// The state with the window `label` replaced.
    pub open spec fn with_window(self, label: WindowLabel, window: Option<WindowState>) -> Self {
        match label {
            WindowLabel::Main => HostState { main: window, ..self },
            WindowLabel::Notch => HostState { notch: window, ..self },
        }
    }

    /// The focus after the window `label` has gone off screen.
    pub open spec fn focus_without(self, label: WindowLabel) -> Option<WindowLabel> {
        if self.focus == Some(label) {
            None
        } else {
            self.focus
        }
    }

    /// The state after the host has carried out `command`.
    pub open spec fn after(self, command: Command) -> Self {
        if !self.running() {
            self
        } else {
            match command {
                Command::Exit { code } => HostState { exit_code: Some(code), ..self },
                Command::Show(label) => match self.window(label) {
                    Some(window) => self.with_window(
                        label,
                        Some(WindowState { visible: true, ..window }),
                    ),
                    None => self,
                },
                Command::Focus(label) => match self.window(label) {
                    Some(_) => HostState { focus: Some(label), ..self },
                    None => self,
                },
                Command::Hide(label) => match self.window(label) {
                    Some(window) => HostState {
                        focus: self.focus_without(label),
                        ..self.with_window(label, Some(WindowState { visible: false, ..window }))
                    },
                    None => self,
                },
                Command::MoveTo { window: label, x, y } => match self.window(label) {
                    Some(window) => self.with_window(label, Some(WindowState { x, y, ..window })),
                    None => self,
                },
                Command::Emit(signal) => HostState { emitted: self.emitted.push(signal), ..self },
                Command::PreventClose => HostState { close_prevented: true, ..self },
                Command::UnregisterAll => HostState { shortcuts: Seq::empty(), ..self },
                Command::Register(shortcut) => if self.shortcuts.contains(shortcut.id()) {
                    self
                } else {
                    HostState { shortcuts: self.shortcuts.push(shortcut.id()), ..self }
                },
            }
        }
    }

    /// The state after the host has carried out `commands`, first to last.
    pub open spec fn after_all(self, commands: Seq<Command>) -> Self
        decreases commands.len(),
    {
        if commands.len() == 0 {
            self
        } else {
            self.after_all(commands.drop_last()).after(commands.last())
        }
    }

    /// What the host answers when asked about the notch window. The model
    /// always knows the answers.
    pub open spec fn notch_probe(self) -> Option<NotchProbe> {
        match self.notch {
            Some(window) => Some(
                NotchProbe {
                    visible: Some(window.visible),
                    monitor_width: self.monitor_width,
                    outer_width: Some(window.outer_width),
                },
            ),
            None => None,
        }
    }

    /// The state after the tray menu item `id` has been chosen.
    pub open spec fn menu_selected(self, id: Seq<char>) -> Self {
        self.after_all(menu_plan(id, self.main is Some))
    }

    /// The state after a tray icon event.
    pub open spec fn tray_signalled(self, event: TraySignal) -> Self {
        match tray_plan(event, self.notch_probe()) {
            Ok(commands) => self.after_all(commands),
            Err(_) => self,
        }
    }

    /// The state after the system has reported `state` for the shortcut with
    /// this id. The handler runs only for a shortcut that is registered.
    pub open spec fn shortcut_signalled(self, id: u32, state: KeyState) -> Self {
        if self.shortcuts.contains(id) {
            match shortcut_plan(state, self.notch_probe()) {
                Ok(commands) => self.after_all(commands),
                Err(_) => self,
            }
        } else {
            self
        }
    }

    /// The state after an event of the primary window. Without such a window
    /// there is no such event. A close request that the handler does not
    /// call off destroys the window.
    pub open spec fn window_signalled(self, event: WindowSignal) -> Self {
        if self.main is None || !self.running() {
            self
        } else {
            let handled = HostState { close_prevented: false, ..self }.after_all(
                window_plan(event),
            );
            if event == WindowSignal::CloseRequested && !handled.close_prevented {
                HostState { main: None, focus: handled.focus_without(WindowLabel::Main), ..handled }
            } else {
                handled
            }
        }
    }

    /// The state after the commands of a shortcut update.
    pub open spec fn updated(self, update: ShortcutUpdate) -> Self {
        self.after_all(update_commands(update))
    }
}

/// Carrying out a list with one more command at its end is carrying out the
/// list and then the command.
pub proof fn after_all_push(state: HostState, commands: Seq<Command>, command: Command)
    ensures
        state.after_all(commands.push(command)) == state.after_all(commands).after(command),
{
    assert(commands.push(command).drop_last() =~= commands);
}

/// The lists of up to four commands, written out.
pub proof fn after_all_unfold(state: HostState, a: Command, b: Command, c: Command, d: Command)
    ensures
        state.after_all(seq![]) == state,
        state.after_all(seq![a]) == state.after(a),
        state.after_all(seq![a, b]) == state.after(a).after(b),
        state.after_all(seq![a, b, c]) == state.after(a).after(b).after(c),
        state.after_all(seq![a, b, c, d]) == state.after(a).after(b).after(c).after(d),
{
    let none = Seq::<Command>::empty();
    assert(seq![a] =~= none.push(a));
    assert(seq![a, b] =~= seq![a].push(b));
    assert(seq![a, b, c] =~= seq![a, b].push(c));
    assert(seq![a, b, c, d] =~= seq![a, b, c].push(d));
    assert(state.after_all(none) == state);
    after_all_push(state, none, a);
    after_all_push(state, seq![a], b);
    after_all_push(state, seq![a, b], c);
    after_all_push(state, seq![a, b, c], d);
}

/// The host in executable form. Its view is the [`HostState`] it stands for.
#[derive(Debug, Clone, PartialEq, Eq)]
pub struct Host {
    pub main: Option<WindowState>,
    pub notch: Option<WindowState>,
    pub monitor_width: Option<u32>,
    pub focus: Option<WindowLabel>,
    pub shortcuts: Vec<u32>,
    pub emitted: Vec<Signal>,
    pub exit_code: Option<i32>,
    pub close_prevented: bool,
}

impl View for Host {
    type V = HostState;

    open spec fn view(&self) -> HostState {
        HostState {
            main: self.main,
            notch: self.notch,
            monitor_width: self.monitor_width,
            focus: self.focus,
            shortcuts: self.shortcuts@,
            emitted: self.emitted@,
            exit_code: self.exit_code,
            close_prevented: self.close_prevented,
        }
    }
}

/// Whether `id` is among `ids`.
fn contains_id(ids: &Vec<u32>, id: u32) -> (found: bool)
    ensures
        found == ids@.contains(id),
{
    let mut i: usize = 0;
    while i < ids.len()
        invariant
            i <= ids.len(),
            forall|j: int| 0 <= j < i ==> ids@[j] != id,
        decreases ids.len() - i,
    {
        if ids[i] == id {
            return true;
        }
        i += 1;
    }
    false
}

impl Host {
    /// A host that has just come up with these windows and this monitor:
    /// nothing has the focus, no shortcut is registered, nothing has been
    /// broadcast, and the process runs.
    pub fn new(
        main: Option<WindowState>,
        notch: Option<WindowState>,
        monitor_width: Option<u32>,
    ) -> (host: Host)
        ensures
            host@ == (HostState {
                main,
                notch,
                monitor_width,
                focus: None,
                shortcuts: Seq::empty(),
                emitted: Seq::empty(),
                exit_code: None,
                close_prevented: false,
            }),
    {
        Host {
            main,
            notch,
            monitor_width,
            focus: None,
            shortcuts: Vec::new(),
            emitted: Vec::new(),
            exit_code: None,
            close_prevented: false,
        }
    }

    /// Carries out one command.
    pub fn perform(&mut self, command: &Command)
        ensures
            final(self)@ == old(self)@.after(*command),
    {
        if self.exit_code.is_some() {
            return ;
        }
        match command {
            Command::Exit { code } => {
                self.exit_code = Some(*code);
            },
            Command::Show(label) => match label {
                WindowLabel::Main => if let Some(window) = self.main {
                    self.main = Some(WindowState { visible: true, ..window });
                },
                WindowLabel::Notch => if let Some(window) = self.notch {
                    self.notch = Some(WindowState { visible: true, ..window });
                },
            },
            Command::Focus(label) => {
                let present = match label {
                    WindowLabel::Main => self.main.is_some(),
                    WindowLabel::Notch => self.notch.is_some(),
                };
                if present {
                    self.focus = Some(*label);
                }
            },
            Command::Hide(label) => {
                let focused = match self.focus {
                    Some(WindowLabel::Main) => matches!(label, WindowLabel::Main),
                    Some(WindowLabel::Notch) => matches!(label, WindowLabel::Notch),
                    None => false,
                };
                match label {
                    WindowLabel::Main => if let Some(window) = self.main {
                        self.main = Some(WindowState { visible: false, ..window });
                        if focused {
                            self.focus = None;
                        }
                    },
                    WindowLabel::Notch => if let Some(window) = self.notch {
                        self.notch = Some(WindowState { visible: false, ..window });
                        if focused {
                            self.focus = None;
                        }
                    },
                }
            },
            Command::MoveTo { window: label, x, y } => match label {
                WindowLabel::Main => if let Some(window) = self.main {
                    self.main = Some(WindowState { x: *x, y: *y, ..window });
                },
                WindowLabel::Notch => if let Some(window) = self.notch {
                    self.notch = Some(WindowState { x: *x, y: *y, ..window });
                },
            },
            Command::Emit(signal) => {
                self.emitted.push(*signal);
            },
            Command::PreventClose => {
                self.close_prevented = true;
            },
            Command::UnregisterAll => {
                self.shortcuts.clear();
            },
            Command::Register(shortcut) => {
                let id = shortcut.id();
                if !contains_id(&self.shortcuts, id) {
                    self.shortcuts.push(id);
                }
            },
        }
    }

    /// Carries out the commands, first to last.
    pub fn run(&mut self, commands: &Vec<Command>)
        ensures
            final(self)@ == old(self)@.after_all(commands@),
    {
        let mut i: usize = 0;
        while i < commands.len()
            invariant
                i <= commands.len(),
                self@ == old(self)@.after_all(commands@.take(i as int)),
            decreases commands.len() - i,
        {
            self.perform(&commands[i]);
            proof {
                assert(commands@.take(i + 1) =~= commands@.take(i as int).push(commands@[i as int]));
                after_all_push(old(self)@, commands@.take(i as int), commands@[i as int]);
            }
            i += 1;
        }
        assert(commands@.take(i as int) =~= commands@);
    }

    /// What the host answers when asked about the notch window.
    pub fn probe_notch(&self) -> (probe: Option<NotchProbe>)
        ensures
            probe == self@.notch_probe(),
    {
        match self.notch {
            Some(window) => Some(
                NotchProbe {
                    visible: Some(window.visible),
                    monitor_width: self.monitor_width,
                    outer_width: Some(window.outer_width),
                },
            ),
            None => None,
        }
    }

    /// The user chooses the tray menu item `id`.
    pub fn select_menu_item(&mut self, id: &str)
        ensures
            final(self)@ == old(self)@.menu_selected(id@),
    {
        let plan = on_menu_event(id, self.main.is_some());
        self.run(&plan);
    }

    /// Something happens to the tray icon.
    pub fn signal_tray(&mut self, event: TraySignal)
        ensures
            final(self)@ == old(self)@.tray_signalled(event),
    {
        let probe = self.probe_notch();
        if let Ok(plan) = on_tray_icon_event(event, probe) {
            self.run(&plan);
        }
    }

    /// The system reports that the key combination of the shortcut with this
    /// id went down or up.
    pub fn signal_shortcut(&mut self, id: u32, state: KeyState)
        ensures
            final(self)@ == old(self)@.shortcut_signalled(id, state),
    {
        if contains_id(&self.shortcuts, id) {
            let probe = self.probe_notch();
            if let Ok(plan) = on_shortcut(state, probe) {
                self.run(&plan);
            }
        }
    }

    /// Something happens to the primary window.
    pub fn signal_window(&mut self, event: WindowSignal)
        ensures
            final(self)@ == old(self)@.window_signalled(event),
    {
        if self.main.is_none() || self.exit_code.is_some() {
            return ;
        }
        self.close_prevented = false;
        let plan = on_window_event(event);
        self.run(&plan);
        if matches!(event, WindowSignal::CloseRequested) && !self.close_prevented {
            self.main = None;
            if matches!(self.focus, Some(WindowLabel::Main)) {
                self.focus = None;
            }
        }
    }

    /// Carries out a shortcut update and tells what its caller is told. The
    /// model's system accepts every registration.
    pub fn apply_update(&mut self, update: ShortcutUpdate) -> (outcome: Result<(), String>)
        ensures
            final(self)@ == old(self)@.updated(update),
            outcome == update_outcome(update, Ok(())),
    {
        let commands = update.commands();
        self.run(&commands);
        update.conclude(Ok(()))
    }
}

} // verus!
