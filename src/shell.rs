use vstd::prelude::*;

use crate::menu::{MenuId, MenuKind, kind_for, menu_id_of};
use crate::text::str_equal;

verus! {

/// The topic on which commands reach the deck runner.
pub const DECK_RUNNER_TOPIC: &'static str = "deck-runner-command";

/// The topic of the notice sent when the editor window is asked to close.
pub const CLOSE_REQUESTED_TOPIC: &'static str = "close-requested";

/// The label of the window whose close is intercepted.
pub const DECK_EDITOR_WINDOW: &'static str = "deck-editor";

/// The label of the main window.
pub const MAIN_WINDOW: &'static str = "main";

/// A command for the deck runner.
#[derive(Clone, Copy, Debug, PartialEq, Eq, Structural)]
pub enum Command {
    Start,
    Pause,
    Resume,
    Stop,
}

/// The payload that carries each command.
pub open spec fn command_text(c: Command) -> Seq<char> {
    match c {
        Command::Start => "start"@,
        Command::Pause => "pause"@,
        Command::Resume => "resume"@,
        Command::Stop => "stop"@,
    }
}

impl Command {
    /// The payload sent on the deck runner topic.
    pub fn name(&self) -> (r: &'static str)
        ensures
            r@ == command_text(*self),
    {
        match self {
            Command::Start => "start",
            Command::Pause => "pause",
            Command::Resume => "resume",
            Command::Stop => "stop",
        }
    }
}

/// What the host has to carry out after the controller decided.
#[derive(Clone, Copy, Debug, PartialEq, Eq, Structural)]
pub enum Effect {
    /// Send the command on the deck runner topic to every listener.
    Broadcast(Command),
    /// Replace the tray menu wholesale.
    SetMenu(MenuKind),
    HideMain,
    ShowMain,
    FocusMain,
    /// Keep the window that asked to close open.
    PreventClose,
    /// Send a close-requested notice to the window.
    NotifyCloseRequested,
    /// End the process with this status.
    Exit(i32),
}

/// The two requests that switch the tray mode.
#[derive(Clone, Copy, Debug, PartialEq, Eq, Structural)]
pub enum Toggle {
    On,
    Off,
}

/// The tray mode after a toggle.
pub open spec fn toggle_step(active: bool, t: Toggle) -> bool {
    match t {
        Toggle::On => true,
        Toggle::Off => false,
    }
}

/// Whether a toggle changes the mode; one that does not is a no-op.
pub open spec fn toggle_takes_effect(active: bool, t: Toggle) -> bool {
    toggle_step(active, t) != active
}

/// The effects of a toggle: none when it does not take effect, else the
/// menu of the new mode and the main window hidden or shown and focused.
pub open spec fn toggle_effects(active: bool, t: Toggle) -> Seq<Effect> {
    if !toggle_takes_effect(active, t) {
        seq![]
    } else {
        match t {
            Toggle::On => seq![Effect::SetMenu(MenuKind::Run), Effect::HideMain],
            Toggle::Off => seq![
                Effect::SetMenu(MenuKind::Idle),
                Effect::ShowMain,
                Effect::FocusMain,
            ],
        }
    }
}

/// The tray mode after a click on a menu item.
pub open spec fn click_step(active: bool, m: MenuId) -> bool {
    match m {
        MenuId::Stop => toggle_step(active, Toggle::Off),
        _ => active,
    }
}

/// The effects of a click on a menu item.
pub open spec fn click_effects(active: bool, m: MenuId) -> Seq<Effect> {
    match m {
        MenuId::Pause => seq![Effect::Broadcast(Command::Pause)],
        MenuId::Resume => seq![Effect::Broadcast(Command::Resume)],
        MenuId::Stop => seq![Effect::Broadcast(Command::Stop)] + toggle_effects(
            active,
            Toggle::Off,
        ),
        MenuId::Quit => seq![Effect::Exit(0)],
    }
}

/// The effects of a request to close the window with label `label`.
pub open spec fn close_effects(label: Seq<char>) -> Seq<Effect> {
    if label == "deck-editor"@ {
        seq![Effect::PreventClose, Effect::NotifyCloseRequested]
    } else {
        seq![]
    }
}

/// The tray mode: whether the tray shows the run controls.
pub struct TrayState {
    active: bool,
}

impl View for TrayState {
    type V = bool;

    closed spec fn view(&self) -> bool {
        self.active
    }
}

impl TrayState {
    /// The state at start-up: idle.
    pub fn new() -> (r: TrayState)
        ensures
            r@ == false,
    {
        TrayState { active: false }
    }

    /// Whether the run controls are shown.
    pub fn is_active(&self) -> (r: bool)
        ensures
            r == self@,
    {
        self.active
    }

    /// The menu that the tray shows in the current mode.
    pub fn menu(&self) -> (r: MenuKind)
        ensures
            r == kind_for(self@),
    {
        if self.active {
            MenuKind::Run
        } else {
            MenuKind::Idle
        }
    }

    /// Applies one toggle and returns what the host has to do.
    pub fn toggle(&mut self, t: Toggle) -> (r: Vec<Effect>)
        ensures
            final(self)@ == toggle_step(old(self)@, t),
            r@ == toggle_effects(old(self)@, t),
    {
        let mut effects: Vec<Effect> = Vec::new();
        match t {
            Toggle::On => {
                if !self.active {
                    self.active = true;
                    effects.push(Effect::SetMenu(MenuKind::Run));
                    effects.push(Effect::HideMain);
                }
            },
            Toggle::Off => {
                if self.active {
                    self.active = false;
                    effects.push(Effect::SetMenu(MenuKind::Idle));
                    effects.push(Effect::ShowMain);
                    effects.push(Effect::FocusMain);
                }
            },
        }
        assert(effects@ =~= toggle_effects(old(self)@, t));
        effects
    }

    /// Enters run mode: shows the run controls and hides the main window.
    /// Does nothing when already in run mode.
    pub fn toggle_system_tray_on(&mut self) -> (r: Vec<Effect>)
        ensures
            final(self)@ == true,
            final(self)@ == toggle_step(old(self)@, Toggle::On),
            r@ == toggle_effects(old(self)@, Toggle::On),
            old(self)@ ==> r@.len() == 0,
            !old(self)@ ==> r@ == seq![Effect::SetMenu(MenuKind::Run), Effect::HideMain],
    {
        self.toggle(Toggle::On)
    }

    /// Leaves run mode: shows the idle menu, then shows and focuses the main
    /// window. Does nothing when already idle.
    pub fn toggle_system_tray_off(&mut self) -> (r: Vec<Effect>)
        ensures
            final(self)@ == false,
            final(self)@ == toggle_step(old(self)@, Toggle::Off),
            r@ == toggle_effects(old(self)@, Toggle::Off),
            !old(self)@ ==> r@.len() == 0,
            old(self)@ ==> r@ == seq![
                Effect::SetMenu(MenuKind::Idle),
                Effect::ShowMain,
                Effect::FocusMain,
            ],
    {
        self.toggle(Toggle::Off)
    }

    /// Handles a click on a known tray item: pause and resume are sent to
    /// the deck runner, stop is sent and leaves run mode, quit ends the
    /// process with status 0.
    pub fn on_menu_item(&mut self, m: MenuId) -> (r: Vec<Effect>)
        ensures
            final(self)@ == click_step(old(self)@, m),
            r@ == click_effects(old(self)@, m),
            m == MenuId::Pause ==> r@ == seq![Effect::Broadcast(Command::Pause)],
            m == MenuId::Quit ==> r@ == seq![Effect::Exit(0)] && final(self)@ == old(self)@,
    {
        match m {
            MenuId::Pause => broadcast_command(Command::Pause),
            MenuId::Resume => broadcast_command(Command::Resume),
            MenuId::Stop => {
                let mut effects = broadcast_command(Command::Stop);
                let mut rest = self.toggle(Toggle::Off);
                effects.append(&mut rest);
                effects
            },
            MenuId::Quit => {
                let mut effects: Vec<Effect> = Vec::new();
                effects.push(Effect::Exit(0));
                effects
            },
        }
    }

    /// Handles a click on the tray item with identifier `id`; an unknown
    /// identifier changes nothing and asks for nothing.
    pub fn on_tray_click(&mut self, id: &str) -> (r: Vec<Effect>)
        ensures
            menu_id_of(id@) is None ==> final(self)@ == old(self)@ && r@.len() == 0,
            menu_id_of(id@) matches Some(m) ==> final(self)@ == click_step(old(self)@, m)
                && r@ == click_effects(old(self)@, m),
    {
        match MenuId::parse(id) {
            Some(m) => self.on_menu_item(m),
            None => Vec::new(),
        }
    }
}

/// Sends one command to the deck runner.
pub fn broadcast_command(c: Command) -> (r: Vec<Effect>)
    ensures
        r@ == seq![Effect::Broadcast(c)],
{
    let mut effects: Vec<Effect> = Vec::new();
    effects.push(Effect::Broadcast(c));
    effects
}

/// Starts the given decks: the deck runner is sent the start command. The
/// identifiers are not read here; the runner has them from the front end.
pub fn start_decks(deck_ids: &Vec<String>) -> (r: Vec<Effect>)
    ensures
        r@ == seq![Effect::Broadcast(Command::Start)],
{
    broadcast_command(Command::Start)
}

/// Decides what a request to close a window leads to: the deck editor is
/// kept open and told that a close was requested; any other window closes.
pub fn on_close_requested(label: &str) -> (r: Vec<Effect>)
    ensures
        r@ == close_effects(label@),
{
    let mut effects: Vec<Effect> = Vec::new();
    if str_equal(label, DECK_EDITOR_WINDOW) {
        effects.push(Effect::PreventClose);
        effects.push(Effect::NotifyCloseRequested);
    }
    effects
}

} // verus!
