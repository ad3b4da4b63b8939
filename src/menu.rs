use vstd::prelude::*;

use crate::text::str_equal;

verus! {

/// The identifiers of the entries that the tray menu can hold.
#[derive(Clone, Copy, Debug, PartialEq, Eq, Structural)]
pub enum MenuId {
    Pause,
    Resume,
    Stop,
    Quit,
}

/// One line of the tray menu: a clickable item or a separator.
#[derive(Clone, Copy, Debug, PartialEq, Eq, Structural)]
pub enum MenuEntry {
    Item(MenuId),
    Separator,
}

/// Which of the two menus the tray shows.
#[derive(Clone, Copy, Debug, PartialEq, Eq, Structural)]
pub enum MenuKind {
    /// Nothing is running: the menu only offers to quit.
    Idle,
    /// A deck run is under way: the menu holds the run controls.
    Run,
}

/// The wire-level identifier of each item.
pub open spec fn id_text(m: MenuId) -> Seq<char> {
    match m {
        MenuId::Pause => "pause"@,
        MenuId::Resume => "resume"@,
        MenuId::Stop => "stop"@,
        MenuId::Quit => "quit"@,
    }
}

/// The label that the user sees for each item.
pub open spec fn label_text(m: MenuId) -> Seq<char> {
    match m {
        MenuId::Pause => "Pause"@,
        MenuId::Resume => "Resume"@,
        MenuId::Stop => "Stop"@,
        MenuId::Quit => "Quit"@,
    }
}

/// The item whose identifier is `s`, if any.
pub open spec fn menu_id_of(s: Seq<char>) -> Option<MenuId> {
    if s == "pause"@ {
        Some(MenuId::Pause)
    } else if s == "resume"@ {
        Some(MenuId::Resume)
    } else if s == "stop"@ {
        Some(MenuId::Stop)
    } else if s == "quit"@ {
        Some(MenuId::Quit)
    } else {
        None
    }
}

/// The menu shown while idle.
pub open spec fn idle_entries() -> Seq<MenuEntry> {
    seq![MenuEntry::Item(MenuId::Quit)]
}

/// The menu shown while a run is under way.
pub open spec fn run_entries() -> Seq<MenuEntry> {
    seq![
        MenuEntry::Item(MenuId::Pause),
        MenuEntry::Item(MenuId::Resume),
        MenuEntry::Separator,
        MenuEntry::Item(MenuId::Stop),
    ]
}

/// The entries of each kind of menu.
pub open spec fn entries_of(k: MenuKind) -> Seq<MenuEntry> {
    match k {
        MenuKind::Idle => idle_entries(),
        MenuKind::Run => run_entries(),
    }
}

/// The menu that belongs to a tray mode.
pub open spec fn kind_for(active: bool) -> MenuKind {
    if active {
        MenuKind::Run
    } else {
        MenuKind::Idle
    }
}

impl MenuId {
    /// The identifier under which the item is registered with the tray.
    pub fn id(&self) -> (r: &'static str)
        ensures
            r@ == id_text(*self),
    {
        match self {
            MenuId::Pause => "pause",
            MenuId::Resume => "resume",
            MenuId::Stop => "stop",
            MenuId::Quit => "quit",
        }
    }

    /// The text shown for the item.
    pub fn label(&self) -> (r: &'static str)
        ensures
            r@ == label_text(*self),
    {
        match self {
            MenuId::Pause => "Pause",
            MenuId::Resume => "Resume",
            MenuId::Stop => "Stop",
            MenuId::Quit => "Quit",
        }
    }

    /// Looks up the item that a tray click names; unknown identifiers give `None`.
    pub fn parse(s: &str) -> (r: Option<MenuId>)
        ensures
            r == menu_id_of(s@),
    {
        if str_equal(s, "pause") {
            Some(MenuId::Pause)
        } else if str_equal(s, "resume") {
            Some(MenuId::Resume)
        } else if str_equal(s, "stop") {
            Some(MenuId::Stop)
        } else if str_equal(s, "quit") {
            Some(MenuId::Quit)
        } else {
            None
        }
    }
}

/// Each item is found again from its own identifier.
pub proof fn lemma_id_round_trip(m: MenuId)
    ensures
        menu_id_of(id_text(m)) == Some(m),
{
    reveal_strlit("pause");
    reveal_strlit("resume");
    reveal_strlit("stop");
    reveal_strlit("quit");
    assert("resume"@.len() != "pause"@.len());
    assert("stop"@.len() != "pause"@.len() && "stop"@.len() != "resume"@.len());
    assert("quit"@.len() != "pause"@.len() && "quit"@.len() != "resume"@.len());
    assert("quit"@[0] != "stop"@[0]);
}

impl MenuKind {
    /// The entries of this menu, in display order.
    pub fn entries(&self) -> (r: Vec<MenuEntry>)
        ensures
            r@ == entries_of(*self),
    {
        match self {
            MenuKind::Idle => create_default_tray(),
            MenuKind::Run => create_flashcard_tray(),
        }
    }
}

/// The idle menu: a single item to quit.
pub fn create_default_tray() -> (r: Vec<MenuEntry>)
    ensures
        r@ == idle_entries(),
{
    let mut menu: Vec<MenuEntry> = Vec::new();
    menu.push(MenuEntry::Item(MenuId::Quit));
    menu
}

/// The run menu: pause and resume, a separator, then stop.
pub fn create_flashcard_tray() -> (r: Vec<MenuEntry>)
    ensures
        r@ == run_entries(),
{
    let mut menu: Vec<MenuEntry> = Vec::new();
    menu.push(MenuEntry::Item(MenuId::Pause));
    menu.push(MenuEntry::Item(MenuId::Resume));
    menu.push(MenuEntry::Separator);
    menu.push(MenuEntry::Item(MenuId::Stop));
    assert(menu@ =~= run_entries());
    menu
}

} // verus!
