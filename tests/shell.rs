use flashcard_shell::menu::{create_default_tray, create_flashcard_tray, MenuEntry, MenuId, MenuKind};
use flashcard_shell::shell::{
    broadcast_command, on_close_requested, start_decks, Command, Effect, Toggle, TrayState,
    CLOSE_REQUESTED_TOPIC, DECK_EDITOR_WINDOW, DECK_RUNNER_TOPIC, MAIN_WINDOW,
};
use flashcard_shell::text::str_equal;

#[test]
fn starts_idle_with_quit_menu() {
    let s = TrayState::new();
    assert!(!s.is_active());
    assert_eq!(s.menu(), MenuKind::Idle);
    assert_eq!(s.menu().entries(), vec![MenuEntry::Item(MenuId::Quit)]);
}

#[test]
fn toggle_sequence_follows_effective_toggles() {
    let mut s = TrayState::new();
    let ops = [Toggle::On, Toggle::On, Toggle::Off, Toggle::On, Toggle::Off, Toggle::Off];
    let mut effective = 0;
    for t in ops {
        if !s.toggle(t).is_empty() {
            effective += 1;
        }
    }
    assert_eq!(effective, 4);
    assert_eq!(s.is_active(), effective % 2 == 1);

    let mut s = TrayState::new();
    s.toggle(Toggle::On);
    s.toggle(Toggle::Off);
    s.toggle(Toggle::On);
    assert!(s.is_active());
}

#[test]
fn toggle_on_shows_run_controls_and_hides_main() {
    let mut s = TrayState::new();
    let e = s.toggle_system_tray_on();
    assert_eq!(e, vec![Effect::SetMenu(MenuKind::Run), Effect::HideMain]);
    assert!(s.is_active());
    assert_eq!(
        s.menu().entries(),
        vec![
            MenuEntry::Item(MenuId::Pause),
            MenuEntry::Item(MenuId::Resume),
            MenuEntry::Separator,
            MenuEntry::Item(MenuId::Stop),
        ]
    );
}

#[test]
fn toggle_on_twice_is_a_no_op() {
    let mut s = TrayState::new();
    s.toggle_system_tray_on();
    assert!(s.toggle_system_tray_on().is_empty());
    assert!(s.is_active());
}

#[test]
fn toggle_off_shows_quit_menu_and_focuses_main() {
    let mut s = TrayState::new();
    assert!(s.toggle_system_tray_off().is_empty());
    s.toggle_system_tray_on();
    let e = s.toggle_system_tray_off();
    assert_eq!(
        e,
        vec![Effect::SetMenu(MenuKind::Idle), Effect::ShowMain, Effect::FocusMain]
    );
    assert!(!s.is_active());
    assert_eq!(s.menu().entries(), create_default_tray());
}

#[test]
fn pause_click_broadcasts_one_pause() {
    let mut s = TrayState::new();
    s.toggle_system_tray_on();
    let e = s.on_tray_click("pause");
    assert_eq!(e, vec![Effect::Broadcast(Command::Pause)]);
    assert_eq!(Command::Pause.name(), "pause");
    assert_eq!(DECK_RUNNER_TOPIC, "deck-runner-command");
    assert!(s.is_active());
    assert_eq!(broadcast_command(Command::Pause), vec![Effect::Broadcast(Command::Pause)]);
}

#[test]
fn resume_click_broadcasts_resume() {
    let mut s = TrayState::new();
    s.toggle_system_tray_on();
    assert_eq!(s.on_tray_click("resume"), vec![Effect::Broadcast(Command::Resume)]);
    assert_eq!(Command::Resume.name(), "resume");
}

#[test]
fn stop_click_broadcasts_stop_and_leaves_run_mode() {
    let mut s = TrayState::new();
    s.toggle_system_tray_on();
    let e = s.on_tray_click("stop");
    assert_eq!(
        e,
        vec![
            Effect::Broadcast(Command::Stop),
            Effect::SetMenu(MenuKind::Idle),
            Effect::ShowMain,
            Effect::FocusMain,
        ]
    );
    assert!(!s.is_active());
    assert_eq!(Command::Stop.name(), "stop");
    // Run mode can be entered again afterwards.
    assert_eq!(s.toggle_system_tray_on().len(), 2);
}

#[test]
fn quit_click_exits_with_zero_in_either_mode() {
    let mut s = TrayState::new();
    assert_eq!(s.on_tray_click("quit"), vec![Effect::Exit(0)]);
    assert!(!s.is_active());
    s.toggle_system_tray_on();
    assert_eq!(s.on_tray_click("quit"), vec![Effect::Exit(0)]);
    assert!(s.is_active());
}

#[test]
fn unknown_click_does_nothing() {
    let mut s = TrayState::new();
    s.toggle_system_tray_on();
    assert!(s.on_tray_click("hide_show").is_empty());
    assert!(s.on_tray_click("").is_empty());
    assert!(s.on_tray_click("Pause").is_empty());
    assert!(s.is_active());
}

#[test]
fn editor_close_is_prevented_and_notified_once() {
    let e = on_close_requested(DECK_EDITOR_WINDOW);
    assert_eq!(e, vec![Effect::PreventClose, Effect::NotifyCloseRequested]);
    assert_eq!(DECK_EDITOR_WINDOW, "deck-editor");
    assert_eq!(CLOSE_REQUESTED_TOPIC, "close-requested");
}

#[test]
fn other_windows_close_normally() {
    assert!(on_close_requested(MAIN_WINDOW).is_empty());
    assert!(on_close_requested("deck-editor2").is_empty());
    assert!(on_close_requested("").is_empty());
}

#[test]
fn start_decks_broadcasts_start() {
    let ids = vec!["a".to_string(), "b".to_string()];
    assert_eq!(start_decks(&ids), vec![Effect::Broadcast(Command::Start)]);
    assert_eq!(start_decks(&Vec::new()), vec![Effect::Broadcast(Command::Start)]);
    assert_eq!(Command::Start.name(), "start");
}

#[test]
fn menu_ids_and_labels() {
    for m in [MenuId::Pause, MenuId::Resume, MenuId::Stop, MenuId::Quit] {
        assert_eq!(MenuId::parse(m.id()), Some(m));
    }
    assert_eq!(MenuId::Stop.id(), "stop");
    assert_eq!(MenuId::Quit.label(), "Quit");
    assert_eq!(MenuId::Resume.label(), "Resume");
    assert_eq!(MenuId::parse("show"), None);
    assert_eq!(MenuKind::Run.entries(), create_flashcard_tray());
}

#[test]
fn str_equal_compares_characters() {
    assert!(str_equal("", ""));
    assert!(str_equal("ab", "ab"));
    assert!(str_equal("é", "é"));
    assert!(!str_equal("ab", "abc"));
    assert!(!str_equal("ab", "ba"));
}
