//! The decisions of a flashcard app's desktop shell: the tray mode, the tray
//! menu that goes with it, what a tray click or a window close request leads
//! to, and the commands sent to the deck runner. The host carries out the
//! returned effects.

pub mod laws;
pub mod menu;
pub mod shell;
pub mod text;
