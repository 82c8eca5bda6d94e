use proinvestix_desktop::menu::{tray_menu, MenuEntry, TrayMenuItem};
use proinvestix_desktop::text::same_text;

#[test]
fn tray_menu_rows_are_in_display_order() {
    assert_eq!(
        tray_menu(),
        vec![
            MenuEntry::Item { item: TrayMenuItem::Show },
            MenuEntry::Item { item: TrayMenuItem::Hide },
            MenuEntry::Separator,
            MenuEntry::Item { item: TrayMenuItem::Quit },
        ]
    );
}

#[test]
fn separator_stands_directly_before_quit() {
    let entries = tray_menu();
    let quit: usize = entries
        .iter()
        .position(|entry| *entry == MenuEntry::Item { item: TrayMenuItem::Quit })
        .unwrap();
    assert_eq!(entries[quit - 1], MenuEntry::Separator);
    assert_eq!(entries.iter().filter(|entry| **entry == MenuEntry::Separator).count(), 1);
}

#[test]
fn item_identifiers() {
    assert_eq!(TrayMenuItem::Show.id(), "show");
    assert_eq!(TrayMenuItem::Hide.id(), "hide");
    assert_eq!(TrayMenuItem::Quit.id(), "quit");
}

#[test]
fn item_labels() {
    assert_eq!(TrayMenuItem::Show.label(), "Toon venster");
    assert_eq!(TrayMenuItem::Hide.label(), "Verberg");
    assert_eq!(TrayMenuItem::Quit.label(), "Afsluiten");
}

#[test]
fn from_id_reads_each_identifier() {
    assert_eq!(TrayMenuItem::from_id("show"), Some(TrayMenuItem::Show));
    assert_eq!(TrayMenuItem::from_id("hide"), Some(TrayMenuItem::Hide));
    assert_eq!(TrayMenuItem::from_id("quit"), Some(TrayMenuItem::Quit));
}

#[test]
fn from_id_round_trips_through_id() {
    for item in [TrayMenuItem::Show, TrayMenuItem::Hide, TrayMenuItem::Quit] {
        assert_eq!(TrayMenuItem::from_id(item.id()), Some(item));
    }
}

#[test]
fn from_id_rejects_everything_else() {
    for id in ["", "s", "Show", "SHOW", "show\n", "hid", "hidee", "quit ", "tiuq", "Afsluiten"] {
        assert_eq!(TrayMenuItem::from_id(id), None);
    }
}

#[test]
fn same_text_compares_by_characters() {
    assert!(same_text("", ""));
    assert!(same_text("quit", "quit"));
    assert!(same_text("venster é", "venster é"));
    assert!(!same_text("quit", "quiz"));
    assert!(!same_text("quit", "qui"));
    assert!(!same_text("qui", "quit"));
    assert!(!same_text("", "x"));
    assert!(!same_text("é", "e"));
}
