//! The tray menu: its items, their identifiers and labels, and their order.

use crate::text::same_text;
use vstd::prelude::*;

verus! {

/// An item of the tray menu that the user can select.
#[derive(Clone, Copy, Debug, PartialEq, Eq, Structural)]
pub enum TrayMenuItem {
    /// Brings the main window back and gives it input focus.
    Show,
    /// Hides the main window.
    Hide,
    /// Ends the process.
    Quit,
}

/// One row of the tray menu, from top to bottom.
#[derive(Clone, Copy, Debug, PartialEq, Eq, Structural)]
pub enum MenuEntry {
    /// A selectable item.
    Item { item: TrayMenuItem },
    /// A dividing line.
    Separator,
}

impl TrayMenuItem {
    /// The identifier under which the item is registered with the host, and
    /// which the host reports when the item is selected.
    pub open spec fn id_text(self) -> Seq<char> {
        match self {
            TrayMenuItem::Show => "show"@,
            TrayMenuItem::Hide => "hide"@,
            TrayMenuItem::Quit => "quit"@,
        }
    }

    /// The text that the menu displays for the item.
    pub open spec fn label_text(self) -> Seq<char> {
        match self {
            TrayMenuItem::Show => "Toon venster"@,
            TrayMenuItem::Hide => "Verberg"@,
            TrayMenuItem::Quit => "Afsluiten"@,
        }
    }

    /// The item that an identifier names, if it names one.
    pub open spec fn of_id(id: Seq<char>) -> Option<TrayMenuItem> {
        if id == TrayMenuItem::Show.id_text() {
            Some(TrayMenuItem::Show)
        } else if id == TrayMenuItem::Hide.id_text() {
            Some(TrayMenuItem::Hide)
        } else if id == TrayMenuItem::Quit.id_text() {
            Some(TrayMenuItem::Quit)
        } else {
            None
        }
    }

    /// The item's identifier.
    pub fn id(self) -> (id: &'static str)
        ensures
            id@ == self.id_text(),
    {
        match self {
            TrayMenuItem::Show => "show",
            TrayMenuItem::Hide => "hide",
            TrayMenuItem::Quit => "quit",
        }
    }

    /// The item's label.
    pub fn label(self) -> (label: &'static str)
        ensures
            label@ == self.label_text(),
    {
        match self {
            TrayMenuItem::Show => "Toon venster",
            TrayMenuItem::Hide => "Verberg",
            TrayMenuItem::Quit => "Afsluiten",
        }
    }

    /// Reads an identifier reported by the host. Identifiers are compared
    /// exactly; one that names no item of the tray menu gives `None`.
    pub fn from_id(id: &str) -> (item: Option<TrayMenuItem>)
        ensures
            item == TrayMenuItem::of_id(id@),
    {
        if same_text(id, TrayMenuItem::Show.id()) {
            Some(TrayMenuItem::Show)
        } else if same_text(id, TrayMenuItem::Hide.id()) {
            Some(TrayMenuItem::Hide)
        } else if same_text(id, TrayMenuItem::Quit.id()) {
            Some(TrayMenuItem::Quit)
        } else {
            None
        }
    }
}

/// The rows of the tray menu in display order: show, hide, a separator, quit.
pub open spec fn tray_menu_layout() -> Seq<MenuEntry> {
    seq![
        MenuEntry::Item { item: TrayMenuItem::Show },
        MenuEntry::Item { item: TrayMenuItem::Hide },
        MenuEntry::Separator,
        MenuEntry::Item { item: TrayMenuItem::Quit },
    ]
}

/// Builds the rows of the tray menu in display order.
pub fn tray_menu() -> (entries: Vec<MenuEntry>)
    ensures
        entries@ == tray_menu_layout(),
{
    let mut entries: Vec<MenuEntry> = Vec::new();
    entries.push(MenuEntry::Item { item: TrayMenuItem::Show });
    entries.push(MenuEntry::Item { item: TrayMenuItem::Hide });
    entries.push(MenuEntry::Separator);
    entries.push(MenuEntry::Item { item: TrayMenuItem::Quit });
    assert(entries@ =~= tray_menu_layout());
    entries
}

/// The three identifiers are pairwise different.
pub proof fn ids_are_distinct()
    ensures
        TrayMenuItem::Show.id_text() != TrayMenuItem::Hide.id_text(),
        TrayMenuItem::Show.id_text() != TrayMenuItem::Quit.id_text(),
        TrayMenuItem::Hide.id_text() != TrayMenuItem::Quit.id_text(),
{
    reveal_strlit("show");
    reveal_strlit("hide");
    reveal_strlit("quit");
    assert("show"@[0] == 's');
    assert("hide"@[0] == 'h');
    assert("quit"@[0] == 'q');
}

/// An identifier names an item exactly when it is that item's identifier; so
/// reading an item's own identifier gives the item back.
pub proof fn id_names_its_item(id: Seq<char>, item: TrayMenuItem)
    ensures
        TrayMenuItem::of_id(id) == Some(item) <==> id == item.id_text(),
        TrayMenuItem::of_id(item.id_text()) == Some(item),
{
    ids_are_distinct();
}

} // verus!
