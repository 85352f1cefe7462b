//! The tray icon's menu: a fixed, ordered list of entries built once at
//! startup and never changed afterwards.

use vstd::prelude::*;
use vstd::string::StringExecFns;

verus! {

/// One entry of the tray menu: either a selectable (or display-only) item
/// with an id and a label, or a separator line.
#[derive(Clone, Debug, PartialEq, Eq)]
pub enum MenuEntry {
    Item { id: String, label: String, enabled: bool },
    Separator,
}

/// The tray menu and the icon's tooltip text.
#[derive(Clone, Debug, PartialEq, Eq)]
pub struct TrayMenu {
    pub entries: Vec<MenuEntry>,
    pub tooltip: String,
}

impl TrayMenu {
    /// The fixed shape every tray menu of this application has: exactly three
    /// entries, in order a disabled `version` display item, a separator, and
    /// an enabled `quit` item.
    pub open spec fn wf(self) -> bool {
        &&& self.entries@.len() == 3
        &&& self.entries@[0] matches MenuEntry::Item { id, enabled, .. } && id@ == "version"@
            && !enabled
        &&& self.entries@[1] == MenuEntry::Separator
        &&& self.entries@[2] matches MenuEntry::Item { id, enabled, .. } && id@ == "quit"@
            && enabled
    }

    /// Number of entries in the menu.
    pub fn len(&self) -> (n: usize)
        ensures
            n == self.entries@.len(),
    {
        self.entries.len()
    }
}

/// Builds the application's tray menu: a disabled `version` item carrying the
/// given version text, a separator, and an enabled `quit` item with the given
/// label; the tooltip is attached unchanged. The result always has the
/// well-formed three-entry shape.
pub fn build_tray_menu(version_label: String, quit_label: String, tooltip: String) -> (m: TrayMenu)
    ensures
        m.wf(),
        m.entries@[0] matches MenuEntry::Item { label, .. } && label@ == version_label@,
        m.entries@[2] matches MenuEntry::Item { label, .. } && label@ == quit_label@,
        m.tooltip@ == tooltip@,
{
    let mut entries: Vec<MenuEntry> = Vec::new();
    entries.push(MenuEntry::Item { id: String::from_str("version"), label: version_label, enabled: false });
    entries.push(MenuEntry::Separator);
    entries.push(MenuEntry::Item { id: String::from_str("quit"), label: quit_label, enabled: true });
    TrayMenu { entries, tooltip }
}

/// The tray menu always contains exactly three entries, in order: the
/// disabled `version` display item, a separator, and the enabled `quit` item.
pub proof fn lemma_menu_shape(m: TrayMenu)
    requires
        m.wf(),
    ensures
        m.entries@.len() == 3,
        m.entries@[0] matches MenuEntry::Item { id, enabled, .. } && id@ == "version"@ && !enabled,
        m.entries@[1] == MenuEntry::Separator,
        m.entries@[2] matches MenuEntry::Item { id, enabled, .. } && id@ == "quit"@ && enabled,
{
}

} // verus!
