//! Editor settings.

use vstd::prelude::*;

verus! {

/// The editor's core settings.
#[derive(Debug, Clone, Default)]
pub struct CoreConfig {
    /// Modal (Vim-like) editing.
    pub modal: bool,
    /// The color theme.
    pub color_theme: String,
    /// The icon theme.
    pub icon_theme: String,
    /// A custom title bar in place of the system's (Linux, BSD, Windows).
    pub custom_titlebar: bool,
    /// Files open only on a double click in the file explorer.
    pub file_explorer_double_click: bool,
    /// Plugins reload when their configuration changes.
    pub auto_reload_plugin: bool,
    /// The welcome screen shows when no editor is open.
    pub show_welcome: bool,
}

} // verus!
