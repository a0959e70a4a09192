//! The settings of the editor.

use vstd::prelude::*;

verus! {

/// What the user has chosen for the editor.
#[derive(Debug, Clone)]
pub struct Settings {
    pub theme: String,
    pub font_size: u32,
    pub font_family: String,
    pub tab_size: u32,
    pub auto_save: bool,
    pub auto_save_delay_ms: u32,
    pub show_minimap: bool,
    pub word_wrap: bool,
    pub line_numbers: bool,
    pub bracket_matching: bool,
    pub auto_indent: bool,
    pub format_on_save: bool,
    pub default_language: Option<String>,
    pub docker_enabled: bool,
    /// Timeout of an execution in seconds.
    pub execution_timeout: u32,
}

impl Settings {
    /// Whether these are the settings of a fresh installation.
    pub open spec fn is_default(self) -> bool {
        &&& self.theme@ == "shell-dark"@
        &&& self.font_size == 14
        &&& self.font_family@ == "JetBrains Mono, Consolas, monospace"@
        &&& self.tab_size == 4
        &&& self.auto_save
        &&& self.auto_save_delay_ms == 1000
        &&& self.show_minimap
        &&& !self.word_wrap
        &&& self.line_numbers
        &&& self.bracket_matching
        &&& self.auto_indent
        &&& !self.format_on_save
        &&& self.default_language is None
        &&& self.docker_enabled
        &&& self.execution_timeout == 30
    }
}

impl Default for Settings {
    /// The settings of a fresh installation.
    fn default() -> (settings: Self)
        ensures
            settings.is_default(),
    {
        Settings {
            theme: "shell-dark".to_owned(),
            font_size: 14,
            font_family: "JetBrains Mono, Consolas, monospace".to_owned(),
            tab_size: 4,
            auto_save: true,
            auto_save_delay_ms: 1000,
            show_minimap: true,
            word_wrap: false,
            line_numbers: true,
            bracket_matching: true,
            auto_indent: true,
            format_on_save: false,
            default_language: None,
            docker_enabled: true,
            execution_timeout: 30,
        }
    }
}

/// The settings to work with, given what the database holds: the stored
/// ones where there are any that can be read, the defaults where not.
pub fn get_settings(stored: Option<Settings>) -> (settings: Settings)
    ensures
        match stored {
            Some(s) => settings == s,
            None => settings.is_default(),
        },
{
    match stored {
        Some(settings) => settings,
        None => Settings::default(),
    }
}

} // verus!
