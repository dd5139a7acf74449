//! Typed application configuration.

use vstd::prelude::*;

verus! {

/// Which key starts a conversion.
#[derive(Debug, Clone, Copy, PartialEq, Eq, Structural)]
pub enum HotkeyMode {
    HangulEnglishKey,
}

/// Which provider reads or replaces the selection.
#[derive(Debug, Clone, Copy, PartialEq, Eq, Structural)]
pub enum ProviderPreference {
    /// UI Automation, with the clipboard as fallback.
    Automatic,
    UiAutomationOnly,
    ClipboardOnly,
}

/// The application's settings.
#[derive(Debug, Clone, Copy, PartialEq, Eq, Structural)]
pub struct Settings {
    pub launch_at_startup: bool,
    pub enable_conversion: bool,
    pub hotkey_mode: HotkeyMode,
    pub selection_provider: ProviderPreference,
    pub replacement_provider: ProviderPreference,
    pub debug_logging: bool,
}

/// The settings of a fresh installation: not launched at startup, conversion
/// enabled, the Hangul/English key, automatic providers, no debug logging.
pub open spec fn default_settings() -> Settings {
    Settings {
        launch_at_startup: false,
        enable_conversion: true,
        hotkey_mode: HotkeyMode::HangulEnglishKey,
        selection_provider: ProviderPreference::Automatic,
        replacement_provider: ProviderPreference::Automatic,
        debug_logging: false,
    }
}

impl Default for Settings {
    fn default() -> (r: Settings)
        ensures
            r == default_settings(),
    {
        Settings {
            launch_at_startup: false,
            enable_conversion: true,
            hotkey_mode: HotkeyMode::HangulEnglishKey,
            selection_provider: ProviderPreference::Automatic,
            replacement_provider: ProviderPreference::Automatic,
            debug_logging: false,
        }
    }
}

/// Settings that the store refuses.
#[derive(Debug, Clone, Copy, PartialEq, Eq, Structural)]
pub struct ValidationError;

impl ValidationError {
    /// The sentence that describes the error.
    pub open spec fn spec_message(self) -> Seq<char> {
        "settings validation failed"@
    }

    /// The sentence that describes the error; see [`Self::spec_message`].
    pub fn message(self) -> (r: &'static str)
        ensures
            r@ == self.spec_message(),
    {
        "settings validation failed"
    }
}

impl Settings {
    /// Whether the store accepts these settings. Every supported hotkey and
    /// provider is a variant of its type, so every value is accepted.
    pub open spec fn spec_is_valid(self) -> bool {
        match self.hotkey_mode {
            HotkeyMode::HangulEnglishKey => true,
        }
    }

    /// Whether a press of the Hangul/English key starts a conversion: only
    /// while conversion is enabled and that key is the hotkey.
    pub fn converts_on_hangul_key(&self) -> (r: bool)
        ensures
            r == (self.enable_conversion && self.hotkey_mode == HotkeyMode::HangulEnglishKey),
    {
        self.enable_conversion && self.hotkey_mode == HotkeyMode::HangulEnglishKey
    }

    /// Executable form of [`Self::spec_is_valid`], with the error to report.
    pub fn validate(&self) -> (r: Result<(), ValidationError>)
        ensures
            r is Ok <==> self.spec_is_valid(),
    {
        match self.hotkey_mode {
            HotkeyMode::HangulEnglishKey => Ok(()),
        }
    }
}

} // verus!
