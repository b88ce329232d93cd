//! The entries of the system tray menu.

use vstd::prelude::*;
use vstd::string::StringExecFns;
use crate::json::{json_of, json_string, value_as_str};
use crate::setting::events::SettingsSetPayload;
use crate::setting::state::Settings;
use crate::translation::error::Error;
use crate::translation::state::{translation, Translations};

verus! {

/// The entries of the tray menu that the application handles itself.
#[derive(Clone, Copy, Debug, PartialEq, Eq, Structural)]
pub enum InternalSystemTrayMenuId {
    QuitApp,
    ToggleAppVisible,
}

impl InternalSystemTrayMenuId {
    /// The identifier of the entry in the menu.
    pub open spec fn id(&self) -> Seq<char> {
        match self {
            InternalSystemTrayMenuId::QuitApp => "quit-app"@,
            InternalSystemTrayMenuId::ToggleAppVisible => "toggle-app-visible"@,
        }
    }

    /// The entry with this identifier, if there is one.
    pub open spec fn with_id(id: Seq<char>) -> Option<Self> {
        if id == "quit-app"@ {
            Some(InternalSystemTrayMenuId::QuitApp)
        } else if id == "toggle-app-visible"@ {
            Some(InternalSystemTrayMenuId::ToggleAppVisible)
        } else {
            None
        }
    }

    /// The identifier of the entry in the menu.
    pub fn as_str(&self) -> (id: &'static str)
        ensures
            id@ == self.id(),
    {
        match self {
            InternalSystemTrayMenuId::QuitApp => "quit-app",
            InternalSystemTrayMenuId::ToggleAppVisible => "toggle-app-visible",
        }
    }

    /// The identifier of the entry in the menu as an owned text.
    pub fn to_string(&self) -> (id: String)
        ensures
            id@ == self.id(),
    {
        String::from_str(self.as_str())
    }

    /// The entry with this identifier, if there is one.
    pub fn parse(id: &str) -> (entry: Option<Self>)
        ensures
            entry == Self::with_id(id@),
    {
        let id = String::from_str(id);
        if id == String::from_str("quit-app") {
            Some(InternalSystemTrayMenuId::QuitApp)
        } else if id == String::from_str("toggle-app-visible") {
            Some(InternalSystemTrayMenuId::ToggleAppVisible)
        } else {
            None
        }
    }

    /// The entry with this identifier.
    pub fn from(id: String) -> (entry: Self)
        requires
            Self::with_id(id@) is Some,
        ensures
            Some(entry) == Self::with_id(id@),
    {
        match Self::parse(id.as_str()) {
            Some(entry) => entry,
            None => InternalSystemTrayMenuId::QuitApp,
        }
    }
}

/// The key of the title of the menu entry that quits.
pub const QUIT_TITLE: &'static str = "quit app|Quit";

/// The key of the title of the menu entry that hides the main window.
pub const HIDE_TITLE: &'static str = "hide app|Hide";

/// The key of the title of the menu entry that shows the main window.
pub const SHOW_TITLE: &'static str = "show app|Show";

/// The key of the title of the main window and of the tray icon's tooltip.
pub const APP_TITLE: &'static str =
    "this project description|Tauri redis - A simple redis desktop manager.";

/// The key of the title of the menu entry that toggles the main window: it
/// offers to hide a window that is visible and to show one that is not.
pub fn toggle_title(is_main_window_visible: bool) -> (key: &'static str)
    ensures
        key@ == if is_main_window_visible {
            HIDE_TITLE@
        } else {
            SHOW_TITLE@
        },
{
    if is_main_window_visible {
        HIDE_TITLE
    } else {
        SHOW_TITLE
    }
}

/// What to do with the main window when the user toggles it.
#[derive(Clone, Copy, Debug, PartialEq, Eq, Structural)]
pub enum WindowChange {
    /// Hide the window.
    Hide,
    /// Show the window and give it the focus.
    ShowAndFocus,
}

/// What a toggle does to the main window, and the key of the title that the
/// toggling menu entry gets afterwards. A visible window is hidden and the
/// entry then offers to show it; a hidden one is shown and the entry then
/// offers to hide it.
pub fn toggle_window(is_window_visible: bool) -> (res: (WindowChange, &'static str))
    ensures
        res.0 == if is_window_visible {
            WindowChange::Hide
        } else {
            WindowChange::ShowAndFocus
        },
        res.1@ == if is_window_visible {
            SHOW_TITLE@
        } else {
            HIDE_TITLE@
        },
{
    if is_window_visible {
        (WindowChange::Hide, SHOW_TITLE)
    } else {
        (WindowChange::ShowAndFocus, HIDE_TITLE)
    }
}

/// The titles that change with the language.
#[derive(Debug)]
pub struct TrayTitles {
    /// The title of the menu entry that quits.
    pub quit: String,
    /// The title of the menu entry that toggles the main window.
    pub toggle: String,
    /// The title of the main window and the tooltip of the tray icon.
    pub app_title: String,
}

/// The titles in the loaded language, for a main window that is visible or
/// not. Without a loaded language there are none.
pub fn tray_titles(translator: &Translations, is_main_window_visible: bool) -> (res: Result<
    TrayTitles,
    Error,
>)
    ensures
        translator@.resources is None ==> res matches Err(Error::FailedToFindMatchedTranslation),
        translator@.resources matches Some(resources) ==> {
            &&& res matches Ok(titles)
            &&& titles.quit@ == translation(resources, QUIT_TITLE@, None)
            &&& titles.toggle@ == translation(
                resources,
                if is_main_window_visible {
                    HIDE_TITLE@
                } else {
                    SHOW_TITLE@
                },
                None,
            )
            &&& titles.app_title@ == translation(resources, APP_TITLE@, None)
        },
{
    proof {
        reveal_strlit("quit app|Quit");
        reveal_strlit("hide app|Hide");
        reveal_strlit("show app|Show");
        reveal_strlit("this project description|Tauri redis - A simple redis desktop manager.");
    }
    let quit = match translator.translate(String::from_str(QUIT_TITLE), None) {
        Ok(text) => text,
        Err(e) => {
            return Err(e);
        },
    };
    let toggle = match translator.translate(
        String::from_str(toggle_title(is_main_window_visible)),
        None,
    ) {
        Ok(text) => text,
        Err(e) => {
            return Err(e);
        },
    };
    let app_title = match translator.translate(String::from_str(APP_TITLE), None) {
        Ok(text) => text,
        Err(e) => {
            return Err(e);
        },
    };
    Ok(TrayTitles { quit, toggle, app_title })
}

/// What a click in the tray menu asks for.
#[derive(Clone, Copy, Debug, PartialEq, Eq, Structural)]
pub enum TrayAction {
    /// End the application.
    Quit,
    /// Toggle the main window.
    ToggleWindow,
    /// Nothing: the entry is not one of the application's own.
    Ignore,
}

/// What a click on the menu entry with this identifier asks for.
pub fn menu_item_click(id: &str) -> (action: TrayAction)
    ensures
        action == match InternalSystemTrayMenuId::with_id(id@) {
            Some(InternalSystemTrayMenuId::QuitApp) => TrayAction::Quit,
            Some(InternalSystemTrayMenuId::ToggleAppVisible) => TrayAction::ToggleWindow,
            None => TrayAction::Ignore,
        },
{
    match InternalSystemTrayMenuId::parse(id) {
        Some(InternalSystemTrayMenuId::QuitApp) => TrayAction::Quit,
        Some(InternalSystemTrayMenuId::ToggleAppVisible) => TrayAction::ToggleWindow,
        None => TrayAction::Ignore,
    }
}

/// What a changed setting means for the language.
#[derive(Debug)]
pub enum LanguageChange {
    /// The setting is not the language.
    Unrelated,
    /// Switch to this language.
    To(String),
    /// The language was set to something that is no text.
    Unreadable,
}

/// Reads a changed setting for what it means for the language: only the
/// setting `language` counts, and its value has to be a JSON string.
pub fn language_change(payload: &SettingsSetPayload) -> (change: LanguageChange)
    ensures
        payload.key@ != "language"@ ==> change is Unrelated,
        payload.key@ == "language"@ ==> match json_string(json_of(payload.value)) {
            Some(language) => change matches LanguageChange::To(l) && l@ == language,
            None => change is Unreadable,
        },
{
    if !(payload.key == String::from_str("language")) {
        return LanguageChange::Unrelated;
    }
    match value_as_str(&payload.value) {
        Some(language) => LanguageChange::To(language),
        None => LanguageChange::Unreadable,
    }
}

/// The language to start with: what the setting `language` holds, if it is
/// set at all.
pub fn startup_language(settings: &Settings) -> (change: LanguageChange)
    ensures
        match settings.value_of("language"@) {
            None => change is Unrelated,
            Some(value) => match json_string(json_of(value)) {
                Some(language) => change matches LanguageChange::To(l) && l@ == language,
                None => change is Unreadable,
            },
        },
{
    let key = String::from_str("language");
    match settings.get(&key) {
        None => LanguageChange::Unrelated,
        Some(value) => match value_as_str(value) {
            Some(language) => LanguageChange::To(language),
            None => LanguageChange::Unreadable,
        },
    }
}

} // verus!
