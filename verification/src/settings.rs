//! The configuration snapshot that decides which combos are shown.

use vstd::prelude::*;
use crate::json::{json_field, json_members, json_normalized, json_text, parse_json, FieldView, JsonField};

verus! {

/// The mathematical value of a [`ComboSettings`].
pub struct SettingsView {
    pub combo_mode: bool,
    pub show_modifiers_alone: bool,
    pub show_mouse_clicks: bool,
    pub show_mouse_click_combos: bool,
    pub key_filter: Seq<char>,
    pub key_filter_enabled: bool,
}

/// The settings in force when nothing else was configured: combos on, modifiers alone and
/// plain mouse clicks off, mouse combos on, an empty key filter that is switched on.
pub open spec fn default_settings() -> SettingsView {
    SettingsView {
        combo_mode: true,
        show_modifiers_alone: false,
        show_mouse_clicks: false,
        show_mouse_click_combos: true,
        key_filter: Seq::<char>::empty(),
        key_filter_enabled: true,
    }
}

/// A snapshot of the settings that combo synthesis reads.
#[derive(Debug)]
pub struct ComboSettings {
    /// Show held modifiers in front of the key.
    pub combo_mode: bool,
    /// Show a modifier when it is pressed by itself.
    pub show_modifiers_alone: bool,
    /// Show mouse clicks made with no modifier held.
    pub show_mouse_clicks: bool,
    /// Show mouse clicks made with a modifier held.
    pub show_mouse_click_combos: bool,
    /// The keys to show, separated by commas or spaces; empty for all keys.
    pub key_filter: String,
    /// Whether `key_filter` is applied.
    pub key_filter_enabled: bool,
}

impl View for ComboSettings {
    type V = SettingsView;

    open spec fn view(&self) -> SettingsView {
        SettingsView {
            combo_mode: self.combo_mode,
            show_modifiers_alone: self.show_modifiers_alone,
            show_mouse_clicks: self.show_mouse_clicks,
            show_mouse_click_combos: self.show_mouse_click_combos,
            key_filter: self.key_filter@,
            key_filter_enabled: self.key_filter_enabled,
        }
    }
}

/// The default of the settings that are on unless configured otherwise.
pub fn default_true() -> (on: bool)
    ensures
        on,
{
    true
}

impl Clone for ComboSettings {
    fn clone(&self) -> (copy: ComboSettings)
        ensures
            copy@ == self@,
    {
        ComboSettings {
            combo_mode: self.combo_mode,
            show_modifiers_alone: self.show_modifiers_alone,
            show_mouse_clicks: self.show_mouse_clicks,
            show_mouse_click_combos: self.show_mouse_click_combos,
            key_filter: self.key_filter.clone(),
            key_filter_enabled: self.key_filter_enabled,
        }
    }
}

impl Default for ComboSettings {
    fn default() -> (settings: ComboSettings)
        ensures
            settings@ == default_settings(),
    {
        ComboSettings {
            combo_mode: default_true(),
            show_modifiers_alone: false,
            show_mouse_clicks: false,
            show_mouse_click_combos: default_true(),
            key_filter: String::new(),
            key_filter_enabled: default_true(),
        }
    }
}

/// The value of the boolean setting `key` among the members of a settings object: the
/// member's value, `default` where there is no such member, and `None` where the member is
/// not a boolean.
pub open spec fn bool_setting(members: Map<Seq<char>, FieldView>, key: Seq<char>, default: bool)
    -> Option<bool> {
    if !members.contains_key(key) {
        Some(default)
    } else {
        match members[key] {
            FieldView::Bool(b) => Some(b),
            _ => None,
        }
    }
}

/// The value of the text setting `key` among the members of a settings object: the
/// member's value, the empty text where there is no such member, and `None` where the
/// member is not a string.
pub open spec fn text_setting(members: Map<Seq<char>, FieldView>, key: Seq<char>) -> Option<
    Seq<char>,
> {
    if !members.contains_key(key) {
        Some(Seq::<char>::empty())
    } else {
        match members[key] {
            FieldView::Text(s) => Some(s),
            _ => None,
        }
    }
}

/// The settings that the members of a settings object stand for. Each setting is read
/// from the member with its name; a missing member leaves the setting at its default, and
/// members with other names are ignored. If one of the six members has a value of the
/// wrong kind, the object is malformed and stands for the default settings.
pub open spec fn settings_from_members(members: Map<Seq<char>, FieldView>) -> SettingsView {
    let combo_mode = bool_setting(members, "comboMode"@, true);
    let show_modifiers_alone = bool_setting(members, "showModifiersAlone"@, false);
    let show_mouse_clicks = bool_setting(members, "showMouseClicks"@, false);
    let show_mouse_click_combos = bool_setting(members, "showMouseClickCombos"@, true);
    let key_filter = text_setting(members, "keyFilter"@);
    let key_filter_enabled = bool_setting(members, "keyFilterEnabled"@, true);
    if combo_mode is Some && show_modifiers_alone is Some && show_mouse_clicks is Some
        && show_mouse_click_combos is Some && key_filter is Some && key_filter_enabled is Some {
        SettingsView {
            combo_mode: combo_mode->0,
            show_modifiers_alone: show_modifiers_alone->0,
            show_mouse_clicks: show_mouse_clicks->0,
            show_mouse_click_combos: show_mouse_click_combos->0,
            key_filter: key_filter->0,
            key_filter_enabled: key_filter_enabled->0,
        }
    } else {
        default_settings()
    }
}

/// The settings that a JSON text stands for: those of its members, and the default
/// settings for a text that is not JSON.
pub open spec fn settings_from_json(text: Seq<char>) -> SettingsView {
    match json_normalized(text) {
        Some(document) => settings_from_members(json_members(document)),
        None => default_settings(),
    }
}

/// Reads a boolean setting from a settings document.
fn read_bool(document: &serde_json::Value, key: &str, default: bool) -> (value: Option<bool>)
    ensures
        value == bool_setting(json_members(json_text(*document)), key@, default),
{
    match json_field(document, key) {
        None => Some(default),
        Some(JsonField::Bool(b)) => Some(b),
        Some(_) => None,
    }
}

/// Reads a text setting from a settings document.
fn read_text(document: &serde_json::Value, key: &str) -> (value: Option<String>)
    ensures
        match value {
            Some(s) => text_setting(json_members(json_text(*document)), key@) == Some(s@),
            None => text_setting(json_members(json_text(*document)), key@) is None,
        },
{
    match json_field(document, key) {
        None => Some(String::new()),
        Some(JsonField::Text(s)) => Some(s),
        Some(_) => None,
    }
}

impl ComboSettings {
    /// Reads the settings out of a parsed settings document.
    pub fn from_document(document: &serde_json::Value) -> (settings: ComboSettings)
        ensures
            settings@ == settings_from_members(json_members(json_text(*document))),
    {
        let combo_mode = read_bool(document, "comboMode", default_true());
        let show_modifiers_alone = read_bool(document, "showModifiersAlone", false);
        let show_mouse_clicks = read_bool(document, "showMouseClicks", false);
        let show_mouse_click_combos = read_bool(document, "showMouseClickCombos", default_true());
        let key_filter = read_text(document, "keyFilter");
        let key_filter_enabled = read_bool(document, "keyFilterEnabled", default_true());
        match (
            combo_mode,
            show_modifiers_alone,
            show_mouse_clicks,
            show_mouse_click_combos,
            key_filter,
            key_filter_enabled,
        ) {
            (
                Some(combo_mode),
                Some(show_modifiers_alone),
                Some(show_mouse_clicks),
                Some(show_mouse_click_combos),
                Some(key_filter),
                Some(key_filter_enabled),
            ) => ComboSettings {
                combo_mode,
                show_modifiers_alone,
                show_mouse_clicks,
                show_mouse_click_combos,
                key_filter,
                key_filter_enabled,
            },
            _ => ComboSettings::default(),
        }
    }

    /// Reads the settings out of JSON text. This never fails: text that is not JSON, and
    /// a malformed settings object, give the default settings.
    pub fn from_json(text: &str) -> (settings: ComboSettings)
        ensures
            settings@ == settings_from_json(text@),
    {
        match parse_json(text) {
            Some(document) => ComboSettings::from_document(&document),
            None => ComboSettings::default(),
        }
    }
}

} // verus!
