//! The messages that are broadcast to subscribers, as JSON text.

use vstd::prelude::*;
use crate::text::text_of;
use crate::json::{
    json_envelope,
    json_normalized,
    json_quoted,
    json_string,
    json_text,
    lemma_plain_text_is_kept,
    parse_json,
    write_envelope,
};

verus! {

/// The message that announces a combo: the object with the member `type`, the string
/// `keypress`, and the member `combo`, the combo as a string.
pub open spec fn keypress_text(combo: Seq<char>) -> Seq<char> {
    json_envelope("type"@, "keypress"@, "combo"@, json_quoted(combo))
}

/// The message that announces new settings, given as JSON text: the object with the
/// member `type`, the string `settings`, and the member `data`, the settings. There is
/// none for settings that are not JSON.
pub open spec fn settings_text(settings: Seq<char>) -> Option<Seq<char>> {
    match json_normalized(settings) {
        Some(data) => Some(json_envelope("type"@, "settings"@, "data"@, data)),
        None => None,
    }
}

/// Writes the message that announces `combo` to subscribers.
pub fn keypress_message(combo: &str) -> (message: String)
    ensures
        message@ == keypress_text(combo@),
{
    write_envelope("type", "keypress", "combo", json_string(combo))
}

/// Wraps settings that parsed as JSON into the message that announces them.
pub fn settings_envelope(data: serde_json::Value) -> (message: String)
    ensures
        message@ == json_envelope("type"@, "settings"@, "data"@, json_text(data)),
{
    write_envelope("type", "settings", "data", data)
}

/// Writes the message that announces the settings `settings`, given as JSON text, to
/// subscribers. Returns `None` for settings that are not JSON: they are not announced.
pub fn settings_message(settings: &str) -> (message: Option<String>)
    ensures
        text_of(message) == settings_text(settings@),
{
    match parse_json(settings) {
        Some(data) => Some(settings_envelope(data)),
        None => None,
    }
}

/// The message that announces a combo, written out: `{"combo":`, the combo as a JSON
/// string, and `,"type":"keypress"}`.
pub proof fn lemma_keypress_text(combo: Seq<char>)
    ensures
        keypress_text(combo) == "{\"combo\":"@ + json_quoted(combo) + ",\"type\":\"keypress\"}"@,
{
    reveal_strlit("type");
    reveal_strlit("keypress");
    reveal_strlit("combo");
    reveal_strlit("{\"combo\":");
    reveal_strlit(",\"type\":\"keypress\"}");
    lemma_plain_text_is_kept("type"@);
    lemma_plain_text_is_kept("keypress"@);
    lemma_plain_text_is_kept("combo"@);
    assert(keypress_text(combo) =~= "{\"combo\":"@ + json_quoted(combo)
        + ",\"type\":\"keypress\"}"@);
}

/// The message that announces settings, written out: `{"data":`, the settings in compact
/// form, and `,"type":"settings"}`.
pub proof fn lemma_settings_text(settings: Seq<char>)
    ensures
        settings_text(settings) == match json_normalized(settings) {
            Some(data) => Some("{\"data\":"@ + data + ",\"type\":\"settings\"}"@),
            None => None,
        },
{
    reveal_strlit("type");
    reveal_strlit("settings");
    reveal_strlit("data");
    reveal_strlit("{\"data\":");
    reveal_strlit(",\"type\":\"settings\"}");
    lemma_plain_text_is_kept("type"@);
    lemma_plain_text_is_kept("settings"@);
    lemma_plain_text_is_kept("data"@);
    if let Some(data) = json_normalized(settings) {
        assert(json_envelope("type"@, "settings"@, "data"@, data) =~= "{\"data\":"@ + data
            + ",\"type\":\"settings\"}"@);
    }
}

} // verus!
