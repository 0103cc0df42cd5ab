use key_overlay::settings::{default_true, ComboSettings};
use key_overlay::wire::{keypress_message, settings_envelope, settings_message};
use serde_json::Value;

fn object(members: &[(&str, Value)]) -> Value {
    let mut map = serde_json::Map::new();
    for (key, value) in members {
        map.insert(key.to_string(), value.clone());
    }
    Value::Object(map)
}

fn text(s: &str) -> Value {
    Value::String(s.to_string())
}

fn parsed(s: &str) -> Value {
    serde_json::from_str(s).unwrap()
}

fn settings(
    combo_mode: bool,
    show_modifiers_alone: bool,
    show_mouse_clicks: bool,
    show_mouse_click_combos: bool,
    key_filter: &str,
    key_filter_enabled: bool,
) -> (bool, bool, bool, bool, String, bool) {
    (
        combo_mode,
        show_modifiers_alone,
        show_mouse_clicks,
        show_mouse_click_combos,
        key_filter.to_string(),
        key_filter_enabled,
    )
}

fn fields(s: &ComboSettings) -> (bool, bool, bool, bool, String, bool) {
    (
        s.combo_mode,
        s.show_modifiers_alone,
        s.show_mouse_clicks,
        s.show_mouse_click_combos,
        s.key_filter.clone(),
        s.key_filter_enabled,
    )
}

fn defaults() -> (bool, bool, bool, bool, String, bool) {
    settings(true, false, false, true, "", true)
}

#[test]
fn keypress_message_has_type_and_combo() {
    let message = keypress_message("Ctrl+Shift+A");
    assert_eq!(
        parsed(&message),
        object(&[("type", text("keypress")), ("combo", text("Ctrl+Shift+A"))])
    );
}

#[test]
fn keypress_message_is_compact_with_members_in_key_order() {
    assert_eq!(keypress_message("A"), "{\"combo\":\"A\",\"type\":\"keypress\"}");
    assert_eq!(
        keypress_message("Ctrl+Shift+A"),
        "{\"combo\":\"Ctrl+Shift+A\",\"type\":\"keypress\"}"
    );
    assert_eq!(keypress_message(""), "{\"combo\":\"\",\"type\":\"keypress\"}");
}

fn quoted(text: &str) -> String {
    let mut out = String::from("\"");
    for c in text.chars() {
        match c {
            '"' => out.push_str("\\\""),
            '\\' => out.push_str("\\\\"),
            '\u{8}' => out.push_str("\\b"),
            '\t' => out.push_str("\\t"),
            '\n' => out.push_str("\\n"),
            '\u{c}' => out.push_str("\\f"),
            '\r' => out.push_str("\\r"),
            c if (c as u32) < 0x20 => out.push_str(&format!("\\u00{:02x}", c as u32)),
            c => out.push(c),
        }
    }
    out.push('"');
    out
}

#[test]
fn keypress_message_writes_every_character_by_the_escape_rules() {
    for u in (0..0x3000u32).chain([0xD7FF, 0xE000, 0xFFFD, 0x1F600, 0x10FFFF]) {
        if let Some(c) = char::from_u32(u) {
            let combo = format!("a{c}b");
            assert_eq!(
                keypress_message(&combo),
                format!("{{\"combo\":{},\"type\":\"keypress\"}}", quoted(&combo)),
                "U+{u:04X}"
            );
        }
    }
}

#[test]
fn keypress_message_escapes() {
    assert_eq!(keypress_message("\""), "{\"combo\":\"\\\"\",\"type\":\"keypress\"}");
    assert_eq!(keypress_message("\\"), "{\"combo\":\"\\\\\",\"type\":\"keypress\"}");
    assert_eq!(keypress_message("\n\t"), "{\"combo\":\"\\n\\t\",\"type\":\"keypress\"}");
    assert_eq!(
        keypress_message("\u{1}\u{1f}\u{7f}"),
        "{\"combo\":\"\\u0001\\u001f\u{7f}\",\"type\":\"keypress\"}"
    );
    assert_eq!(keypress_message("⌘+↩"), "{\"combo\":\"⌘+↩\",\"type\":\"keypress\"}");
}

#[test]
fn keypress_message_escapes_the_combo() {
    for combo in ["\\", "Shift+'", "\"", "⌘+↩", "a\nb", " ", ""] {
        let message = keypress_message(combo);
        assert_eq!(parsed(&message), object(&[("type", text("keypress")), ("combo", text(combo))]));
    }
    assert!(keypress_message("\\").contains("\"\\\\\""));
    assert!(keypress_message("\"").contains("\"\\\"\""));
}

#[test]
fn settings_message_wraps_the_settings() {
    let message = settings_message("{\"comboMode\": false, \"keyFilter\": \"A, B\"}").unwrap();
    assert_eq!(
        parsed(&message),
        object(&[
            ("type", text("settings")),
            ("data", object(&[("comboMode", Value::Bool(false)), ("keyFilter", text("A, B"))])),
        ])
    );
}

#[test]
fn settings_message_wraps_any_json_value() {
    for data in ["{}", "[]", "null", "5", "\"x\"", "[1, {\"a\": [true]}]", " { } "] {
        let message = settings_message(data).unwrap();
        assert_eq!(parsed(&message), object(&[("type", text("settings")), ("data", parsed(data))]));
    }
}

#[test]
fn settings_message_is_written_anew_in_compact_form() {
    assert_eq!(
        settings_message(" {\n \"a\" :  1 } "),
        Some("{\"data\":{\"a\":1},\"type\":\"settings\"}".to_string())
    );
    assert_eq!(
        settings_message("[ ]"),
        Some("{\"data\":[],\"type\":\"settings\"}".to_string())
    );
    assert_eq!(
        settings_message("{\"keyFilter\":\"A, B\",\"comboMode\":false}"),
        Some(
            "{\"data\":{\"comboMode\":false,\"keyFilter\":\"A, B\"},\"type\":\"settings\"}"
                .to_string()
        )
    );
}

#[test]
fn settings_that_are_not_json_are_not_announced() {
    for data in ["", "{", "{comboMode: true}", "{\"a\":1,}", "nul", "{} {}", "'x'"] {
        assert_eq!(settings_message(data), None, "{data:?}");
    }
}

#[test]
fn settings_envelope_wraps_a_parsed_value() {
    let message = settings_envelope(object(&[("showMouseClicks", Value::Bool(true))]));
    assert_eq!(
        parsed(&message),
        object(&[
            ("type", text("settings")),
            ("data", object(&[("showMouseClicks", Value::Bool(true))])),
        ])
    );
}

#[test]
fn default_settings() {
    assert_eq!(fields(&ComboSettings::default()), defaults());
    assert!(default_true());
}

#[test]
fn empty_object_gives_the_defaults() {
    assert_eq!(fields(&ComboSettings::from_json("{}")), defaults());
}

#[test]
fn every_setting_is_read() {
    let s = ComboSettings::from_json(
        "{\"comboMode\":false,\"showModifiersAlone\":true,\"showMouseClicks\":true,\
         \"showMouseClickCombos\":false,\"keyFilter\":\"A, B\",\"keyFilterEnabled\":false}",
    );
    assert_eq!(fields(&s), settings(false, true, true, false, "A, B", false));
}

#[test]
fn each_setting_is_read_from_its_own_member() {
    assert_eq!(
        fields(&ComboSettings::from_json("{\"comboMode\":false}")),
        settings(false, false, false, true, "", true)
    );
    assert_eq!(
        fields(&ComboSettings::from_json("{\"showModifiersAlone\":true}")),
        settings(true, true, false, true, "", true)
    );
    assert_eq!(
        fields(&ComboSettings::from_json("{\"showMouseClicks\":true}")),
        settings(true, false, true, true, "", true)
    );
    assert_eq!(
        fields(&ComboSettings::from_json("{\"showMouseClickCombos\":false}")),
        settings(true, false, false, false, "", true)
    );
    assert_eq!(
        fields(&ComboSettings::from_json("{\"keyFilter\":\"Esc\"}")),
        settings(true, false, false, true, "Esc", true)
    );
    assert_eq!(
        fields(&ComboSettings::from_json("{\"keyFilterEnabled\":false}")),
        settings(true, false, false, true, "", false)
    );
}

#[test]
fn unknown_members_are_ignored() {
    let s = ComboSettings::from_json(
        "{\"theme\":\"dark\",\"combo_mode\":false,\"showMouseClicks\":true,\"size\":[1,2]}",
    );
    assert_eq!(fields(&s), settings(true, false, true, true, "", true));
}

#[test]
fn text_that_is_not_json_gives_the_defaults() {
    for text in ["", "{", "not json", "{\"comboMode\":false", "{\"comboMode\":false,}"] {
        assert_eq!(fields(&ComboSettings::from_json(text)), defaults(), "{text:?}");
    }
}

#[test]
fn member_of_the_wrong_kind_gives_the_defaults() {
    for text in [
        "{\"comboMode\":\"no\",\"showMouseClicks\":true}",
        "{\"showMouseClicks\":true,\"keyFilter\":5}",
        "{\"showMouseClicks\":true,\"keyFilterEnabled\":null}",
        "{\"showMouseClicks\":true,\"showModifiersAlone\":1}",
        "{\"showMouseClicks\":true,\"showMouseClickCombos\":[]}",
        "{\"showMouseClicks\":{},\"comboMode\":false}",
        "{\"keyFilter\":true,\"comboMode\":false}",
    ] {
        assert_eq!(fields(&ComboSettings::from_json(text)), defaults(), "{text:?}");
    }
}

#[test]
fn json_that_is_no_object_gives_the_defaults() {
    for text in ["null", "5", "\"comboMode\"", "[]", "[false]", "true"] {
        assert_eq!(fields(&ComboSettings::from_json(text)), defaults(), "{text:?}");
    }
}

#[test]
fn key_filter_text_is_kept_as_written() {
    let s = ComboSettings::from_json("{\"keyFilter\":\"  a,\\tb \\u2318 \"}");
    assert_eq!(s.key_filter, "  a,\tb ⌘ ");
}

#[test]
fn settings_from_a_parsed_document() {
    let doc = object(&[("comboMode", Value::Bool(false)), ("keyFilter", text("Tab"))]);
    assert_eq!(
        fields(&ComboSettings::from_document(&doc)),
        settings(false, false, false, true, "Tab", true)
    );
    let bad = object(&[("comboMode", Value::Bool(false)), ("keyFilter", Value::Null)]);
    assert_eq!(fields(&ComboSettings::from_document(&bad)), defaults());
    assert_eq!(fields(&ComboSettings::from_document(&Value::Null)), defaults());
}

#[test]
fn clone_keeps_every_setting() {
    let s = ComboSettings::from_json(
        "{\"comboMode\":false,\"showModifiersAlone\":true,\"showMouseClicks\":true,\
         \"showMouseClickCombos\":false,\"keyFilter\":\"⌘ x\",\"keyFilterEnabled\":false}",
    );
    assert_eq!(fields(&s.clone()), fields(&s));
    assert_eq!(fields(&ComboSettings::default().clone()), defaults());
}
