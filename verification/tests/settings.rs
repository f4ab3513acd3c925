use zed_latex::json::{merge_json_value_into, JsonValue};
use zed_latex::math_preview::{error_tooltip, pending_equation_text, LatexSettings};
use zed_latex::settings_inherit::{
    fallback_config, inherit_config, inherit_config_text, inherit_values, is_blank, InheritError,
    InheritFailure, InheritFailureKind,
};
use zed_latex::settings_watch::{
    dir_event_action, inherited_config_file, reloaded_contents, ConfigInheritance, DirEventAction,
    PathEventKind,
};

fn to_json(value: serde_json::Value) -> JsonValue {
    match value {
        serde_json::Value::Null => JsonValue::Null,
        serde_json::Value::Bool(b) => JsonValue::Bool(b),
        serde_json::Value::Number(n) => JsonValue::Number(n.to_string()),
        serde_json::Value::String(s) => JsonValue::Str(s),
        serde_json::Value::Array(items) => JsonValue::Array(items.into_iter().map(to_json).collect()),
        serde_json::Value::Object(entries) => {
            JsonValue::Object(entries.into_iter().map(|(k, v)| (k, to_json(v))).collect())
        }
    }
}

fn from_json(value: JsonValue) -> serde_json::Value {
    match value {
        JsonValue::Null => serde_json::Value::Null,
        JsonValue::Bool(b) => serde_json::Value::Bool(b),
        JsonValue::Number(n) => serde_json::Value::Number(n.parse().unwrap()),
        JsonValue::Str(s) => serde_json::Value::String(s),
        JsonValue::Array(items) => serde_json::Value::Array(items.into_iter().map(from_json).collect()),
        JsonValue::Object(entries) => serde_json::Value::Object(
            entries.into_iter().map(|(k, v)| (k, from_json(v))).collect(),
        ),
    }
}

fn parse(text: &str) -> JsonValue {
    to_json(serde_json_lenient::from_str(text).unwrap())
}

#[test]
fn inherited_config_preserves_overrides_and_keymap_order() {
    let merged = inherit_config(
        r#"{ // JSONC is supported
        "theme":"Official", "languages":{"Rust":{"tab_size":4}}, "buffer_font_size":15
    }"#,
        r#"{"languages":{"Rust":{"tab_size":2}}, "latex":{"preamble":"custom"}}"#,
        false,
    )
    .unwrap();
    let merged: serde_json::Value = serde_json::from_str(&merged).unwrap();
    assert_eq!(merged["theme"], "Official");
    assert_eq!(merged["buffer_font_size"], 15);
    assert_eq!(merged["languages"]["Rust"]["tab_size"], 2);
    assert_eq!(merged["latex"]["preamble"], "custom");
    let keys = inherit_config(
        r#"[{"bindings":{"ctrl-a":"first"}}]"#,
        r#"[{"bindings":{"ctrl-a":"override"}}]"#,
        true,
    )
    .unwrap();
    let keys: serde_json::Value = serde_json::from_str(&keys).unwrap();
    assert_eq!(keys[1]["bindings"]["ctrl-a"], "override");
    assert!(inherit_config("{invalid", "{}", false).is_err());
    assert_eq!(inherit_config("", "{}", false).unwrap(), "{}");
}

#[test]
fn inheritance_failures_say_which_side() {
    let official = inherit_config("{invalid", "{}", false).unwrap_err();
    assert_eq!(official.kind(), InheritFailureKind::OfficialInvalid);
    let custom = inherit_config("{}", "[oops", false).unwrap_err();
    assert_eq!(custom.kind(), InheritFailureKind::CustomInvalid);
    assert_eq!(
        inherit_config("{}", "[]", true),
        Err(InheritFailure::Inherit(InheritError::OfficialKeymapNotArray))
    );
}

#[test]
fn parse_failures_carry_the_parser_message() {
    let official = inherit_config("{invalid", "{}", false).unwrap_err();
    let expected = serde_json_lenient::from_str::<serde_json::Value>("{invalid")
        .unwrap_err()
        .to_string();
    assert_eq!(official, InheritFailure::OfficialInvalid(expected.clone()));
    assert_eq!(official.message(), expected);
    assert!(official.message().contains("line 1"));
    let custom = inherit_config("{}", "[oops", false).unwrap_err();
    let expected = serde_json_lenient::from_str::<serde_json::Value>("[oops")
        .unwrap_err()
        .to_string();
    assert_eq!(custom.message(), expected);
    assert_eq!(
        inherit_config("[]", "{}", true).unwrap_err().message(),
        "Custom keymap must be an array"
    );
}

#[test]
fn the_watcher_hands_on_inherited_or_fallback_text() {
    let state = ConfigInheritance {
        base: r#"{"a":1,"b":{"x":1}}"#.to_string(),
        own: r#"{"b":{"y":2}, // note
        }"#
        .to_string(),
        keymap: false,
    };
    assert_eq!(state.contents(), r#"{"a":1,"b":{"x":1,"y":2}}"#);
    let keymap = ConfigInheritance {
        base: "[1]".to_string(),
        own: "[2]".to_string(),
        keymap: true,
    };
    assert_eq!(keymap.contents(), "[1,2]");
    let broken = ConfigInheritance {
        base: "{}".to_string(),
        own: "{broken".to_string(),
        keymap: false,
    };
    assert_eq!(broken.contents(), "{broken");
    let mismatched = ConfigInheritance {
        base: "{\"k\":1}".to_string(),
        own: "[]".to_string(),
        keymap: true,
    };
    assert_eq!(mismatched.contents(), "{\"k\":1}");
    let blank = ConfigInheritance {
        base: "  ".to_string(),
        own: "{ \"own\": true }".to_string(),
        keymap: false,
    };
    assert_eq!(blank.contents(), "{ \"own\": true }");
}

#[test]
fn custom_settings_override_repeated_keys_once() {
    let merged = inherit_config(r#"{"a":1,"b":2}"#, r#"{"a":3,"a":4}"#, false).unwrap();
    assert_eq!(merged, r#"{"a":4,"b":2}"#);
}

#[test]
fn blank_sides_are_inherited_verbatim() {
    assert_eq!(inherit_config_text(" \n\t", "{ \"a\": 1 }"), Some("{ \"a\": 1 }".to_string()));
    assert_eq!(inherit_config_text("{\"b\":2}", "\u{3000} "), Some("{\"b\":2}".to_string()));
    assert_eq!(inherit_config_text("{}", "{}"), None);
    assert!(is_blank(""));
    assert!(is_blank(" \u{a0}\r\n\u{2028}"));
    assert!(!is_blank(" x "));
}

#[test]
fn custom_values_take_precedence_and_base_keys_remain() {
    let mut base = parse(r#"{"a":1,"nested":{"x":1,"y":2},"list":[1,2],"keep":"base"}"#);
    let own = parse(r#"{"nested":{"y":3,"z":4},"list":[9],"a":null,"new":true}"#);
    merge_json_value_into(own, &mut base);
    let merged = from_json(base);
    assert_eq!(
        serde_json::to_string(&merged).unwrap(),
        r#"{"a":null,"nested":{"x":1,"y":3,"z":4},"list":[9],"keep":"base","new":true}"#
    );
}

#[test]
fn non_object_custom_values_replace() {
    let mut base = parse(r#"{"a":1}"#);
    merge_json_value_into(parse("[1,2]"), &mut base);
    assert_eq!(serde_json::to_string(&from_json(base)).unwrap(), "[1,2]");
    let mut base = parse("3");
    merge_json_value_into(parse(r#"{"b":2}"#), &mut base);
    assert_eq!(serde_json::to_string(&from_json(base)).unwrap(), r#"{"b":2}"#);
}

#[test]
fn keymaps_must_be_arrays() {
    assert_eq!(
        inherit_values(parse("{}"), parse("[]"), true).err(),
        Some(InheritError::OfficialKeymapNotArray)
    );
    assert_eq!(
        inherit_values(parse("[]"), parse("{}"), true).err(),
        Some(InheritError::CustomKeymapNotArray)
    );
    assert_eq!(InheritError::OfficialKeymapNotArray.message(), "Official keymap must be an array");
    assert_eq!(InheritError::CustomKeymapNotArray.message(), "Custom keymap must be an array");
    let joined = inherit_values(parse("[1,2]"), parse("[3]"), true).ok().unwrap();
    assert_eq!(serde_json::to_string(&from_json(joined)).unwrap(), "[1,2,3]");
}

#[test]
fn failed_inheritance_hands_on_the_broken_custom_text() {
    assert_eq!(fallback_config("{\"a\":1}", "{invalid"), "{invalid");
    assert_eq!(fallback_config("{\"a\":1}", "{\"b\":2, // ok\n}"), "{\"a\":1}");
    assert_eq!(fallback_config("[oops", "  "), "[oops");
    let state = ConfigInheritance {
        base: "[]".to_string(),
        own: "{broken".to_string(),
        keymap: true,
    };
    assert_eq!(state.fallback(), "{broken");
}

#[test]
fn config_changes_replace_one_side() {
    let mut state = ConfigInheritance {
        base: "b".to_string(),
        own: "o".to_string(),
        keymap: false,
    };
    state.apply_change(true, "B".to_string());
    assert_eq!((state.base.as_str(), state.own.as_str()), ("B", "o"));
    state.apply_change(false, "O".to_string());
    assert_eq!((state.base.as_str(), state.own.as_str()), ("B", "O"));
}

#[test]
fn only_known_config_files_inherit() {
    assert_eq!(inherited_config_file("settings.json", true), Some(false));
    assert_eq!(inherited_config_file("keymap.json", true), Some(true));
    assert_eq!(inherited_config_file("tasks.json", true), Some(false));
    assert_eq!(inherited_config_file("debug.json", true), Some(false));
    assert_eq!(inherited_config_file("global_settings.json", true), Some(false));
    assert_eq!(inherited_config_file("settings.json", false), None);
    assert_eq!(inherited_config_file("themes.json", true), None);
}

#[test]
fn watched_file_reloads() {
    assert_eq!(reloaded_contents(Some("A".to_string()), true), Some("A".to_string()));
    assert_eq!(reloaded_contents(None, true), Some(String::new()));
    assert_eq!(reloaded_contents(None, false), None);
}

#[test]
fn watched_directory_events() {
    assert_eq!(dir_event_action(true, false, Some(PathEventKind::Removed)), DirEventAction::SendEmpty);
    assert_eq!(dir_event_action(true, false, Some(PathEventKind::Changed)), DirEventAction::ReloadFile);
    assert_eq!(dir_event_action(true, false, Some(PathEventKind::Created)), DirEventAction::ReloadFile);
    assert_eq!(dir_event_action(true, false, Some(PathEventKind::Rescan)), DirEventAction::ReloadAll);
    assert_eq!(dir_event_action(true, false, None), DirEventAction::Ignore);
    assert_eq!(dir_event_action(false, true, Some(PathEventKind::Rescan)), DirEventAction::ReloadAll);
    assert_eq!(dir_event_action(false, true, Some(PathEventKind::Changed)), DirEventAction::Ignore);
    assert_eq!(dir_event_action(false, false, Some(PathEventKind::Rescan)), DirEventAction::Ignore);
}

#[test]
fn latex_settings_default_preamble() {
    let settings = LatexSettings::from_settings(None, None);
    assert_eq!(settings.preamble, r"\usepackage{amsmath,amssymb}");
    let settings = LatexSettings::from_settings(Some("custom".into()), Some("/tex".into()));
    assert_eq!(settings.preamble, "custom");
    assert_eq!(settings.package_directory.as_deref(), Some("/tex"));
}

#[test]
fn pending_equations_show_their_source() {
    assert_eq!(pending_equation_text("x^2", false), "$x^2$");
    assert_eq!(pending_equation_text("x^2", true), "$$x^2$$");
    assert_eq!(error_tooltip("LaTeX compilation failed"), "LaTeX: LaTeX compilation failed");
}
