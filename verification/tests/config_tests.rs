use prompt_config::color::Color;
use prompt_config::config::{bool_config_str, parse_bool, Config, ErrorKind};

fn pairs(entries: &[(&str, &str)]) -> Vec<(String, String)> {
    entries.iter().map(|(k, v)| (k.to_string(), v.to_string())).collect()
}

#[test]
fn bool_accepted_forms() {
    assert_eq!(parse_bool("0"), Some(false));
    assert_eq!(parse_bool("false"), Some(false));
    assert_eq!(parse_bool("1"), Some(true));
    assert_eq!(parse_bool("true"), Some(true));
    assert_eq!(parse_bool("True"), None);
    assert_eq!(parse_bool("FALSE"), None);
    assert_eq!(parse_bool("yes"), None);
    assert_eq!(parse_bool(""), None);
}

#[test]
fn bool_round_trip() {
    assert_eq!(parse_bool(bool_config_str(false)), Some(false));
    assert_eq!(parse_bool(bool_config_str(true)), Some(true));
}

#[test]
fn absent_keys_give_defaults() {
    let c = Config::from_pairs(&pairs(&[])).unwrap();
    assert_eq!(c, Config::default());
    assert_eq!(c.path_color, Color::Blue);
    assert_eq!(c.git_branch_icon, "");
    assert_eq!(c.git_branch_color, Color::Cyan);
    assert!(!c.git_branch_disable);
    assert_eq!(c.git_status_staged_icon, "+");
    assert_eq!(c.git_status_unstaged_icon, "!");
    assert_eq!(c.git_status_untracked_icon, "?");
    assert_eq!(c.git_status_ahead_icon, "\u{21a5}");
    assert_eq!(c.git_status_behind_icon, "\u{21a7}");
    assert_eq!(c.git_status_color, Color::Cyan);
    assert!(!c.git_status_disable);
    assert_eq!(c.char_user_icon, "$");
    assert_eq!(c.char_user_color, Color::Green);
    assert_eq!(c.char_user_failed_icon, "$");
    assert_eq!(c.char_user_failed_color, Color::Red);
    assert_eq!(c.char_root_icon, "#");
    assert_eq!(c.char_root_color, Color::Green);
    assert_eq!(c.char_root_failed_icon, "#");
    assert_eq!(c.char_root_failed_color, Color::Red);
}

#[test]
fn unrecognized_keys_ignored() {
    let c = Config::from_pairs(&pairs(&[("no_such_key", "zzz"), ("another", "#nope")])).unwrap();
    assert_eq!(c, Config::default());
}

#[test]
fn default_record_round_trips() {
    let d = Config::default();
    let serialized = pairs(&[
        ("path_color", &d.path_color.to_config_string()),
        ("git_branch_icon", &d.git_branch_icon),
        ("git_branch_color", &d.git_branch_color.to_config_string()),
        ("git_branch_disable", bool_config_str(d.git_branch_disable)),
        ("git_status_staged_icon", &d.git_status_staged_icon),
        ("git_status_unstaged_icon", &d.git_status_unstaged_icon),
        ("git_status_untracked_icon", &d.git_status_untracked_icon),
        ("git_status_ahead_icon", &d.git_status_ahead_icon),
        ("git_status_behind_icon", &d.git_status_behind_icon),
        ("git_status_color", &d.git_status_color.to_config_string()),
        ("git_status_disable", bool_config_str(d.git_status_disable)),
        ("char_user_icon", &d.char_user_icon),
        ("char_user_color", &d.char_user_color.to_config_string()),
        ("char_user_failed_icon", &d.char_user_failed_icon),
        ("char_user_failed_color", &d.char_user_failed_color.to_config_string()),
        ("char_root_icon", &d.char_root_icon),
        ("char_root_color", &d.char_root_color.to_config_string()),
        ("char_root_failed_icon", &d.char_root_failed_icon),
        ("char_root_failed_color", &d.char_root_failed_color.to_config_string()),
    ]);
    let reparsed = Config::from_pairs(&serialized).unwrap();
    assert_eq!(reparsed, d);
}

#[test]
fn end_to_end_two_keys() {
    let c = Config::from_pairs(&pairs(&[
        ("git_branch_disable", "1"),
        ("path_color", "#00ff00"),
    ]))
    .unwrap();
    assert!(c.git_branch_disable);
    assert_eq!(c.path_color, Color::RGB(0, 255, 0));
    let mut rest = c.clone();
    rest.git_branch_disable = false;
    rest.path_color = Color::Blue;
    assert_eq!(rest, Config::default());
}

#[test]
fn present_invalid_bool_fails_whole_record() {
    let r = Config::from_pairs(&pairs(&[("git_branch_disable", "yes")]));
    let e = r.unwrap_err();
    assert_eq!(e.field, "git_branch_disable");
    assert_eq!(e.value, "yes");
    assert_eq!(e.kind, ErrorKind::InvalidBoolValue);
}

#[test]
fn present_invalid_color_fails_whole_record() {
    let r = Config::from_pairs(&pairs(&[("path_color", "bluish")]));
    let e = r.unwrap_err();
    assert_eq!(e.field, "path_color");
    assert_eq!(e.value, "bluish");
    assert_eq!(e.kind, ErrorKind::InvalidColorValue);
}

#[test]
fn bad_hex_digit_reported() {
    let e = Config::from_pairs(&pairs(&[("git_status_color", "#0g0")])).unwrap_err();
    assert_eq!(e.field, "git_status_color");
    assert_eq!(e.value, "#0g0");
    assert_eq!(e.kind, ErrorKind::InvalidHexDigit);
}

#[test]
fn overflow_reported() {
    let e = Config::from_pairs(&pairs(&[("char_user_color", "300")])).unwrap_err();
    assert_eq!(e.field, "char_user_color");
    assert_eq!(e.value, "300");
    assert_eq!(e.kind, ErrorKind::NumericOverflow);
}

#[test]
fn first_bad_field_in_declaration_order_reported() {
    let e = Config::from_pairs(&pairs(&[
        ("git_branch_color", "nope"),
        ("path_color", "also-bad"),
    ]))
    .unwrap_err();
    assert_eq!(e.field, "path_color");
    assert_eq!(e.value, "also-bad");
}

#[test]
fn first_occurrence_of_duplicate_key_wins() {
    let c = Config::from_pairs(&pairs(&[("path_color", "red"), ("path_color", "green")])).unwrap();
    assert_eq!(c.path_color, Color::Red);
}

#[test]
fn bool_fields_case_sensitive_in_record() {
    let e = Config::from_pairs(&pairs(&[("git_status_disable", "True")])).unwrap_err();
    assert_eq!(e.field, "git_status_disable");
    assert_eq!(e.kind, ErrorKind::InvalidBoolValue);
}

#[test]
fn icons_taken_verbatim() {
    let c = Config::from_pairs(&pairs(&[
        ("git_branch_icon", "BRANCH"),
        ("char_root_icon", "%"),
    ]))
    .unwrap();
    assert_eq!(c.git_branch_icon, "BRANCH");
    assert_eq!(c.char_root_icon, "%");
}
