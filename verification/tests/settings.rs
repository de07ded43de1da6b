use learning_computer::model::{Setting, SettingValue};
use learning_computer::settings::{compare_keys, settings_are_in_key_order, settings_from_entries};

fn setting(key: &str, value: &str) -> Setting {
    Setting { key: key.to_string(), value: SettingValue::Text(value.to_string()) }
}

fn keys(settings: &[Setting]) -> Vec<&str> {
    settings.iter().map(|s| s.key.as_str()).collect()
}

#[test]
fn keys_compare_by_code_point_with_prefixes_first() {
    assert!(compare_keys("alpha", "beta") < 0);
    assert!(compare_keys("beta", "alpha") > 0);
    assert_eq!(compare_keys("same", "same"), 0);
    assert!(compare_keys("pre", "prefix") < 0);
    assert!(compare_keys("prefix", "pre") > 0);
    assert!(compare_keys("", "a") < 0);
    assert_eq!(compare_keys("", ""), 0);
    assert!(compare_keys("Zeta", "alpha") < 0);
    assert!(compare_keys("z", "\u{e9}") < 0);
    assert!(compare_keys("policy.auto_apply", "policy_x") < 0);
}

#[test]
fn settings_come_out_in_key_order() {
    let out = settings_from_entries(vec![
        setting("retries", "3"),
        setting("policy.auto_apply", "true"),
        setting("Mode", "fast"),
    ]);
    assert_eq!(keys(&out), vec!["Mode", "policy.auto_apply", "retries"]);
    assert_eq!(out[2].value, SettingValue::Text("3".to_string()));
}

#[test]
fn the_last_setting_of_a_key_wins() {
    let out = settings_from_entries(vec![
        setting("b", "first"),
        setting("a", "x"),
        setting("b", "second"),
        setting("b", "third"),
    ]);
    assert_eq!(keys(&out), vec!["a", "b"]);
    assert_eq!(out[1].value, SettingValue::Text("third".to_string()));
}

#[test]
fn no_entries_give_no_settings() {
    assert!(settings_from_entries(vec![]).is_empty());
    let sorted = vec![setting("a", "1"), setting("b", "2")];
    assert_eq!(settings_from_entries(sorted.clone()), sorted);
}

#[test]
fn key_order_is_checked_pair_by_pair() {
    use_check(&[], true);
    use_check(&[setting("a", "1")], true);
    use_check(&[setting("a", "1"), setting("b", "2"), setting("c", "3")], true);
    use_check(&[setting("a", "1"), setting("a", "2")], false);
    use_check(&[setting("b", "1"), setting("a", "2")], false);
    use_check(&[setting("a", "1"), setting("c", "2"), setting("b", "3")], false);
}

fn use_check(settings: &[Setting], expected: bool) {
    assert_eq!(settings_are_in_key_order(settings), expected);
}
