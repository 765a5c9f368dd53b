use desktop2mqtt::extensions::StringExt;
use desktop2mqtt::text::{join2, join3, replace_char, split_char};
use desktop2mqtt::topics::{
    make_availability_topic, make_command_topic, make_custom_command_topic, make_discovery_topic,
    make_notify_topic, make_state_topic,
};

#[test]
fn slug_is_lower_case_with_dashes() {
    assert_eq!("My Command".to_string().to_slug(), "my-command");
    assert_eq!("Lock  Screen".to_string().to_slug(), "lock--screen");
    assert_eq!("ÄÖ Ü".to_string().to_slug(), "äö-ü");
    assert_eq!("already-a-slug".to_string().to_slug(), "already-a-slug");
    assert_eq!(String::new().to_slug(), "");
}

#[test]
fn slug_agrees_with_the_standard_library() {
    for text in ["Reboot Now", " Leading", "Trailing ", "MiXeD Case Text", "İstanbul Ǆ"] {
        assert_eq!(text.to_string().to_slug(), text.to_lowercase().replace(" ", "-"));
        assert!(!text.to_string().to_slug().contains(' '));
    }
}

#[test]
fn replace_char_replaces_every_occurrence() {
    assert_eq!(replace_char("/mnt/data/", '/', "_"), "_mnt_data_");
    assert_eq!(replace_char("a b", ' ', ""), "ab");
    assert_eq!(replace_char("a b", ' ', "--"), "a--b");
    assert_eq!(replace_char("abc", 'x', "y"), "abc");
    assert_eq!(replace_char("", 'x', "y"), "");
    assert_eq!(replace_char("é/ü", '/', "_"), "é_ü");
}

#[test]
fn split_char_keeps_empty_fields() {
    assert_eq!(split_char("echo hello world", ' '), vec!["echo", "hello", "world"]);
    assert_eq!(split_char("a  b", ' '), vec!["a", "", "b"]);
    assert_eq!(split_char(" a ", ' '), vec!["", "a", ""]);
    assert_eq!(split_char("", ' '), vec![""]);
    assert_eq!(split_char("single", ' '), vec!["single"]);
}

#[test]
fn split_char_agrees_with_the_standard_library() {
    for text in ["ls -la /tmp", "  ", "x", "ü ö ä", "trailing "] {
        let expected: Vec<String> = text.split(" ").map(|s| s.to_string()).collect();
        assert_eq!(split_char(text, ' '), expected);
    }
}

#[test]
fn joins_keep_the_order() {
    assert_eq!(join2("a", "b"), "ab");
    assert_eq!(join2("", "b"), "b");
    assert_eq!(join3("a", "b", "c"), "abc");
    assert_eq!(join3("a", "", "c"), "ac");
}

#[test]
fn topics_follow_the_scheme() {
    assert_eq!(make_state_topic("desk"), "desktop2mqtt/desk");
    assert_eq!(make_availability_topic("desktop2mqtt/desk"), "desktop2mqtt/desk/availability");
    assert_eq!(make_command_topic("desktop2mqtt/desk"), "desktop2mqtt/desk/set");
    assert_eq!(make_notify_topic("desk"), "desktop2mqtt/desk/notify");
    assert_eq!(make_custom_command_topic("desk", "lock-screen"), "desktop2mqtt/desk/lock-screen");
    assert_eq!(
        make_discovery_topic("sensor", "desk", "cpu_load"),
        "homeassistant/sensor/desk/cpu_load/config"
    );
}
