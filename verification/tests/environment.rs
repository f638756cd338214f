use wasmcloud_provider::environment::EnvVars;
use wasmcloud_provider::table::Table;
use wasmcloud_provider::text::{contains_text, decimal_text, has_prefix, join};

#[test]
fn variables_are_set_and_replaced() {
    let mut env = EnvVars::new();
    assert!(env.entries().is_empty());
    env.insert("A".to_string(), "1".to_string());
    env.insert("B".to_string(), "2".to_string());
    env.insert("A".to_string(), "3".to_string());
    assert_eq!(env.entries().len(), 2);
    assert_eq!(env.get(&"A".to_string()), Some(&"3".to_string()));
    assert_eq!(env.get(&"B".to_string()), Some(&"2".to_string()));
    assert_eq!(env.get(&"C".to_string()), None);
}

#[test]
fn with_leaves_the_first_environment_alone() {
    let mut env = EnvVars::new();
    env.insert("PORT".to_string(), "1".to_string());
    let more = env.with("PORT", "2".to_string());
    assert_eq!(env.get(&"PORT".to_string()), Some(&"1".to_string()));
    assert_eq!(more.get(&"PORT".to_string()), Some(&"2".to_string()));
    assert_eq!(more.entries().len(), 1);
}

#[test]
fn table_keeps_one_entry_for_each_key() {
    let mut table: Table<String, u8> = Table::new();
    table.insert("x".to_string(), 1);
    table.insert("y".to_string(), 2);
    table.insert("x".to_string(), 3);
    assert_eq!(table.entries().len(), 2);
    assert_eq!(table.get(&"x".to_string()), Some(&3));
    assert_eq!(table.get(&"y".to_string()), Some(&2));
    assert_eq!(table.get(&"".to_string()), None);
}

#[test]
fn decimal_text_reads_back() {
    assert_eq!(decimal_text(0), "0");
    assert_eq!(decimal_text(9), "9");
    assert_eq!(decimal_text(10), "10");
    assert_eq!(decimal_text(30000), "30000");
    let mut port: u16 = 0;
    loop {
        assert_eq!(decimal_text(port), port.to_string());
        if port == u16::MAX {
            break;
        }
        port += 1;
    }
}

#[test]
fn prefixes_and_lists() {
    assert!(has_prefix("k8s.gcr.io/kube-proxy:v1", "k8s.gcr.io/kube-proxy"));
    assert!(has_prefix("abc", ""));
    assert!(!has_prefix("ab", "abc"));
    assert!(!has_prefix("abd", "abc"));
    assert_eq!(join("a\u{e9}", "b"), "a\u{e9}b");
    let list = vec!["a".to_string(), "b".to_string()];
    assert!(contains_text(&list, "b"));
    assert!(!contains_text(&list, "ab"));
    assert!(!contains_text(&Vec::new(), "a"));
}
