use lie_core::config::MemoryConfig;
use lie_core::error::EngineError;
use lie_core::memory::{MemoryData, MemoryManager};

fn enabled(max_summary_chars: usize, max_kv_entries: usize) -> MemoryConfig {
    MemoryConfig {
        enabled: true,
        max_summary_chars,
        max_kv_entries,
        persistence_path: "memory.json".to_string(),
    }
}

fn disabled() -> MemoryConfig {
    MemoryConfig::default()
}

fn pair(key: &str, value: &str) -> (String, String) {
    (key.to_string(), value.to_string())
}

fn document(summary: &str, facts: &[(&str, &str)]) -> MemoryData {
    MemoryData {
        summary: summary.to_string(),
        kv_store: facts.iter().map(|(k, v)| pair(k, v)).collect(),
    }
}

/// The last `max` characters of `s`.
fn tail(s: &str, max: usize) -> String {
    let chars: Vec<char> = s.chars().collect();
    let start = chars.len().saturating_sub(max);
    chars[start..].iter().collect()
}

#[test]
fn empty_store_injects_nothing() {
    let store = MemoryManager::new(enabled(1000, 50), None);
    assert_eq!(store.get_injection_text(), "");
}

#[test]
fn summary_alone_is_one_line_and_a_blank_line() {
    let mut store = MemoryManager::new(enabled(1000, 50), None);
    store.update_summary("likes tea").unwrap();
    assert_eq!(store.get_injection_text(), "[Summary: likes tea]\n\n");
}

#[test]
fn facts_alone_are_one_line_and_a_blank_line() {
    let mut store = MemoryManager::new(enabled(1000, 50), None);
    store.set_fact("user", "Divyansh").unwrap();
    assert_eq!(store.get_injection_text(), "[Facts: user=Divyansh;]\n\n");
}

#[test]
fn summary_precedes_facts_and_facts_keep_their_order() {
    let mut store = MemoryManager::new(enabled(1000, 50), None);
    store.set_fact("user", "Divyansh").unwrap();
    store.set_fact("city", "Pune").unwrap();
    store.update_summary("likes tea").unwrap();
    store.set_fact("user", "Dev").unwrap();
    assert_eq!(
        store.get_injection_text(),
        "[Summary: likes tea]\n[Facts: user=Dev; city=Pune;]\n\n"
    );
}

#[test]
fn disabled_store_injects_nothing_whatever_it_is_given() {
    let persisted = document("old summary", &[("user", "Divyansh")]);
    let mut store = MemoryManager::new(disabled(), Some(persisted));
    assert_eq!(store.get_injection_text(), "");
    store.update_summary("more").unwrap();
    store.set_fact("k", "v").unwrap();
    assert_eq!(store.get_injection_text(), "");
    assert!(store.snapshot().is_none());
}

#[test]
fn disabled_store_accepts_any_number_of_facts_and_keeps_none() {
    let mut config = disabled();
    config.max_kv_entries = 1;
    let mut store = MemoryManager::new(config, None);
    assert!(store.set_fact("a", "1").is_ok());
    assert!(store.set_fact("b", "2").is_ok());
    assert!(store.set_fact("c", "3").is_ok());
    assert!(store.snapshot().is_none());
}

#[test]
fn set_fact_twice_is_set_fact_once() {
    let mut store = MemoryManager::new(enabled(1000, 50), None);
    store.set_fact("other", "x").unwrap();
    store.set_fact("user", "Divyansh").unwrap();
    let once = store.snapshot().unwrap();
    let text_once = store.get_injection_text();

    store.set_fact("user", "Divyansh").unwrap();
    let twice = store.snapshot().unwrap();

    assert_eq!(twice.kv_store.len(), 2);
    assert_eq!(twice.kv_store.len(), once.kv_store.len());
    assert_eq!(twice.kv_store, once.kv_store);
    assert_eq!(twice.summary, once.summary);
    assert_eq!(store.get_injection_text(), text_once);
}

#[test]
fn overwriting_keeps_the_place_of_the_key() {
    let mut store = MemoryManager::new(enabled(1000, 50), None);
    store.set_fact("a", "1").unwrap();
    store.set_fact("b", "2").unwrap();
    store.set_fact("a", "3").unwrap();
    let data = store.snapshot().unwrap();
    assert_eq!(data.kv_store, vec![pair("a", "3"), pair("b", "2")]);
}

#[test]
fn summary_appends_with_a_single_space() {
    let mut store = MemoryManager::new(enabled(1000, 50), None);
    store.update_summary("first").unwrap();
    assert_eq!(store.snapshot().unwrap().summary, "first");
    store.update_summary("second").unwrap();
    assert_eq!(store.snapshot().unwrap().summary, "first second");
    store.update_summary("").unwrap();
    assert_eq!(store.snapshot().unwrap().summary, "first second ");
}

#[test]
fn summary_keeps_its_trailing_window() {
    let mut store = MemoryManager::new(enabled(10, 50), None);
    store.update_summary("hello").unwrap();
    assert_eq!(store.snapshot().unwrap().summary, "hello");
    store.update_summary("world").unwrap();
    // "hello world" has 11 characters: the first one goes.
    assert_eq!(store.snapshot().unwrap().summary, "ello world");
    store.update_summary("again").unwrap();
    assert_eq!(store.snapshot().unwrap().summary, "orld again");
}

#[test]
fn summary_window_cuts_one_long_text() {
    let mut store = MemoryManager::new(enabled(4, 50), None);
    store.update_summary("abcdefgh").unwrap();
    assert_eq!(store.snapshot().unwrap().summary, "efgh");
}

#[test]
fn summary_window_counts_characters() {
    let mut store = MemoryManager::new(enabled(3, 50), None);
    store.update_summary("añb€c").unwrap();
    assert_eq!(store.snapshot().unwrap().summary, "b€c");
}

#[test]
fn summary_limit_of_zero_keeps_nothing() {
    let mut store = MemoryManager::new(enabled(0, 50), None);
    store.update_summary("anything").unwrap();
    assert_eq!(store.snapshot().unwrap().summary, "");
    store.update_summary("more").unwrap();
    assert_eq!(store.snapshot().unwrap().summary, "");
    assert_eq!(store.get_injection_text(), "");
}

#[test]
fn summary_is_the_suffix_of_the_full_concatenation() {
    let texts = ["alpha", "beta", "", "gamma delta", "e", "zeta eta theta"];
    for max in [0usize, 1, 5, 6, 7, 12, 20, 100] {
        let mut store = MemoryManager::new(enabled(max, 50), None);
        let mut full = String::new();
        for text in texts {
            store.update_summary(text).unwrap();
            if !full.is_empty() {
                full.push(' ');
            }
            full.push_str(text);
            let summary = store.snapshot().unwrap().summary;
            assert!(summary.chars().count() <= max);
            assert_eq!(summary, tail(&full, max));
        }
    }
}

#[test]
fn update_summary_leaves_the_facts_alone() {
    let mut store = MemoryManager::new(enabled(5, 50), None);
    store.set_fact("k", "v").unwrap();
    store.update_summary("a long enough text").unwrap();
    assert_eq!(store.snapshot().unwrap().kv_store, vec![pair("k", "v")]);
}

#[test]
fn full_store_refuses_a_new_key() {
    let mut store = MemoryManager::new(enabled(1000, 3), None);
    store.set_fact("a", "1").unwrap();
    store.set_fact("b", "2").unwrap();
    store.set_fact("c", "3").unwrap();

    match store.set_fact("d", "4") {
        Err(EngineError::CapacityExceeded) => {}
        other => panic!("unexpected outcome: {:?}", other),
    }
    let data = store.snapshot().unwrap();
    assert_eq!(data.kv_store, vec![pair("a", "1"), pair("b", "2"), pair("c", "3")]);
}

#[test]
fn full_store_accepts_each_of_its_keys() {
    let mut store = MemoryManager::new(enabled(1000, 3), None);
    store.set_fact("a", "1").unwrap();
    store.set_fact("b", "2").unwrap();
    store.set_fact("c", "3").unwrap();

    for key in ["a", "b", "c"] {
        assert!(store.set_fact(key, "again").is_ok());
    }
    let data = store.snapshot().unwrap();
    assert_eq!(data.kv_store.len(), 3);
    assert_eq!(
        data.kv_store,
        vec![pair("a", "again"), pair("b", "again"), pair("c", "again")]
    );
}

#[test]
fn store_without_room_refuses_every_key() {
    let mut store = MemoryManager::new(enabled(1000, 0), None);
    assert!(matches!(store.set_fact("a", "1"), Err(EngineError::CapacityExceeded)));
    assert_eq!(store.get_injection_text(), "");
}

#[test]
fn capacity_error_has_its_own_message() {
    let mut store = MemoryManager::new(enabled(1000, 0), None);
    let error = store.set_fact("a", "1").unwrap_err();
    assert_eq!(error.message(), "Capacity exceeded: memory KV limit reached");
}

#[test]
fn persisted_document_is_loaded() {
    let persisted = document("likes tea", &[("user", "Divyansh"), ("city", "Pune")]);
    let store = MemoryManager::new(enabled(1000, 50), Some(persisted));
    assert_eq!(
        store.get_injection_text(),
        "[Summary: likes tea]\n[Facts: user=Divyansh; city=Pune;]\n\n"
    );
    let data = store.snapshot().unwrap();
    assert_eq!(data.summary, "likes tea");
    assert_eq!(data.kv_store, vec![pair("user", "Divyansh"), pair("city", "Pune")]);
}

#[test]
fn document_at_the_limits_is_loaded() {
    let persisted = document("12345", &[("a", "1"), ("b", "2")]);
    let store = MemoryManager::new(enabled(5, 2), Some(persisted));
    assert_eq!(store.snapshot().unwrap().summary, "12345");
    assert_eq!(store.snapshot().unwrap().kv_store.len(), 2);
}

#[test]
fn document_over_the_summary_limit_is_passed_over() {
    let persisted = document("123456", &[("a", "1")]);
    let mut store = MemoryManager::new(enabled(5, 2), Some(persisted));
    let data = store.snapshot().unwrap();
    assert_eq!(data.summary, "");
    assert!(data.kv_store.is_empty());
    assert_eq!(store.get_injection_text(), "");

    store.update_summary("7").unwrap();
    assert_eq!(store.snapshot().unwrap().summary, "7");
}

#[test]
fn document_over_the_fact_limit_is_passed_over() {
    let persisted = document("s", &[("a", "1"), ("b", "2"), ("c", "3")]);
    let mut store = MemoryManager::new(enabled(5, 2), Some(persisted));
    let data = store.snapshot().unwrap();
    assert_eq!(data.summary, "");
    assert!(data.kv_store.is_empty());
    assert_eq!(store.get_injection_text(), "");

    assert!(store.set_fact("d", "4").is_ok());
    assert!(store.set_fact("e", "5").is_ok());
    assert!(matches!(store.set_fact("f", "6"), Err(EngineError::CapacityExceeded)));
    assert_eq!(store.snapshot().unwrap().kv_store, vec![pair("d", "4"), pair("e", "5")]);
}

#[test]
fn store_is_within_its_limits_whatever_it_starts_from() {
    let documents = [
        document("", &[]),
        document("12345", &[("a", "1"), ("b", "2")]),
        document("123456", &[]),
        document("", &[("a", "1"), ("b", "2"), ("c", "3")]),
        document("a long summary", &[("a", "1"), ("a", "2"), ("b", "3"), ("c", "4")]),
    ];
    for persisted in documents {
        let mut store = MemoryManager::new(enabled(5, 2), Some(persisted));
        let data = store.snapshot().unwrap();
        assert!(data.summary.chars().count() <= 5);
        assert!(data.kv_store.len() <= 2);

        let _ = store.set_fact("x", "1");
        let _ = store.set_fact("y", "2");
        let _ = store.set_fact("z", "3");
        store.update_summary("and more text").unwrap();
        let data = store.snapshot().unwrap();
        assert!(data.summary.chars().count() <= 5);
        assert!(data.kv_store.len() <= 2);
    }
}

#[test]
fn document_with_a_repeated_key_is_passed_over() {
    let persisted = document("s", &[("a", "1"), ("b", "2"), ("a", "3")]);
    let store = MemoryManager::new(enabled(1000, 50), Some(persisted));
    let data = store.snapshot().unwrap();
    assert_eq!(data.summary, "");
    assert!(data.kv_store.is_empty());
}

#[test]
fn snapshot_is_the_whole_state() {
    let mut store = MemoryManager::new(enabled(1000, 50), None);
    let empty = store.snapshot().unwrap();
    assert_eq!(empty.summary, "");
    assert!(empty.kv_store.is_empty());

    store.update_summary("s").unwrap();
    store.set_fact("k", "v").unwrap();
    let data = store.snapshot().unwrap();
    assert_eq!(data.summary, "s");
    assert_eq!(data.kv_store, vec![pair("k", "v")]);

    let reloaded = MemoryManager::new(enabled(1000, 50), Some(data));
    assert_eq!(reloaded.get_injection_text(), store.get_injection_text());
}
