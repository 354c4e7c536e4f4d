use urlfinder::state::State;

#[test]
fn insert_check_is_idempotent() {
    let mut st = State::new();
    let u = "http://t.test/page".to_string();
    assert!(st.add_visited_url(u.clone()));
    assert!(st.is_visited(&u));
    assert!(!st.add_visited_url(u.clone()));
    assert!(st.is_visited(&u));
    assert_eq!(st.get_visited_count(), 1);
}

#[test]
fn sets_are_independent() {
    let mut st = State::new();
    let u = "http://t.test/page".to_string();
    assert!(st.add_js_url(u.clone()));
    assert!(!st.is_visited(&u));
    assert!(st.is_js_visited(&u));
    assert!(!st.is_fuzz_visited(&u));
    assert!(st.add_visited_url(u.clone()));
    assert!(st.add_fuzz_url(u.clone()));
    assert_eq!(st.get_visited_count(), 1);
    assert_eq!(st.get_js_count(), 1);
    assert_eq!(st.get_fuzz_count(), 1);
}

#[test]
fn counts_grow_only_on_new_entries() {
    let mut st = State::new();
    st.add_visited_url("a".to_string());
    st.add_visited_url("b".to_string());
    st.add_visited_url("a".to_string());
    assert_eq!(st.get_visited_count(), 2);
    assert_eq!(st.get_js_count(), 0);
    assert_eq!(st.get_fuzz_count(), 0);
}
