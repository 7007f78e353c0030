use web_scaffold::state::{AppState, run_increments};

#[test]
fn increments_return_consecutive_values() {
    let mut st = AppState::new(b"Dave".to_vec());
    let returned = run_increments(&mut st, 10);
    assert_eq!(st.counter, 10);
    assert_eq!(returned, (1..=10).collect::<Vec<i32>>());
}

#[test]
fn increments_cover_the_range_without_gaps_or_duplicates() {
    let mut st = AppState::new(b"Dave".to_vec());
    st.counter = 5;
    let mut returned = run_increments(&mut st, 4);
    assert_eq!(st.counter, 9);
    returned.sort();
    assert_eq!(returned, vec![6, 7, 8, 9]);
    let mut dedup = returned.clone();
    dedup.dedup();
    assert_eq!(dedup.len(), returned.len());
}

#[test]
fn increment_returns_new_value_and_keeps_name() {
    let mut st = AppState::new(b"Dave".to_vec());
    let v = st.increment();
    assert_eq!(v, 1);
    assert_eq!(st.counter, 1);
    assert_eq!(st.name, b"Dave".to_vec());
}
