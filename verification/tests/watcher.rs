use image_transfer::watcher::{
    WatchSignal, WatchStep, Watcher, NATIVE_SCRIPT_DIR, NATIVE_SCRIPT_EXTENSION,
    NORMAL_SCRIPT_FLUSH_MS, PY_SCRIPT_DIR, PY_SCRIPT_EXTENSION, PY_SCRIPT_FLUSH_MS, TIME_SLICE_MS,
};

fn strings(items: &[&str]) -> Vec<String> {
    items.iter().map(|s| s.to_string()).collect()
}

#[test]
fn defaults_are_one_second_and_a_tenth() {
    assert_eq!(PY_SCRIPT_FLUSH_MS, 1000);
    assert_eq!(NORMAL_SCRIPT_FLUSH_MS, 1000);
    assert_eq!(TIME_SLICE_MS, 100);
}

#[test]
fn the_two_kinds_of_script_have_their_directories_and_extensions() {
    assert_eq!(PY_SCRIPT_DIR, "./pyscripts");
    assert_eq!(NATIVE_SCRIPT_DIR, "./nativescripts");
    assert_eq!(PY_SCRIPT_EXTENSION, "py");
    assert_eq!(NATIVE_SCRIPT_EXTENSION, "rs");
    let entries = strings(&["b.rs", "a.py", "a.rs", "c.py"]);
    let py = Watcher::for_py_scripts();
    assert_eq!(py.interval_ms(), 1000);
    assert_eq!(py.elapsed_ms(), 0);
    assert_eq!(py.listing(Some(entries.clone())), strings(&["a.py", "c.py"]));
    let native = Watcher::for_native_scripts();
    assert_eq!(native.interval_ms(), 1000);
    assert_eq!(native.listing(Some(entries)), strings(&["a.rs", "b.rs"]));
}

#[test]
fn a_reading_of_the_control_channel_is_one_of_three_signals() {
    assert_eq!(WatchSignal::of_reading(true, false), WatchSignal::Flush);
    assert_eq!(WatchSignal::of_reading(true, true), WatchSignal::Flush);
    assert_eq!(WatchSignal::of_reading(false, true), WatchSignal::Closed);
    assert_eq!(WatchSignal::of_reading(false, false), WatchSignal::Quiet);
}

#[test]
fn a_new_watcher_has_accumulated_nothing() {
    let watcher = Watcher::new("py".to_string(), 1000);
    assert_eq!(watcher.elapsed_ms(), 0);
    assert_eq!(watcher.interval_ms(), 1000);
}

#[test]
fn the_tenth_tick_is_the_first_that_is_due() {
    let mut watcher = Watcher::new("py".to_string(), PY_SCRIPT_FLUSH_MS);
    for n in 1..=9u64 {
        assert!(!watcher.tick(TIME_SLICE_MS), "tick {}", n);
        assert_eq!(watcher.elapsed_ms(), n * 100);
    }
    assert!(watcher.tick(TIME_SLICE_MS));
    assert_eq!(watcher.elapsed_ms(), 0);
}

#[test]
fn after_a_listing_the_count_starts_again() {
    let mut watcher = Watcher::new("py".to_string(), 1000);
    for round in 0..3 {
        for n in 1..=9 {
            assert!(!watcher.tick(100), "round {} tick {}", round, n);
        }
        assert!(watcher.tick(100), "round {}", round);
    }
}

#[test]
fn poll_answers_on_exactly_the_tenth_tick() {
    let mut watcher = Watcher::new("py".to_string(), 1000);
    for n in 1..=9 {
        let listing = watcher.poll(100, Some(strings(&["a.py", "c.py", "b.py"])));
        assert_eq!(listing, None, "tick {}", n);
    }
    let listing = watcher.poll(100, Some(strings(&["a.py", "c.py", "b.py"])));
    assert_eq!(listing, Some(strings(&["a.py", "b.py", "c.py"])));
    assert_eq!(watcher.elapsed_ms(), 0);
    assert_eq!(watcher.poll(100, Some(strings(&["a.py"]))), None);
}

#[test]
fn a_refresh_is_due_at_the_next_tick_and_empties_the_accumulator() {
    let mut watcher = Watcher::new("py".to_string(), 1000);
    assert!(!watcher.tick(100));
    assert!(!watcher.tick(100));
    assert!(!watcher.tick(100));
    assert_eq!(watcher.elapsed_ms(), 300);
    watcher.request_refresh();
    assert_eq!(watcher.elapsed_ms(), 300);
    assert!(watcher.tick(100));
    assert_eq!(watcher.elapsed_ms(), 0);
    for n in 1..=9 {
        assert!(!watcher.tick(100), "tick {}", n);
    }
    assert!(watcher.tick(100));
}

#[test]
fn a_refresh_is_used_up_by_one_tick() {
    let mut watcher = Watcher::new("py".to_string(), 1000);
    watcher.request_refresh();
    watcher.request_refresh();
    assert!(watcher.tick(100));
    assert!(!watcher.tick(100));
    assert_eq!(watcher.elapsed_ms(), 100);
}

#[test]
fn a_slice_that_reaches_the_interval_is_due() {
    let mut watcher = Watcher::new("py".to_string(), 250);
    assert!(!watcher.tick(100));
    assert!(!watcher.tick(100));
    assert!(watcher.tick(100));
    assert_eq!(watcher.elapsed_ms(), 0);
    assert!(watcher.tick(250));
    assert!(watcher.tick(u64::MAX));
    assert!(!watcher.tick(249));
    assert!(watcher.tick(u64::MAX));
    assert_eq!(watcher.elapsed_ms(), 0);
}

#[test]
fn an_interval_of_zero_is_always_due() {
    let mut watcher = Watcher::new("py".to_string(), 0);
    assert!(watcher.tick(0));
    assert!(watcher.tick(100));
    assert_eq!(watcher.elapsed_ms(), 0);
}

#[test]
fn a_slice_of_zero_accumulates_nothing() {
    let mut watcher = Watcher::new("py".to_string(), 1000);
    for _ in 0..50 {
        assert!(!watcher.tick(0));
    }
    assert_eq!(watcher.elapsed_ms(), 0);
}

#[test]
fn a_directory_that_cannot_be_read_lists_as_empty() {
    let watcher = Watcher::new("py".to_string(), 1000);
    assert_eq!(watcher.listing(None), Vec::<String>::new());
    let mut due = Watcher::new("py".to_string(), 100);
    assert_eq!(due.poll(100, None), Some(Vec::new()));
}

#[test]
fn a_listing_holds_the_watcher_s_extension_in_order() {
    let watcher = Watcher::new("rs".to_string(), 1000);
    let entries = strings(&["b.rs", "a.py", "a.rs", "main"]);
    assert_eq!(watcher.listing(Some(entries)), strings(&["a.rs", "b.rs"]));
}

#[test]
fn a_closed_channel_stops_the_loop() {
    let mut watcher = Watcher::new("py".to_string(), 1000);
    assert!(!watcher.tick(100));
    assert_eq!(watcher.step(WatchSignal::Closed, 100), WatchStep::Stop);
    assert_eq!(watcher.elapsed_ms(), 100);
}

#[test]
fn a_quiet_turn_waits_until_the_interval_is_reached() {
    let mut watcher = Watcher::new("py".to_string(), 300);
    assert_eq!(watcher.step(WatchSignal::Quiet, 100), WatchStep::Wait);
    assert_eq!(watcher.step(WatchSignal::Quiet, 100), WatchStep::Wait);
    assert_eq!(watcher.step(WatchSignal::Quiet, 100), WatchStep::List);
    assert_eq!(watcher.elapsed_ms(), 0);
}

#[test]
fn a_flush_lists_at_once() {
    let mut watcher = Watcher::new("py".to_string(), 1000);
    assert_eq!(watcher.step(WatchSignal::Quiet, 100), WatchStep::Wait);
    assert_eq!(watcher.step(WatchSignal::Flush, 100), WatchStep::List);
    assert_eq!(watcher.elapsed_ms(), 0);
    assert_eq!(watcher.step(WatchSignal::Quiet, 100), WatchStep::Wait);
}
