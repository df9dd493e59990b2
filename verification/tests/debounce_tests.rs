use transit_tui::debounce::DebounceEngine;
use transit_tui::input::InputBuffer;

#[test]
fn rapid_edits_within_cooldown_coalesce_to_one_dispatch() {
    // Scenario: "" -> "K" -> "Ke" typed within one time unit, cooldown one
    // unit: exactly one search goes out, and it carries "Ke".
    let mut engine = DebounceEngine::new(1);
    let mut input = InputBuffer::new();

    input.push('K');
    engine.signal();
    input.push('e');
    engine.signal();

    assert_eq!(input.text(), "Ke");
    let first = engine.try_dispatch(0, input.text());
    assert!(first, "the pending edit dispatches at once");

    // Still inside the cooldown window: no further dispatch, even though
    // another edit signal arrives.
    engine.signal();
    assert!(!engine.try_dispatch(0, input.text()));

    // Once the cooldown has elapsed the pending signal dispatches again.
    assert!(engine.try_dispatch(1, input.text()));
}

#[test]
fn no_dispatch_without_a_signal() {
    let mut engine = DebounceEngine::new(1);
    let input = InputBuffer::new();
    assert!(!engine.try_dispatch(0, input.text()));
    assert!(!engine.try_dispatch(100, input.text()));
}

#[test]
fn dispatch_reads_the_latest_text_not_an_intermediate_one() {
    let mut engine = DebounceEngine::new(1);
    let mut input = InputBuffer::new();
    input.push('K');
    engine.signal();
    // The signal for "K" is still pending when the text grows to "Kera";
    // the dispatch that finally runs sees the buffer as it stands now.
    input.push('e');
    engine.signal();
    input.push('r');
    engine.signal();
    input.push('a');
    engine.signal();
    let text_at_dispatch = input.text().clone();
    assert!(engine.try_dispatch(5, &text_at_dispatch));
    assert_eq!(text_at_dispatch, "Kera");
}

#[test]
fn one_dispatch_per_cooldown_period() {
    let mut engine = DebounceEngine::new(10);
    let mut input = InputBuffer::new();
    let mut dispatches = 0;
    for t in 0..30u64 {
        input.push('x');
        engine.signal();
        if engine.try_dispatch(t, input.text()) {
            dispatches += 1;
        }
    }
    // Dispatches at t = 0, 10, 20 only.
    assert_eq!(dispatches, 3);
}

#[test]
fn backspace_edits_signal_too() {
    let mut engine = DebounceEngine::new(1);
    let mut input = InputBuffer::new();
    input.push('K');
    engine.signal();
    assert!(engine.try_dispatch(0, input.text()));
    input.backspace();
    engine.signal();
    assert_eq!(input.text(), "");
    assert!(engine.try_dispatch(1, input.text()));
}

#[test]
fn backspace_on_empty_buffer_keeps_it_empty() {
    let mut input = InputBuffer::new();
    input.backspace();
    assert_eq!(input.text(), "");
    input.push('a');
    input.backspace();
    assert_eq!(input.text(), "");
}
