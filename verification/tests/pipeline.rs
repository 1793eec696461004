use graphql_console::interaction::Key;
use graphql_console::pipeline::{Event, EventPipeline, TICK_INTERVAL};

const MS: u128 = 1_000_000;

#[test]
fn tick_interval_is_200_ms() {
    assert_eq!(TICK_INTERVAL, 200_000_000);
}

#[test]
fn timeout_is_what_is_left_of_the_interval() {
    let pipeline = EventPipeline::new(1_000 * MS);
    assert_eq!(pipeline.poll_timeout(1_000 * MS), 200_000_000);
    assert_eq!(pipeline.poll_timeout(1_050 * MS), 150_000_000);
    assert_eq!(pipeline.poll_timeout(1_199 * MS), 1_000_000);
    assert_eq!(pipeline.poll_timeout(1_200 * MS - 1), 1);
}

#[test]
fn timeout_is_zero_once_the_interval_has_run_out() {
    let pipeline = EventPipeline::new(0);
    assert_eq!(pipeline.poll_timeout(200 * MS), 0);
    assert_eq!(pipeline.poll_timeout(5_000 * MS), 0);
    assert_eq!(pipeline.poll_timeout(u128::MAX), 0);
}

#[test]
fn clock_reading_before_the_last_tick_counts_as_no_time() {
    let mut pipeline = EventPipeline::new(500 * MS);
    assert_eq!(pipeline.poll_timeout(100 * MS), 200_000_000);
    let events = pipeline.after_poll::<Key>(None, 100 * MS);
    assert!(events.is_empty());
}

#[test]
fn key_inside_the_interval_is_sent_alone() {
    let mut pipeline = EventPipeline::new(0);
    let events = pipeline.after_poll(Some(Key::Char('a')), 199 * MS);
    assert_eq!(events, vec![Event::Input(Key::Char('a'))]);
    assert_eq!(pipeline.poll_timeout(199 * MS), 1_000_000);
}

#[test]
fn key_does_not_reset_the_tick() {
    let mut pipeline = EventPipeline::new(0);
    pipeline.after_poll(Some(Key::Char('a')), 150 * MS);
    assert_eq!(pipeline.poll_timeout(160 * MS), 40_000_000);
}

#[test]
fn tick_is_sent_when_the_interval_has_passed() {
    let mut pipeline = EventPipeline::new(0);
    let events = pipeline.after_poll::<Key>(None, 200 * MS);
    assert_eq!(events, vec![Event::Tick]);
}

#[test]
fn no_tick_one_nanosecond_early() {
    let mut pipeline = EventPipeline::new(0);
    let events = pipeline.after_poll::<Key>(None, 200 * MS - 1);
    assert_eq!(events, Vec::<Event<Key>>::new());
}

#[test]
fn tick_resets_the_interval_to_now() {
    let mut pipeline = EventPipeline::new(0);
    pipeline.after_poll::<Key>(None, 230 * MS);
    assert_eq!(pipeline.poll_timeout(230 * MS), 200_000_000);
    assert_eq!(pipeline.poll_timeout(330 * MS), 100_000_000);
    let events = pipeline.after_poll::<Key>(None, 429 * MS);
    assert!(events.is_empty());
    let events = pipeline.after_poll::<Key>(None, 430 * MS);
    assert_eq!(events, vec![Event::Tick]);
}

#[test]
fn key_comes_before_the_tick_of_the_same_poll() {
    let mut pipeline = EventPipeline::new(0);
    let events = pipeline.after_poll(Some(Key::Esc), 250 * MS);
    assert_eq!(events, vec![Event::Input(Key::Esc), Event::Tick]);
}

#[test]
fn two_keys_within_two_intervals_keep_their_order() {
    let mut pipeline = EventPipeline::new(0);
    let mut stream: Vec<Event<Key>> = Vec::new();
    stream.extend(pipeline.after_poll(Some(Key::Char('1')), 120 * MS));
    stream.extend(pipeline.after_poll(None, 200 * MS));
    stream.extend(pipeline.after_poll(Some(Key::Char('2')), 390 * MS));
    assert_eq!(
        stream,
        vec![Event::Input(Key::Char('1')), Event::Tick, Event::Input(Key::Char('2'))]
    );
    let inputs: Vec<Key> = stream
        .iter()
        .filter_map(|event| match event {
            Event::Input(key) => Some(*key),
            Event::Tick => None,
        })
        .collect();
    assert_eq!(inputs, vec![Key::Char('1'), Key::Char('2')]);
}

#[test]
fn inputs_are_neither_dropped_nor_repeated_over_a_long_run() {
    let mut pipeline = EventPipeline::new(0);
    let mut inputs: Vec<u32> = Vec::new();
    let mut ticks = 0;
    for step in 0..100u32 {
        let now = u128::from(step) * 70 * MS;
        let input = if step % 3 == 0 { None } else { Some(step) };
        for event in pipeline.after_poll(input, now) {
            match event {
                Event::Input(key) => inputs.push(key),
                Event::Tick => ticks += 1,
            }
        }
    }
    let expected: Vec<u32> = (0..100u32).filter(|step| step % 3 != 0).collect();
    assert_eq!(inputs, expected);
    assert_eq!(ticks, 33);
}

#[test]
fn poll_that_waits_out_its_timeout_meets_a_tick() {
    let mut pipeline = EventPipeline::new(40 * MS);
    let now = 90 * MS;
    let timeout = u128::from(pipeline.poll_timeout(now));
    let events = pipeline.after_poll::<Key>(None, now + timeout);
    assert_eq!(events, vec![Event::Tick]);
}
