use marshmallow_fm::backend::Backend;
use marshmallow_fm::events::{
    consumed, find_quit, is_quit, poll, resize_of, window_events, GridSize, InputEvent, Key,
    PollOutcome, WindowEvent,
};
use marshmallow_fm::surface::SurfaceError;

fn backend(columns: u16, rows: u16) -> Backend {
    Backend::new("terminal", (1280, 720), GridSize { columns, rows }).expect("a small grid fits")
}

#[test]
fn quit_short_circuits_the_batch() {
    let batch = vec![
        InputEvent::Resize(100, 40),
        InputEvent::Key(Key::Esc),
        InputEvent::Key(Key::Other),
    ];
    assert_eq!(poll(&batch), PollOutcome::Quit);
    let mut b = backend(80, 24);
    let events = b.poll_events(&batch).unwrap();
    assert_eq!(events, vec![WindowEvent::Quit]);
    // The resize went with the rest of the batch.
    assert_eq!(b.resolution(), (80, 24));
    assert_eq!(b.read_pixels().1, (80, 24));
}

#[test]
fn quit_wins_wherever_it_stands() {
    let first = vec![InputEvent::Key(Key::Esc), InputEvent::Resize(3, 3)];
    let last = vec![InputEvent::Other, InputEvent::Resize(3, 3), InputEvent::Key(Key::Esc)];
    let alone = vec![InputEvent::Key(Key::Esc)];
    for batch in [first, last, alone] {
        let mut b = backend(5, 5);
        assert_eq!(b.poll_events(&batch).unwrap(), vec![WindowEvent::Quit]);
        assert_eq!(b.resolution(), (5, 5));
    }
}

#[test]
fn no_event_requests_a_redraw() {
    let mut b = backend(80, 24);
    assert_eq!(poll(&Vec::new()), PollOutcome::Redraw { resize: None });
    assert_eq!(b.poll_events(&Vec::new()).unwrap(), vec![WindowEvent::RequestRedraw]);
    assert_eq!(b.resolution(), (80, 24));
}

#[test]
fn resize_is_recorded_and_read_back() {
    let mut b = backend(80, 24);
    let events = b.poll_events(&vec![InputEvent::Resize(120, 50)]).unwrap();
    assert_eq!(events, vec![WindowEvent::RequestRedraw]);
    assert_eq!(b.resolution(), (120, 50));
    let (pixels, size) = b.read_pixels();
    assert_eq!(size, (120, 50));
    assert_eq!((pixels.width(), pixels.height()), (120, 50));
    assert_eq!(pixels.bytes().len(), 120 * 50 * 4);
    assert!(pixels.bytes().iter().all(|byte| *byte == 0));
}

#[test]
fn direct_resize_is_recorded_and_read_back() {
    let mut b = backend(2, 2);
    assert_eq!(b.resize((7, 3)), Ok(()));
    assert_eq!(b.resolution(), (7, 3));
    let (pixels, size) = b.read_pixels();
    assert_eq!(size, (7, 3));
    assert_eq!((pixels.width(), pixels.height()), (7, 3));
    assert_eq!(pixels.bytes().len(), 84);
}

#[test]
fn resize_that_does_not_fit_changes_nothing() {
    let mut b = backend(2, 2);
    assert_eq!(b.resize((usize::MAX, 2)), Err(SurfaceError::TooLarge));
    assert_eq!(b.resolution(), (2, 2));
    assert_eq!(b.read_pixels().1, (2, 2));
}

#[test]
fn only_the_oldest_event_is_handled() {
    // A resize behind another event waits for a later poll.
    let batch = vec![InputEvent::Other, InputEvent::Resize(7, 7)];
    assert_eq!(poll(&batch), PollOutcome::Redraw { resize: None });
    assert_eq!(consumed(&batch), 1);
    let mut b = backend(5, 5);
    assert_eq!(b.poll_events(&batch).unwrap(), vec![WindowEvent::RequestRedraw]);
    assert_eq!(b.resolution(), (5, 5));
    assert_eq!(b.read_pixels().1, (5, 5));

    // Of two resizes the older one is applied.
    let batch = vec![
        InputEvent::Resize(10, 10),
        InputEvent::Other,
        InputEvent::Resize(20, 5),
        InputEvent::Key(Key::Other),
    ];
    assert_eq!(
        poll(&batch),
        PollOutcome::Redraw { resize: Some(GridSize { columns: 10, rows: 10 }) }
    );
    assert_eq!(consumed(&batch), 1);
    let mut b = backend(80, 24);
    assert_eq!(b.poll_events(&batch).unwrap(), vec![WindowEvent::RequestRedraw]);
    assert_eq!(b.resolution(), (10, 10));
}

#[test]
fn queued_events_are_handled_one_poll_at_a_time() {
    let mut queue = vec![
        InputEvent::Other,
        InputEvent::Resize(7, 7),
        InputEvent::Key(Key::Other),
        InputEvent::Resize(9, 3),
    ];
    let mut b = backend(5, 5);
    let mut sizes = Vec::new();
    while !queue.is_empty() {
        let used = consumed(&queue);
        assert_eq!(used, 1);
        assert_eq!(b.poll_events(&queue).unwrap(), vec![WindowEvent::RequestRedraw]);
        queue.drain(..used);
        sizes.push(b.resolution());
    }
    assert_eq!(sizes, vec![(5, 5), (7, 7), (7, 7), (9, 3)]);
    assert_eq!(consumed(&queue), 0);
    assert_eq!(b.poll_events(&queue).unwrap(), vec![WindowEvent::RequestRedraw]);
    assert_eq!(b.resolution(), (9, 3));
}

#[test]
fn quit_uses_up_the_whole_batch() {
    let batch = vec![
        InputEvent::Resize(100, 40),
        InputEvent::Key(Key::Esc),
        InputEvent::Key(Key::Other),
    ];
    assert_eq!(consumed(&batch), 3);
    assert!(find_quit(&batch));
    assert_eq!(consumed(&vec![InputEvent::Key(Key::Esc)]), 1);
    assert_eq!(consumed(&vec![InputEvent::Key(Key::Other)]), 1);
    assert!(!find_quit(&vec![InputEvent::Key(Key::Other), InputEvent::Resize(1, 1)]));
    assert_eq!(consumed(&Vec::new()), 0);
    assert!(!find_quit(&Vec::new()));
}

#[test]
fn only_a_resize_announces_a_size() {
    assert_eq!(
        resize_of(&InputEvent::Resize(3, 4)),
        Some(GridSize { columns: 3, rows: 4 })
    );
    assert_eq!(resize_of(&InputEvent::Other), None);
    assert_eq!(resize_of(&InputEvent::Key(Key::Esc)), None);
    assert_eq!(resize_of(&InputEvent::Key(Key::Other)), None);
}

#[test]
fn other_events_are_ignored() {
    let batch = vec![InputEvent::Other, InputEvent::Key(Key::Other), InputEvent::Other];
    assert_eq!(poll(&batch), PollOutcome::Redraw { resize: None });
    let mut b = backend(9, 9);
    assert_eq!(b.poll_events(&batch).unwrap(), vec![WindowEvent::RequestRedraw]);
    assert_eq!(b.resolution(), (9, 9));
}

#[test]
fn only_escape_is_the_quit_key() {
    assert!(is_quit(&InputEvent::Key(Key::Esc)));
    assert!(!is_quit(&InputEvent::Key(Key::Other)));
    assert!(!is_quit(&InputEvent::Other));
    assert!(!is_quit(&InputEvent::Resize(1, 1)));
}

#[test]
fn every_outcome_reports_one_event() {
    assert_eq!(window_events(PollOutcome::Quit), vec![WindowEvent::Quit]);
    assert_eq!(
        window_events(PollOutcome::Redraw { resize: None }),
        vec![WindowEvent::RequestRedraw]
    );
    assert_eq!(
        window_events(PollOutcome::Redraw { resize: Some(GridSize { columns: 1, rows: 2 }) }),
        vec![WindowEvent::RequestRedraw]
    );
}

#[test]
fn poll_waits_one_frame_interval() {
    assert_eq!(backend(1, 1).poll_timeout_nanos(), 16_666_666);
}
