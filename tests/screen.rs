use liz::error::Error;
use liz::hear::Hearer;
use liz::screen::App;
use liz::write::Text;

fn seg(text: &str, start: i64, stop: i64) -> Text {
    Text { text: text.to_string(), start, stop }
}

#[test]
fn empty_transcription_keeps_boundary_at_zero() {
    let mut app = App::new();
    app.add_text(Vec::new());
    assert_eq!(app.boundary_value(), 0);
    assert_eq!(app.segments_view().len(), 0);
    assert_eq!(app.clipboard_text(), "");
}

#[test]
fn two_runs_move_boundary_to_previous_end() {
    let mut app = App::new();
    app.add_text(vec![seg("hello", 0, 100)]);
    assert_eq!(app.boundary_value(), 0);
    assert!(app.is_new(&seg("hello", 0, 100)));
    app.add_text(vec![seg("hello", 0, 100), seg("world", 100, 250)]);
    assert_eq!(app.boundary_value(), 100);
    let segs = app.segments_view();
    assert_eq!(segs.len(), 2);
    assert!(!app.is_new(&segs[0]));
    assert!(app.is_new(&segs[1]));
}

#[test]
fn boundary_does_not_move_back_over_growing_runs() {
    let mut app = App::new();
    app.add_text(vec![seg("a", 0, 50)]);
    let b1 = app.boundary_value();
    app.add_text(vec![seg("a", 0, 50), seg("b", 50, 90)]);
    let b2 = app.boundary_value();
    app.add_text(vec![seg("a", 0, 50), seg("b", 50, 120)]);
    let b3 = app.boundary_value();
    assert!(b1 <= b2 && b2 <= b3);
    assert_eq!((b1, b2, b3), (0, 50, 90));
}

#[test]
fn clipboard_joins_texts_with_spaces() {
    let mut app = App::new();
    app.add_text(vec![seg("a", 0, 1), seg("b", 1, 2)]);
    assert_eq!(app.clipboard_text(), "a b");
    app.add_text(vec![seg("only", 0, 1)]);
    assert_eq!(app.clipboard_text(), "only");
}

#[test]
fn classification_at_the_boundary() {
    let mut app = App::new();
    app.add_text(vec![seg("x", 0, 100)]);
    app.add_text(vec![seg("x", 0, 100)]);
    assert_eq!(app.boundary_value(), 100);
    assert!(!app.is_new(&seg("before", 0, 90)));
    assert!(!app.is_new(&seg("ends on it", 50, 100)));
    assert!(!app.is_new(&seg("straddles", 90, 150)));
    assert!(app.is_new(&seg("starts on it", 100, 150)));
    assert!(app.is_new(&seg("after", 120, 150)));
}

#[test]
fn notifications_are_lines() {
    let mut app = App::new();
    app.add_notification("Started text generation");
    app.add_notification("Stopped text generation");
    assert_eq!(
        app.notifications_text(),
        "Started text generation\nStopped text generation\n"
    );
}

#[test]
fn loader_cycles_only_while_running() {
    let mut app = App::new();
    app.update_loader();
    assert_eq!(app.get_loader_text(), "");
    app.start();
    assert!(app.is_running());
    let mut seen = Vec::new();
    for _ in 0..5 {
        app.update_loader();
        seen.push(app.get_loader_text().to_string());
    }
    assert_eq!(seen, vec![".", "..", "...", "", "."]);
    app.stop();
    assert!(!app.is_running());
    app.update_loader();
    assert_eq!(app.get_loader_text(), ".");
    app.reset_loader();
    assert_eq!(app.get_loader_text(), "");
}

#[test]
fn toggle_starts_then_stops_with_transcription() {
    let mut app = App::new();
    let mut hearer = Hearer::new();
    let r = app.toggle(&mut hearer, |_s: &[u32], _| Ok(Vec::new()));
    assert_eq!(r, Ok(()));
    assert!(app.is_running());
    assert!(hearer.started_at().is_some());
    hearer.write_input_data(&[1, 2, 3]);
    let r = app.toggle(&mut hearer, |s: &[u32], _| {
        Ok(vec![seg("hello", 0, 100 * s.len() as i64)])
    });
    assert_eq!(r, Ok(()));
    assert!(!app.is_running());
    assert_eq!(app.boundary_value(), 0);
    assert_eq!(app.segments_view()[0].stop, 300);
    assert_eq!(hearer.snapshot(), &[1, 2, 3]);
    assert_eq!(hearer.started_at(), None);
    assert_eq!(hearer.stop_without_callback(), Err(Error::AlreadyStopped));
}

#[test]
fn toggle_failure_leaves_session_unchanged() {
    let mut app = App::new();
    let mut hearer = Hearer::new();
    app.toggle(&mut hearer, |_s: &[u32], _| Ok(Vec::new())).unwrap();
    app.update_loader();
    let r = app.toggle(&mut hearer, |_s: &[u32], _| Err(Error::Inference));
    assert_eq!(r, Err(Error::Inference));
    assert!(app.is_running());
    assert_eq!(app.get_loader_text(), ".");
    assert_eq!(app.segments_view().len(), 0);
    assert!(hearer.started_at().is_some());
    let r = app.toggle(&mut hearer, |_s: &[u32], _| Ok(vec![seg("retry", 0, 10)]));
    assert_eq!(r, Ok(()));
    assert!(!app.is_running());
    assert_eq!(app.clipboard_text(), "retry");
    assert_eq!(hearer.started_at(), None);
}

#[test]
fn toggle_stop_without_recording_hearer_fails() {
    let mut app = App::new();
    let mut hearer = Hearer::new();
    app.start();
    let r = app.toggle(&mut hearer, |_s: &[u32], _| Ok(vec![seg("x", 0, 1)]));
    assert_eq!(r, Err(Error::AlreadyStopped));
    assert!(app.is_running());
    assert_eq!(app.segments_view().len(), 0);
}
