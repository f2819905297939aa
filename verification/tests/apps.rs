use aether_agent::apps::calculator::CalculatorDisplay;
use aether_agent::apps::manifest::{check_manifest_fields, AppManifestError};
use aether_agent::apps::notes::{first_visible_line, NotesBuffer};
use aether_agent::apps::surface::{decode_surface_event, rect_from_reply, Rect, SurfaceEvent};

#[test]
fn calculator_starts_at_zero_and_replaces_it() {
    let mut d = CalculatorDisplay::new();
    assert_eq!(d.text(), "0");
    assert!(d.apply(SurfaceEvent::Key('7')));
    assert_eq!(d.text(), "7");
    assert!(d.apply(SurfaceEvent::Key('+')));
    assert!(d.apply(SurfaceEvent::Key('0')));
    assert_eq!(d.text(), "7+0");
}

#[test]
fn calculator_backspace_falls_back_to_zero() {
    let mut d = CalculatorDisplay::new();
    d.apply(SurfaceEvent::Key('4'));
    d.apply(SurfaceEvent::Key('2'));
    d.apply(SurfaceEvent::Backspace);
    assert_eq!(d.text(), "4");
    d.apply(SurfaceEvent::Backspace);
    assert_eq!(d.text(), "0");
    d.apply(SurfaceEvent::Backspace);
    assert_eq!(d.text(), "0");
}

#[test]
fn calculator_enter_resets_and_close_ends() {
    let mut d = CalculatorDisplay::new();
    d.apply(SurfaceEvent::Key('9'));
    assert!(d.apply(SurfaceEvent::Enter));
    assert_eq!(d.text(), "0");
    d.apply(SurfaceEvent::Key('5'));
    assert!(!d.apply(SurfaceEvent::CloseRequested));
    assert_eq!(d.text(), "5");
}

#[test]
fn calculator_shows_last_nine_reversed() {
    let mut d = CalculatorDisplay::new();
    for c in "1234567890AB".chars() {
        d.apply(SurfaceEvent::Key(c));
    }
    assert_eq!(d.text(), "1234567890AB");
    assert_eq!(d.shown(), "BA0987654");
    let short = CalculatorDisplay::new();
    assert_eq!(short.shown(), "0");
}

#[test]
fn notes_start_with_one_empty_line() {
    let b = NotesBuffer::new();
    assert_eq!(b.line_count(), 1);
    assert_eq!(b.lines(), vec![String::new()]);
}

#[test]
fn notes_typing_enter_and_backspace() {
    let mut b = NotesBuffer::new();
    for c in "hi".chars() {
        assert!(b.apply(SurfaceEvent::Key(c)));
    }
    assert!(b.apply(SurfaceEvent::Enter));
    b.apply(SurfaceEvent::Key('x'));
    b.apply(SurfaceEvent::Key('y'));
    b.apply(SurfaceEvent::Backspace);
    assert_eq!(b.lines(), vec!["hi".to_string(), "x".to_string()]);
    b.apply(SurfaceEvent::Backspace);
    b.apply(SurfaceEvent::Backspace);
    assert_eq!(b.lines(), vec!["hi".to_string(), String::new()]);
    assert!(!b.apply(SurfaceEvent::CloseRequested));
    assert_eq!(b.line_count(), 2);
}

#[test]
fn notes_wrap_after_thirty_one_characters() {
    let mut b = NotesBuffer::new();
    for _ in 0..31 {
        b.apply(SurfaceEvent::Key('a'));
    }
    assert_eq!(b.line_count(), 1);
    b.apply(SurfaceEvent::Key('b'));
    assert_eq!(b.lines(), vec!["a".repeat(31), "b".to_string()]);
}

#[test]
fn notes_show_the_newest_lines() {
    // 360 - 90 = 270 pixels hold 11 lines.
    assert_eq!(first_visible_line(20, 360), 9);
    assert_eq!(first_visible_line(5, 360), 0);
    assert_eq!(first_visible_line(3, 80), 3);
    assert_eq!(first_visible_line(0, 0), 0);
}

#[test]
fn surface_events_decode() {
    assert_eq!(decode_surface_event(Some("close"), ""), Some(SurfaceEvent::CloseRequested));
    assert_eq!(decode_surface_event(Some("key"), "\n"), Some(SurfaceEvent::Enter));
    assert_eq!(decode_surface_event(Some("key"), "\u{8}"), Some(SurfaceEvent::Backspace));
    assert_eq!(decode_surface_event(Some("key"), "qz"), Some(SurfaceEvent::Key('q')));
    assert_eq!(decode_surface_event(Some("key"), ""), None);
    assert_eq!(decode_surface_event(Some("focus"), "a"), None);
    assert_eq!(decode_surface_event(None, "a"), None);
}

#[test]
fn surface_rect_sizes_at_least_one() {
    assert_eq!(rect_from_reply(10, 20, 400, 480), Rect { x: 10, y: 20, width: 400, height: 480 });
    assert_eq!(rect_from_reply(-5, 0, 0, -3), Rect { x: -5, y: 0, width: 1, height: 1 });
}

#[test]
fn manifest_fields_must_not_be_blank() {
    assert_eq!(check_manifest_fields("Terminal", "/opt/aether/bin/terminal"), Ok(()));
    assert_eq!(check_manifest_fields("  ", "/bin/x"), Err(AppManifestError::EmptyDisplayName));
    assert_eq!(check_manifest_fields("Notes", "\t"), Err(AppManifestError::EmptyCommand));
    assert_eq!(
        AppManifestError::EmptyCommand.to_string(),
        "application command must not be empty"
    );
}
