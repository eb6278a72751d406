use cubic::platform::SystemMock;
use cubic::view::{ConfirmDialog, Console, Spinner};
use std::time::Duration;

#[test]
fn test_confirm_accepts_y() {
    let mut system = SystemMock::new();
    system.push_input("y");
    let console = &mut Console::new(&mut system);
    assert!(ConfirmDialog::new("Proceed?").confirm(console));
}

#[test]
fn test_confirm_accepts_yes_case_insensitive() {
    let mut system = SystemMock::new();
    system.push_input("Yes");
    let console = &mut Console::new(&mut system);
    assert!(ConfirmDialog::new("Proceed?").confirm(console));
}

#[test]
fn test_confirm_rejects_empty_reply() {
    let mut system = SystemMock::new();
    system.push_input("");
    let console = &mut Console::new(&mut system);
    assert!(!ConfirmDialog::new("Proceed?").confirm(console));
}

#[test]
fn test_confirm_rejects_anything_else() {
    let mut system = SystemMock::new();
    system.push_input("n");
    let console = &mut Console::new(&mut system);
    assert!(!ConfirmDialog::new("Proceed?").confirm(console));
}

fn render_frame(text: &str, duration: Duration, width: usize) -> String {
    Spinner::render_frame(text, duration.as_millis(), width)
}

#[test]
fn test_frames() {
    let text = "Cloning foobar";
    let line_length = 25;

    let frame1 = render_frame(text, Duration::from_millis(0), line_length);
    assert_eq!(frame1.len(), line_length);
    assert_eq!(frame1, "* Cloning foobar -   0.0s");

    let frame2 = render_frame(text, Duration::from_millis(100), line_length);
    assert_eq!(frame2.len(), line_length);
    assert_eq!(frame2, "* Cloning foobar \\   0.1s");

    let frame3 = render_frame(text, Duration::from_millis(200), line_length);
    assert_eq!(frame3.len(), line_length);
    assert_eq!(frame3, "* Cloning foobar |   0.2s");

    let frame4 = render_frame(text, Duration::from_millis(300), line_length);
    assert_eq!(frame4.len(), line_length);
    assert_eq!(frame4, "* Cloning foobar /   0.3s");
}

#[test]
fn test_bullet_point() {
    let text = "Starting myinstance";
    let line_length = 30;

    let frame1 = render_frame(text, Duration::from_millis(0), line_length);
    assert_eq!(frame1.len(), line_length);
    assert_eq!(frame1, "* Starting myinstance -   0.0s");

    let frame2 = render_frame(text, Duration::from_millis(500), line_length);
    assert_eq!(frame2.len(), line_length);
    assert_eq!(frame2, "* Starting myinstance \\   0.5s");

    let frame3 = render_frame(text, Duration::from_millis(1000), line_length);
    assert_eq!(frame3.len(), line_length);
    assert_eq!(frame3, "  Starting myinstance |   1.0s");

    let frame4 = render_frame(text, Duration::from_millis(1500), line_length);
    assert_eq!(frame4.len(), line_length);
    assert_eq!(frame4, "  Starting myinstance /   1.5s");

    let frame5 = render_frame(text, Duration::from_millis(2000), line_length);
    assert_eq!(frame5.len(), line_length);
    assert_eq!(frame5, "* Starting myinstance -   2.0s");
}

#[test]
fn test_duration() {
    let text = "Stopping quickstart";
    let line_length = 35;

    let frame1 = render_frame(text, Duration::from_millis(1), line_length);
    assert_eq!(frame1, "* Stopping quickstart -        0.0s");

    let frame2 = render_frame(text, Duration::from_secs(1), line_length);
    assert_eq!(frame2, "  Stopping quickstart |        1.0s");

    let frame3 = render_frame(text, Duration::from_secs(60), line_length);
    assert_eq!(frame3, "* Stopping quickstart -    1m 00.0s");

    let frame4 = render_frame(text, Duration::from_millis(135432), line_length);
    assert_eq!(frame4, "  Stopping quickstart |    2m 15.4s");
}

#[test]
fn test_resize() {
    let text = "Cloning foobar";

    let frame1 = render_frame(text, Duration::from_millis(1342), 40);
    assert_eq!(frame1.len(), 40);
    assert_eq!(frame1, "  Cloning foobar \\                  1.3s");

    let frame2 = render_frame(text, Duration::from_millis(1342), 20);
    assert_eq!(frame2.len(), 20);
    assert_eq!(frame2, "  Cloning foobar \\ 1");

    let frame3 = render_frame(text, Duration::from_millis(1342), 10);
    assert_eq!(frame3.len(), 10);
    assert_eq!(frame3, "  Cloning ");

    let frame4 = render_frame(text, Duration::from_millis(1342), 5);
    assert_eq!(frame4.len(), 5);
    assert_eq!(frame4, "  Clo");

    let frame5 = render_frame(text, Duration::from_millis(1342), 0);
    assert_eq!(frame5.len(), 0);
}
