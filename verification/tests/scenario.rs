//! One full session: construct over three files, step forward past the end,
//! step back, ignore an unfocused event, exit.

use quicknav::files::{build_list, FileLoc};
use quicknav::nav::{preview_app_id, App, Effect};

const RAW_P: u16 = 35;
const RAW_N: u16 = 45;
const RAW_Q: u16 = 12;

#[test]
fn three_file_session() {
    let entries = vec![
        FileLoc { name: "a.pdf".to_string(), path: "/abs/a.pdf".to_string() },
        FileLoc { name: "b.pdf".to_string(), path: "/abs/b.pdf".to_string() },
        FileLoc { name: "c.pdf".to_string(), path: "/abs/c.pdf".to_string() },
    ];
    let list = build_list(entries, &vec![true, true, true]).unwrap_or_else(|_| panic!("valid list"));

    let (mut app, effects) = App::new(list);
    assert_eq!(app.cursor, 0);
    assert_eq!(effects, vec![Effect::LaunchPreview(0)]);
    assert_eq!(app.path_at(0).name, "a.pdf");

    let fg = preview_app_id();

    // Focused Next: a.pdf is terminated, b.pdf launched.
    let (consumed, effects) = app.handle(RAW_N, &fg);
    assert!(consumed);
    assert_eq!(app.cursor, 1);
    assert_eq!(effects, vec![Effect::TerminatePreview, Effect::LaunchPreview(1)]);
    assert_eq!(app.current_path().name, "b.pdf");

    // Focused Next twice more: the cursor clamps at 2, the second is a no-op.
    let (_, effects) = app.handle(RAW_N, &fg);
    assert_eq!(app.cursor, 2);
    assert_eq!(effects, vec![Effect::TerminatePreview, Effect::LaunchPreview(2)]);
    let (consumed, effects) = app.handle(RAW_N, &fg);
    assert!(consumed);
    assert_eq!(app.cursor, 2);
    assert_eq!(effects, Vec::new());

    // Focused Prev: back to b.pdf.
    let (_, effects) = app.handle(RAW_P, &fg);
    assert_eq!(app.cursor, 1);
    assert_eq!(effects, vec![Effect::TerminatePreview, Effect::LaunchPreview(1)]);

    // Unfocused Next: passes through, cursor stays.
    let (consumed, effects) = app.handle(RAW_N, &"org.example.other".to_string());
    assert!(!consumed);
    assert_eq!(effects, Vec::new());
    assert_eq!(app.cursor, 1);

    // Focused Exit: the preview of b.pdf is terminated, the session ends.
    let (consumed, effects) = app.handle(RAW_Q, &fg);
    assert!(consumed);
    assert!(app.exited);
    assert_eq!(effects, vec![Effect::TerminatePreview, Effect::Shutdown]);
}
