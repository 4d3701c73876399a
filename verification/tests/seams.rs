//! The two platform seams, exercised the way a platform layer implements
//! them: an event handle that reports the pressed key, and a string handle
//! that hands its identifier text through.

use quicknav::keys::{resolve, CGEventExt, KeyCode};
use quicknav::nav::CFStringExt;

struct FakeEvent(u16);

impl CGEventExt for FakeEvent {
    fn key_code(&self) -> KeyCode {
        resolve(self.0)
    }
}

struct FixedId(&'static str);

impl CFStringExt for FixedId {
    fn as_str(&self) -> &'static str {
        self.0
    }
}

#[test]
fn event_seam_reports_the_symbolic_key() {
    assert_eq!(FakeEvent(45).key_code(), KeyCode::N);
    assert_eq!(FakeEvent(35).key_code(), KeyCode::P);
    assert_eq!(FakeEvent(3).key_code(), KeyCode::Unrecognized);
}

#[test]
fn string_seam_hands_the_identifier_text_through() {
    let id = FixedId("com.apple.quicklook.qlmanage");
    assert_eq!(id.as_str(), "com.apple.quicklook.qlmanage");
}
