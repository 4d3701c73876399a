//! The navigation state machine and the event gate.
//!
//! [`App`] owns the file list, the cursor and the liveness flag, and decides;
//! the platform layer performs. Each call of [`App::handle`] takes the raw
//! key code of one global key-down event together with the identifier of the
//! frontmost application, and returns the consume-or-pass-through verdict for
//! the event and the ordered list of [`Effect`]s the caller must carry out.
//! While the preview program is frontmost every key-down is consumed,
//! recognized or not; otherwise everything passes through untouched.

use vstd::prelude::*;

use crate::files::FileLoc;
use crate::keys::{action_of, resolve, Action};

verus! {

/// One process side effect the platform layer must perform, in the order
/// returned.
#[derive(Clone, Copy, PartialEq, Eq, Debug, Structural)]
pub enum Effect {
    /// Ask the live preview instance to stop.
    TerminatePreview,
    /// Start a preview of the file at this index of the list.
    LaunchPreview(usize),
    /// Open the file at this index with the platform default handler.
    LaunchOpen(usize),
    /// Tear the event tap down and end the program.
    Shutdown,
}

/// Bundle identifier of the external preview program. The event gate reacts
/// only while this application is frontmost.
pub open spec fn preview_app_id_spec() -> Seq<char> {
    "com.apple.quicklook.qlmanage"@
}

/// The preview program's bundle identifier as an owned string, for comparison
/// against the frontmost application reported by the platform.
pub fn preview_app_id() -> (r: String)
    ensures
        r@ == preview_app_id_spec(),
{
    "com.apple.quicklook.qlmanage".to_owned()
}

/// Implemented by the platform layer for its foreign string handles; yields
/// the identifier text, used to name the frontmost application.
pub trait CFStringExt {
    fn as_str(&self) -> &'static str;
}

/// Which neighbour of the cursor a navigation step aims at.
#[derive(Clone, Copy)]
enum Dir {
    Prev,
    Next,
}

/// The navigation state machine: the ordered file list, the cursor, and
/// whether the session has ended.
pub struct App {
    /// The validated, non-empty file list; never changed after construction.
    pub paths: Vec<FileLoc>,
    /// Index of the currently previewed file.
    pub cursor: usize,
    /// True once an exit action has been handled; no later event does
    /// anything.
    pub exited: bool,
}

impl App {
    /// The structural invariant: the list is non-empty and the cursor is a
    /// valid index into it.
    pub open spec fn wf(self) -> bool {
        &&& self.paths@.len() > 0
        &&& (self.cursor as int) < self.paths@.len()
    }

    /// Runtime check of [`App::wf`], for unverified callers that must test it
    /// before handing events in.
    pub fn is_wf(&self) -> (r: bool)
        ensures
            r == self.wf(),
    {
        self.paths.len() > 0 && self.cursor < self.paths.len()
    }

    /// Constructs the state machine over a validated, non-empty file list.
    /// The cursor starts at the first file, and exactly one effect is owed:
    /// launching the preview of that file.
    pub fn new(paths: Vec<FileLoc>) -> (r: (App, Vec<Effect>))
        requires
            paths@.len() > 0,
        ensures
            r.0.wf(),
            r.0.cursor == 0,
            !r.0.exited,
            r.0.paths@ == paths@,
            r.1@ =~= seq![Effect::LaunchPreview(0)],
    {
        let app = App { paths, cursor: 0, exited: false };
        let mut effects: Vec<Effect> = Vec::new();
        effects.push(Effect::LaunchPreview(0));
        (app, effects)
    }

    /// The entry at the cursor.
    pub fn current_path(&self) -> (r: &FileLoc)
        requires
            self.wf(),
        ensures
            *r == self.paths@[self.cursor as int],
    {
        &self.paths[self.cursor]
    }

    /// The entry at a given index, for resolving the index an [`Effect`]
    /// names.
    pub fn path_at(&self, i: usize) -> (r: &FileLoc)
        requires
            (i as int) < self.paths@.len(),
        ensures
            *r == self.paths@[i as int],
    {
        &self.paths[i]
    }

    /// One clamped cursor step. Inside the list the cursor moves by one and
    /// the running preview is replaced — terminate first, then launch the new
    /// current file; at either end the step is silently rejected and nothing
    /// happens.
    fn move_by(&mut self, d: Dir) -> (effects: Vec<Effect>)
        requires
            old(self).wf(),
            !old(self).exited,
        ensures
            final(self).wf(),
            final(self).paths@ == old(self).paths@,
            !final(self).exited,
            match d {
                Dir::Next => if old(self).cursor + 1 < old(self).paths@.len() {
                    &&& final(self).cursor == old(self).cursor + 1
                    &&& effects@ =~= seq![
                        Effect::TerminatePreview,
                        Effect::LaunchPreview((old(self).cursor + 1) as usize),
                    ]
                } else {
                    &&& *final(self) == *old(self)
                    &&& effects@ =~= Seq::<Effect>::empty()
                },
                Dir::Prev => if old(self).cursor >= 1 {
                    &&& final(self).cursor == old(self).cursor - 1
                    &&& effects@ =~= seq![
                        Effect::TerminatePreview,
                        Effect::LaunchPreview((old(self).cursor - 1) as usize),
                    ]
                } else {
                    &&& *final(self) == *old(self)
                    &&& effects@ =~= Seq::<Effect>::empty()
                },
            },
    {
        let target: usize = match d {
            Dir::Next => {
                let n = self.paths.len();
                if self.cursor < n - 1 {
                    self.cursor + 1
                } else {
                    return Vec::new();
                }
            },
            Dir::Prev => {
                if self.cursor >= 1 {
                    self.cursor - 1
                } else {
                    return Vec::new();
                }
            },
        };
        self.cursor = target;
        let mut effects: Vec<Effect> = Vec::new();
        effects.push(Effect::TerminatePreview);
        effects.push(Effect::LaunchPreview(target));
        effects
    }

    /// The event gate: decides one global key-down event.
    ///
    /// `raw` is the platform key code of the event and `foreground` the
    /// identifier of the frontmost application. The verdict is `true` to
    /// consume the event and `false` to pass it through, beside the effects
    /// the caller must perform, in order. The machine is inert — nothing
    /// changes, nothing is owed, the event passes through — whenever the
    /// preview program is not frontmost or the session has already ended;
    /// while the preview program is frontmost every key-down is consumed,
    /// recognized or not.
    pub fn handle(&mut self, raw: u16, foreground: &String) -> (r: (bool, Vec<Effect>))
        requires
            old(self).wf(),
        ensures
            final(self).wf(),
            final(self).paths@ == old(self).paths@,
            foreground@ != preview_app_id_spec() ==> {
                &&& !r.0
                &&& r.1@ =~= Seq::<Effect>::empty()
                &&& *final(self) == *old(self)
            },
            old(self).exited ==> {
                &&& !r.0
                &&& r.1@ =~= Seq::<Effect>::empty()
                &&& *final(self) == *old(self)
            },
            foreground@ == preview_app_id_spec() && !old(self).exited ==> {
                &&& r.0
                &&& match action_of(raw) {
                    None => {
                        &&& *final(self) == *old(self)
                        &&& r.1@ =~= Seq::<Effect>::empty()
                    },
                    Some(Action::Next) => if old(self).cursor + 1 < old(self).paths@.len() {
                        &&& final(self).cursor == old(self).cursor + 1
                        &&& !final(self).exited
                        &&& r.1@ =~= seq![
                            Effect::TerminatePreview,
                            Effect::LaunchPreview((old(self).cursor + 1) as usize),
                        ]
                    } else {
                        &&& *final(self) == *old(self)
                        &&& r.1@ =~= Seq::<Effect>::empty()
                    },
                    Some(Action::Prev) => if old(self).cursor >= 1 {
                        &&& final(self).cursor == old(self).cursor - 1
                        &&& !final(self).exited
                        &&& r.1@ =~= seq![
                            Effect::TerminatePreview,
                            Effect::LaunchPreview((old(self).cursor - 1) as usize),
                        ]
                    } else {
                        &&& *final(self) == *old(self)
                        &&& r.1@ =~= Seq::<Effect>::empty()
                    },
                    Some(Action::Open) => {
                        &&& *final(self) == *old(self)
                        &&& r.1@ =~= seq![Effect::LaunchOpen(old(self).cursor)]
                    },
                    Some(Action::Exit) => {
                        &&& final(self).cursor == old(self).cursor
                        &&& final(self).exited
                        &&& r.1@ =~= seq![Effect::TerminatePreview, Effect::Shutdown]
                    },
                }
            },
    {
        let id = preview_app_id();
        if !(*foreground == id) {
            return (false, Vec::new());
        }
        if self.exited {
            return (false, Vec::new());
        }
        let key = resolve(raw);
        match Action::from_key(key) {
            None => (true, Vec::new()),
            Some(Action::Next) => {
                let effects = self.move_by(Dir::Next);
                (true, effects)
            },
            Some(Action::Prev) => {
                let effects = self.move_by(Dir::Prev);
                (true, effects)
            },
            Some(Action::Open) => {
                let mut effects: Vec<Effect> = Vec::new();
                effects.push(Effect::LaunchOpen(self.cursor));
                (true, effects)
            },
            Some(Action::Exit) => {
                self.exited = true;
                let mut effects: Vec<Effect> = Vec::new();
                effects.push(Effect::TerminatePreview);
                effects.push(Effect::Shutdown);
                (true, effects)
            },
        }
    }
}

} // verus!
