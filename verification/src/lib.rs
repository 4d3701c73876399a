//! Keyboard-driven navigation of a fixed file list in an external preview
//! program.
//!
//! The library holds the decision logic of the tool: resolving raw key codes
//! to symbolic keys, classifying keys into navigation actions, validating the
//! startup file list, and the navigation state machine that owns the cursor
//! and decides, per intercepted key-down event, whether the event is consumed
//! and which process side effects must be performed. The platform layer
//! (event tap, focus query, process control) performs those effects and feeds
//! events back in.

pub mod files;
pub mod keys;
pub mod nav;
