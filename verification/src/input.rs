//! Keyboard input, reduced to what the render loop reads, and the
//! decision of when the window should close.

use vstd::prelude::*;

verus! {

/// A key on the keyboard, as far as the render loop distinguishes them:
/// pressing escape closes the window, every other key is ignored.
#[derive(Clone, Copy, PartialEq, Eq, Structural, Debug)]
pub enum KeyCode {
    Escape,
    Unhandled,
}

/// What happened to a key.
#[derive(Clone, Copy, PartialEq, Eq, Structural, Debug)]
pub enum KeyAction {
    Press,
    Release,
    Repeat,
}

/// A window event, reduced to what the render loop reads of it.
#[derive(Clone, Copy, PartialEq, Eq, Structural, Debug)]
pub enum WindowInput {
    Key(KeyCode, KeyAction),
    Unhandled,
}

/// The one input that asks the window to close: pressing escape.
pub open spec fn is_close_request(e: WindowInput) -> bool {
    e matches WindowInput::Key(KeyCode::Escape, KeyAction::Press)
}

/// Decides whether a single event asks the window to close.
pub fn requests_close(e: &WindowInput) -> (r: bool)
    ensures
        r == is_close_request(*e),
{
    match e {
        WindowInput::Key(KeyCode::Escape, KeyAction::Press) => true,
        _ => false,
    }
}

/// Drains one batch of polled events, as the render loop does each
/// frame: the window is to close exactly when it was already closing
/// or some event in the batch asked it to.
pub fn should_close_after(events: &Vec<WindowInput>, already_closing: bool) -> (r: bool)
    ensures
        r == (already_closing
            || exists|i: int| 0 <= i < events@.len() && is_close_request(events@[i])),
{
    let mut close = already_closing;
    let mut idx: usize = 0;
    while idx < events.len()
        invariant
            idx <= events@.len(),
            close == (already_closing
                || exists|i: int| 0 <= i < idx && is_close_request(events@[i])),
        decreases events@.len() - idx,
    {
        if requests_close(&events[idx]) {
            close = true;
        }
        idx += 1;
    }
    close
}

} // verus!
