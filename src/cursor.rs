use vstd::prelude::*;

verus! {

/// How the window holds the mouse cursor.
#[derive(Clone, Copy, Debug, PartialEq, Eq, Hash, Structural)]
pub enum CursorGrabMode {
    /// The cursor moves freely and may leave the window.
    Free,
    /// The cursor is kept inside the window.
    Confined,
    /// The cursor is kept in place.
    Locked,
}

/// The part of a window's cursor options that the camera controls read and set.
#[derive(Clone, Copy, Debug, PartialEq, Eq, Hash, Structural)]
pub struct CursorState {
    pub grab_mode: CursorGrabMode,
    pub visible: bool,
}

/// Whether the window holds the cursor, in either way.
pub open spec fn is_grabbed(mode: CursorGrabMode) -> bool {
    mode != CursorGrabMode::Free
}

/// The cursor state after one toggle: a free cursor is confined and hidden,
/// a held one is freed and shown.
pub open spec fn toggled_cursor(c: CursorState) -> CursorState {
    if is_grabbed(c.grab_mode) {
        CursorState { grab_mode: CursorGrabMode::Free, visible: true }
    } else {
        CursorState { grab_mode: CursorGrabMode::Confined, visible: false }
    }
}

/// Grabs a free cursor (confined and hidden) or releases a held one (free and
/// shown).
pub fn toggle_grab_cursor(cursor: &mut CursorState)
    ensures
        *final(cursor) == toggled_cursor(*old(cursor)),
        is_grabbed(final(cursor).grab_mode) == !is_grabbed(old(cursor).grab_mode),
        final(cursor).visible == !is_grabbed(final(cursor).grab_mode),
{
    match cursor.grab_mode {
        CursorGrabMode::Free => {
            cursor.grab_mode = CursorGrabMode::Confined;
            cursor.visible = false;
        },
        _ => {
            cursor.grab_mode = CursorGrabMode::Free;
            cursor.visible = true;
        },
    }
}

/// One frame of cursor handling: the grab is toggled when the toggle key was
/// pressed in that frame, and left as it is otherwise.
pub fn cursor_grab(cursor: &mut CursorState, toggle_pressed: bool)
    ensures
        toggle_pressed ==> *final(cursor) == toggled_cursor(*old(cursor)),
        !toggle_pressed ==> *final(cursor) == *old(cursor),
{
    if toggle_pressed {
        toggle_grab_cursor(cursor);
    }
}

/// Whether mouse motion turns the first-person camera: only while the window
/// holds the cursor.
pub fn look_follows_mouse(mode: CursorGrabMode) -> (r: bool)
    ensures
        r == is_grabbed(mode),
{
    match mode {
        CursorGrabMode::Free => false,
        _ => true,
    }
}

/// Toggling the grab twice from a state in which visibility matches the grab
/// (hidden exactly while held) gives that state back.
pub proof fn lemma_toggle_cursor_twice(c: CursorState)
    requires
        c.visible == !is_grabbed(c.grab_mode),
        c.grab_mode != CursorGrabMode::Locked,
    ensures
        toggled_cursor(toggled_cursor(c)) == c,
{
}

} // verus!
