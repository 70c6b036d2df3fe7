use vstd::prelude::*;

verus! {

/// Which way the held movement keys push the free-fly camera, in units of its
/// own forward and right axes: each component is -1, 0 or 1.
#[derive(Clone, Copy, Debug, PartialEq, Eq, Hash, Structural)]
pub struct MoveAxes {
    pub forward: i8,
    pub right: i8,
}

/// 1 for a held key, 0 for a key that is up.
pub open spec fn key_weight(held: bool) -> int {
    if held {
        1
    } else {
        0
    }
}

/// The axes that the four movement keys give: forward minus back, right
/// minus left; opposite keys cancel.
pub fn movement_axes(forward: bool, back: bool, left: bool, right: bool) -> (r: MoveAxes)
    ensures
        r.forward as int == key_weight(forward) - key_weight(back),
        r.right as int == key_weight(right) - key_weight(left),
{
    let mut f: i8 = 0;
    let mut s: i8 = 0;
    if forward {
        f = f + 1;
    }
    if back {
        f = f - 1;
    }
    if left {
        s = s - 1;
    }
    if right {
        s = s + 1;
    }
    MoveAxes { forward: f, right: s }
}

impl MoveAxes {
    /// Whether the camera moves at all. The forward and right axes of a
    /// camera are orthogonal unit vectors, so the direction they combine to
    /// has a positive length exactly when some component is not zero.
    pub fn is_moving(&self) -> (r: bool)
        ensures
            r == (self.forward != 0 || self.right != 0),
    {
        self.forward != 0 || self.right != 0
    }
}

} // verus!
