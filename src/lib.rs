//! Input-driven decisions of a small 3D scene: which camera view is active,
//! whether the cursor is held by the window, and which way the keys move the
//! free-fly camera. The engine around it performs what these functions decide.

pub mod camera_state;
pub mod cursor;
pub mod movement;
