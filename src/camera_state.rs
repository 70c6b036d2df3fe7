use vstd::prelude::*;

verus! {

/// The view the main camera shows: fixed above the scene, or from the
/// character's position.
#[derive(Clone, Copy, Debug, PartialEq, Eq, Hash, Structural)]
pub enum CameraState {
    StaticView,
    FirstPersonView,
}

/// The other view of the two.
pub open spec fn toggled(s: CameraState) -> CameraState {
    match s {
        CameraState::StaticView => CameraState::FirstPersonView,
        CameraState::FirstPersonView => CameraState::StaticView,
    }
}

impl CameraState {
    /// Switches between the static and the first-person view.
    pub fn toggle(&self) -> (r: CameraState)
        ensures
            r == toggled(*self),
            r != *self,
    {
        match self {
            CameraState::StaticView => CameraState::FirstPersonView,
            CameraState::FirstPersonView => CameraState::StaticView,
        }
    }
}

impl Default for CameraState {
    /// A scene starts in the static view.
    fn default() -> (r: CameraState)
        ensures
            r == CameraState::StaticView,
    {
        CameraState::StaticView
    }
}

/// Toggling twice gives back the view one started from.
pub proof fn lemma_toggle_twice(s: CameraState)
    ensures
        toggled(toggled(s)) == s,
{
}

/// The view to switch to in a frame: the other one when the switch key was
/// released in that frame, none (stay) otherwise.
pub fn next_camera_state(current: CameraState, switch_released: bool) -> (r: Option<CameraState>)
    ensures
        switch_released ==> r == Some(toggled(current)),
        !switch_released ==> r.is_none(),
{
    if switch_released {
        Some(current.toggle())
    } else {
        None
    }
}

/// Whether the game world or the menu has the player's attention.
#[derive(Clone, Copy, Debug, PartialEq, Eq, Hash, Structural)]
pub enum AppState {
    InWorld,
    Menu,
}

impl Default for AppState {
    /// A session starts in the world.
    fn default() -> (r: AppState)
        ensures
            r == AppState::InWorld,
    {
        AppState::InWorld
    }
}

} // verus!
