use vstd::prelude::*;

verus! {

/// Sound playback. No sound assets ship yet, so every cue is silent and
/// the manager starts disabled.
pub struct AudioManager {
    pub enabled: bool,
}

impl AudioManager {
    /// A manager with sound disabled.
    pub fn new() -> (r: Self)
        ensures
            !r.enabled,
    {
        AudioManager { enabled: false }
    }

    /// Looping ambience; silent until the asset exists.
    pub fn play_ambient(&self) {
    }

    /// Door-unlock cue; silent until the asset exists.
    pub fn play_door_unlock(&self) {
    }

    /// Pill pickup cue; silent until the asset exists.
    pub fn play_pill_pickup(&self) {
    }
}

} // verus!
