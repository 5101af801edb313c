//! The sound controller: the stateful record a scripted `Sound` object owns,
//! and the closed set of scripted-object kinds a receiver can be.

use vstd::prelude::*;

verus! {

/// Per-object state of one scripted sound controller.
///
/// `owner` is a non-owning reference to a display-tree node, kept as an
/// identity key; it is set once at construction and never changed after.
/// `duration` and `position` are in milliseconds and meaningful only while
/// `asset` is set. `active_instance` tracks the most recently started
/// playback instance, best-effort: it may be stale, is overwritten by each
/// successful `start`, and is never cleared by `stop`.
#[derive(Clone, Copy, Debug, PartialEq, Eq)]
pub struct SoundController {
    pub owner: Option<u32>,
    pub asset: Option<u32>,
    pub duration: u32,
    pub position: u32,
    pub active_instance: Option<u32>,
}

impl SoundController {
    /// A freshly constructed controller: no asset attached, nothing playing.
    /// Construction never fails; an unresolvable owner argument arrives here
    /// as `None`.
    pub fn new(owner: Option<u32>) -> (c: Self)
        ensures
            c.owner == owner,
            c.asset is None,
            c.duration == 0,
            c.position == 0,
            c.active_instance is None,
    {
        SoundController { owner, asset: None, duration: 0, position: 0, active_instance: None }
    }
}

/// A scripted object, as far as this subsystem can tell one apart: the
/// receiver of every method is downcast over this closed set of kinds.
#[derive(Clone, Copy, Debug)]
pub enum ScriptObject {
    Sound(SoundController),
    Other,
}

impl ScriptObject {
    /// The safe downcast the method surface performs on its receiver.
    pub open spec fn as_sound(self) -> Option<SoundController> {
        match self {
            ScriptObject::Sound(c) => Some(c),
            ScriptObject::Other => None,
        }
    }
}

} // verus!
