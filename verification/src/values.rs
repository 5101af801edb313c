//! Script-visible result values and the diagnostics the subsystem emits.

use vstd::prelude::*;

verus! {

/// A value handed back to the calling script. The subsystem only ever
/// returns the undefined sentinel or an integer-valued number.
#[derive(Clone, Copy, Debug, PartialEq, Eq, Structural)]
pub enum ScriptValue {
    Undefined,
    Number(i64),
}

/// A diagnostic emitted alongside a result. Failures never surface to the
/// script as errors: they degrade to a diagnostic plus a default value.
#[derive(Clone, Copy, Debug, PartialEq, Eq, Structural)]
pub enum Diagnostic {
    /// The receiver of the call is not a sound controller.
    NotASound,
    /// No content context could be resolved to look a name up in.
    NoContext,
    /// The given export name is absent, or names a non-sound asset.
    SoundNotFound,
    /// `start` was called with no asset attached.
    NoSoundAttached,
    /// A placeholder operation was invoked.
    Unimplemented,
}

} // verus!
