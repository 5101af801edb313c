//! The public method surface a script calls on a `Sound` object.
//!
//! Every operation takes its receiver as a `ScriptObject` and performs the
//! safe downcast itself; a receiver of the wrong kind, a missing asset or an
//! unresolvable name never fails the calling script — each such case returns
//! a default value together with a diagnostic. The version-gated getters
//! take the declared interpreter-compatibility version of the hosting
//! content and return the undefined sentinel below version 6.

use crate::assets::AssetCatalog;
use crate::assets::ContextResolver;
use crate::backend::AudioBackend;
use crate::backend::PlaybackEvent;
use crate::backend::SoundInstance;
use crate::backend::StartSettings;
use crate::backend::silence_all;
use crate::backend::silence_asset;
use crate::backend::silence_instance;
use crate::backend::spec_duration;
use crate::controller::ScriptObject;
use crate::controller::SoundController;
use crate::values::Diagnostic;
use crate::values::ScriptValue;
use vstd::prelude::*;

verus! {

/// Construction: store the owner resolved from the first script argument —
/// `None` when no argument was given or it names no display-tree node — and
/// touch nothing else. Construction never fails; the host hands the
/// receiver itself back to the script, so the only interesting result here
/// is the diagnostic.
pub fn constructor(this: &mut ScriptObject, owner: Option<u32>) -> (d: Option<Diagnostic>)
    ensures
        match old(this).as_sound() {
            Some(c) => {
                &&& *final(this) == ScriptObject::Sound(
                    (SoundController {
                        owner,
                        asset: c.asset,
                        duration: c.duration,
                        position: c.position,
                        active_instance: c.active_instance,
                    }),
                )
                &&& d is None
            },
            None => *final(this) == *old(this) && d == Some(Diagnostic::NotASound),
        },
{
    let obj = *this;
    match obj {
        ScriptObject::Sound(c) => {
            *this = ScriptObject::Sound(
                SoundController {
                    owner,
                    asset: c.asset,
                    duration: c.duration,
                    position: c.position,
                    active_instance: c.active_instance,
                },
            );
            None
        },
        ScriptObject::Other => Some(Diagnostic::NotASound),
    }
}

/// The controller after a successful attach: the resolved asset handle, the
/// backend-reported duration (or 0 when the backend reports none), position
/// reset to 0, and the rest untouched — the active instance in particular.
pub open spec fn attached(c: SoundController, h: u32, dur: Option<u32>) -> SoundController {
    SoundController {
        owner: c.owner,
        asset: Some(h),
        duration: match dur {
            Some(d) => d,
            None => 0u32,
        },
        position: 0,
        active_instance: c.active_instance,
    }
}

/// `attachSound(name)`: resolve a content context from the controller's
/// owner, look the export name up there, and on a sound asset attach its
/// handle, cache its duration and reset the position. Any failure leaves
/// the state unchanged and degrades to a diagnostic.
pub fn attach_sound(
    this: &mut ScriptObject,
    name: &String,
    scene: &ContextResolver,
    catalog: &AssetCatalog,
    audio: &AudioBackend,
) -> (r: (ScriptValue, Option<Diagnostic>))
    ensures
        r.0 == ScriptValue::Undefined,
        match old(this).as_sound() {
            None => *final(this) == *old(this) && r.1 == Some(Diagnostic::NotASound),
            Some(c) => match scene.spec_resolve(c.owner) {
                None => *final(this) == *old(this) && r.1 == Some(Diagnostic::NoContext),
                Some(ctx) => match catalog.spec_find_sound(ctx, name@) {
                    Some(h) => {
                        &&& *final(this) == ScriptObject::Sound(
                            attached(c, h, spec_duration(audio.durations@, h)),
                        )
                        &&& r.1 is None
                    },
                    None => *final(this) == *old(this) && r.1 == Some(Diagnostic::SoundNotFound),
                },
            },
        },
{
    let obj = *this;
    match obj {
        ScriptObject::Other => (ScriptValue::Undefined, Some(Diagnostic::NotASound)),
        ScriptObject::Sound(c) => {
            match scene.resolve(c.owner) {
                None => (ScriptValue::Undefined, Some(Diagnostic::NoContext)),
                Some(ctx) => {
                    match catalog.find_sound(ctx, name) {
                        Some(h) => {
                            let dur = audio.get_sound_duration(h);
                            let duration = match dur {
                                Some(d) => d,
                                None => 0u32,
                            };
                            *this = ScriptObject::Sound(
                                SoundController {
                                    owner: c.owner,
                                    asset: Some(h),
                                    duration,
                                    position: 0,
                                    active_instance: c.active_instance,
                                },
                            );
                            (ScriptValue::Undefined, None)
                        },
                        None => (ScriptValue::Undefined, Some(Diagnostic::SoundNotFound)),
                    }
                },
            }
        },
    }
}

/// The starting sample offset for an offset given in milliseconds: the
/// fixed 44.1 kHz reference rate is assumed regardless of the asset's own
/// sample rate, a deliberate simplification this subsystem preserves. No
/// offset is requested unless the given offset is positive; a result that
/// would not fit in 32 bits is truncated to the largest representable one.
pub open spec fn spec_start_sample(offset_ms: i64) -> Option<u32> {
    if offset_ms <= 0 {
        None
    } else if offset_ms * 44100 / 1000 > u32::MAX {
        Some(u32::MAX)
    } else {
        Some((offset_ms * 44100 / 1000) as u32)
    }
}

/// The loop count actually requested: floored to at least one play-through,
/// and values beyond 16 bits truncated to the largest representable count —
/// a documented limitation, preserved rather than corrected.
pub open spec fn spec_clamped_loops(loops: i64) -> u16 {
    if loops <= 0 {
        1u16
    } else if loops > 0xFFFF {
        0xFFFFu16
    } else {
        loops as u16
    }
}

/// Compute the starting sample offset of a start request.
pub fn start_sample(offset_ms: i64) -> (r: Option<u32>)
    ensures
        r == spec_start_sample(offset_ms),
{
    if offset_ms <= 0 {
        None
    } else {
        let ms: u64 = offset_ms as u64;
        if ms >= 100_000_000 {
            proof {
                assert(offset_ms * 44100 >= 4_410_000_000_000int);
                assert(offset_ms * 44100 / 1000 >= 4_410_000_000int);
            }
            Some(u32::MAX)
        } else {
            let samples: u64 = ms * 44100 / 1000;
            if samples > 0xFFFF_FFFF {
                Some(u32::MAX)
            } else {
                Some(samples as u32)
            }
        }
    }
}

/// Clamp a requested loop count to the representable range, minimum one.
pub fn clamp_loops(loops: i64) -> (r: u16)
    ensures
        r == spec_clamped_loops(loops),
        r >= 1,
{
    if loops <= 0 {
        1
    } else if loops > 0xFFFF {
        0xFFFF
    } else {
        loops as u16
    }
}

/// `start(offset, loopCount)`: with an asset attached, ask the backend for
/// a new playback instance of it — event `Start`, the computed sample
/// offset, no end offset, the clamped loop count, no envelope — and on
/// success overwrite the tracked active instance; the prior instance keeps
/// playing, merely untracked. A backend failure is swallowed. With no
/// asset attached, nothing happens but a diagnostic.
pub fn start(
    this: &mut ScriptObject,
    offset_ms: i64,
    loops: i64,
    audio: &mut AudioBackend,
) -> (r: (ScriptValue, Option<Diagnostic>))
    requires
        old(audio).wf(),
    ensures
        final(audio).wf(),
        r.0 == ScriptValue::Undefined,
        final(audio).durations == old(audio).durations,
        match old(this).as_sound() {
            None => {
                &&& *final(this) == *old(this)
                &&& *final(audio) == *old(audio)
                &&& r.1 == Some(Diagnostic::NotASound)
            },
            Some(c) => match c.asset {
                None => {
                    &&& *final(this) == *old(this)
                    &&& *final(audio) == *old(audio)
                    &&& r.1 == Some(Diagnostic::NoSoundAttached)
                },
                Some(a) => {
                    &&& r.1 is None
                    &&& if old(audio).next_handle < u32::MAX {
                        &&& final(audio).instances@ == old(audio).instances@.push(
                            (SoundInstance {
                                handle: old(audio).next_handle,
                                asset: a,
                                playing: true,
                                settings: (StartSettings {
                                    event: PlaybackEvent::Start,
                                    in_sample: spec_start_sample(offset_ms),
                                    out_sample: None,
                                    num_loops: spec_clamped_loops(loops),
                                }),
                            }),
                        )
                        &&& final(audio).next_handle == old(audio).next_handle + 1
                        &&& *final(this) == ScriptObject::Sound(
                            (SoundController {
                                owner: c.owner,
                                asset: c.asset,
                                duration: c.duration,
                                position: c.position,
                                active_instance: Some(old(audio).next_handle),
                            }),
                        )
                    } else {
                        &&& *final(audio) == *old(audio)
                        &&& *final(this) == *old(this)
                    }
                },
            },
        },
{
    let in_sample = start_sample(offset_ms);
    let num_loops = clamp_loops(loops);
    let obj = *this;
    match obj {
        ScriptObject::Other => (ScriptValue::Undefined, Some(Diagnostic::NotASound)),
        ScriptObject::Sound(c) => {
            match c.asset {
                None => (ScriptValue::Undefined, Some(Diagnostic::NoSoundAttached)),
                Some(a) => {
                    let settings = StartSettings {
                        event: PlaybackEvent::Start,
                        in_sample,
                        out_sample: None,
                        num_loops,
                    };
                    match audio.start_sound(a, settings) {
                        Ok(h) => {
                            *this = ScriptObject::Sound(
                                SoundController {
                                    owner: c.owner,
                                    asset: c.asset,
                                    duration: c.duration,
                                    position: c.position,
                                    active_instance: Some(h),
                                },
                            );
                        },
                        Err(_) => {},
                    }
                    (ScriptValue::Undefined, None)
                },
            }
        },
    }
}

/// `stop(name?)`, in strict priority order: a name argument stops every
/// instance of the asset it resolves to, system-wide; otherwise an owner
/// scopes the stop to this controller's tracked instance, if any; with
/// neither, every instance in the system is stopped. The tracked active
/// instance is never cleared, only silenced in the backend.
pub fn stop(
    this: &ScriptObject,
    name: Option<&String>,
    scene: &ContextResolver,
    catalog: &AssetCatalog,
    audio: &mut AudioBackend,
) -> (r: (ScriptValue, Option<Diagnostic>))
    requires
        old(audio).wf(),
    ensures
        final(audio).wf(),
        r.0 == ScriptValue::Undefined,
        final(audio).durations == old(audio).durations,
        final(audio).next_handle == old(audio).next_handle,
        match this.as_sound() {
            None => *final(audio) == *old(audio) && r.1 == Some(Diagnostic::NotASound),
            Some(c) => match name {
                Some(n) => match scene.spec_resolve(c.owner) {
                    None => *final(audio) == *old(audio) && r.1 == Some(Diagnostic::NoContext),
                    Some(ctx) => match catalog.spec_find_sound(ctx, n@) {
                        Some(a) => {
                            &&& final(audio).instances@ == silence_asset(
                                old(audio).instances@,
                                a,
                            )
                            &&& r.1 is None
                        },
                        None => *final(audio) == *old(audio) && r.1 == Some(
                            Diagnostic::SoundNotFound,
                        ),
                    },
                },
                None => {
                    &&& r.1 is None
                    &&& if c.owner is Some {
                        match c.active_instance {
                            Some(h) => final(audio).instances@ == silence_instance(
                                old(audio).instances@,
                                h,
                            ),
                            None => *final(audio) == *old(audio),
                        }
                    } else {
                        final(audio).instances@ == silence_all(old(audio).instances@)
                    }
                },
            },
        },
{
    match *this {
        ScriptObject::Other => (ScriptValue::Undefined, Some(Diagnostic::NotASound)),
        ScriptObject::Sound(c) => {
            match name {
                Some(n) => {
                    match scene.resolve(c.owner) {
                        None => (ScriptValue::Undefined, Some(Diagnostic::NoContext)),
                        Some(ctx) => {
                            match catalog.find_sound(ctx, n) {
                                Some(a) => {
                                    audio.stop_sounds_with_handle(a);
                                    (ScriptValue::Undefined, None)
                                },
                                None => (ScriptValue::Undefined, Some(Diagnostic::SoundNotFound)),
                            }
                        },
                    }
                },
                None => {
                    if c.owner.is_some() {
                        match c.active_instance {
                            Some(h) => audio.stop_sound(h),
                            None => {},
                        }
                    } else {
                        audio.stop_all_sounds();
                    }
                    (ScriptValue::Undefined, None)
                },
            }
        },
    }
}

/// `duration` getter: the cached duration of the attached asset, gated to
/// compatibility version 6 and above and to a sound-controller receiver.
pub fn duration(this: &ScriptObject, swf_version: u8) -> (r: (ScriptValue, Option<Diagnostic>))
    ensures
        if swf_version >= 6 {
            match this.as_sound() {
                Some(c) => r == (ScriptValue::Number(c.duration as i64), None::<Diagnostic>),
                None => r == (ScriptValue::Undefined, Some(Diagnostic::NotASound)),
            }
        } else {
            r == (ScriptValue::Undefined, None::<Diagnostic>)
        },
{
    if swf_version >= 6 {
        match *this {
            ScriptObject::Sound(c) => (ScriptValue::Number(c.duration as i64), None),
            ScriptObject::Other => (ScriptValue::Undefined, Some(Diagnostic::NotASound)),
        }
    } else {
        (ScriptValue::Undefined, None)
    }
}

/// `position` getter: same gates as `duration`, and additionally undefined
/// while no asset is attached. The intended "sticky" position after
/// playback is not implemented: the cached position is never updated after
/// attach, so an attached asset always reports 0, and a tracked active
/// instance draws the corresponding diagnostic. Kept as specified rather
/// than silently extended.
pub fn position(this: &ScriptObject, swf_version: u8) -> (r: (ScriptValue, Option<Diagnostic>))
    ensures
        if swf_version >= 6 {
            match this.as_sound() {
                Some(c) => if c.asset is Some {
                    r == (
                        ScriptValue::Number(c.position as i64),
                        if c.active_instance is Some {
                            Some(Diagnostic::Unimplemented)
                        } else {
                            None::<Diagnostic>
                        },
                    )
                } else {
                    r == (ScriptValue::Undefined, None::<Diagnostic>)
                },
                None => r == (ScriptValue::Undefined, Some(Diagnostic::NotASound)),
            }
        } else {
            r == (ScriptValue::Undefined, None::<Diagnostic>)
        },
{
    if swf_version >= 6 {
        match *this {
            ScriptObject::Sound(c) => {
                if c.asset.is_some() {
                    let d = if c.active_instance.is_some() {
                        Some(Diagnostic::Unimplemented)
                    } else {
                        None
                    };
                    (ScriptValue::Number(c.position as i64), d)
                } else {
                    (ScriptValue::Undefined, None)
                }
            },
            ScriptObject::Other => (ScriptValue::Undefined, Some(Diagnostic::NotASound)),
        }
    } else {
        (ScriptValue::Undefined, None)
    }
}

/// Placeholder `getBytesLoaded`: fixed value 1, version-gated.
pub fn get_bytes_loaded(_this: &ScriptObject, swf_version: u8) -> (r: (
    ScriptValue,
    Option<Diagnostic>,
))
    ensures
        if swf_version >= 6 {
            r == (ScriptValue::Number(1), Some(Diagnostic::Unimplemented))
        } else {
            r == (ScriptValue::Undefined, None::<Diagnostic>)
        },
{
    if swf_version >= 6 {
        (ScriptValue::Number(1), Some(Diagnostic::Unimplemented))
    } else {
        (ScriptValue::Undefined, None)
    }
}

/// Placeholder `getBytesTotal`: fixed value 1, version-gated.
pub fn get_bytes_total(_this: &ScriptObject, swf_version: u8) -> (r: (
    ScriptValue,
    Option<Diagnostic>,
))
    ensures
        if swf_version >= 6 {
            r == (ScriptValue::Number(1), Some(Diagnostic::Unimplemented))
        } else {
            r == (ScriptValue::Undefined, None::<Diagnostic>)
        },
{
    if swf_version >= 6 {
        (ScriptValue::Number(1), Some(Diagnostic::Unimplemented))
    } else {
        (ScriptValue::Undefined, None)
    }
}

/// Placeholder `getPan`: fixed value 0.
pub fn get_pan(_this: &ScriptObject) -> (r: (ScriptValue, Option<Diagnostic>))
    ensures
        r == (ScriptValue::Number(0), Some(Diagnostic::Unimplemented)),
{
    (ScriptValue::Number(0), Some(Diagnostic::Unimplemented))
}

/// Placeholder `getTransform`: undefined.
pub fn get_transform(_this: &ScriptObject) -> (r: (ScriptValue, Option<Diagnostic>))
    ensures
        r == (ScriptValue::Undefined, Some(Diagnostic::Unimplemented)),
{
    (ScriptValue::Undefined, Some(Diagnostic::Unimplemented))
}

/// Placeholder `getVolume`: fixed value 100.
pub fn get_volume(_this: &ScriptObject) -> (r: (ScriptValue, Option<Diagnostic>))
    ensures
        r == (ScriptValue::Number(100), Some(Diagnostic::Unimplemented)),
{
    (ScriptValue::Number(100), Some(Diagnostic::Unimplemented))
}

/// Placeholder `id3`: undefined, version-gated diagnostic.
pub fn id3(_this: &ScriptObject, swf_version: u8) -> (r: (ScriptValue, Option<Diagnostic>))
    ensures
        r.0 == ScriptValue::Undefined,
        r.1 == if swf_version >= 6 {
            Some(Diagnostic::Unimplemented)
        } else {
            None::<Diagnostic>
        },
{
    if swf_version >= 6 {
        (ScriptValue::Undefined, Some(Diagnostic::Unimplemented))
    } else {
        (ScriptValue::Undefined, None)
    }
}

/// Placeholder `loadSound`: undefined, version-gated diagnostic.
pub fn load_sound(_this: &ScriptObject, swf_version: u8) -> (r: (ScriptValue, Option<Diagnostic>))
    ensures
        r.0 == ScriptValue::Undefined,
        r.1 == if swf_version >= 6 {
            Some(Diagnostic::Unimplemented)
        } else {
            None::<Diagnostic>
        },
{
    if swf_version >= 6 {
        (ScriptValue::Undefined, Some(Diagnostic::Unimplemented))
    } else {
        (ScriptValue::Undefined, None)
    }
}

/// Placeholder `setPan`: undefined.
pub fn set_pan(_this: &ScriptObject) -> (r: (ScriptValue, Option<Diagnostic>))
    ensures
        r == (ScriptValue::Undefined, Some(Diagnostic::Unimplemented)),
{
    (ScriptValue::Undefined, Some(Diagnostic::Unimplemented))
}

/// Placeholder `setTransform`: undefined.
pub fn set_transform(_this: &ScriptObject) -> (r: (ScriptValue, Option<Diagnostic>))
    ensures
        r == (ScriptValue::Undefined, Some(Diagnostic::Unimplemented)),
{
    (ScriptValue::Undefined, Some(Diagnostic::Unimplemented))
}

/// Placeholder `setVolume`: undefined.
pub fn set_volume(_this: &ScriptObject) -> (r: (ScriptValue, Option<Diagnostic>))
    ensures
        r == (ScriptValue::Undefined, Some(Diagnostic::Unimplemented)),
{
    (ScriptValue::Undefined, Some(Diagnostic::Unimplemented))
}

} // verus!
