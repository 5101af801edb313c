//! Boundary model of the audio backend: the system-wide set of playback
//! instances, the start/stop operations on them, and duration reporting.
//!
//! An instance, once started, stays in the record with a `playing` flag, so
//! that the effect of every stop operation — including one on a stale handle,
//! which is a safe no-op — is visible in the contracts.

use vstd::pervasive::VecAdditionalExecFns;
use vstd::prelude::*;

verus! {

/// The event kind of a start request, as the wire format distinguishes them.
/// This surface only ever issues `Start`.
#[derive(Clone, Copy, Debug, PartialEq, Eq, Structural)]
pub enum PlaybackEvent {
    Event,
    Start,
    Stop,
}

/// The parameters of one start request. No envelope is ever supplied at
/// this surface, so none is modelled.
#[derive(Clone, Copy, Debug, PartialEq, Eq)]
pub struct StartSettings {
    pub event: PlaybackEvent,
    /// Starting offset into the asset, in samples.
    pub in_sample: Option<u32>,
    /// Ending offset, in samples; never supplied at this surface.
    pub out_sample: Option<u32>,
    /// Number of times to play; at least 1.
    pub num_loops: u16,
}

/// One playback occurrence of an asset, identified by a backend-issued
/// opaque handle.
#[derive(Clone, Copy, Debug, PartialEq, Eq)]
pub struct SoundInstance {
    pub handle: u32,
    pub asset: u32,
    pub playing: bool,
    pub settings: StartSettings,
}

/// The audio backend's state: which asset durations it can report, every
/// playback instance it has issued, and the next fresh instance handle.
#[derive(Clone, Debug, PartialEq, Eq)]
pub struct AudioBackend {
    /// Asset handle paired with the duration in milliseconds the mixer can
    /// report for it; an asset with no entry has no reportable duration.
    pub durations: Vec<(u32, u32)>,
    pub instances: Vec<SoundInstance>,
    pub next_handle: u32,
}

/// `inst` with its playing flag cleared and everything else kept.
pub open spec fn silenced(inst: SoundInstance) -> SoundInstance {
    SoundInstance { handle: inst.handle, asset: inst.asset, playing: false, settings: inst.settings }
}

/// The instance record after a stop of one instance handle.
pub open spec fn silence_instance(s: Seq<SoundInstance>, handle: u32) -> Seq<SoundInstance> {
    s.map_values(|inst: SoundInstance| if inst.handle == handle { silenced(inst) } else { inst })
}

/// The instance record after a system-wide stop of every instance of one asset.
pub open spec fn silence_asset(s: Seq<SoundInstance>, asset: u32) -> Seq<SoundInstance> {
    s.map_values(|inst: SoundInstance| if inst.asset == asset { silenced(inst) } else { inst })
}

/// The instance record after a global stop.
pub open spec fn silence_all(s: Seq<SoundInstance>) -> Seq<SoundInstance> {
    s.map_values(|inst: SoundInstance| silenced(inst))
}

/// First duration registered for `asset` at or after index `i`.
pub open spec fn duration_from(d: Seq<(u32, u32)>, i: int, asset: u32) -> Option<u32>
    decreases d.len() - i,
{
    if i < 0 || i >= d.len() {
        None
    } else if d[i].0 == asset {
        Some(d[i].1)
    } else {
        duration_from(d, i + 1, asset)
    }
}

/// The duration in milliseconds the backend reports for `asset`, if any.
pub open spec fn spec_duration(d: Seq<(u32, u32)>, asset: u32) -> Option<u32> {
    duration_from(d, 0, asset)
}

impl AudioBackend {
    /// Well-formedness: every issued handle is below the fresh-handle
    /// counter, and no two instances share a handle.
    pub open spec fn wf(self) -> bool {
        &&& forall|i: int|
            0 <= i < self.instances@.len() ==> (#[trigger] self.instances@[i]).handle
                < self.next_handle
        &&& forall|i: int, j: int|
            #![trigger self.instances@[i].handle, self.instances@[j].handle]
            0 <= i < j < self.instances@.len() ==> self.instances@[i].handle
                != self.instances@[j].handle
    }

    /// A backend with nothing registered and nothing playing.
    pub fn new() -> (b: Self)
        ensures
            b.durations@.len() == 0,
            b.instances@.len() == 0,
            b.next_handle == 0,
            b.wf(),
    {
        AudioBackend { durations: Vec::new(), instances: Vec::new(), next_handle: 0 }
    }

    /// The duration the backend can report for `asset`, or `None` when it
    /// cannot report one.
    pub fn get_sound_duration(&self, asset: u32) -> (r: Option<u32>)
        ensures
            r == spec_duration(self.durations@, asset),
    {
        let mut i: usize = 0;
        while i < self.durations.len()
            invariant
                0 <= i <= self.durations@.len(),
                duration_from(self.durations@, i as int, asset) == spec_duration(
                    self.durations@,
                    asset,
                ),
            decreases self.durations@.len() - i,
        {
            if self.durations[i].0 == asset {
                return Some(self.durations[i].1);
            }
            i = i + 1;
        }
        None
    }

    /// Start a new playback instance of `asset` with the given settings.
    /// Failure happens exactly when no fresh handle can be issued; the
    /// caller treats it the same as "no instance created".
    pub fn start_sound(&mut self, asset: u32, settings: StartSettings) -> (r: Result<u32, ()>)
        requires
            old(self).wf(),
        ensures
            final(self).wf(),
            final(self).durations == old(self).durations,
            r is Ok <==> old(self).next_handle < u32::MAX,
            r matches Ok(h) ==> {
                &&& h == old(self).next_handle
                &&& final(self).next_handle == old(self).next_handle + 1
                &&& final(self).instances@ == old(self).instances@.push(
                    SoundInstance { handle: h, asset, playing: true, settings },
                )
            },
            r is Err ==> *final(self) == *old(self),
    {
        if self.next_handle < u32::MAX {
            let h = self.next_handle;
            self.instances.push(SoundInstance { handle: h, asset, playing: true, settings });
            self.next_handle = h + 1;
            Ok(h)
        } else {
            Err(())
        }
    }

    /// Stop one instance by handle. A stale or unknown handle is a safe
    /// no-op, since every instance it could name is kept in the record.
    pub fn stop_sound(&mut self, handle: u32)
        requires
            old(self).wf(),
        ensures
            final(self).wf(),
            final(self).durations == old(self).durations,
            final(self).next_handle == old(self).next_handle,
            final(self).instances@ == silence_instance(old(self).instances@, handle),
    {
        let mut i: usize = 0;
        while i < self.instances.len()
            invariant
                0 <= i <= self.instances@.len(),
                self.instances@.len() == old(self).instances@.len(),
                self.durations == old(self).durations,
                self.next_handle == old(self).next_handle,
                forall|j: int|
                    0 <= j < i ==> #[trigger] self.instances@[j] == silence_instance(
                        old(self).instances@,
                        handle,
                    )[j],
                forall|j: int|
                    i <= j < self.instances@.len() ==> #[trigger] self.instances@[j] == old(
                        self,
                    ).instances@[j],
            decreases self.instances@.len() - i,
        {
            let inst = self.instances[i];
            if inst.handle == handle {
                self.instances.set(
                    i,
                    SoundInstance {
                        handle: inst.handle,
                        asset: inst.asset,
                        playing: false,
                        settings: inst.settings,
                    },
                );
            }
            i = i + 1;
        }
        assert(self.instances@ =~= silence_instance(old(self).instances@, handle));
        proof {
            lemma_silence_preserves_wf(*old(self), *self);
        }
    }

    /// Stop every instance of `asset`, system-wide.
    pub fn stop_sounds_with_handle(&mut self, asset: u32)
        requires
            old(self).wf(),
        ensures
            final(self).wf(),
            final(self).durations == old(self).durations,
            final(self).next_handle == old(self).next_handle,
            final(self).instances@ == silence_asset(old(self).instances@, asset),
    {
        let mut i: usize = 0;
        while i < self.instances.len()
            invariant
                0 <= i <= self.instances@.len(),
                self.instances@.len() == old(self).instances@.len(),
                self.durations == old(self).durations,
                self.next_handle == old(self).next_handle,
                forall|j: int|
                    0 <= j < i ==> #[trigger] self.instances@[j] == silence_asset(
                        old(self).instances@,
                        asset,
                    )[j],
                forall|j: int|
                    i <= j < self.instances@.len() ==> #[trigger] self.instances@[j] == old(
                        self,
                    ).instances@[j],
            decreases self.instances@.len() - i,
        {
            let inst = self.instances[i];
            if inst.asset == asset {
                self.instances.set(
                    i,
                    SoundInstance {
                        handle: inst.handle,
                        asset: inst.asset,
                        playing: false,
                        settings: inst.settings,
                    },
                );
            }
            i = i + 1;
        }
        assert(self.instances@ =~= silence_asset(old(self).instances@, asset));
        proof {
            lemma_silence_preserves_wf(*old(self), *self);
        }
    }

    /// Stop every playing instance, system-wide.
    pub fn stop_all_sounds(&mut self)
        requires
            old(self).wf(),
        ensures
            final(self).wf(),
            final(self).durations == old(self).durations,
            final(self).next_handle == old(self).next_handle,
            final(self).instances@ == silence_all(old(self).instances@),
    {
        let mut i: usize = 0;
        while i < self.instances.len()
            invariant
                0 <= i <= self.instances@.len(),
                self.instances@.len() == old(self).instances@.len(),
                self.durations == old(self).durations,
                self.next_handle == old(self).next_handle,
                forall|j: int|
                    0 <= j < i ==> #[trigger] self.instances@[j] == silence_all(
                        old(self).instances@,
                    )[j],
                forall|j: int|
                    i <= j < self.instances@.len() ==> #[trigger] self.instances@[j] == old(
                        self,
                    ).instances@[j],
            decreases self.instances@.len() - i,
        {
            let inst = self.instances[i];
            self.instances.set(
                i,
                SoundInstance {
                    handle: inst.handle,
                    asset: inst.asset,
                    playing: false,
                    settings: inst.settings,
                },
            );
            i = i + 1;
        }
        assert(self.instances@ =~= silence_all(old(self).instances@));
        proof {
            lemma_silence_preserves_wf(*old(self), *self);
        }
    }
}

/// Any operation that only clears playing flags — it keeps length, handles
/// and assets — preserves well-formedness.
proof fn lemma_silence_preserves_wf(pre: AudioBackend, post: AudioBackend)
    requires
        pre.wf(),
        post.instances@.len() == pre.instances@.len(),
        post.next_handle == pre.next_handle,
        forall|i: int|
            0 <= i < pre.instances@.len() ==> (#[trigger] post.instances@[i]).handle
                == pre.instances@[i].handle,
    ensures
        post.wf(),
{
}

/// Stopping by asset silences every instance of that asset, system-wide,
/// and leaves every instance of any other asset exactly as it was; no
/// instance is added, removed, or re-keyed.
pub proof fn lemma_silence_asset_stops_exactly(s: Seq<SoundInstance>, asset: u32)
    ensures
        silence_asset(s, asset).len() == s.len(),
        forall|i: int|
            0 <= i < s.len() && s[i].asset == asset ==> #[trigger] silence_asset(s, asset)[i]
                == silenced(s[i]),
        forall|i: int|
            0 <= i < s.len() && s[i].asset != asset ==> #[trigger] silence_asset(s, asset)[i]
                == s[i],
        forall|i: int|
            0 <= i < s.len() ==> ((#[trigger] silence_asset(s, asset)[i]).asset == asset
                ==> !silence_asset(s, asset)[i].playing),
{
}

/// Stopping one instance by handle silences exactly the instances bearing
/// that handle (at most one, in a well-formed backend) and no other.
pub proof fn lemma_silence_instance_stops_exactly(s: Seq<SoundInstance>, handle: u32)
    ensures
        silence_instance(s, handle).len() == s.len(),
        forall|i: int|
            0 <= i < s.len() && s[i].handle == handle ==> #[trigger] silence_instance(s, handle)[i]
                == silenced(s[i]),
        forall|i: int|
            0 <= i < s.len() && s[i].handle != handle ==> #[trigger] silence_instance(s, handle)[i]
                == s[i],
{
}

/// In a well-formed backend no two instances share a handle, so a stop
/// scoped to one tracked instance silences at most that one.
pub proof fn lemma_wf_handle_unique(b: AudioBackend, i: int, j: int)
    requires
        b.wf(),
        0 <= i < b.instances@.len(),
        0 <= j < b.instances@.len(),
        i != j,
    ensures
        b.instances@[i].handle != b.instances@[j].handle,
{
}

/// A global stop silences every instance in the system.
pub proof fn lemma_silence_all_stops_everything(s: Seq<SoundInstance>)
    ensures
        silence_all(s).len() == s.len(),
        forall|i: int| 0 <= i < s.len() ==> #[trigger] silence_all(s)[i] == silenced(s[i]),
        forall|i: int| 0 <= i < s.len() ==> !(#[trigger] silence_all(s)[i]).playing,
{
}

} // verus!
