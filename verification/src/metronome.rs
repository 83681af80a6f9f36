//! The metronome entity and the playback registry.
//!
//! A [`Metronome`] is plain data: tempo in centi-beats per minute, an
//! optional time signature, an accent configuration, the sample rate and
//! channel count of the output it was resolved against, and a
//! process-unique identity. The [`Registry`] is the arbiter that keeps at
//! most one metronome audible at a time: starting a metronome preempts the
//! registered holder, and a metronome counts as playing exactly while it is
//! the registered holder.
//!
//! The surrounding application owns the registry (behind its lock), opens
//! the audio device, runs each metronome's tick loop on its own thread, and
//! mirrors the registry's playing verdicts in the shared running flags that
//! those loops poll; the preempted holder's loop observes its cleared flag
//! at its next tick boundary, so both may sound for at most one tick period.

use vstd::prelude::*;
use crate::accent::AccentConfig;

verus! {

/// A metronome that can play at a specified tempo with optional measure
/// accents. The tempo is in centi-beats per minute (12000 stands for
/// 120 BPM).
#[derive(Clone, Copy, Debug, PartialEq, Eq, Structural)]
pub struct Metronome {
    /// Tempo in centi-beats per minute.
    pub bpm: u32,
    /// Optional beats per measure; `None` disables accenting.
    pub beats_per_measure: Option<u32>,
    /// The accent configuration snapshot this metronome plays with.
    pub accent_config: AccentConfig,
    /// Sample rate of the resolved output target (samples per second).
    pub sample_rate: u32,
    /// Channel count of the resolved output target.
    pub channels: u16,
    /// Process-unique identity, assigned by the registry.
    pub id: u64,
}

/// The playback arbiter: holds at most one current metronome and hands out
/// fresh identities.
#[derive(Clone, Copy, Debug, PartialEq, Eq, Structural)]
pub struct Registry {
    /// The registered holder, if any.
    pub current: Option<Metronome>,
    /// The next identity to hand out; grows monotonically.
    pub next_id: u64,
}

impl Metronome {
    /// A metronome is well formed when its tempo is positive, its time
    /// signature (when set) has at least one beat per measure, its accent
    /// configuration is well formed, and its output target has a positive
    /// sample rate and at least one channel.
    pub open spec fn wf(self) -> bool {
        &&& self.bpm >= 1
        &&& (match self.beats_per_measure {
            Option::Some(beats) => beats >= 1,
            Option::None => true,
        })
        &&& self.accent_config.wf()
        &&& self.sample_rate >= 1
        &&& self.channels >= 1
    }

    /// The tempo of this metronome (centi-beats per minute).
    pub open spec fn spec_bpm(self) -> u32 {
        self.bpm
    }

    /// The time signature of this metronome, if any.
    pub open spec fn spec_beats_per_measure(self) -> Option<u32> {
        self.beats_per_measure
    }

    /// The accent configuration of this metronome.
    pub open spec fn spec_accent_config(self) -> AccentConfig {
        self.accent_config
    }

    /// The sample rate of the output this metronome renders for.
    pub open spec fn spec_sample_rate(self) -> u32 {
        self.sample_rate
    }

    /// The channel count of the output this metronome renders for.
    pub open spec fn spec_channels(self) -> u16 {
        self.channels
    }

    /// The process-unique identity of this metronome.
    pub open spec fn spec_id(self) -> u64 {
        self.id
    }

    /// Creates a new metronome against an already resolved output target,
    /// described by its sample rate and channel count, under a fresh
    /// identity drawn from the registry. Uses the default accent
    /// configuration.
    pub fn with_device_config(
        bpm: u32,
        beats_per_measure: Option<u32>,
        sample_rate: u32,
        channels: u16,
        registry: &mut Registry,
    ) -> (m: Self)
        requires
            bpm >= 1,
            (match beats_per_measure {
                Option::Some(beats) => beats >= 1,
                Option::None => true,
            }),
            sample_rate >= 1,
            channels >= 1,
            old(registry).wf(),
            old(registry).spec_next_id() < u64::MAX,
        ensures
            m == (Metronome {
                bpm,
                beats_per_measure,
                accent_config: AccentConfig::default_spec(),
                sample_rate,
                channels,
                id: old(registry).spec_next_id(),
            }),
            m.wf(),
            *final(registry) == old(registry).with_next_id_drawn(),
            final(registry).wf(),
    {
        let id = registry.fresh_id();
        Metronome {
            bpm,
            beats_per_measure,
            accent_config: AccentConfig::default(),
            sample_rate,
            channels,
            id,
        }
    }

    /// Gets the current tempo (centi-beats per minute).
    pub fn bpm(&self) -> (bpm: u32)
        ensures
            bpm == self.spec_bpm(),
    {
        self.bpm
    }

    /// Sets the tempo (centi-beats per minute).
    pub fn set_bpm(&mut self, bpm: u32)
        requires
            bpm >= 1,
        ensures
            *final(self) == (Metronome { bpm, ..*old(self) }),
    {
        self.bpm = bpm;
    }

    /// Gets the beats per measure.
    pub fn beats_per_measure(&self) -> (beats: Option<u32>)
        ensures
            beats == self.spec_beats_per_measure(),
    {
        self.beats_per_measure
    }

    /// Sets the beats per measure.
    pub fn set_beats_per_measure(&mut self, beats_per_measure: Option<u32>)
        requires
            (match beats_per_measure {
                Option::Some(beats) => beats >= 1,
                Option::None => true,
            }),
        ensures
            *final(self) == (Metronome { beats_per_measure, ..*old(self) }),
    {
        self.beats_per_measure = beats_per_measure;
    }

    /// Gets the accent configuration.
    pub fn accent_config(&self) -> (config: &AccentConfig)
        ensures
            config == self.spec_accent_config(),
    {
        &self.accent_config
    }

    /// Sets the accent configuration.
    pub fn set_accent_config(&mut self, accent_config: AccentConfig)
        requires
            accent_config.wf(),
        ensures
            *final(self) == (Metronome { accent_config, ..*old(self) }),
    {
        self.accent_config = accent_config;
    }

    /// Checks whether this metronome is the one the registry is playing.
    pub fn is_playing(&self, registry: &Registry) -> (playing: bool)
        ensures
            playing == registry.spec_playing(self.spec_id()),
    {
        match registry.current_ref() {
            Option::Some(m) => m.id == self.id,
            Option::None => false,
        }
    }

    /// Starts this metronome: preempts whatever metronome the registry
    /// holds and registers this one in its place. Returns the identity of
    /// the preempted holder, if any, so that the caller can clear that
    /// holder's running flag. After the call this metronome is the one
    /// playing, and no other is.
    pub fn start(&self, registry: &mut Registry) -> (prev: Option<u64>)
        requires
            self.wf(),
            old(registry).wf(),
            self.spec_id() < old(registry).spec_next_id(),
        ensures
            prev == old(registry).spec_current_id(),
            *final(registry) == old(registry).with_current(*self),
            final(registry).wf(),
            final(registry).spec_playing(self.spec_id()),
            forall|other: u64|
                other != self.spec_id() ==> !final(registry).spec_playing(other),
    {
        let prev = match registry.current_ref() {
            Option::Some(m) => Option::Some(m.id),
            Option::None => Option::None,
        };
        registry.set_current(*self);
        prev
    }

    /// Stops this metronome. When it is the registered holder the registry
    /// is cleared; a metronome that is not the holder is not playing in any
    /// case, so after the call this metronome is never playing, and any
    /// other holder is untouched.
    pub fn stop(&self, registry: &mut Registry)
        ensures
            *final(registry) == (if old(registry).spec_current_id() == Option::Some(self.spec_id()) {
                old(registry).with_current_cleared()
            } else {
                *old(registry)
            }),
            !final(registry).spec_playing(self.spec_id()),
    {
        let matches_self = match registry.current_ref() {
            Option::Some(m) => m.id == self.id,
            Option::None => false,
        };
        if matches_self {
            registry.clear_current();
        }
    }
}

impl Registry {
    /// The registered holder, if any.
    pub open spec fn spec_current(self) -> Option<Metronome> {
        self.current
    }

    /// The identity of the registered holder, if any.
    pub open spec fn spec_current_id(self) -> Option<u64> {
        match self.current {
            Option::Some(m) => Option::Some(m.id),
            Option::None => Option::None,
        }
    }

    /// The next identity the registry will hand out.
    pub open spec fn spec_next_id(self) -> u64 {
        self.next_id
    }

    /// Whether the metronome with the given identity is playing: exactly
    /// the registered holder is.
    pub open spec fn spec_playing(self, id: u64) -> bool {
        self.spec_current_id() == Option::Some(id)
    }

    /// A registry is well formed when its holder, if any, is well formed
    /// and carries an identity the registry has already handed out.
    pub open spec fn wf(self) -> bool {
        match self.current {
            Option::Some(m) => m.wf() && m.id < self.next_id,
            Option::None => true,
        }
    }

    /// This registry with the next identity consumed.
    pub open spec fn with_next_id_drawn(self) -> Registry {
        Registry { current: self.current, next_id: (self.next_id + 1) as u64 }
    }

    /// This registry with the given metronome as holder.
    pub open spec fn with_current(self, m: Metronome) -> Registry {
        Registry { current: Option::Some(m), next_id: self.next_id }
    }

    /// This registry with no holder.
    pub open spec fn with_current_cleared(self) -> Registry {
        Registry { current: Option::None, next_id: self.next_id }
    }

    /// Creates an empty registry: no holder, identities from zero.
    pub fn new() -> (registry: Self)
        ensures
            registry == (Registry { current: Option::None::<Metronome>, next_id: 0u64 }),
            registry.wf(),
    {
        Registry { current: Option::None, next_id: 0 }
    }

    /// Draws a fresh metronome identity; each call returns a larger
    /// identity than every earlier one.
    pub fn fresh_id(&mut self) -> (id: u64)
        requires
            old(self).spec_next_id() < u64::MAX,
        ensures
            id == old(self).spec_next_id(),
            *final(self) == old(self).with_next_id_drawn(),
    {
        let id = self.next_id;
        self.next_id = self.next_id + 1;
        id
    }

    /// The registered holder, if any.
    pub fn current_ref(&self) -> (current: Option<&Metronome>)
        ensures
            (match current {
                Option::Some(m) => self.spec_current() == Option::Some(*m),
                Option::None => self.spec_current() is None,
            }),
    {
        self.current.as_ref()
    }

    /// Registers the given metronome as holder.
    pub fn set_current(&mut self, m: Metronome)
        requires
            m.wf(),
            m.spec_id() < old(self).spec_next_id(),
        ensures
            *final(self) == old(self).with_current(m),
    {
        self.current = Option::Some(m);
    }

    /// Clears the holder.
    pub fn clear_current(&mut self)
        ensures
            *final(self) == old(self).with_current_cleared(),
    {
        self.current = Option::None;
    }
}

/// Stops whatever metronome is currently registered: clears the registry
/// and returns the identity of the cleared holder, if any, so that the
/// caller can clear that holder's running flag. With no holder this is a
/// no-op.
pub fn stop_global_metronome(registry: &mut Registry) -> (prev: Option<u64>)
    ensures
        prev == old(registry).spec_current_id(),
        *final(registry) == old(registry).with_current_cleared(),
        forall|id: u64| !final(registry).spec_playing(id),
{
    let prev = match registry.current_ref() {
        Option::Some(m) => Option::Some(m.id),
        Option::None => Option::None,
    };
    registry.clear_current();
    prev
}

/// Gets a copy of the currently registered metronome, if any.
pub fn get_global_metronome(registry: &Registry) -> (current: Option<Metronome>)
    ensures
        current == registry.spec_current(),
{
    match registry.current_ref() {
        Option::Some(m) => Option::Some(*m),
        Option::None => Option::None,
    }
}

/// What every convenience starter guarantees: it built the metronome `m`
/// with the given tempo, time signature and accent configuration against
/// the given output target, under the registry's next identity, and
/// registered it as the playing holder, handing back the identity of the
/// preempted holder.
pub open spec fn started_metronome(
    registry_before: Registry,
    registry_after: Registry,
    m: Metronome,
    prev: Option<u64>,
    bpm: u32,
    beats_per_measure: Option<u32>,
    accent_config: AccentConfig,
    sample_rate: u32,
    channels: u16,
) -> bool {
    &&& m == (Metronome {
        bpm,
        beats_per_measure,
        accent_config,
        sample_rate,
        channels,
        id: registry_before.spec_next_id(),
    })
    &&& prev == registry_before.spec_current_id()
    &&& registry_after == registry_before.with_next_id_drawn().with_current(m)
    &&& registry_after.spec_playing(m.spec_id())
}

/// Creates and starts a simple metronome without accents.
pub fn start_simple_metronome(
    bpm: u32,
    sample_rate: u32,
    channels: u16,
    registry: &mut Registry,
) -> (r: (Metronome, Option<u64>))
    requires
        bpm >= 1,
        sample_rate >= 1,
        channels >= 1,
        old(registry).wf(),
        old(registry).spec_next_id() < u64::MAX,
    ensures
        started_metronome(
            *old(registry),
            *final(registry),
            r.0,
            r.1,
            bpm,
            Option::None,
            AccentConfig::default_spec(),
            sample_rate,
            channels,
        ),
        r.0.wf(),
        final(registry).wf(),
{
    let m = Metronome::with_device_config(bpm, Option::None, sample_rate, channels, registry);
    let prev = m.start(registry);
    (m, prev)
}

/// Creates and starts a metronome with a time signature: the first beat of
/// each measure is accented.
pub fn start_metronome_with_time_signature(
    bpm: u32,
    beats_per_measure: u32,
    sample_rate: u32,
    channels: u16,
    registry: &mut Registry,
) -> (r: (Metronome, Option<u64>))
    requires
        bpm >= 1,
        beats_per_measure >= 1,
        sample_rate >= 1,
        channels >= 1,
        old(registry).wf(),
        old(registry).spec_next_id() < u64::MAX,
    ensures
        started_metronome(
            *old(registry),
            *final(registry),
            r.0,
            r.1,
            bpm,
            Option::Some(beats_per_measure),
            AccentConfig::default_spec(),
            sample_rate,
            channels,
        ),
        r.0.wf(),
        final(registry).wf(),
{
    let m = Metronome::with_device_config(
        bpm,
        Option::Some(beats_per_measure),
        sample_rate,
        channels,
        registry,
    );
    let prev = m.start(registry);
    (m, prev)
}

/// Creates and starts a metronome with a custom accent configuration.
pub fn start_custom_metronome(
    bpm: u32,
    beats_per_measure: Option<u32>,
    accent_config: AccentConfig,
    sample_rate: u32,
    channels: u16,
    registry: &mut Registry,
) -> (r: (Metronome, Option<u64>))
    requires
        bpm >= 1,
        (match beats_per_measure {
            Option::Some(beats) => beats >= 1,
            Option::None => true,
        }),
        accent_config.wf(),
        sample_rate >= 1,
        channels >= 1,
        old(registry).wf(),
        old(registry).spec_next_id() < u64::MAX,
    ensures
        started_metronome(
            *old(registry),
            *final(registry),
            r.0,
            r.1,
            bpm,
            beats_per_measure,
            accent_config,
            sample_rate,
            channels,
        ),
        r.0.wf(),
        final(registry).wf(),
{
    let mut m = Metronome::with_device_config(
        bpm,
        beats_per_measure,
        sample_rate,
        channels,
        registry,
    );
    m.set_accent_config(accent_config);
    let prev = m.start(registry);
    (m, prev)
}

/// Creates and starts a practice metronome with subtle accents.
pub fn start_practice_metronome(
    bpm: u32,
    beats_per_measure: u32,
    sample_rate: u32,
    channels: u16,
    registry: &mut Registry,
) -> (r: (Metronome, Option<u64>))
    requires
        bpm >= 1,
        beats_per_measure >= 1,
        sample_rate >= 1,
        channels >= 1,
        old(registry).wf(),
        old(registry).spec_next_id() < u64::MAX,
    ensures
        started_metronome(
            *old(registry),
            *final(registry),
            r.0,
            r.1,
            bpm,
            Option::Some(beats_per_measure),
            AccentConfig::subtle_spec(),
            sample_rate,
            channels,
        ),
        r.0.wf(),
        final(registry).wf(),
{
    start_custom_metronome(
        bpm,
        Option::Some(beats_per_measure),
        AccentConfig::subtle(),
        sample_rate,
        channels,
        registry,
    )
}

/// Creates and starts a performance metronome with strong accents.
pub fn start_performance_metronome(
    bpm: u32,
    beats_per_measure: u32,
    sample_rate: u32,
    channels: u16,
    registry: &mut Registry,
) -> (r: (Metronome, Option<u64>))
    requires
        bpm >= 1,
        beats_per_measure >= 1,
        sample_rate >= 1,
        channels >= 1,
        old(registry).wf(),
        old(registry).spec_next_id() < u64::MAX,
    ensures
        started_metronome(
            *old(registry),
            *final(registry),
            r.0,
            r.1,
            bpm,
            Option::Some(beats_per_measure),
            AccentConfig::strong_spec(),
            sample_rate,
            channels,
        ),
        r.0.wf(),
        final(registry).wf(),
{
    start_custom_metronome(
        bpm,
        Option::Some(beats_per_measure),
        AccentConfig::strong(),
        sample_rate,
        channels,
        registry,
    )
}

/// Creates and starts a metronome with eighth note subdivisions (2 per
/// beat).
pub fn start_metronome_with_eighth_notes(
    bpm: u32,
    beats_per_measure: Option<u32>,
    sample_rate: u32,
    channels: u16,
    registry: &mut Registry,
) -> (r: (Metronome, Option<u64>))
    requires
        bpm >= 1,
        (match beats_per_measure {
            Option::Some(beats) => beats >= 1,
            Option::None => true,
        }),
        sample_rate >= 1,
        channels >= 1,
        old(registry).wf(),
        old(registry).spec_next_id() < u64::MAX,
    ensures
        started_metronome(
            *old(registry),
            *final(registry),
            r.0,
            r.1,
            bpm,
            beats_per_measure,
            AccentConfig::with_eighth_notes_spec(),
            sample_rate,
            channels,
        ),
        r.0.wf(),
        final(registry).wf(),
{
    start_custom_metronome(
        bpm,
        beats_per_measure,
        AccentConfig::with_eighth_notes(),
        sample_rate,
        channels,
        registry,
    )
}

/// Creates and starts a metronome with sixteenth note subdivisions (4 per
/// beat).
pub fn start_metronome_with_sixteenth_notes(
    bpm: u32,
    beats_per_measure: Option<u32>,
    sample_rate: u32,
    channels: u16,
    registry: &mut Registry,
) -> (r: (Metronome, Option<u64>))
    requires
        bpm >= 1,
        (match beats_per_measure {
            Option::Some(beats) => beats >= 1,
            Option::None => true,
        }),
        sample_rate >= 1,
        channels >= 1,
        old(registry).wf(),
        old(registry).spec_next_id() < u64::MAX,
    ensures
        started_metronome(
            *old(registry),
            *final(registry),
            r.0,
            r.1,
            bpm,
            beats_per_measure,
            AccentConfig::with_sixteenth_notes_spec(),
            sample_rate,
            channels,
        ),
        r.0.wf(),
        final(registry).wf(),
{
    start_custom_metronome(
        bpm,
        beats_per_measure,
        AccentConfig::with_sixteenth_notes(),
        sample_rate,
        channels,
        registry,
    )
}

/// Creates and starts a metronome with triplet subdivisions (3 per beat).
pub fn start_metronome_with_triplets(
    bpm: u32,
    beats_per_measure: Option<u32>,
    sample_rate: u32,
    channels: u16,
    registry: &mut Registry,
) -> (r: (Metronome, Option<u64>))
    requires
        bpm >= 1,
        (match beats_per_measure {
            Option::Some(beats) => beats >= 1,
            Option::None => true,
        }),
        sample_rate >= 1,
        channels >= 1,
        old(registry).wf(),
        old(registry).spec_next_id() < u64::MAX,
    ensures
        started_metronome(
            *old(registry),
            *final(registry),
            r.0,
            r.1,
            bpm,
            beats_per_measure,
            AccentConfig::with_triplets_spec(),
            sample_rate,
            channels,
        ),
        r.0.wf(),
        final(registry).wf(),
{
    start_custom_metronome(
        bpm,
        beats_per_measure,
        AccentConfig::with_triplets(),
        sample_rate,
        channels,
        registry,
    )
}

/// Creates and starts a metronome with a custom number of subdivisions per
/// beat at the given subdivision volume (per-mille of full scale), clicking
/// at 330 Hz.
pub fn start_metronome_with_subdivisions(
    bpm: u32,
    beats_per_measure: Option<u32>,
    subdivisions: u32,
    subdivision_volume: u32,
    sample_rate: u32,
    channels: u16,
    registry: &mut Registry,
) -> (r: (Metronome, Option<u64>))
    requires
        bpm >= 1,
        (match beats_per_measure {
            Option::Some(beats) => beats >= 1,
            Option::None => true,
        }),
        subdivisions >= 1,
        subdivision_volume <= 1000,
        sample_rate >= 1,
        channels >= 1,
        old(registry).wf(),
        old(registry).spec_next_id() < u64::MAX,
    ensures
        started_metronome(
            *old(registry),
            *final(registry),
            r.0,
            r.1,
            bpm,
            beats_per_measure,
            AccentConfig::with_custom_subdivisions_spec(subdivisions, 33000u32, subdivision_volume),
            sample_rate,
            channels,
        ),
        r.0.wf(),
        final(registry).wf(),
{
    let config = AccentConfig::with_custom_subdivisions(subdivisions, 33000, subdivision_volume);
    start_custom_metronome(bpm, beats_per_measure, config, sample_rate, channels, registry)
}

/// At most one metronome is playing at any time: two playing identities
/// are the same identity.
pub proof fn lemma_at_most_one_playing(registry: Registry, first: u64, second: u64)
    requires
        registry.spec_playing(first),
        registry.spec_playing(second),
    ensures
        first == second,
{
}

/// Starting one metronome while another is playing preempts it: afterwards
/// the newly started metronome is playing and the previous one is not, and
/// the previous holder is exactly the one handed back for stopping.
pub proof fn lemma_start_preempts(registry: Registry, previous: Metronome, started: Metronome)
    requires
        registry.spec_playing(previous.spec_id()),
        previous.spec_id() != started.spec_id(),
    ensures
        registry.with_current(started).spec_playing(started.spec_id()),
        !registry.with_current(started).spec_playing(previous.spec_id()),
        registry.spec_current_id() == Option::Some(previous.spec_id()),
{
}

/// Stopping all metronomes when none is registered is a no-op: the registry
/// is unchanged and nothing is handed back for stopping.
pub proof fn lemma_stop_all_idempotent(registry: Registry)
    requires
        registry.spec_current() is None,
    ensures
        registry.with_current_cleared() == registry,
        registry.spec_current_id() is None,
{
}

} // verus!
