//! The beat scheduler: the per-tick decision logic of the metronome.
//!
//! A tick is one scheduling decision point. The scheduler keeps a pair of
//! counters — the beat index and the subdivision index within the beat —
//! and decides for every tick whether it is the accented first beat of a
//! measure, a regular main beat, a subdivision click, or silent, which
//! sound to render for it, and how long to rest before the next tick.
//! Tempo is measured in centi-beats per minute (12000 stands for 120 BPM),
//! so fractional tempos are held exactly.

use vstd::prelude::*;
use crate::accent::AccentConfig;
use crate::waveform::WaveType;

verus! {

/// What kind of sound one tick calls for.
#[derive(Clone, Copy, Debug, PartialEq, Eq, Structural)]
pub enum TickKind {
    /// The emphasized first beat of a measure.
    Accent,
    /// A regular main beat.
    Regular,
    /// An intermediate click between main beats.
    Subdivision,
    /// No sound; the counters still advance.
    Silent,
}

/// The scheduler's running counter pair.
#[derive(Clone, Copy, Debug, PartialEq, Eq, Structural)]
pub struct TickState {
    /// Index of the current beat, counted from the start of playback.
    pub beat_index: u64,
    /// Index of the current subdivision within the beat.
    pub subdivision_index: u32,
}

/// One tone to render: frequency in centihertz, duration in milliseconds,
/// wave shape, and volume in per-mille of full scale.
#[derive(Clone, Copy, Debug, PartialEq, Eq, Structural)]
pub struct ToneSpec {
    /// Frequency of the tone (centihertz).
    pub frequency: u32,
    /// Duration of the tone (ms).
    pub duration: u64,
    /// Wave shape of the tone.
    pub wave: WaveType,
    /// Volume of the tone, in per-mille of full scale.
    pub volume: u32,
}

impl TickState {
    /// A state is well formed for a subdivision count when its subdivision
    /// index lies below that count.
    pub open spec fn wf(self, subdivisions: u32) -> bool {
        self.subdivision_index < subdivisions
    }

    /// The counter pair at the start of playback.
    pub fn initial() -> (s: Self)
        ensures
            s == (TickState { beat_index: 0u64, subdivision_index: 0u32 }),
    {
        TickState { beat_index: 0, subdivision_index: 0 }
    }
}

/// The decision table of the scheduler: a tick is an accent when a time
/// signature is set, the beat index is at the start of a measure, and the
/// tick is on the main beat; otherwise a regular beat when on the main
/// beat; otherwise a subdivision click when subdivisions are in use;
/// otherwise silent.
pub open spec fn tick_kind_spec(
    beats_per_measure: Option<u32>,
    subdivisions: int,
    beat_index: int,
    subdivision_index: int,
) -> TickKind {
    if (match beats_per_measure {
        Option::Some(beats) => beat_index % beats as int == 0,
        Option::None => false,
    }) && subdivision_index == 0 {
        TickKind::Accent
    } else if subdivision_index == 0 {
        TickKind::Regular
    } else if subdivisions > 1 {
        TickKind::Subdivision
    } else {
        TickKind::Silent
    }
}

/// Classifies the current tick according to the decision table.
pub fn classify_tick(
    beats_per_measure: Option<u32>,
    subdivisions: u32,
    state: &TickState,
) -> (kind: TickKind)
    requires
        (match beats_per_measure {
            Option::Some(beats) => beats >= 1,
            Option::None => true,
        }),
    ensures
        kind == tick_kind_spec(
            beats_per_measure,
            subdivisions as int,
            state.beat_index as int,
            state.subdivision_index as int,
        ),
{
    let is_accent = match beats_per_measure {
        Option::Some(beats) => state.beat_index % (beats as u64) == 0 && state.subdivision_index
            == 0,
        Option::None => false,
    };
    if is_accent {
        TickKind::Accent
    } else if state.subdivision_index == 0 {
        TickKind::Regular
    } else if subdivisions > 1 {
        TickKind::Subdivision
    } else {
        TickKind::Silent
    }
}

/// The counter pair after one tick: the subdivision index wraps modulo the
/// subdivision count, and the beat index grows by one when it wrapped.
pub open spec fn advance_spec(state: TickState, subdivisions: u32) -> TickState {
    let next_sub = ((state.subdivision_index as int + 1) % subdivisions as int) as u32;
    TickState {
        beat_index: if next_sub == 0 {
            (state.beat_index as int + 1) as u64
        } else {
            state.beat_index
        },
        subdivision_index: next_sub,
    }
}

/// Advances the counter pair by one tick.
pub fn advance(state: &TickState, subdivisions: u32) -> (next: TickState)
    requires
        subdivisions >= 1,
        state.wf(subdivisions),
        state.beat_index < u64::MAX,
    ensures
        next == advance_spec(*state, subdivisions),
        next.wf(subdivisions),
{
    let next_sub = (state.subdivision_index + 1) % subdivisions;
    TickState {
        beat_index: if next_sub == 0 {
            state.beat_index + 1
        } else {
            state.beat_index
        },
        subdivision_index: next_sub,
    }
}

/// The tick kind at tick number `n` of a run from the initial state: after
/// `n` ticks the counters stand at beat `n / subdivisions`, subdivision
/// `n % subdivisions`.
pub open spec fn tick_kind_at(beats_per_measure: Option<u32>, subdivisions: int, n: int) -> TickKind {
    tick_kind_spec(beats_per_measure, subdivisions, n / subdivisions, n % subdivisions)
}

/// The counter pair after `n` ticks from the initial state.
pub open spec fn run_state(subdivisions: u32, n: nat) -> TickState
    decreases n,
{
    if n == 0 {
        TickState { beat_index: 0u64, subdivision_index: 0u32 }
    } else {
        advance_spec(run_state(subdivisions, (n - 1) as nat), subdivisions)
    }
}

/// Justification for `tick_kind_at`: after `n` ticks from the initial
/// state the counters stand at beat `n / subdivisions`, subdivision
/// `n % subdivisions`, so `tick_kind_at` names the kind of the run's
/// `n`-th tick.
pub proof fn lemma_run_state_counts(subdivisions: u32, n: nat)
    requires
        subdivisions >= 1,
        n < u64::MAX,
    ensures
        run_state(subdivisions, n).beat_index == n as int / subdivisions as int,
        run_state(subdivisions, n).subdivision_index == n as int % subdivisions as int,
    decreases n,
{
    let s = subdivisions as int;
    if n == 0 {
        vstd::arithmetic::div_mod::lemma_div_of0(s);
        vstd::arithmetic::div_mod::lemma_small_mod(0nat, subdivisions as nat);
    } else {
        lemma_run_state_counts(subdivisions, (n - 1) as nat);
        vstd::arithmetic::div_mod::lemma_div_is_ordered(n - 1, n as int, s);
        vstd::arithmetic::div_mod::lemma_div_is_ordered_by_denominator(n as int, 1, s);
        vstd::arithmetic::div_mod::lemma_div_basics_2(n as int);
        lemma_advance_counts_ticks(run_state(subdivisions, (n - 1) as nat), subdivisions, n - 1 as int);
    }
}

/// Counting justification for `tick_kind_at`: a state whose counters stand
/// at beat `n / subdivisions`, subdivision `n % subdivisions` advances to
/// the counters of tick `n + 1`.
pub proof fn lemma_advance_counts_ticks(state: TickState, subdivisions: u32, n: int)
    requires
        subdivisions >= 1,
        n >= 0,
        state.beat_index == n / subdivisions as int,
        state.subdivision_index == n % subdivisions as int,
        n / subdivisions as int + 1 <= u64::MAX,
    ensures
        advance_spec(state, subdivisions).beat_index == (n + 1) / subdivisions as int,
        advance_spec(state, subdivisions).subdivision_index == (n + 1) % subdivisions as int,
{
    let s = subdivisions as int;
    vstd::arithmetic::div_mod::lemma_fundamental_div_mod(n, s);
    assert((n / s + 1) * s == (n / s) * s + s) by (nonlinear_arith);
    if n % s + 1 == s {
        vstd::arithmetic::div_mod::lemma_mod_self_0(s);
        vstd::arithmetic::div_mod::lemma_fundamental_div_mod_converse(n + 1, s, n / s + 1, 0);
    } else {
        vstd::arithmetic::div_mod::lemma_small_mod((n % s + 1) as nat, s as nat);
        vstd::arithmetic::div_mod::lemma_fundamental_div_mod_converse(n + 1, s, n / s, n % s + 1);
    }
}

/// In four-beat measures without subdivisions, the ticks at indices 0, 4,
/// 8, … are accents and every other tick is a regular beat.
pub proof fn lemma_common_time_pattern(n: int)
    requires
        n >= 0,
    ensures
        tick_kind_at(Option::Some(4u32), 1, n) == if n % 4 == 0 {
            TickKind::Accent
        } else {
            TickKind::Regular
        },
{
}

/// In three-beat measures with two subdivisions per beat, the six-tick
/// pattern accent, subdivision, regular, subdivision, regular, subdivision
/// repeats: tick `n` is an accent exactly at the start of a six-tick
/// measure and a subdivision on every off-beat tick.
pub proof fn lemma_waltz_subdivision_pattern(n: int)
    requires
        n >= 0,
    ensures
        tick_kind_at(Option::Some(3u32), 2, n) == if n % 6 == 0 {
            TickKind::Accent
        } else if n % 2 == 1 {
            TickKind::Subdivision
        } else {
            TickKind::Regular
        },
        tick_kind_at(Option::Some(3u32), 2, n + 6) == tick_kind_at(Option::Some(3u32), 2, n),
{
    vstd::arithmetic::div_mod::lemma_breakdown(n, 2, 3);
    vstd::arithmetic::div_mod::lemma_breakdown(n + 6, 2, 3);
}

/// Without a time signature no tick is ever classified as an accent,
/// whatever the subdivision setting and the counters hold.
pub proof fn lemma_no_measures_no_accent(
    subdivisions: int,
    beat_index: int,
    subdivision_index: int,
)
    ensures
        tick_kind_spec(Option::None, subdivisions, beat_index, subdivision_index)
            != TickKind::Accent,
{
}

/// The silent branch of the decision table is dead code: a well-formed
/// state with one subdivision per beat is always on the main beat, and with
/// more than one the subdivision branch takes precedence.
pub proof fn lemma_silent_tick_unreachable(
    beats_per_measure: Option<u32>,
    subdivisions: u32,
    state: TickState,
)
    requires
        subdivisions >= 1,
        state.wf(subdivisions),
    ensures
        tick_kind_spec(
            beats_per_measure,
            subdivisions as int,
            state.beat_index as int,
            state.subdivision_index as int,
        ) != TickKind::Silent,
{
}

/// The sound one tick kind calls for under a given configuration: accents
/// and regular beats play at full volume, subdivision clicks at the
/// configured subdivision volume, and a silent tick plays nothing.
pub open spec fn tick_sound_spec(config: AccentConfig, kind: TickKind) -> Option<ToneSpec> {
    match kind {
        TickKind::Accent => Option::Some(
            ToneSpec {
                frequency: config.accent_frequency,
                duration: config.accent_duration,
                wave: config.accent_wave_type,
                volume: 1000u32,
            },
        ),
        TickKind::Regular => Option::Some(
            ToneSpec {
                frequency: config.regular_frequency,
                duration: config.regular_duration,
                wave: config.regular_wave_type,
                volume: 1000u32,
            },
        ),
        TickKind::Subdivision => Option::Some(
            ToneSpec {
                frequency: config.subdivision_frequency,
                duration: config.subdivision_duration,
                wave: config.subdivision_wave_type,
                volume: config.subdivision_volume,
            },
        ),
        TickKind::Silent => Option::None,
    }
}

/// Picks the sound for one tick kind.
pub fn tick_sound(config: &AccentConfig, kind: TickKind) -> (tone: Option<ToneSpec>)
    ensures
        tone == tick_sound_spec(*config, kind),
{
    match kind {
        TickKind::Accent => Option::Some(
            ToneSpec {
                frequency: config.accent_frequency,
                duration: config.accent_duration,
                wave: config.accent_wave_type,
                volume: 1000,
            },
        ),
        TickKind::Regular => Option::Some(
            ToneSpec {
                frequency: config.regular_frequency,
                duration: config.regular_duration,
                wave: config.regular_wave_type,
                volume: 1000,
            },
        ),
        TickKind::Subdivision => Option::Some(
            ToneSpec {
                frequency: config.subdivision_frequency,
                duration: config.subdivision_duration,
                wave: config.subdivision_wave_type,
                volume: config.subdivision_volume,
            },
        ),
        TickKind::Silent => Option::None,
    }
}

/// Nominal duration of one beat in milliseconds at a tempo in centi-beats
/// per minute, truncated: `60000 / bpm` with the tempo held as `bpm * 100`.
pub open spec fn beat_period_spec(bpm_centi: int) -> int {
    6000000int / bpm_centi
}

/// Nominal duration of one tick: the beat period split evenly (truncating)
/// over the subdivisions.
pub open spec fn tick_period_spec(bpm_centi: int, subdivisions: int) -> int {
    beat_period_spec(bpm_centi) / subdivisions
}

/// Computes the nominal beat period in milliseconds.
pub fn beat_period_ms(bpm_centi: u32) -> (ms: u64)
    requires
        bpm_centi >= 1,
    ensures
        ms == beat_period_spec(bpm_centi as int),
{
    6000000u64 / (bpm_centi as u64)
}

/// Computes the nominal tick period in milliseconds.
pub fn tick_period_ms(bpm_centi: u32, subdivisions: u32) -> (ms: u64)
    requires
        bpm_centi >= 1,
        subdivisions >= 1,
    ensures
        ms == tick_period_spec(bpm_centi as int, subdivisions as int),
{
    beat_period_ms(bpm_centi) / (subdivisions as u64)
}

/// Time to rest after rendering a tone: the residual of the tick period
/// beyond the tone's duration, and never negative.
pub open spec fn rest_spec(tick_period: int, tone_duration: int) -> int {
    if tone_duration >= tick_period {
        0
    } else {
        tick_period - tone_duration
    }
}

/// Computes the rest after a tone.
pub fn rest_after_tone(tick_period: u64, tone_duration: u64) -> (ms: u64)
    ensures
        ms == rest_spec(tick_period as int, tone_duration as int),
{
    if tone_duration >= tick_period {
        0
    } else {
        tick_period - tone_duration
    }
}

/// One full scheduling step: classifies the current tick, picks its sound,
/// advances the counters, and computes the rest before the next tick. A
/// silent tick rests for nothing, as no tone consumes any of its period.
pub fn scheduler_step(
    bpm_centi: u32,
    beats_per_measure: Option<u32>,
    config: &AccentConfig,
    state: &TickState,
) -> (r: (Option<ToneSpec>, TickState, u64))
    requires
        bpm_centi >= 1,
        config.wf(),
        (match beats_per_measure {
            Option::Some(beats) => beats >= 1,
            Option::None => true,
        }),
        state.wf(config.subdivisions),
        state.beat_index < u64::MAX,
    ensures
        r.0 == tick_sound_spec(
            *config,
            tick_kind_spec(
                beats_per_measure,
                config.subdivisions as int,
                state.beat_index as int,
                state.subdivision_index as int,
            ),
        ),
        r.1 == advance_spec(*state, config.subdivisions),
        r.1.wf(config.subdivisions),
        r.2 == (match r.0 {
            Option::Some(tone) => rest_spec(
                tick_period_spec(bpm_centi as int, config.subdivisions as int),
                tone.duration as int,
            ),
            Option::None => 0int,
        }),
{
    let kind = classify_tick(beats_per_measure, config.subdivisions, state);
    let tone = tick_sound(config, kind);
    let next = advance(state, config.subdivisions);
    let rest = match tone {
        Option::Some(t) => rest_after_tone(
            tick_period_ms(bpm_centi, config.subdivisions),
            t.duration,
        ),
        Option::None => 0,
    };
    (tone, next, rest)
}

} // verus!
