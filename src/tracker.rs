use vstd::prelude::*;
use crate::hop::{hop_completes, next_cursor, HopAccumulator};
use crate::mapping::{cc_value, note_to_cc};

verus! {

/// What the pitch estimator made of one analysis window.
#[derive(PartialEq, Eq, Structural, Clone, Copy, Debug)]
pub enum PitchEstimate {
    /// A fundamental was found; the note it plays, in cents.
    Found(i32),
    /// No pitch could be told with confidence (silence, noise, ...).
    NotFound,
}

/// Whether the pitch estimator could be constructed.
#[derive(PartialEq, Eq, Structural, Clone, Copy, Debug)]
pub enum EstimatorState {
    /// It was built and is run on every completed hop.
    Initialized,
    /// Building it failed; it is never run and no event is ever sent.
    Failed,
}

/// A MIDI continuous-controller message, `timing` samples into the block.
#[derive(PartialEq, Eq, Structural, Clone, Copy, Debug)]
pub struct MidiCc {
    pub timing: u32,
    pub channel: u8,
    pub cc: u8,
    pub value: u8,
}

/// Tracks the pitch of a mono stream and turns it into controller events.
///
/// Samples are fed one at a time with [`Tracker::step`]; when it answers
/// `true` the caller runs the estimator on [`Tracker::window`] and hands the
/// outcome to [`Tracker::event_for`], which says what event, if any, to send.
pub struct Tracker<T> {
    hop: HopAccumulator<T>,
    estimator: EstimatorState,
    note_min: i32,
    note_max: i32,
    channel: u8,
    cc: u8,
}

impl<T> Tracker<T> {
    /// The accumulator is well formed, the note range is not empty and the
    /// channel is one of the sixteen.
    pub closed spec fn well_formed(&self) -> bool {
        &&& self.hop.well_formed()
        &&& self.note_min < self.note_max
        &&& self.channel < 16
    }

    pub closed spec fn estimator(&self) -> EstimatorState {
        self.estimator
    }

    /// The note, in cents, that maps to controller value 0.
    pub closed spec fn note_min(&self) -> int {
        self.note_min as int
    }

    /// The note, in cents, that maps to controller value 127.
    pub closed spec fn note_max(&self) -> int {
        self.note_max as int
    }

    pub closed spec fn channel(&self) -> u8 {
        self.channel
    }

    pub closed spec fn controller(&self) -> u8 {
        self.cc
    }

    pub closed spec fn hop(&self) -> HopAccumulator<T> {
        self.hop
    }

    /// Whether the next sample completes a hop that the estimator will be
    /// run on.
    pub open spec fn analysis_due(&self) -> bool {
        hop_completes(self.hop().cursor(), self.hop().hop_size())
            && self.estimator() == EstimatorState::Initialized
    }

    /// The event that `estimate`, made on a hop completed `timing` samples
    /// into the block, calls for.
    pub open spec fn event_of(&self, estimate: PitchEstimate, timing: u32) -> Option<MidiCc> {
        match (self.estimator(), estimate) {
            (EstimatorState::Initialized, PitchEstimate::Found(note)) => Some(
                MidiCc {
                    timing,
                    channel: self.channel(),
                    cc: self.controller(),
                    value: cc_value(note as int, self.note_min(), self.note_max()) as u8,
                },
            ),
            _ => None,
        }
    }
}

impl<T: Copy> Tracker<T> {
    /// A tracker with an analysis window of `window_size` copies of `fill`,
    /// analysed every `hop_size` samples, mapping notes from `note_min` to
    /// `note_max` (in cents) onto controller `cc` of `channel`.
    pub fn new(
        window_size: usize,
        hop_size: usize,
        fill: T,
        estimator: EstimatorState,
        note_min: i32,
        note_max: i32,
        channel: u8,
        cc: u8,
    ) -> (r: Self)
        requires
            0 < hop_size <= window_size,
            note_min < note_max,
            channel < 16,
        ensures
            r.well_formed(),
            r.hop().window() == Seq::new(window_size as nat, |_i: int| fill),
            r.hop().cursor() == 0,
            r.hop().hop_size() == hop_size,
            r.estimator() == estimator,
            r.note_min() == note_min,
            r.note_max() == note_max,
            r.channel() == channel,
            r.controller() == cc,
    {
        Tracker {
            hop: HopAccumulator::new(window_size, hop_size, fill),
            estimator,
            note_min,
            note_max,
            channel,
            cc,
        }
    }

    /// Feeds one sample. Returns whether the estimator is to be run on the
    /// window now: a hop was completed and the estimator is usable.
    pub fn step(&mut self, sample: T) -> (analyze: bool)
        requires
            old(self).well_formed(),
        ensures
            final(self).well_formed(),
            analyze == old(self).analysis_due(),
            final(self).hop().cursor() == next_cursor(
                old(self).hop().cursor(),
                old(self).hop().hop_size(),
            ),
            final(self).hop().hop_size() == old(self).hop().hop_size(),
            final(self).hop().window() == old(self).hop().window().update(
                old(self).hop().cursor() as int,
                sample,
            ),
            final(self).estimator() == old(self).estimator(),
            final(self).note_min() == old(self).note_min(),
            final(self).note_max() == old(self).note_max(),
            final(self).channel() == old(self).channel(),
            final(self).controller() == old(self).controller(),
    {
        let ready = self.hop.push(sample);
        ready && self.estimator == EstimatorState::Initialized
    }

    /// The event to send for `estimate`, made on a hop completed `timing`
    /// samples into the block: none when no pitch was found or the estimator
    /// failed, else the note's controller value on the tracker's channel and
    /// controller.
    pub fn event_for(&self, estimate: PitchEstimate, timing: u32) -> (r: Option<MidiCc>)
        requires
            self.well_formed(),
        ensures
            r == self.event_of(estimate, timing),
    {
        match (self.estimator, estimate) {
            (EstimatorState::Initialized, PitchEstimate::Found(note)) => {
                let value = note_to_cc(note, self.note_min, self.note_max);
                Some(MidiCc { timing, channel: self.channel, cc: self.cc, value })
            },
            _ => None,
        }
    }

    /// Starts a new stream: the pending hop is dropped. The window's contents
    /// and the estimator are left as they are.
    pub fn reset(&mut self)
        requires
            old(self).well_formed(),
        ensures
            final(self).well_formed(),
            final(self).hop().cursor() == 0,
            final(self).hop().hop_size() == old(self).hop().hop_size(),
            final(self).hop().window() == old(self).hop().window(),
            final(self).estimator() == old(self).estimator(),
            final(self).note_min() == old(self).note_min(),
            final(self).note_max() == old(self).note_max(),
            final(self).channel() == old(self).channel(),
            final(self).controller() == old(self).controller(),
    {
        self.hop.reset();
    }

    /// The analysis window to run the estimator on.
    pub fn window(&self) -> (r: &Vec<T>)
        ensures
            r@ == self.hop().window(),
    {
        self.hop.window_samples()
    }
}

/// Every event lies in range: a channel below 16 and a value in `[0, 127]`,
/// the note's mapped value.
pub proof fn lemma_events_in_range<T>(t: Tracker<T>, estimate: PitchEstimate, timing: u32)
    requires
        t.well_formed(),
    ensures
        t.event_of(estimate, timing) matches Some(e) ==> {
            &&& e.channel < 16
            &&& 0 <= e.value <= 127
            &&& estimate matches PitchEstimate::Found(note)
            &&& e.value == cc_value(note as int, t.note_min(), t.note_max())
            &&& e.timing == timing
        },
{
    if let PitchEstimate::Found(note) = estimate {
        crate::utils::lemma_clamp_in_range(
            crate::mapping::scaled(note as int, t.note_min(), t.note_max()),
            0,
            127,
        );
    }
}

/// A hop on which no pitch was found sends nothing.
pub proof fn lemma_no_pitch_no_event<T>(t: Tracker<T>, timing: u32)
    ensures
        t.event_of(PitchEstimate::NotFound, timing) is None,
{
}

/// A tracker whose estimator failed stays silent: it never asks for an
/// analysis and no estimate makes it send an event, and stepping it keeps
/// the estimator failed, so this holds for the rest of any stream.
pub proof fn lemma_failed_estimator_is_silent<T>(
    t: Tracker<T>,
    estimate: PitchEstimate,
    timing: u32,
)
    requires
        t.estimator() == EstimatorState::Failed,
    ensures
        !t.analysis_due(),
        t.event_of(estimate, timing) is None,
{
}

} // verus!
