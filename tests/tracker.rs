use aeolus::mapping::{DEFAULT_NOTE_MAX, DEFAULT_NOTE_MIN};
use aeolus::tracker::{EstimatorState, MidiCc, PitchEstimate, Tracker};

fn tracker(estimator: EstimatorState) -> Tracker<i32> {
    Tracker::new(8, 4, 0, estimator, DEFAULT_NOTE_MIN, DEFAULT_NOTE_MAX, 0, 1)
}

#[test]
fn analysis_due_once_per_hop() {
    let mut t = tracker(EstimatorState::Initialized);
    let due: Vec<bool> = (0..8).map(|i| t.step(i)).collect();
    assert_eq!(due, vec![false, false, false, true, false, false, false, true]);
    assert_eq!(t.window(), &vec![4, 5, 6, 7, 0, 0, 0, 0]);
}

#[test]
fn found_pitch_gives_one_event() {
    let t = tracker(EstimatorState::Initialized);
    assert_eq!(
        t.event_for(PitchEstimate::Found(6900), 17),
        Some(MidiCc { timing: 17, channel: 0, cc: 1, value: 63 })
    );
    assert_eq!(
        t.event_for(PitchEstimate::Found(9000), 3),
        Some(MidiCc { timing: 3, channel: 0, cc: 1, value: 127 })
    );
    assert_eq!(
        t.event_for(PitchEstimate::Found(4000), 0),
        Some(MidiCc { timing: 0, channel: 0, cc: 1, value: 0 })
    );
}

#[test]
fn event_uses_configured_channel_and_controller() {
    let t = Tracker::new(4, 2, 0i32, EstimatorState::Initialized, 6000, 7200, 15, 74);
    assert_eq!(
        t.event_for(PitchEstimate::Found(6600), 9),
        Some(MidiCc { timing: 9, channel: 15, cc: 74, value: 63 })
    );
}

#[test]
fn no_pitch_gives_no_event() {
    let t = tracker(EstimatorState::Initialized);
    assert_eq!(t.event_for(PitchEstimate::NotFound, 5), None);
}

#[test]
fn failed_estimator_never_analyses_nor_emits() {
    let mut t = tracker(EstimatorState::Failed);
    for i in 0..100 {
        assert!(!t.step(i));
        assert_eq!(t.event_for(PitchEstimate::Found(6900), i as u32), None);
        assert_eq!(t.event_for(PitchEstimate::NotFound, i as u32), None);
    }
}

#[test]
fn reset_restarts_the_hop_only() {
    let mut t = tracker(EstimatorState::Initialized);
    t.step(1);
    t.step(2);
    t.step(3);
    t.reset();
    assert_eq!(t.window(), &vec![1, 2, 3, 0, 0, 0, 0, 0]);
    assert!(!t.step(4));
    assert!(!t.step(5));
    assert!(!t.step(6));
    assert!(t.step(7));
    assert_eq!(t.window(), &vec![4, 5, 6, 7, 0, 0, 0, 0]);
}
