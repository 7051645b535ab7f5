use aeolus::mapping::{DEFAULT_NOTE_MAX, DEFAULT_NOTE_MIN};
use aeolus::tracker::{EstimatorState, MidiCc, PitchEstimate, Tracker};
use aubio::{Pitch, PitchMode};

const RATE: u32 = 44100;

fn estimate(pitch: &mut Pitch, window: &[f32]) -> PitchEstimate {
    match pitch.do_result(window) {
        Ok(f) if f > 0.0 && f.is_finite() => {
            PitchEstimate::Found(((69.0 + 12.0 * (f / 440.0).log2()) * 100.0).round() as i32)
        }
        _ => PitchEstimate::NotFound,
    }
}

fn run(samples: &[f32], window: usize, hop: usize) -> Vec<MidiCc> {
    let mut pitch = Pitch::new(PitchMode::Yinfast, window, hop, RATE);
    let state = if pitch.is_ok() { EstimatorState::Initialized } else { EstimatorState::Failed };
    let mut t = Tracker::new(window, hop, 0.0f32, state, DEFAULT_NOTE_MIN, DEFAULT_NOTE_MAX, 0, 1);
    let mut events = Vec::new();
    for block in samples.chunks(512) {
        for (j, s) in block.iter().enumerate() {
            if t.step(*s) {
                if let Ok(p) = pitch.as_mut() {
                    let e = estimate(p, t.window());
                    if let Some(ev) = t.event_for(e, j as u32) {
                        events.push(ev);
                    }
                }
            }
        }
    }
    events
}

#[test]
fn sine_at_440_hz_maps_near_the_middle() {
    let samples: Vec<f32> = (0..44100)
        .map(|n| (2.0 * std::f32::consts::PI * 440.0 * n as f32 / RATE as f32).sin() * 0.5)
        .collect();
    let events = run(&samples, 2048, 512);
    assert!(events.len() > 40);
    for e in &events[8..] {
        assert!(e.value >= 62 && e.value <= 64, "value {}", e.value);
        assert_eq!(e.channel, 0);
        assert_eq!(e.cc, 1);
    }
}

#[test]
fn silence_emits_nothing() {
    let samples = vec![0.0f32; 44100];
    assert!(run(&samples, 2048, 512).is_empty());
    assert!(run(&samples, 128, 64).is_empty());
}

#[test]
fn failed_estimator_emits_nothing() {
    let mut t = Tracker::new(128, 64, 0.0f32, EstimatorState::Failed, 5700, 8100, 0, 1);
    let mut events = 0;
    for n in 0..10_000 {
        let s = (n as f32 * 0.06).sin();
        if t.step(s) {
            events += 1;
        }
        if t.event_for(PitchEstimate::Found(6900), (n % 512) as u32).is_some() {
            events += 1;
        }
    }
    assert_eq!(events, 0);
}
