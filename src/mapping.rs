use vstd::prelude::*;
use crate::utils::clamp;

verus! {

/// The largest value a MIDI continuous controller carries.
pub const CC_MAX: u8 = 127;

/// Notes are counted in cents: hundredths of a semitone, so that MIDI note
/// `n` is `100 * n`.
pub const CENTS_PER_NOTE: i32 = 100;

/// The note, in cents, that maps to controller value 0 by default (A3).
pub const DEFAULT_NOTE_MIN: i32 = 5700;

/// The note, in cents, that maps to controller value 127 by default (A5).
pub const DEFAULT_NOTE_MAX: i32 = 8100;

/// `note` rescaled linearly so that `note_min` goes to 0 and `note_max` to
/// 127, rounded down.
pub open spec fn scaled(note: int, note_min: int, note_max: int) -> int {
    (note - note_min) * 127 / (note_max - note_min)
}

/// The controller value for `note`: its rescaled value saturated to
/// `[0, 127]`.
pub open spec fn cc_value(note: int, note_min: int, note_max: int) -> int {
    clamp(scaled(note, note_min, note_max), 0, 127)
}

/// Maps a note, in cents, onto the controller range: `note_min` gives 0,
/// `note_max` gives 127, notes in between are scaled linearly (rounded down)
/// and notes outside saturate.
pub fn note_to_cc(note: i32, note_min: i32, note_max: i32) -> (r: u8)
    requires
        note_min < note_max,
    ensures
        r == cc_value(note as int, note_min as int, note_max as int),
{
    let span: i64 = note_max as i64 - note_min as i64;
    if note <= note_min {
        proof { lemma_scaled_saturates(note as int, note_min as int, note_max as int); }
        0
    } else if note >= note_max {
        proof { lemma_scaled_saturates(note as int, note_min as int, note_max as int); }
        CC_MAX
    } else {
        let offset: i64 = note as i64 - note_min as i64;
        proof { lemma_scale_linear(note as int, note_min as int, note_max as int); }
        assert(offset * 127 <= span * 127) by (nonlinear_arith)
            requires
                0 < offset < span,
        ;
        let v: i64 = offset * 127 / span;
        v as u8
    }
}

/// Below the range the scaled value is at most 0, above it at least 127.
proof fn lemma_scaled_saturates(note: int, note_min: int, note_max: int)
    requires
        note_min < note_max,
    ensures
        note <= note_min ==> scaled(note, note_min, note_max) <= 0,
        note >= note_max ==> scaled(note, note_min, note_max) >= 127,
{
    let span = note_max - note_min;
    let offset = note - note_min;
    if note <= note_min {
        assert(offset * 127 <= 0) by (nonlinear_arith)
            requires
                offset <= 0,
        ;
        vstd::arithmetic::div_mod::lemma_div_is_ordered(offset * 127, 0, span);
    }
    if note >= note_max {
        assert(offset * 127 >= span * 127) by (nonlinear_arith)
            requires
                offset >= span,
        ;
        vstd::arithmetic::div_mod::lemma_div_is_ordered(span * 127, offset * 127, span);
        vstd::arithmetic::div_mod::lemma_div_by_multiple(127, span);
        assert(127 * span == span * 127) by (nonlinear_arith);
    }
}

/// The controller value is a linear function of the note, up to rounding
/// down: `note_min` gives exactly 0, `note_max` exactly 127, and every note
/// in between gives the value `127 * (note - note_min) / (note_max - note_min)`
/// less a fraction below 1, which already lies in `[0, 127]`.
pub proof fn lemma_scale_linear(note: int, note_min: int, note_max: int)
    requires
        note_min < note_max,
        note_min <= note <= note_max,
    ensures
        cc_value(note_min, note_min, note_max) == 0,
        cc_value(note_max, note_min, note_max) == 127,
        cc_value(note, note_min, note_max) == scaled(note, note_min, note_max),
        0 <= scaled(note, note_min, note_max) <= 127,
        scaled(note, note_min, note_max) * (note_max - note_min) <= (note - note_min) * 127,
        (note - note_min) * 127 < (scaled(note, note_min, note_max) + 1) * (note_max - note_min),
{
    let span = note_max - note_min;
    let offset = note - note_min;
    let v = scaled(note, note_min, note_max);
    vstd::arithmetic::div_mod::lemma_div_by_multiple(127, span);
    assert(0int / span == 0);
    assert(127 * span == span * 127) by (nonlinear_arith);
    assert(offset * 127 >= 0 && offset * 127 <= span * 127) by (nonlinear_arith)
        requires
            0 <= offset <= span,
    ;
    vstd::arithmetic::div_mod::lemma_div_is_ordered(0, offset * 127, span);
    vstd::arithmetic::div_mod::lemma_div_is_ordered(offset * 127, span * 127, span);
    vstd::arithmetic::div_mod::lemma_fundamental_div_mod(offset * 127, span);
    vstd::arithmetic::div_mod::lemma_mod_bound(offset * 127, span);
    assert(v * span <= offset * 127 && offset * 127 < (v + 1) * span) by (nonlinear_arith)
        requires
            offset * 127 == span * v + (offset * 127) % span,
            0 <= (offset * 127) % span < span,
    ;
}

/// A higher note never gives a lower controller value.
pub proof fn lemma_cc_monotonic(a: int, b: int, note_min: int, note_max: int)
    requires
        note_min < note_max,
        a <= b,
    ensures
        cc_value(a, note_min, note_max) <= cc_value(b, note_min, note_max),
{
    assert((a - note_min) * 127 <= (b - note_min) * 127) by (nonlinear_arith)
        requires
            a <= b,
    ;
    vstd::arithmetic::div_mod::lemma_div_is_ordered(
        (a - note_min) * 127,
        (b - note_min) * 127,
        note_max - note_min,
    );
}

} // verus!
