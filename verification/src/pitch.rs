//! The pitch normalizer: mapping a raw MIDI note number to a semitone index
//! that is valid for the active key layout table, under one of two policies.

use vstd::prelude::*;

verus! {

/// Lowest note number of the upper register under the modulo-octave policy:
/// notes at or above it need the modifier key.
pub const UPPER_REGISTER_START: u8 = 72;

/// A normalized pitch: a semitone index valid for the table, the modifier
/// tier the note falls in, and whether the index had to be clamped to stay
/// inside the table.
#[derive(Clone, Copy, Debug, PartialEq, Eq, Structural)]
pub struct NormalizedPitch {
    pub index: usize,
    pub modifier: bool,
    pub clamped: bool,
}

/// The index in `[0, table_size)` nearest to `raw`.
pub open spec fn clamp_to_table(raw: int, table_size: int) -> int {
    if raw < 0 {
        0
    } else if raw >= table_size {
        table_size - 1
    } else {
        raw
    }
}

/// Semitone index within one octave under the modulo-octave policy.
pub open spec fn modulo_index(note: u8) -> int {
    note as int % 12
}

/// Whether a note falls in the upper register, reached via the modifier key.
pub open spec fn upper_register(note: u8) -> bool {
    note >= UPPER_REGISTER_START
}

/// The base note number subtracted under the offset-and-clamp policy,
/// before it is floored at zero: one octave below middle C, moved down by
/// `octave_shift` further octaves.
pub open spec fn raw_offset_base(octave_shift: i8) -> int {
    60 - 12 - 12 * (octave_shift as int)
}

/// Whether the base note number would be negative, an out-of-range
/// condition that is reported and floored at zero.
pub open spec fn base_underflows(octave_shift: i8) -> bool {
    raw_offset_base(octave_shift) < 0
}

/// The base note number actually subtracted under the offset-and-clamp
/// policy.
pub open spec fn offset_base(octave_shift: i8) -> int {
    if base_underflows(octave_shift) {
        0
    } else {
        raw_offset_base(octave_shift)
    }
}

/// Whether normalizing `note` under the offset-and-clamp policy involves
/// clamping anywhere: a negative base, a note below the base, or a note
/// beyond the table.
pub open spec fn offset_clamps(note: u8, octave_shift: i8, table_size: int) -> bool {
    ||| base_underflows(octave_shift)
    ||| note - offset_base(octave_shift) < 0
    ||| note - offset_base(octave_shift) >= table_size
}

/// Normalize under the modulo-octave policy: the index is the note's
/// position within its octave, and the modifier flag marks the upper
/// register. Clamping only occurs if the table covers less than an octave.
pub fn normalize_modulo(note: u8, table_size: usize) -> (r: NormalizedPitch)
    requires
        table_size >= 1,
    ensures
        r.index == clamp_to_table(modulo_index(note), table_size as int),
        r.modifier == upper_register(note),
        r.clamped == (modulo_index(note) >= table_size),
        r.index < table_size,
{
    let idx: u8 = note % 12;
    if (idx as usize) < table_size {
        NormalizedPitch { index: idx as usize, modifier: note >= UPPER_REGISTER_START, clamped: false }
    } else {
        NormalizedPitch {
            index: table_size - 1,
            modifier: note >= UPPER_REGISTER_START,
            clamped: true,
        }
    }
}

/// Normalize under the offset-and-clamp policy: subtract the shifted base
/// from the note number and clamp the result into the table, reporting via
/// `clamped` whenever any bound had to be enforced.
pub fn normalize_offset(note: u8, octave_shift: i8, table_size: usize) -> (r: NormalizedPitch)
    requires
        table_size >= 1,
    ensures
        r.index == clamp_to_table(note - offset_base(octave_shift), table_size as int),
        r.modifier == false,
        r.clamped == offset_clamps(note, octave_shift, table_size as int),
        r.index < table_size,
{
    let base_raw: i32 = 60 - 12 - 12 * (octave_shift as i32);
    let base_negative: bool = base_raw < 0;
    let base: i32 = if base_negative {
        0
    } else {
        base_raw
    };
    let raw: i32 = (note as i32) - base;
    if raw < 0 {
        NormalizedPitch { index: 0, modifier: false, clamped: true }
    } else if (raw as usize) >= table_size {
        NormalizedPitch { index: table_size - 1, modifier: false, clamped: true }
    } else {
        NormalizedPitch { index: raw as usize, modifier: false, clamped: base_negative }
    }
}

/// Every normalized index lies inside the table: for every note number,
/// octave shift and non-empty table size, both policies' indices fall in
/// `[0, table_size)`.
pub proof fn lemma_pitch_index_in_range(note: u8, octave_shift: i8, table_size: int)
    requires
        table_size >= 1,
    ensures
        0 <= clamp_to_table(modulo_index(note), table_size) < table_size,
        0 <= clamp_to_table(note - offset_base(octave_shift), table_size) < table_size,
{
}

/// On the 12-entry table the modulo-octave policy never clamps: the index
/// is exactly `note % 12`, and the modifier flag is set exactly for notes at
/// or above the upper register.
pub proof fn lemma_modulo_policy_exact(note: u8)
    ensures
        clamp_to_table(modulo_index(note), 12) == note % 12,
        modulo_index(note) < 12,
        upper_register(note) == (note >= 72),
{
}

} // verus!
