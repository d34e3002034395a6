//! The event translator: classifying one raw MIDI message and turning it
//! into zero, one, or two key-state-change commands for the active layout.

use vstd::prelude::*;
use crate::layout::{KeyLayoutTable, OverflowPolicy};
use crate::pitch::{
    clamp_to_table, modulo_index, upper_register, offset_base, offset_clamps, normalize_modulo,
    normalize_offset,
};

verus! {

/// Status byte of a MIDI note-on message (any channel bits ignored here).
pub const NOTE_ON_STATUS: u8 = 144;

/// Status byte of a MIDI note-off message.
pub const NOTE_OFF_STATUS: u8 = 128;

/// Lowest note-on velocity that counts as a press; anything below is
/// treated as a release.
pub const PRESS_VELOCITY_THRESHOLD: u8 = 50;

/// One raw MIDI message: a status byte and its two data bytes, which for
/// note messages are the note number and the velocity, each in `[0, 127]`.
#[derive(Clone, Copy, Debug, PartialEq, Eq, Structural)]
pub struct RawMidiMessage {
    pub status: u8,
    pub note: u8,
    pub velocity: u8,
}

/// One key-state change to forward to the virtual keyboard device.
#[derive(Clone, Copy, Debug, PartialEq, Eq, Structural)]
pub struct KeyCommand {
    pub key_code: u16,
    pub pressed: bool,
}

/// What one message translates to: the commands to emit, in order, and
/// whether pitch normalization had to clamp (a non-fatal condition the
/// caller should report).
#[derive(Clone, Debug)]
pub struct Translation {
    pub commands: Vec<KeyCommand>,
    pub clamped: bool,
}

/// Whether the message is one the translator acts on at all.
pub open spec fn is_note_message(msg: RawMidiMessage) -> bool {
    msg.status == NOTE_ON_STATUS || msg.status == NOTE_OFF_STATUS
}

/// The key state every command of this message carries: pressed only for a
/// note-on at or above the velocity threshold; a note-off, or a note-on
/// below the threshold, releases.
pub open spec fn spec_pressed(msg: RawMidiMessage) -> bool {
    msg.status == NOTE_ON_STATUS && msg.velocity >= PRESS_VELOCITY_THRESHOLD
}

/// The semitone index the message's note selects in the layout's table.
pub open spec fn spec_index(layout: KeyLayoutTable, msg: RawMidiMessage, octave_shift: i8) -> int {
    match layout.policy {
        OverflowPolicy::ModifierOctave { .. } => clamp_to_table(
            modulo_index(msg.note),
            layout.size() as int,
        ),
        OverflowPolicy::OffsetClamp => clamp_to_table(
            msg.note - offset_base(octave_shift),
            layout.size() as int,
        ),
    }
}

/// Whether a modifier command accompanies the key command: only under the
/// modifier-octave policy, and only for notes in the upper register.
pub open spec fn spec_uses_modifier(layout: KeyLayoutTable, msg: RawMidiMessage) -> bool {
    layout.policy is ModifierOctave && upper_register(msg.note)
}

/// The command sequence one message translates to: nothing for a foreign
/// status byte; otherwise the mapped key's command, preceded by a modifier
/// command when the upper register asks for one. Every command carries the
/// same pressed state.
pub open spec fn spec_translate(
    layout: KeyLayoutTable,
    msg: RawMidiMessage,
    octave_shift: i8,
) -> Seq<KeyCommand> {
    if !is_note_message(msg) {
        Seq::empty()
    } else {
        let key_command = KeyCommand {
            key_code: layout.key_seq()[spec_index(layout, msg, octave_shift)],
            pressed: spec_pressed(msg),
        };
        if spec_uses_modifier(layout, msg) {
            seq![
                KeyCommand { key_code: layout.policy->modifier_key, pressed: spec_pressed(msg) },
                key_command,
            ]
        } else {
            seq![key_command]
        }
    }
}

/// Whether translating the message involves clamping the pitch into the
/// table, the condition the caller reports as a diagnostic.
pub open spec fn spec_clamped(layout: KeyLayoutTable, msg: RawMidiMessage, octave_shift: i8) -> bool {
    &&& is_note_message(msg)
    &&& match layout.policy {
        OverflowPolicy::ModifierOctave { .. } => modulo_index(msg.note) >= layout.size(),
        OverflowPolicy::OffsetClamp => offset_clamps(msg.note, octave_shift, layout.size() as int),
    }
}

/// Translate one raw MIDI message into the key commands to emit. A status
/// byte that is neither note-on nor note-off yields no commands; a note
/// message yields the mapped key's command, preceded by a modifier command
/// when the layout's policy calls for one.
pub fn translate(layout: &KeyLayoutTable, msg: RawMidiMessage, octave_shift: i8) -> (r:
    Translation)
    requires
        layout.wf(),
    ensures
        r.commands@ == spec_translate(*layout, msg, octave_shift),
        r.clamped == spec_clamped(*layout, msg, octave_shift),
        !is_note_message(msg) ==> r.commands@.len() == 0,
        is_note_message(msg) ==> r.commands@.len() >= 1,
{
    if msg.status != NOTE_ON_STATUS && msg.status != NOTE_OFF_STATUS {
        let r = Translation { commands: Vec::new(), clamped: false };
        proof {
            assert(r.commands@ =~= spec_translate(*layout, msg, octave_shift));
        }
        return r;
    }
    let pressed: bool = msg.status == NOTE_ON_STATUS && msg.velocity >= PRESS_VELOCITY_THRESHOLD;
    let mut commands: Vec<KeyCommand> = Vec::new();
    let clamped: bool;
    match layout.policy {
        OverflowPolicy::ModifierOctave { modifier_key } => {
            let normalized = normalize_modulo(msg.note, layout.keys.len());
            if normalized.modifier {
                commands.push(KeyCommand { key_code: modifier_key, pressed });
            }
            commands.push(KeyCommand { key_code: layout.key_at(normalized.index), pressed });
            clamped = normalized.clamped;
        },
        OverflowPolicy::OffsetClamp => {
            let normalized = normalize_offset(msg.note, octave_shift, layout.keys.len());
            commands.push(KeyCommand { key_code: layout.key_at(normalized.index), pressed });
            clamped = normalized.clamped;
        },
    }
    proof {
        assert(commands@ =~= spec_translate(*layout, msg, octave_shift));
    }
    Translation { commands, clamped }
}

/// Extract the (status, note, velocity) triple from the raw byte sequence a
/// MIDI backend delivers: present exactly when the message is long enough
/// and both data bytes are in the 7-bit range the protocol allows.
pub fn message_from_bytes(bytes: &[u8]) -> (r: Option<RawMidiMessage>)
    ensures
        r is Some <==> (bytes@.len() >= 3 && bytes@[1] <= 127 && bytes@[2] <= 127),
        r matches Some(m) ==> m.status == bytes@[0] && m.note == bytes@[1] && m.velocity
            == bytes@[2],
{
    if bytes.len() >= 3 {
        let status = bytes[0];
        let note = bytes[1];
        let velocity = bytes[2];
        if note <= 127 && velocity <= 127 {
            Some(RawMidiMessage { status, note, velocity })
        } else {
            None
        }
    } else {
        None
    }
}

/// A note-off message yields only released commands, whatever velocity it
/// carries.
pub proof fn lemma_note_off_releases(layout: KeyLayoutTable, msg: RawMidiMessage, octave_shift: i8)
    requires
        msg.status == NOTE_OFF_STATUS,
    ensures
        forall|i: int|
            0 <= i < spec_translate(layout, msg, octave_shift).len() ==> !spec_translate(
                layout,
                msg,
                octave_shift,
            )[i].pressed,
{
}

/// Every command of a note-on message carries "pressed" exactly when the
/// velocity reaches the threshold; below it, the message releases.
pub proof fn lemma_velocity_threshold(layout: KeyLayoutTable, msg: RawMidiMessage, octave_shift: i8)
    requires
        msg.status == NOTE_ON_STATUS,
    ensures
        forall|i: int|
            0 <= i < spec_translate(layout, msg, octave_shift).len() ==> spec_translate(
                layout,
                msg,
                octave_shift,
            )[i].pressed == (msg.velocity >= PRESS_VELOCITY_THRESHOLD),
{
}

/// A message whose status byte is neither note-on nor note-off is filtered
/// out: it yields no commands at all.
pub proof fn lemma_other_status_ignored(layout: KeyLayoutTable, msg: RawMidiMessage, octave_shift: i8)
    requires
        msg.status != NOTE_ON_STATUS,
        msg.status != NOTE_OFF_STATUS,
    ensures
        spec_translate(layout, msg, octave_shift).len() == 0,
{
}

/// Every command a message translates to addresses a key code the virtual
/// device declared at registration time — a table entry or the layout's
/// modifier key — so no message can produce an undeclared (out-of-bounds)
/// key code.
pub proof fn lemma_commands_are_registered(
    layout: KeyLayoutTable,
    msg: RawMidiMessage,
    octave_shift: i8,
)
    requires
        layout.wf(),
    ensures
        forall|i: int|
            0 <= i < spec_translate(layout, msg, octave_shift).len()
                ==> layout.spec_registered_key_codes().contains(
                spec_translate(layout, msg, octave_shift)[i].key_code,
            ),
{
    let commands = spec_translate(layout, msg, octave_shift);
    let registered = layout.spec_registered_key_codes();
    if is_note_message(msg) {
        let idx = spec_index(layout, msg, octave_shift);
        assert(0 <= idx < layout.size());
        assert(registered[idx] == layout.key_seq()[idx]);
        if spec_uses_modifier(layout, msg) {
            assert(registered[layout.size() as int] == layout.policy->modifier_key);
            assert(registered.contains(commands[0].key_code));
            assert(registered.contains(commands[1].key_code));
        } else {
            assert(registered.contains(commands[0].key_code));
        }
    }
}

/// Round trip: a note-on and a note-off for the same note number translate
/// to the same number of commands, addressing the same key codes command
/// for command — the mapping from note to key is independent of message
/// kind and velocity.
pub proof fn lemma_press_release_same_keys(
    layout: KeyLayoutTable,
    note: u8,
    on_velocity: u8,
    off_velocity: u8,
    octave_shift: i8,
)
    ensures
        ({
            let on = spec_translate(
                layout,
                RawMidiMessage { status: NOTE_ON_STATUS, note, velocity: on_velocity },
                octave_shift,
            );
            let off = spec_translate(
                layout,
                RawMidiMessage { status: NOTE_OFF_STATUS, note, velocity: off_velocity },
                octave_shift,
            );
            &&& on.len() == off.len()
            &&& forall|i: int| 0 <= i < on.len() ==> on[i].key_code == off[i].key_code
        }),
{
}

} // verus!
