//! The key layout table: a fixed mapping from semitone indices to virtual
//! key codes, together with the policy for notes outside its range.

use vstd::prelude::*;

verus! {

/// How the layout represents notes that its table does not cover directly.
#[derive(Clone, Copy, Debug, PartialEq, Eq, Structural)]
pub enum OverflowPolicy {
    /// A one-octave table; notes in the upper register are reached by
    /// emitting an extra command for `modifier_key` alongside the note's key.
    ModifierOctave { modifier_key: u16 },
    /// A wider table addressed through an octave offset; pitches outside the
    /// table clamp to its nearest edge.
    OffsetClamp,
}

/// Why a layout table could not be constructed.
#[derive(Clone, Copy, Debug, PartialEq, Eq, Structural)]
pub enum LayoutError {
    /// The declared size does not match the number of key codes supplied.
    SizeMismatch,
    /// A table with no entries could map no pitch at all.
    Empty,
}

/// An ordered table assigning one virtual key code to each semitone index
/// in `[0, keys.len())`, fixed once constructed.
#[derive(Clone, Debug)]
pub struct KeyLayoutTable {
    pub keys: Vec<u16>,
    pub policy: OverflowPolicy,
}

impl KeyLayoutTable {
    /// A usable table holds at least one key, so that clamping always has a
    /// nearest valid index to fall back on.
    pub open spec fn wf(self) -> bool {
        self.keys@.len() >= 1
    }

    /// Number of semitone indices the table covers.
    pub open spec fn size(self) -> nat {
        self.keys@.len()
    }

    /// The table's key codes, in semitone-index order.
    pub open spec fn key_seq(self) -> Seq<u16> {
        self.keys@
    }

    /// Every key code the virtual device must declare before any event can
    /// be emitted: each table entry, plus the modifier key when the policy
    /// uses one.
    pub open spec fn spec_registered_key_codes(self) -> Seq<u16> {
        match self.policy {
            OverflowPolicy::ModifierOctave { modifier_key } => self.keys@.push(modifier_key),
            OverflowPolicy::OffsetClamp => self.keys@,
        }
    }

    /// Build a layout table, checking the declared size against the key
    /// codes actually supplied; a mismatch or an empty table is a fatal
    /// construction error.
    pub fn new(keys: Vec<u16>, declared_size: usize, policy: OverflowPolicy) -> (r: Result<
        KeyLayoutTable,
        LayoutError,
    >)
        ensures
            keys@.len() != declared_size ==> (r matches Err(e) && e == LayoutError::SizeMismatch),
            keys@.len() == declared_size && declared_size == 0 ==> (r matches Err(e) && e
                == LayoutError::Empty),
            keys@.len() == declared_size && declared_size >= 1 ==> (r matches Ok(t) && t.keys@
                == keys@ && t.policy == policy && t.wf()),
    {
        if keys.len() != declared_size {
            Err(LayoutError::SizeMismatch)
        } else if declared_size == 0 {
            Err(LayoutError::Empty)
        } else {
            Ok(KeyLayoutTable { keys, policy })
        }
    }

    /// The key code at a valid semitone index.
    pub fn key_at(&self, index: usize) -> (r: u16)
        requires
            index < self.size(),
        ensures
            r == self.key_seq()[index as int],
    {
        self.keys[index]
    }

    /// Collect the key codes the virtual device has to declare up front.
    pub fn registered_key_codes(&self) -> (r: Vec<u16>)
        ensures
            r@ == self.spec_registered_key_codes(),
    {
        let mut v: Vec<u16> = Vec::new();
        let mut i: usize = 0;
        while i < self.keys.len()
            invariant
                i <= self.keys@.len(),
                v@ == self.keys@.subrange(0, i as int),
            decreases self.keys@.len() - i,
        {
            v.push(self.keys[i]);
            i = i + 1;
        }
        proof {
            assert(v@ =~= self.keys@);
        }
        match self.policy {
            OverflowPolicy::ModifierOctave { modifier_key } => {
                v.push(modifier_key);
            },
            OverflowPolicy::OffsetClamp => {},
        }
        v
    }
}

} // verus!
