//! Choosing which MIDI input port to open, as a decision on plain values:
//! the surrounding application enumerates the ports, prompts when it has
//! to, and hands the parsed answer here.

use vstd::prelude::*;

verus! {

/// Why no input port could be selected.
#[derive(Clone, Copy, Debug, PartialEq, Eq, Structural)]
pub enum PortSelectionError {
    /// No MIDI input port is available at all.
    NoInputPort,
    /// The index the user typed does not name an available port (or was not
    /// a number).
    InvalidPortIndex,
}

/// Decide which of `port_count` MIDI input ports to open. With none
/// available, selection fails; a single port is chosen without asking;
/// with several, the user's typed answer (`None` when it did not parse)
/// must name one of them.
pub fn select_input_port(port_count: usize, typed_index: Option<usize>) -> (r: Result<
    usize,
    PortSelectionError,
>)
    ensures
        port_count == 0 ==> (r matches Err(e) && e == PortSelectionError::NoInputPort),
        port_count == 1 ==> (r matches Ok(i) && i == 0),
        port_count > 1 ==> match typed_index {
            Some(i) => if i < port_count {
                r matches Ok(j) && j == i
            } else {
                r matches Err(e) && e == PortSelectionError::InvalidPortIndex
            },
            None => r matches Err(e) && e == PortSelectionError::InvalidPortIndex,
        },
        r matches Ok(i) ==> i < port_count,
{
    if port_count == 0 {
        Err(PortSelectionError::NoInputPort)
    } else if port_count == 1 {
        Ok(0)
    } else {
        match typed_index {
            Some(i) => if i < port_count {
                Ok(i)
            } else {
                Err(PortSelectionError::InvalidPortIndex)
            },
            None => Err(PortSelectionError::InvalidPortIndex),
        }
    }
}

} // verus!
