use midi_keys::layout::{KeyLayoutTable, LayoutError, OverflowPolicy};
use midi_keys::ports::{select_input_port, PortSelectionError};

#[test]
fn test_layout_size_mismatch_is_fatal() {
    let r = KeyLayoutTable::new(vec![1, 2, 3], 4, OverflowPolicy::OffsetClamp);
    assert_eq!(r.unwrap_err(), LayoutError::SizeMismatch);
}

#[test]
fn test_layout_empty_is_fatal() {
    let r = KeyLayoutTable::new(Vec::new(), 0, OverflowPolicy::OffsetClamp);
    assert_eq!(r.unwrap_err(), LayoutError::Empty);
}

#[test]
fn test_layout_construction_and_lookup() {
    let table = KeyLayoutTable::new(vec![7, 8, 9], 3, OverflowPolicy::OffsetClamp).unwrap();
    assert_eq!(table.key_at(0), 7);
    assert_eq!(table.key_at(1), 8);
    assert_eq!(table.key_at(2), 9);
}

#[test]
fn test_registered_key_codes_with_modifier() {
    let table =
        KeyLayoutTable::new(vec![7, 8, 9], 3, OverflowPolicy::ModifierOctave { modifier_key: 42 })
            .unwrap();
    assert_eq!(table.registered_key_codes(), vec![7, 8, 9, 42]);
}

#[test]
fn test_registered_key_codes_without_modifier() {
    let table = KeyLayoutTable::new(vec![7, 8, 9], 3, OverflowPolicy::OffsetClamp).unwrap();
    assert_eq!(table.registered_key_codes(), vec![7, 8, 9]);
}

#[test]
fn test_select_no_port() {
    assert_eq!(select_input_port(0, None), Err(PortSelectionError::NoInputPort));
    assert_eq!(select_input_port(0, Some(0)), Err(PortSelectionError::NoInputPort));
}

#[test]
fn test_select_single_port_auto() {
    // one port: chosen without consulting the typed answer
    assert_eq!(select_input_port(1, None), Ok(0));
    assert_eq!(select_input_port(1, Some(5)), Ok(0));
}

#[test]
fn test_select_among_several() {
    assert_eq!(select_input_port(3, Some(2)), Ok(2));
    assert_eq!(select_input_port(3, Some(3)), Err(PortSelectionError::InvalidPortIndex));
    assert_eq!(select_input_port(3, None), Err(PortSelectionError::InvalidPortIndex));
}
