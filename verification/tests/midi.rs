//! Tests for the MIDI control-change bookkeeping.

use scope_rs::midi::{parse_cc_message, MidiController, MidiParam, SharedCcValues};

#[test]
fn parse_accepts_control_change() {
    assert_eq!(parse_cc_message(&vec![0xB0, 5, 100]), Some((5, 100)));
    // Channel bits are ignored, data bytes keep their seven data bits.
    assert_eq!(parse_cc_message(&vec![0xB5, 200, 255]), Some((72, 127)));
}

#[test]
fn parse_rejects_other_messages() {
    assert_eq!(parse_cc_message(&vec![0x90, 1, 2]), None);
    assert_eq!(parse_cc_message(&vec![0xB0, 1]), None);
    assert_eq!(parse_cc_message(&vec![0xB0, 1, 2, 3]), None);
    assert_eq!(parse_cc_message(&Vec::new()), None);
}

#[test]
fn cc_values_set_then_poll() {
    let mut cc = SharedCcValues::new();
    cc.set(3, 99);
    assert_eq!(cc.poll(3), Some(99));
    // The changed flag was consumed.
    assert_eq!(cc.poll(3), None);
    // Untouched controllers report nothing.
    assert_eq!(cc.poll(4), None);
}

#[test]
fn cc_values_latest_value_wins() {
    let mut cc = SharedCcValues::new();
    cc.set(10, 1);
    cc.set(10, 2);
    cc.set(10, 3);
    assert_eq!(cc.poll(10), Some(3));
}

#[test]
fn poll_maps_changed_values() {
    let mut c = MidiController::new();
    c.add_mapping(1, MidiParam::Gain);
    c.add_mapping(2, MidiParam::Volume);
    c.feed_cc(1, 127);
    c.feed_cc(2, 64);
    let updates = c.poll();
    assert_eq!(updates, vec![(MidiParam::Gain, 127), (MidiParam::Volume, 64)]);
    // A second poll sees nothing new.
    assert_eq!(c.poll(), Vec::new());
}

#[test]
fn poll_duplicate_cc_first_mapping_wins() {
    let mut c = MidiController::new();
    c.add_mapping(7, MidiParam::Zoom);
    c.add_mapping(7, MidiParam::Speed);
    c.feed_cc(7, 50);
    let updates = c.poll();
    assert_eq!(updates, vec![(MidiParam::Zoom, 50)]);
}

#[test]
fn learn_assigns_lowest_changed_cc() {
    let mut c = MidiController::new();
    c.add_mapping(10, MidiParam::Volume);
    c.start_learn(0);
    assert_eq!(c.learning, Some(0));
    c.feed_cc(42, 77);
    let updates = c.poll();
    assert_eq!(updates, Vec::new());
    assert_eq!(c.learning, None);
    assert_eq!(c.mappings[0].cc, 42);
    assert_eq!(c.mappings[0].param, MidiParam::Volume);
    // The learn consumed the changed flag, so nothing applies afterwards.
    assert_eq!(c.poll(), Vec::new());
}

#[test]
fn learn_waits_until_something_changes() {
    let mut c = MidiController::new();
    c.add_mapping(10, MidiParam::Volume);
    c.start_learn(0);
    assert_eq!(c.poll(), Vec::new());
    assert_eq!(c.learning, Some(0));
    c.cancel_learn();
    assert_eq!(c.learning, None);
}

#[test]
fn remove_mapping_cancels_its_learn() {
    let mut c = MidiController::new();
    c.add_mapping(1, MidiParam::Gain);
    c.add_mapping(2, MidiParam::Volume);
    c.start_learn(1);
    c.remove_mapping(1);
    assert_eq!(c.learning, None);
    assert_eq!(c.mappings.len(), 1);
    // Out-of-range removals do nothing.
    c.remove_mapping(5);
    assert_eq!(c.mappings.len(), 1);
}

#[test]
fn unmapped_params_excludes_mapped() {
    let mut c = MidiController::new();
    assert_eq!(c.unmapped_params(), MidiParam::all());
    c.add_mapping(1, MidiParam::Gain);
    c.add_mapping(2, MidiParam::Zoom);
    let unmapped = c.unmapped_params();
    assert_eq!(unmapped.len(), 7);
    assert!(!unmapped.contains(&MidiParam::Gain));
    assert!(!unmapped.contains(&MidiParam::Zoom));
    assert!(unmapped.contains(&MidiParam::Volume));
}

#[test]
fn param_names_and_order() {
    assert_eq!(MidiParam::Gain.name(), "Gain");
    assert_eq!(MidiParam::LineWidth.name(), "Line Width");
    assert_eq!(MidiParam::DcOffsetX.name(), "DC Offset X");
    assert_eq!(MidiParam::DcOffsetY.name(), "DC Offset Y");
    let all = MidiParam::all();
    assert_eq!(all.len(), 9);
    assert_eq!(all[0], MidiParam::Gain);
    assert_eq!(all[8], MidiParam::DcOffsetY);
}
