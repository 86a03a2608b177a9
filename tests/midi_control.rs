use baton::midi_control::{
    ControlTarget, Curve, GlobalControl, MidiControl, MidiMapping, StripControl, StripTarget,
    ValueRange,
};

#[test]
fn test_new_mapping_is_empty() {
    let mapping = MidiMapping::new();
    assert_eq!(mapping.mappings.len(), 0);
}

#[test]
fn test_map_strip() {
    let mut mapping = MidiMapping::new();
    let midi = MidiControl { channel: 0, cc: 1 };
    let target = StripTarget {
        mix_index: 0,
        strip_index: 0,
        control: StripControl::Fader,
    };

    mapping.map_strip(midi, target, None);

    assert_eq!(mapping.mappings.len(), 1);
    assert_eq!(mapping.mappings[0].midi, midi);
    match &mapping.mappings[0].target {
        ControlTarget::Strip(t) => assert_eq!(*t, target),
        _ => panic!("Expected Strip target"),
    }
}

#[test]
fn test_map_global() {
    let mut mapping = MidiMapping::new();
    let midi = MidiControl {
        channel: 0,
        cc: 102,
    };

    mapping.map_global(midi, GlobalControl::PhantomPower);

    assert_eq!(mapping.mappings.len(), 1);
    assert_eq!(mapping.mappings[0].midi, midi);
    match &mapping.mappings[0].target {
        ControlTarget::Global(GlobalControl::PhantomPower) => {}
        _ => panic!("Expected PhantomPower global target"),
    }
}

#[test]
fn test_get_target() {
    let mut mapping = MidiMapping::new();
    let midi = MidiControl { channel: 0, cc: 1 };
    let target = StripTarget {
        mix_index: 0,
        strip_index: 0,
        control: StripControl::Fader,
    };

    mapping.map_strip(midi, target, None);

    let found = mapping.get_target(&midi);
    assert!(found.is_some());

    let not_found = mapping.get_target(&MidiControl { channel: 1, cc: 1 });
    assert!(not_found.is_none());
}

#[test]
fn test_sort_mappings() {
    let mut mapping = MidiMapping::new();

    mapping.map_strip(
        MidiControl { channel: 0, cc: 10 },
        StripTarget {
            mix_index: 0,
            strip_index: 0,
            control: StripControl::Balance,
        },
        None,
    );
    mapping.map_strip(
        MidiControl { channel: 1, cc: 5 },
        StripTarget {
            mix_index: 0,
            strip_index: 1,
            control: StripControl::Fader,
        },
        None,
    );
    mapping.map_strip(
        MidiControl { channel: 0, cc: 2 },
        StripTarget {
            mix_index: 0,
            strip_index: 2,
            control: StripControl::Fader,
        },
        None,
    );
    mapping.map_strip(
        MidiControl {
            channel: 0,
            cc: 102,
        },
        StripTarget {
            mix_index: 0,
            strip_index: 3,
            control: StripControl::Fader,
        },
        None,
    );

    mapping.sort_mappings();

    assert_eq!(mapping.mappings[0].midi, MidiControl { channel: 0, cc: 2 });
    assert_eq!(mapping.mappings[1].midi, MidiControl { channel: 0, cc: 10 });
    assert_eq!(
        mapping.mappings[2].midi,
        MidiControl {
            channel: 0,
            cc: 102
        }
    );
    assert_eq!(mapping.mappings[3].midi, MidiControl { channel: 1, cc: 5 });
}

// Targets are in thousandths of their unit: -96.0 dB is -96_000.
#[test]
fn test_transform_value_with_range() {
    let mut mapping = MidiMapping::new();
    let midi = MidiControl { channel: 0, cc: 1 };
    let target = StripTarget {
        mix_index: 0,
        strip_index: 0,
        control: StripControl::Fader,
    };
    let range = ValueRange {
        midi_min: 0,
        midi_max: 127,
        target_min: -96_000,
        target_max: 10_000,
        curve: Curve::Linear,
    };

    mapping.map_strip(midi, target, Some(range));

    let result = mapping.transform_value(&midi, 0);
    assert_eq!(result, -96_000);

    let result = mapping.transform_value(&midi, 127);
    assert_eq!(result, 10_000);

    // mid value: around -43.0 dB
    let result = mapping.transform_value(&midi, 64);
    assert!((result - (-43_000)).abs() < 1_000);
}

// Without a range the value is the raw MIDI byte itself (in thousandths).
#[test]
fn test_transform_value_without_range() {
    let mapping = MidiMapping::new();
    let midi = MidiControl { channel: 0, cc: 1 };

    let result = mapping.transform_value(&midi, 0);
    assert_eq!(result, 0);

    let result = mapping.transform_value(&midi, 127);
    assert_eq!(result, 127_000);

    let result = mapping.transform_value(&midi, 64);
    assert!((result - 64_000).abs() < 10);
}

#[test]
fn test_value_range_linear() {
    let range = ValueRange {
        midi_min: 0,
        midi_max: 100,
        target_min: 0,
        target_max: 100_000,
        curve: Curve::Linear,
    };

    assert_eq!(range.transform(0), 0);
    assert_eq!(range.transform(50), 50_000);
    assert_eq!(range.transform(100), 100_000);
}

#[test]
fn test_value_range_exponential() {
    let range = ValueRange {
        midi_min: 0,
        midi_max: 100,
        target_min: 0,
        target_max: 100_000,
        curve: Curve::Exponential,
    };

    assert_eq!(range.transform(0), 0);
    assert_eq!(range.transform(50), 25_000);
    assert_eq!(range.transform(100), 100_000);
}

#[test]
fn test_value_range_logarithmic() {
    let range = ValueRange {
        midi_min: 0,
        midi_max: 100,
        target_min: 0,
        target_max: 100_000,
        curve: Curve::Logarithmic,
    };

    assert_eq!(range.transform(0), 0);
    assert!((range.transform(25) - 50_000).abs() < 100);
    assert_eq!(range.transform(100), 100_000);
}

#[test]
fn test_create_default() {
    let mapping = MidiMapping::create_default();

    assert_eq!(mapping.mappings.len(), 17);

    let first = &mapping.mappings[0];
    assert_eq!(first.midi.channel, 0);
    assert_eq!(first.midi.cc, 1);
    match &first.target {
        ControlTarget::Strip(t) => {
            assert_eq!(t.control, StripControl::Fader);
            assert_eq!(t.strip_index, 0);
        }
        _ => panic!("Expected strip target"),
    }

    let phantom = mapping.mappings.iter().find(|e| e.midi.cc == 102).unwrap();
    match &phantom.target {
        ControlTarget::Global(GlobalControl::PhantomPower) => {}
        _ => panic!("Expected PhantomPower"),
    }
}

#[test]
fn value_range_pins_values_outside_the_midi_range() {
    let range = ValueRange {
        midi_min: 10,
        midi_max: 20,
        target_min: -1_000,
        target_max: 1_000,
        curve: Curve::Linear,
    };
    assert_eq!(range.transform(0), -1_000);
    assert_eq!(range.transform(15), 0);
    assert_eq!(range.transform(127), 1_000);
}

#[test]
fn value_range_with_empty_midi_range_gives_target_min() {
    let range = ValueRange {
        midi_min: 20,
        midi_max: 20,
        target_min: 7,
        target_max: 9,
        curve: Curve::Exponential,
    };
    assert_eq!(range.transform(20), 7);
}

#[test]
fn remove_mapping_drops_every_entry_of_the_control() {
    let mut mapping = MidiMapping::create_default();
    let midi = MidiControl { channel: 0, cc: 3 };
    assert!(mapping.remove_mapping(&midi));
    assert_eq!(mapping.mappings.len(), 16);
    assert!(mapping.get_target(&midi).is_none());
    assert!(!mapping.remove_mapping(&midi));
}

#[test]
fn default_ranges_follow_the_control() {
    let fader = MidiMapping::default_range_for_control(&StripControl::Fader).unwrap();
    assert_eq!((fader.target_min, fader.target_max), (-50_000, 10_000));
    let balance = MidiMapping::default_range_for_control(&StripControl::Balance).unwrap();
    assert_eq!((balance.target_min, balance.target_max), (-100_000, 100_000));
    assert!(MidiMapping::default_range_for_control(&StripControl::Mute).is_none());
    assert!(MidiMapping::default_range_for_control(&StripControl::Solo).is_none());
}

#[test]
fn sorting_keeps_every_entry_and_orders_by_key() {
    let mut mapping = MidiMapping::create_default();
    mapping.map_global(MidiControl { channel: 5, cc: 0 }, GlobalControl::MainMono);
    mapping.map_global(MidiControl { channel: 0, cc: 0 }, GlobalControl::MainMute);
    mapping.sort_mappings();
    assert_eq!(mapping.mappings.len(), 19);
    assert_eq!(mapping.mappings[0].midi, MidiControl { channel: 0, cc: 0 });
    assert_eq!(mapping.mappings[18].midi, MidiControl { channel: 5, cc: 0 });
    for w in mapping.mappings.windows(2) {
        assert!((w[0].midi.channel, w[0].midi.cc) <= (w[1].midi.channel, w[1].midi.cc));
    }
}
