use baton::control::Control;
use baton::descriptor::Configuration;
use baton::midi::MidiMessage;
use baton::midi_control::{
    ControlTarget, GlobalControl, MidiControl, MidiLearnState, MidiMapping, StripControl,
    StripTarget,
};
use baton::pan::Pan;
use baton::frame::{Button, Command};
use baton::session::Session;
use baton::studio::PreSonusStudio1824c;

fn control() -> Control {
    let names: Vec<String> = (0..36).map(|i| format!("Ch {}", i)).collect();
    Control::new(PreSonusStudio1824c::new(names), MidiMapping::create_default())
}

fn cc(channel: u8, controller: u8, value: u8) -> MidiMessage {
    MidiMessage::ControlChange { channel, controller, value }
}

#[test]
fn midi_learn_end_to_end() {
    let mut c = control();
    let target = ControlTarget::Strip(StripTarget { mix_index: 2, strip_index: 5, control: StripControl::Fader });
    c.midi_learn_start(target);
    assert_eq!(c.learn_state, MidiLearnState::Learning { target });
    let out = c.handle_midi(cc(3, 77, 64));
    assert_eq!(c.learn_state, MidiLearnState::Inactive);
    assert!(out.save_mapping);
    assert!(out.commands.is_empty());
    let e = c.mapping.mappings.iter().find(|e| e.midi == MidiControl { channel: 3, cc: 77 }).unwrap();
    assert_eq!(e.target, target);
    let r = e.value_range.unwrap();
    assert_eq!((r.target_min, r.target_max), (-50_000, 10_000));
    assert_eq!(c.mapping.mappings.len(), 18);
}

#[test]
fn learning_replaces_an_existing_binding() {
    let mut c = control();
    c.midi_learn_start(ControlTarget::Global(GlobalControl::MainMono));
    c.handle_midi(cc(0, 1, 10));
    let hits: Vec<_> = c.mapping.mappings.iter().filter(|e| e.midi == MidiControl { channel: 0, cc: 1 }).collect();
    assert_eq!(hits.len(), 1);
    assert_eq!(hits[0].target, ControlTarget::Global(GlobalControl::MainMono));
    assert!(hits[0].value_range.is_none());
}

#[test]
fn learn_cancel_changes_nothing() {
    let mut c = control();
    c.midi_learn_start(ControlTarget::Global(GlobalControl::MainMute));
    c.midi_learn_cancel();
    assert_eq!(c.learn_state, MidiLearnState::Inactive);
    assert_eq!(c.mapping.mappings.len(), 17);
}

#[test]
fn midi_drives_faders_and_balances() {
    let mut c = control();
    let out = c.handle_midi(cc(0, 1, 127));
    assert_eq!(c.studio.mixes[0].strips.channel_strips[0].fader, 10_000);
    assert_eq!(out.commands.len(), 2);
    assert!(!out.save_mapping);
    c.handle_midi(cc(0, 2, 0));
    assert_eq!(c.studio.mixes[0].strips.channel_strips[1].fader, -96_000);
    c.handle_midi(cc(0, 10, 0));
    assert_eq!(c.studio.mixes[0].strips.channel_strips[0].balance, -100);
    c.handle_midi(cc(0, 10, 127));
    assert_eq!(c.studio.mixes[0].strips.channel_strips[0].balance, 100);
    let out = c.handle_midi(cc(9, 9, 100));
    assert!(out.commands.is_empty());
}

#[test]
fn midi_mute_and_solo_buttons() {
    let mut c = control();
    c.mapping.map_strip(MidiControl { channel: 1, cc: 1 }, StripTarget { mix_index: 1, strip_index: 4, control: StripControl::Mute }, None);
    c.mapping.map_strip(MidiControl { channel: 1, cc: 2 }, StripTarget { mix_index: 1, strip_index: 4, control: StripControl::Solo }, None);
    let out = c.handle_midi(cc(1, 1, 62));
    assert!(!c.studio.mixes[1].strips.channel_strips[4].mute);
    assert_eq!(out.commands.len(), 9 * 73);
    c.handle_midi(cc(1, 1, 63));
    assert!(c.studio.mixes[1].strips.channel_strips[4].mute);
    let out = c.handle_midi(cc(1, 2, 10));
    assert!(out.commands.is_empty());
    c.handle_midi(cc(1, 2, 127));
    assert!(c.studio.mixes[1].strips.channel_strips[4].solo);
    assert!(c.studio.mixes[1].strips.channel_strips[3].mute_by_solo);
}

#[test]
fn midi_global_switches_and_selectors() {
    let mut c = control();
    let out = c.handle_midi(cc(0, 102, 63));
    assert!(out.commands.is_empty());
    let out = c.handle_midi(cc(0, 102, 64));
    assert_eq!(out.commands, vec![Command::button(Button::Phantom, true)]);
    c.mapping.map_global(MidiControl { channel: 2, cc: 1 }, GlobalControl::ActiveMixSelect);
    c.mapping.map_global(MidiControl { channel: 2, cc: 2 }, GlobalControl::ActiveStripSelect);
    c.handle_midi(cc(2, 1, 127));
    assert_eq!(c.active_mix_index, 8);
    c.handle_midi(cc(2, 1, 64));
    assert_eq!(c.active_mix_index, 4);
    c.handle_midi(cc(2, 2, 127));
    assert_eq!(c.active_strip_index, 10);
    c.set_active_strip(-4);
    assert_eq!(c.active_strip_index, 0);
    c.set_active_strip(99);
    assert_eq!(c.active_strip_index, 36);
}

#[test]
fn poll_counter_wraps() {
    let mut s = Session::new();
    assert_eq!(s.next_counter(), 1);
    assert_eq!(s.next_counter(), 2);
    for _ in 0..65_532 {
        s.next_counter();
    }
    assert_eq!(s.poll_counter, 0xFFFF);
    assert_eq!(s.next_counter(), 0xFFFF);
    let (c, scratch) = s.state_request();
    assert_eq!(c, 0);
    assert_eq!(scratch.len(), 252);
    assert_eq!(s.poll_counter, 1);
}

#[test]
fn configuration_descriptor_walk() {
    let good = Configuration { data: vec![9, 2, 12, 0, 1, 1, 0, 0x80, 50, 3, 0x24, 1] };
    assert!(good.parse());
    let wrong_total = Configuration { data: vec![9, 2, 13, 0, 1, 1, 0, 0x80, 50, 3, 0x24, 1] };
    assert!(!wrong_total.parse());
    let zero_length = Configuration { data: vec![0, 4, 0] };
    assert!(!zero_length.parse());
    let other = Configuration { data: vec![4, 5, 0, 0] };
    assert!(other.parse());
    let d = vec![9, 2, 4, 0, 0, 0, 0, 0, 0];
    assert!(other.parse_configuration(&d));
}

#[test]
fn pan_balance_is_set() {
    let mut p = Pan::default();
    p.balance(-42);
    assert_eq!(p.balance, -42);
}

#[test]
fn bypass_toggles_between_preset_and_mixer_state() {
    let mut c = control();
    let on = c.toggle_bypass();
    assert!(c.bypass);
    assert_eq!(on.len(), 639);
    let off = c.toggle_bypass();
    assert!(!c.bypass);
    assert_eq!(off, c.studio.write_state());
}

#[test]
fn learn_mode_times_out_after_five_seconds() {
    let mut c = control();
    assert!(!c.check_learn_timeout(10_000));
    c.midi_learn_start(ControlTarget::Global(GlobalControl::Line1_2));
    assert!(!c.check_learn_timeout(4_999));
    assert!(matches!(c.learn_state, MidiLearnState::Learning { .. }));
    assert!(c.check_learn_timeout(5_000));
    assert_eq!(c.learn_state, MidiLearnState::Inactive);
    assert_eq!(c.mapping.mappings.len(), 17);
}

#[test]
fn rename_active_strip_or_mix() {
    let mut c = control();
    c.set_active_strip(2);
    c.rename_active(String::from("Snare"));
    assert_eq!(c.studio.channel_names[2], "Snare");
    c.set_active_mix(6);
    c.set_active_strip(36);
    c.rename_active(String::from("Reverb"));
    assert_eq!(c.studio.mixes[6].name, "Reverb");
    assert_eq!(c.studio.channel_names[2], "Snare");
}
