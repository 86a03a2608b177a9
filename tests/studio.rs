use baton::codec::{encode_db, MUTED, NEG_INFINITY_MDB, UNITY};
use baton::frame::{Button, Command, STATE_MAGIC1, STATE_MAGIC2};
use baton::mixer::{Mix, PanLaw, Strip, StripKind};
use baton::studio::{ConfigError, PreSonusStudio1824c};

fn names() -> Vec<String> {
    let inputs: Vec<String> = (1..=18).map(|i| format!("In {}", i)).collect();
    PreSonusStudio1824c::channel_names_with_daw(inputs)
}

fn model() -> PreSonusStudio1824c {
    PreSonusStudio1824c::new(names())
}

#[test]
fn channel_names_end_with_daw_returns() {
    let n = names();
    assert_eq!(n.len(), 36);
    assert_eq!(n[0], "In 1");
    assert_eq!(n[17], "In 18");
    assert_eq!(n[18], "DAW 1");
    assert_eq!(n[35], "DAW 18");
}

#[test]
fn fresh_model_layout() {
    let ps = model();
    assert_eq!(ps.mixes.len(), 9);
    assert_eq!(ps.mixes[0].name, "MAIN 1-2");
    assert_eq!(ps.mixes[4].name, "S/PDIF");
    assert_eq!(ps.mixes[8].name, "ADAT 7-8");
    assert_eq!(ps.mixes[0].strips.bus_strip.kind, StripKind::Main);
    assert_eq!(ps.mixes[3].strips.bus_strip.kind, StripKind::Bus);
    assert_eq!(ps.mixes[3].strips.bus_strip.number, 3);
    assert_eq!(ps.mixes[3].strips.channel_strips[7].number, 7);
    assert_eq!(ps.channel_meters.len(), 36);
    assert_eq!(ps.bus_meters.len(), 18);
    assert_eq!(ps.mixes[2].strips.iter().len(), 37);
}

#[test]
fn fader_clamping() {
    let mut ps = model();
    ps.set_fader(1, 3, 50_000);
    assert_eq!(ps.mixes[1].strips.channel_strips[3].fader, 10_000);
    ps.set_fader(1, 3, -200_000);
    assert_eq!(ps.mixes[1].strips.channel_strips[3].fader, -96_000);
    let cmds = ps.set_fader(1, 3, -5_000);
    assert_eq!(ps.mixes[1].strips.channel_strips[3].fader, -5_000);
    assert_eq!(cmds.len(), 2);
    assert_eq!(cmds[0], Command { mode: 0x64, input_strip: 3, output_bus: 1, output_channel: 0, value: encode_db(-5_000) });
    assert_eq!(cmds[1].output_channel, 1);
    ps.increment_fader(1, 36, 20_000);
    assert_eq!(ps.mixes[1].strips.bus_strip.fader, 10_000);
    ps.increment_fader(1, 36, -1_000);
    assert_eq!(ps.mixes[1].strips.bus_strip.fader, 9_000);
}

#[test]
fn bus_strip_write() {
    let ps = model();
    let cmds = ps.write_channel_fader(2, 36);
    assert_eq!(cmds, vec![Command { mode: 0x65, input_strip: 2, output_bus: 0, output_channel: 0, value: 0x0100_0000 }]);
}

#[test]
fn solo_engine() {
    let mut ps = model();
    let cmds = ps.toggle_solo(0, 3);
    assert_eq!(cmds.len(), 9 * (36 * 2 + 1));
    let strips = &ps.mixes[0].strips.channel_strips;
    for (i, s) in strips.iter().enumerate() {
        if i == 3 {
            assert!(s.solo && !s.mute_by_solo);
        } else {
            assert!(!s.solo && s.mute_by_solo, "strip {}", i);
        }
    }
    ps.toggle_solo(0, 3);
    assert!(ps.mixes[0].strips.channel_strips.iter().all(|s| !s.solo && !s.mute_by_solo));
}

#[test]
fn solo_rule_after_several_toggles() {
    let mut ps = model();
    for s in [3usize, 5, 3, 7, 36, 5] {
        ps.toggle_solo(4, s);
    }
    let strips = &ps.mixes[4].strips.channel_strips;
    assert!(strips[7].solo);
    for (i, s) in strips.iter().enumerate() {
        assert_eq!(s.mute_by_solo, i != 7);
    }
    assert!(!ps.mixes[4].strips.bus_strip.solo);
    ps.reset_solo(4);
    assert!(ps.mixes[4].strips.channel_strips.iter().all(|s| !s.solo && !s.mute_by_solo));
}

#[test]
fn effective_mute_on_the_wire() {
    let mut ps = model();
    // muted and soloed: soloing wins
    ps.toggle_mute(0, 2);
    ps.toggle_solo(0, 2);
    let c = ps.write_channel_fader(0, 2);
    assert_eq!(c[0].value, encode_db(0));
    assert_eq!(c[1].value, encode_db(0));
    // muted by the solo of strip 2
    let c = ps.write_channel_fader(0, 4);
    assert_eq!((c[0].value, c[1].value), (MUTED, MUTED));
    // bus strips follow their own mute alone
    ps.toggle_mute(5, 36);
    assert_eq!(ps.write_channel_fader(5, 36)[0].value, MUTED);
    ps.reset_mute(5);
    assert_eq!(ps.write_channel_fader(5, 36)[0].value, encode_db(0));
}

#[test]
fn main_strip_mute_toggles_the_main_mute_switch() {
    let mut ps = model();
    let c = ps.toggle_mute(0, 36);
    assert_eq!(c, vec![Command::button(Button::Mute, true)]);
    assert!(!ps.mixes[0].strips.bus_strip.mute);
}

#[test]
fn pan_law_exponential() {
    let mut s = Strip {
        fader: 0,
        balance: -50,
        solo: false,
        mute: false,
        mute_by_solo: false,
        max: 10_000,
        min: -96_000,
        active: false,
        kind: StripKind::Channel,
        number: 0,
    };
    assert_eq!(s.pan_rule(PanLaw::Exponential), (0, -26_041));
    s.balance = 100;
    assert_eq!(s.pan_rule(PanLaw::Exponential), (-104_166, 0));
    s.balance = 0;
    assert_eq!(s.pan_rule(PanLaw::Exponential), (0, 0));
    s.balance = -30;
    assert_eq!(s.pan_rule(PanLaw::Simple), (0, -30_000));
    s.balance = 30;
    assert_eq!(s.pan_rule(PanLaw::Simple), (-30_000, 0));
}

#[test]
fn hard_pan_is_clamped_by_the_codec() {
    let mut ps = model();
    ps.set_balance(0, 1, 250);
    assert_eq!(ps.mixes[0].strips.channel_strips[1].balance, 100);
    let c = ps.write_channel_fader(0, 1);
    assert_eq!(c[0].value, encode_db(-96_000));
    assert_eq!(c[1].value, encode_db(0));
    ps.increment_balance(0, 1, -30);
    assert_eq!(ps.mixes[0].strips.channel_strips[1].balance, 70);
    ps.center_balance(0, 1);
    assert_eq!(ps.mixes[0].strips.channel_strips[1].balance, 0);
}

#[test]
fn bypass_preset() {
    let ps = model();
    let cmds = ps.bypass_mixer();
    assert_eq!(cmds.len(), 639);
    let last = |mode: u32, input: u32, bus: u32, side: u32| -> Option<u32> {
        cmds.iter()
            .rev()
            .find(|c| c.mode == mode && c.input_strip == input && c.output_bus == bus && c.output_channel == side)
            .map(|c| c.value)
    };
    for m in 0..9u32 {
        assert_eq!(last(0x65, m, 0, 0), Some(UNITY));
        for c in 0..35u32 {
            let (l, r) = if c == 18 + 2 * m {
                (UNITY, MUTED)
            } else if c == 19 + 2 * m {
                (MUTED, UNITY)
            } else {
                (MUTED, MUTED)
            };
            assert_eq!(last(0x64, c, m, 0), Some(l), "mix {} channel {}", m, c);
            assert_eq!(last(0x64, c, m, 1), Some(r), "mix {} channel {}", m, c);
        }
    }
}

fn put(b: &mut [u8], off: usize, w: u32) {
    b[off..off + 4].copy_from_slice(&w.to_le_bytes());
}

#[test]
fn poll_updates_meters_and_switches() {
    let mut ps = model();
    let mut b = vec![0u8; 252];
    put(&mut b, 8, STATE_MAGIC1);
    put(&mut b, 12, STATE_MAGIC2);
    put(&mut b, 0x10, 0x8000_0000);
    put(&mut b, 0x14, 0x4000_0000);
    put(&mut b, 0xA0 + 4 * 17, 0x4000_0000);
    put(&mut b, 0xE8, 1);
    put(&mut b, 0xF4, 0x0201);
    assert!(ps.poll_state(&b).is_ok());
    assert_eq!(ps.channel_meters[0].value, 0);
    assert!(ps.channel_meters[0].clip);
    assert_eq!(ps.channel_meters[1].value, -6_021);
    assert_eq!(ps.channel_meters[1].max, -6_021);
    assert!(!ps.channel_meters[1].clip);
    assert_eq!(ps.channel_meters[2].value, NEG_INFINITY_MDB);
    assert_eq!(ps.channel_meters[2].max, -96_000);
    assert_eq!(ps.bus_meters[17].value, -6_021);
    assert!(ps.phantom_power && ps.main_mono && !ps.main_mute && !ps.in_1_2_line);

    ps.clear_clips();
    assert!(!ps.channel_meters[0].clip);
    assert_eq!(ps.channel_meters[0].max, NEG_INFINITY_MDB);
    assert_eq!(ps.channel_meters[0].value, 0);

    b[8] = 0;
    assert!(ps.poll_state(&b).is_err());
    assert!(ps.phantom_power);
}

#[test]
fn config_reload_keeps_the_persisted_fields() {
    let mut ps = model();
    ps.set_fader(3, 4, -12_500);
    ps.set_balance(3, 4, -20);
    ps.toggle_solo(3, 6);
    ps.toggle_mute(3, 36);
    ps.rename_mix(3, String::from("Phones"));
    ps.rename_channel(0, String::from("Kick"));
    let names = ps.channel_names.clone();
    let mixes: Vec<Mix> = ps.mixes.clone();

    let mut fresh = model();
    assert_eq!(fresh.load_config(names.clone(), &mixes), Ok(()));
    assert_eq!(fresh.channel_names, names);
    for (a, b) in fresh.mixes.iter().zip(mixes.iter()) {
        assert_eq!(a.name, b.name);
        assert_eq!(a.strips.channel_strips, b.strips.channel_strips);
        assert_eq!(a.strips.bus_strip, b.strips.bus_strip);
    }
    assert_eq!(fresh.mixes[3].strips.channel_strips[4].fader, -12_500);
    assert_eq!(fresh.mixes[3].name, "Phones");
    assert_eq!(fresh.channel_names[0], "Kick");

    assert_eq!(fresh.load_config(names[..35].to_vec(), &mixes), Err(ConfigError::Shape));
    assert_eq!(fresh.load_config(names, &mixes[..8].to_vec()), Err(ConfigError::Shape));
}

#[test]
fn global_switch_commands() {
    let ps = model();
    assert_eq!(ps.set_phantom_power(true), Command::button(Button::Phantom, true));
    assert_eq!(ps.set_1_2_line(false).output_channel, 0);
    assert_eq!(ps.set_main_mute(true).output_channel, 1);
    assert_eq!(ps.set_main_mono(true).output_channel, 2);
}
