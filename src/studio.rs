use vstd::prelude::*;
use vstd::string::StringExecFns;

use crate::codec::{clamp_spec, decode_meter, NEG_INFINITY_MDB};
use crate::frame::{
    button_command, decode_state, state_frame_ok, word_at, Button, Command, DecodeError,
    BUS_METERS, INPUT_METERS,
};
use crate::mixer::{
    apply_solo_rule, fresh_strip, loaded_strip, Mix, Strip, StripKind, BALANCE_LIMIT,
};
use crate::writer::{
    bypass_command, bypass_commands, state_commands, strip_commands, write_mix, write_strip,
    BYPASS_LEN, NUM_CHANNELS, NUM_MIXES,
};

verus! {

/// A meter reading is clipped above this level (thousandths of a dB).
pub const CLIP_MDB: i64 = -1;

/// Level of a meter before the first poll (thousandths of a dB).
pub const METER_FLOOR_MDB: i64 = -96000;

/// A level meter: current reading, session maximum and clip latch (thousandths of a dB).
#[derive(Clone, Copy, PartialEq, Eq, Debug)]
pub struct Meter {
    pub value: i64,
    pub max: i64,
    pub clip: bool,
}

/// The meter after a reading of `v`.
pub open spec fn meter_update(m: Meter, v: i64) -> Meter {
    Meter { value: v, max: if v > m.max { v } else { m.max }, clip: m.clip || v > CLIP_MDB }
}

impl Meter {
    /// Takes a new reading: the maximum follows it upward, and the clip latch is set
    /// when it is above -0.001 dB.
    pub fn update(&mut self, v: i64)
        ensures
            *final(self) == meter_update(*old(self), v),
    {
        self.value = v;
        if v > self.max {
            self.max = v;
        }
        if v > CLIP_MDB {
            self.clip = true;
        }
    }
}

/// The mixer model of the interface: nine mixes of 36 channel strips and a bus strip,
/// the shared channel names, the meters and the global switches.
pub struct PreSonusStudio1824c {
    pub channel_meters: Vec<Meter>,
    pub bus_meters: Vec<Meter>,
    pub channel_names: Vec<String>,
    pub mixes: Vec<Mix>,
    pub in_1_2_line: bool,
    pub main_mute: bool,
    pub main_mono: bool,
    pub phantom_power: bool,
}

impl PreSonusStudio1824c {
    pub open spec fn wf(&self) -> bool {
        &&& self.mixes@.len() == NUM_MIXES
        &&& forall|i: int|
            0 <= i < NUM_MIXES ==> {
                &&& (#[trigger] self.mixes@[i]).wf()
                &&& self.mixes@[i].channels().len() == NUM_CHANNELS
                &&& self.mixes@[i].strips.bus_strip.number == i
                &&& (self.mixes@[i].strips.bus_strip.kind == StripKind::Main <==> i == 0)
            }
        &&& self.channel_names@.len() == NUM_CHANNELS
        &&& self.channel_meters@.len() == INPUT_METERS
        &&& self.bus_meters@.len() == BUS_METERS
    }

    /// Writes strip `strip_index` of mix `mix_index` (iteration order, the bus strip at 36):
    /// one bus-strip command for the bus strip, a left and a right channel-strip command
    /// for a channel strip, MUTED where the strip is muted on the wire.
    pub fn write_channel_fader(&self, mix_index: usize, strip_index: usize) -> (r: Vec<Command>)
        requires
            self.wf(),
            mix_index < NUM_MIXES,
            strip_index <= NUM_CHANNELS,
        ensures
            r@ == strip_commands(self.mixes@[mix_index as int], strip_index as int),
    {
        write_strip(&self.mixes[mix_index], strip_index)
    }

    /// Writes every strip of every mix: for each mix its channel strips in order, then
    /// its bus strip.
    pub fn write_state(&self) -> (r: Vec<Command>)
        requires
            self.wf(),
        ensures
            r@ == state_commands(self.mixes@, NUM_MIXES as int),
    {
        let mut r: Vec<Command> = Vec::new();
        let mut i: usize = 0;
        while i < NUM_MIXES
            invariant
                self.wf(),
                i <= NUM_MIXES,
                r@ == state_commands(self.mixes@, i as int),
            decreases NUM_MIXES - i,
        {
            let mut cmds = write_mix(&self.mixes[i]);
            r.append(&mut cmds);
            i = i + 1;
        }
        r
    }

    /// The bypass preset: every bus at UNITY, and each DAW pair routed alone, at UNITY,
    /// to the two sides of its own mix.
    pub fn bypass_mixer(&self) -> (r: Vec<Command>)
        ensures
            r@.len() == BYPASS_LEN,
            forall|i: int| 0 <= i < BYPASS_LEN ==> #[trigger] r@[i] == bypass_command(i),
    {
        bypass_commands()
    }
}


/// Name of mix `i` on a fresh model.
pub open spec fn mix_name_spec(i: int) -> Seq<char> {
        if i == 0 { "MAIN 1-2"@ }
        else if i == 1 { "MIX 3-4"@ }
        else if i == 2 { "MIX 5-6"@ }
        else if i == 3 { "MIX 7-8"@ }
        else if i == 4 { "S/PDIF"@ }
        else if i == 5 { "ADAT 1-2"@ }
        else if i == 6 { "ADAT 3-4"@ }
        else if i == 7 { "ADAT 5-6"@ }
        else { "ADAT 7-8"@ }
}

fn mix_name(i: usize) -> (r: String)
    ensures
        r@ == mix_name_spec(i as int),
{
        if i == 0 { String::from_str("MAIN 1-2") }
        else if i == 1 { String::from_str("MIX 3-4") }
        else if i == 2 { String::from_str("MIX 5-6") }
        else if i == 3 { String::from_str("MIX 7-8") }
        else if i == 4 { String::from_str("S/PDIF") }
        else if i == 5 { String::from_str("ADAT 1-2") }
        else if i == 6 { String::from_str("ADAT 3-4") }
        else if i == 7 { String::from_str("ADAT 5-6") }
        else { String::from_str("ADAT 7-8") }
}

/// Name of DAW return `i` (counting from 0) on a fresh model.
pub open spec fn daw_name_spec(i: int) -> Seq<char> {
        if i == 0 { "DAW 1"@ }
        else if i == 1 { "DAW 2"@ }
        else if i == 2 { "DAW 3"@ }
        else if i == 3 { "DAW 4"@ }
        else if i == 4 { "DAW 5"@ }
        else if i == 5 { "DAW 6"@ }
        else if i == 6 { "DAW 7"@ }
        else if i == 7 { "DAW 8"@ }
        else if i == 8 { "DAW 9"@ }
        else if i == 9 { "DAW 10"@ }
        else if i == 10 { "DAW 11"@ }
        else if i == 11 { "DAW 12"@ }
        else if i == 12 { "DAW 13"@ }
        else if i == 13 { "DAW 14"@ }
        else if i == 14 { "DAW 15"@ }
        else if i == 15 { "DAW 16"@ }
        else if i == 16 { "DAW 17"@ }
        else { "DAW 18"@ }
}

fn daw_name(i: usize) -> (r: String)
    ensures
        r@ == daw_name_spec(i as int),
{
        if i == 0 { String::from_str("DAW 1") }
        else if i == 1 { String::from_str("DAW 2") }
        else if i == 2 { String::from_str("DAW 3") }
        else if i == 3 { String::from_str("DAW 4") }
        else if i == 4 { String::from_str("DAW 5") }
        else if i == 5 { String::from_str("DAW 6") }
        else if i == 6 { String::from_str("DAW 7") }
        else if i == 7 { String::from_str("DAW 8") }
        else if i == 8 { String::from_str("DAW 9") }
        else if i == 9 { String::from_str("DAW 10") }
        else if i == 10 { String::from_str("DAW 11") }
        else if i == 11 { String::from_str("DAW 12") }
        else if i == 12 { String::from_str("DAW 13") }
        else if i == 13 { String::from_str("DAW 14") }
        else if i == 14 { String::from_str("DAW 15") }
        else if i == 15 { String::from_str("DAW 16") }
        else if i == 16 { String::from_str("DAW 17") }
        else { String::from_str("DAW 18") }
}

/// A meter word read as dBFS in thousandths of a dB.
pub open spec fn meter_reading(w: int) -> i64 {
    if w == 0 {
        NEG_INFINITY_MDB
    } else {
        crate::codec::meter_mdb(w) as i64
    }
}

/// A fresh meter, at the floor and not clipped.
pub open spec fn fresh_meter() -> Meter {
    Meter { value: METER_FLOOR_MDB, max: METER_FLOOR_MDB, clip: false }
}

/// Why a saved model was refused.
#[derive(Clone, Copy, PartialEq, Eq, Debug)]
pub enum ConfigError {
    /// It does not hold 36 channel names and 9 mixes of 36 channel strips.
    Shape,
}

/// A saved model of the device's shape.
pub open spec fn config_shape_ok(names: Seq<String>, mixes: Seq<Mix>) -> bool {
    &&& names.len() == NUM_CHANNELS
    &&& mixes.len() == NUM_MIXES
    &&& forall|m: int| 0 <= m < NUM_MIXES ==> (#[trigger] mixes[m]).channels().len() == NUM_CHANNELS
}

/// Mix `b` is mix `a` after taking the persisted fields of `saved`.
pub open spec fn mix_loaded(a: Mix, b: Mix, saved: Mix) -> bool {
    &&& b.name == saved.name
    &&& b.channels() == apply_solo_rule(
        Seq::new(a.channels().len(), |i: int| loaded_strip(a.channels()[i], saved.channels()[i])),
    )
    &&& b.strips.bus_strip == (Strip {
        fader: clamp_spec(saved.strips.bus_strip.fader as int, a.strips.bus_strip.min as int, a.strips.bus_strip.max as int) as i64,
        mute: saved.strips.bus_strip.mute,
        ..a.strips.bus_strip
    })
}

/// Loading a mix's own persisted fields into it changes nothing: the persisted part of
/// the model survives a save and a load.
pub proof fn lemma_reload_identity(mix: Mix)
    requires
        mix.wf(),
    ensures
        mix_loaded(mix, mix, mix),
{
    let s = Seq::new(mix.channels().len(), |i: int| loaded_strip(mix.channels()[i], mix.channels()[i]));
    assert(s =~= mix.channels()) by {
        assert forall|i: int| 0 <= i < s.len() implies #[trigger] s[i] == mix.channels()[i] by {
            assert(mix.channels()[i].wf());
        }
    }
    crate::mixer::lemma_solo_rule_stable(mix.channels());
}

/// After `set_fader(m, s, d)` the strip's fader lies in its [min, max], and equals the
/// nearest bound when `d` is out of bounds.
pub proof fn lemma_fader_after_set(a: PreSonusStudio1824c, b: PreSonusStudio1824c, m: int, s: int, d: int)
    requires
        a.wf(),
        0 <= m < NUM_MIXES,
        0 <= s <= NUM_CHANNELS,
        strip_changed(
            a,
            b,
            m,
            s,
            Strip {
                fader: clamp_spec(d, a.strip_spec(m, s).min as int, a.strip_spec(m, s).max as int) as i64,
                ..a.strip_spec(m, s)
            },
        ),
    ensures
        b.strip_spec(m, s).min <= b.strip_spec(m, s).fader <= b.strip_spec(m, s).max,
        d < b.strip_spec(m, s).min ==> b.strip_spec(m, s).fader == b.strip_spec(m, s).min,
        d > b.strip_spec(m, s).max ==> b.strip_spec(m, s).fader == b.strip_spec(m, s).max,
{
    let st = a.strip_spec(m, s);
    assert(st.wf());
}

/// `b` holds what `a` holds but for its mixes.
pub open spec fn same_but_mixes(a: PreSonusStudio1824c, b: PreSonusStudio1824c) -> bool {
    &&& b.channel_meters@ == a.channel_meters@
    &&& b.bus_meters@ == a.bus_meters@
    &&& b.channel_names@ == a.channel_names@
    &&& b.in_1_2_line == a.in_1_2_line
    &&& b.main_mute == a.main_mute
    &&& b.main_mono == a.main_mono
    &&& b.phantom_power == a.phantom_power
}

/// `b` is `a` but for mix `m`.
pub open spec fn only_mix_changed(a: PreSonusStudio1824c, b: PreSonusStudio1824c, m: int) -> bool {
    &&& same_but_mixes(a, b)
    &&& b.mixes@.len() == a.mixes@.len()
    &&& forall|k: int| 0 <= k < a.mixes@.len() && k != m ==> #[trigger] b.mixes@[k] == a.mixes@[k]
}

/// `b` is `a` with strip `s` (iteration order) of mix `m` replaced by `st`.
pub open spec fn strip_changed(a: PreSonusStudio1824c, b: PreSonusStudio1824c, m: int, s: int, st: Strip) -> bool {
    &&& only_mix_changed(a, b, m)
    &&& Mix::strip_replaced(a.mixes@[m], b.mixes@[m], s, st)
}

impl PreSonusStudio1824c {
    /// Strip `s` (iteration order) of mix `m`.
    pub open spec fn strip_spec(&self, m: int, s: int) -> Strip {
        self.mixes@[m].strips.strip_at(s)
    }

    /// A fresh model over the 36 shared channel names: nine mixes (MAIN 1-2 first, then
    /// eight busses) of fresh strips, meters at the floor, every switch off.
    pub fn new(channel_names: Vec<String>) -> (r: Self)
        requires
            channel_names@.len() == NUM_CHANNELS,
        ensures
            r.wf(),
            r.channel_names@ == channel_names@,
            forall|i: int|
                0 <= i < NUM_MIXES ==> (#[trigger] r.mixes@[i]).name@ == mix_name_spec(i),
            forall|i: int, j: int|
                0 <= i < NUM_MIXES && 0 <= j < NUM_CHANNELS ==> #[trigger] r.mixes@[i].channels()[j]
                    == fresh_strip(StripKind::Channel, j as u32),
            forall|i: int|
                0 <= i < NUM_MIXES ==> (#[trigger] r.mixes@[i]).strips.bus_strip == fresh_strip(
                    if i == 0 {
                        StripKind::Main
                    } else {
                        StripKind::Bus
                    },
                    i as u32,
                ),
            forall|i: int| 0 <= i < INPUT_METERS ==> #[trigger] r.channel_meters@[i] == fresh_meter(),
            forall|i: int| 0 <= i < BUS_METERS ==> #[trigger] r.bus_meters@[i] == fresh_meter(),
            !r.in_1_2_line,
            !r.main_mute,
            !r.main_mono,
            !r.phantom_power,
    {
        let mut mixes: Vec<Mix> = Vec::new();
        let mut i: usize = 0;
        while i < NUM_MIXES
            invariant
                i <= NUM_MIXES,
                mixes@.len() == i,
                forall|k: int|
                    0 <= k < i ==> {
                        &&& (#[trigger] mixes@[k]).wf()
                        &&& mixes@[k].channels().len() == NUM_CHANNELS
                        &&& mixes@[k].name@ == mix_name_spec(k)
                        &&& forall|j: int|
                            0 <= j < NUM_CHANNELS ==> #[trigger] mixes@[k].channels()[j]
                                == fresh_strip(StripKind::Channel, j as u32)
                        &&& mixes@[k].strips.bus_strip == fresh_strip(
                            if k == 0 {
                                StripKind::Main
                            } else {
                                StripKind::Bus
                            },
                            k as u32,
                        )
                    },
            decreases NUM_MIXES - i,
        {
            let kind = if i == 0 {
                StripKind::Main
            } else {
                StripKind::Bus
            };
            mixes.push(Mix::new(mix_name(i), kind, i as u32, NUM_CHANNELS));
            i = i + 1;
        }
        let channel_meters = fresh_meters(INPUT_METERS);
        let bus_meters = fresh_meters(BUS_METERS);
        PreSonusStudio1824c {
            channel_meters,
            bus_meters,
            channel_names,
            mixes,
            in_1_2_line: false,
            main_mute: false,
            main_mono: false,
            phantom_power: false,
        }
    }

    /// The 36 channel names: the 18 hardware input names, then "DAW 1" to "DAW 18".
    pub fn channel_names_with_daw(input_names: Vec<String>) -> (r: Vec<String>)
        requires
            input_names@.len() == NUM_CHANNELS / 2,
        ensures
            r@.len() == NUM_CHANNELS,
            forall|i: int| 0 <= i < NUM_CHANNELS / 2 ==> #[trigger] r@[i] == input_names@[i],
            forall|i: int|
                NUM_CHANNELS / 2 <= i < NUM_CHANNELS ==> (#[trigger] r@[i])@ == daw_name_spec(i - 18),
    {
        let mut r = input_names;
        let mut i: usize = 0;
        while i < 18
            invariant
                i <= 18,
                r@.len() == 18 + i,
                forall|k: int| 0 <= k < 18 ==> #[trigger] r@[k] == input_names@[k],
                forall|k: int| 18 <= k < 18 + i ==> (#[trigger] r@[k])@ == daw_name_spec(k - 18),
            decreases 18 - i,
        {
            r.push(daw_name(i));
            i = i + 1;
        }
        r
    }

    /// The command that turns the line level of inputs 1-2 on or off.
    pub fn set_1_2_line(&self, on: bool) -> (r: Command)
        ensures
            r == button_command(Button::Line, on),
    {
        Command::button(Button::Line, on)
    }

    /// The command that turns the main mute on or off.
    pub fn set_main_mute(&self, on: bool) -> (r: Command)
        ensures
            r == button_command(Button::Mute, on),
    {
        Command::button(Button::Mute, on)
    }

    /// The command that turns the main mono switch on or off.
    pub fn set_main_mono(&self, on: bool) -> (r: Command)
        ensures
            r == button_command(Button::Mono, on),
    {
        Command::button(Button::Mono, on)
    }

    /// The command that turns phantom power on or off.
    pub fn set_phantom_power(&self, on: bool) -> (r: Command)
        ensures
            r == button_command(Button::Phantom, on),
    {
        Command::button(Button::Phantom, on)
    }

    /// Takes in a state frame read from the device: every meter takes its reading and the
    /// four switches follow their words (on when the low byte is 1). A frame that does not
    /// decode leaves the model as it was.
    pub fn poll_state(&mut self, reply: &[u8]) -> (r: Result<(), DecodeError>)
        requires
            old(self).wf(),
        ensures
            final(self).wf(),
            r.is_ok() <==> state_frame_ok(reply@),
            r.is_err() ==> *final(self) == *old(self),
            r.is_ok() ==> {
                &&& final(self).mixes@ == old(self).mixes@
                &&& final(self).channel_names@ == old(self).channel_names@
                &&& forall|i: int|
                    0 <= i < INPUT_METERS ==> #[trigger] final(self).channel_meters@[i] == meter_update(
                        old(self).channel_meters@[i],
                        meter_reading(word_at(reply@, 0x10 + 4 * i)),
                    )
                &&& forall|i: int|
                    0 <= i < BUS_METERS ==> #[trigger] final(self).bus_meters@[i] == meter_update(
                        old(self).bus_meters@[i],
                        meter_reading(word_at(reply@, 0xA0 + 4 * i)),
                    )
                &&& final(self).phantom_power == (word_at(reply@, 0xE8) % 0x100 == 1)
                &&& final(self).in_1_2_line == (word_at(reply@, 0xEC) % 0x100 == 1)
                &&& final(self).main_mute == (word_at(reply@, 0xF0) % 0x100 == 1)
                &&& final(self).main_mono == (word_at(reply@, 0xF4) % 0x100 == 1)
            },
    {
        let frame = match decode_state(reply) {
            Ok(f) => f,
            Err(e) => {
                return Err(e);
            },
        };
        update_meters(&mut self.channel_meters, &frame.input_meters);
        update_meters(&mut self.bus_meters, &frame.bus_meters);
        self.phantom_power = frame.phantom % 0x100 == 1;
        self.in_1_2_line = frame.line % 0x100 == 1;
        self.main_mute = frame.mute % 0x100 == 1;
        self.main_mono = frame.mono % 0x100 == 1;
        Ok(())
    }

    /// Clears every clip latch and resets every session maximum to minus infinity.
    pub fn clear_clips(&mut self)
        requires
            old(self).wf(),
        ensures
            final(self).wf(),
            final(self).mixes@ == old(self).mixes@,
            final(self).channel_names@ == old(self).channel_names@,
            final(self).channel_meters@.len() == old(self).channel_meters@.len(),
            final(self).bus_meters@.len() == old(self).bus_meters@.len(),
            forall|i: int|
                0 <= i < INPUT_METERS ==> #[trigger] final(self).channel_meters@[i] == (Meter {
                    clip: false,
                    max: NEG_INFINITY_MDB,
                    ..old(self).channel_meters@[i]
                }),
            forall|i: int|
                0 <= i < BUS_METERS ==> #[trigger] final(self).bus_meters@[i] == (Meter {
                    clip: false,
                    max: NEG_INFINITY_MDB,
                    ..old(self).bus_meters@[i]
                }),
    {
        clear_meters(&mut self.channel_meters);
        clear_meters(&mut self.bus_meters);
    }

    /// Replaces strip `s` of mix `m` by a strip of the same kind, number, solo and solo-mute.
    fn replace_strip(&mut self, m: usize, s: usize, st: Strip)
        requires
            old(self).wf(),
            m < NUM_MIXES,
            s <= NUM_CHANNELS,
            st.wf(),
            st.kind == old(self).strip_spec(m as int, s as int).kind,
            st.number == old(self).strip_spec(m as int, s as int).number,
            st.solo == old(self).strip_spec(m as int, s as int).solo,
            st.mute_by_solo == old(self).strip_spec(m as int, s as int).mute_by_solo,
        ensures
            final(self).wf(),
            strip_changed(*old(self), *final(self), m as int, s as int, st),
    {
        self.mixes[m].set_strip(s, st);
        assert(self.mixes@[m as int].channels().len() == NUM_CHANNELS);
    }

    /// Sets the fader of strip `s` of mix `m`, clamped to the strip's [min, max], and
    /// writes the strip.
    pub fn set_fader(&mut self, m: usize, s: usize, value: i64) -> (r: Vec<Command>)
        requires
            old(self).wf(),
            m < NUM_MIXES,
            s <= NUM_CHANNELS,
        ensures
            final(self).wf(),
            strip_changed(
                *old(self),
                *final(self),
                m as int,
                s as int,
                Strip {
                    fader: clamp_spec(
                        value as int,
                        old(self).strip_spec(m as int, s as int).min as int,
                        old(self).strip_spec(m as int, s as int).max as int,
                    ) as i64,
                    ..old(self).strip_spec(m as int, s as int)
                },
            ),
            r@ == strip_commands(final(self).mixes@[m as int], s as int),
    {
        let mut st = *self.mixes[m].strips.get(s);
        st.set_fader(value);
        self.replace_strip(m, s, st);
        self.write_channel_fader(m, s)
    }

    /// Moves the fader of strip `s` of mix `m` by `delta`, clamped to the strip's
    /// [min, max], and writes the strip.
    pub fn increment_fader(&mut self, m: usize, s: usize, delta: i64) -> (r: Vec<Command>)
        requires
            old(self).wf(),
            m < NUM_MIXES,
            s <= NUM_CHANNELS,
        ensures
            final(self).wf(),
            strip_changed(
                *old(self),
                *final(self),
                m as int,
                s as int,
                Strip {
                    fader: clamp_spec(
                        old(self).strip_spec(m as int, s as int).fader + delta,
                        old(self).strip_spec(m as int, s as int).min as int,
                        old(self).strip_spec(m as int, s as int).max as int,
                    ) as i64,
                    ..old(self).strip_spec(m as int, s as int)
                },
            ),
            r@ == strip_commands(final(self).mixes@[m as int], s as int),
    {
        let mut st = *self.mixes[m].strips.get(s);
        let sum: i128 = st.fader as i128 + delta as i128;
        st.fader = if sum < st.min as i128 {
            st.min
        } else if sum > st.max as i128 {
            st.max
        } else {
            sum as i64
        };
        self.replace_strip(m, s, st);
        self.write_channel_fader(m, s)
    }

    /// Sets the balance of strip `s` of mix `m`, clamped to [-100, +100], and writes the
    /// strip (bus and main strips ignore their balance).
    pub fn set_balance(&mut self, m: usize, s: usize, value: i64) -> (r: Vec<Command>)
        requires
            old(self).wf(),
            m < NUM_MIXES,
            s <= NUM_CHANNELS,
        ensures
            final(self).wf(),
            strip_changed(
                *old(self),
                *final(self),
                m as int,
                s as int,
                Strip {
                    balance: clamp_spec(value as int, -100, 100) as i64,
                    ..old(self).strip_spec(m as int, s as int)
                },
            ),
            r@ == strip_commands(final(self).mixes@[m as int], s as int),
    {
        let mut st = *self.mixes[m].strips.get(s);
        st.balance = if value < -BALANCE_LIMIT {
            -BALANCE_LIMIT
        } else if value > BALANCE_LIMIT {
            BALANCE_LIMIT
        } else {
            value
        };
        self.replace_strip(m, s, st);
        self.write_channel_fader(m, s)
    }

    /// Moves the balance of strip `s` of mix `m` by `delta`, clamped to [-100, +100], and
    /// writes the strip.
    pub fn increment_balance(&mut self, m: usize, s: usize, delta: i64) -> (r: Vec<Command>)
        requires
            old(self).wf(),
            m < NUM_MIXES,
            s <= NUM_CHANNELS,
        ensures
            final(self).wf(),
            strip_changed(
                *old(self),
                *final(self),
                m as int,
                s as int,
                Strip {
                    balance: clamp_spec(old(self).strip_spec(m as int, s as int).balance + delta, -100, 100) as i64,
                    ..old(self).strip_spec(m as int, s as int)
                },
            ),
            r@ == strip_commands(final(self).mixes@[m as int], s as int),
    {
        let mut st = *self.mixes[m].strips.get(s);
        let sum: i128 = st.balance as i128 + delta as i128;
        st.balance = if sum < -100 {
            -BALANCE_LIMIT
        } else if sum > 100 {
            BALANCE_LIMIT
        } else {
            sum as i64
        };
        self.replace_strip(m, s, st);
        self.write_channel_fader(m, s)
    }

    /// Centres the balance of strip `s` of mix `m` and writes the strip.
    pub fn center_balance(&mut self, m: usize, s: usize) -> (r: Vec<Command>)
        requires
            old(self).wf(),
            m < NUM_MIXES,
            s <= NUM_CHANNELS,
        ensures
            final(self).wf(),
            strip_changed(
                *old(self),
                *final(self),
                m as int,
                s as int,
                Strip { balance: 0, ..old(self).strip_spec(m as int, s as int) },
            ),
            r@ == strip_commands(final(self).mixes@[m as int], s as int),
    {
        let mut st = *self.mixes[m].strips.get(s);
        st.balance = 0;
        self.replace_strip(m, s, st);
        self.write_channel_fader(m, s)
    }

    /// Toggles the mute of strip `s` of mix `m` and writes the strip; a main strip has no
    /// mute of its own, so for it the main mute switch is toggled instead.
    pub fn toggle_mute(&mut self, m: usize, s: usize) -> (r: Vec<Command>)
        requires
            old(self).wf(),
            m < NUM_MIXES,
            s <= NUM_CHANNELS,
        ensures
            final(self).wf(),
            old(self).strip_spec(m as int, s as int).kind == StripKind::Main ==> {
                &&& *final(self) == *old(self)
                &&& r@ == seq![button_command(Button::Mute, !old(self).main_mute)]
            },
            old(self).strip_spec(m as int, s as int).kind != StripKind::Main ==> {
                &&& strip_changed(
                    *old(self),
                    *final(self),
                    m as int,
                    s as int,
                    Strip {
                        mute: !old(self).strip_spec(m as int, s as int).mute,
                        ..old(self).strip_spec(m as int, s as int)
                    },
                )
                &&& r@ == strip_commands(final(self).mixes@[m as int], s as int)
            },
    {
        let mut st = *self.mixes[m].strips.get(s);
        match st.kind {
            StripKind::Main => {
                let mut r: Vec<Command> = Vec::new();
                r.push(self.set_main_mute(!self.main_mute));
                assert(r@ =~= seq![button_command(Button::Mute, !old(self).main_mute)]);
                r
            },
            _ => {
                st.mute = !st.mute;
                self.replace_strip(m, s, st);
                self.write_channel_fader(m, s)
            },
        }
    }

    /// Toggles the solo of strip `s` of mix `m` through the solo rule and writes the whole
    /// state, since a solo can change every strip of the mix.
    pub fn toggle_solo(&mut self, m: usize, s: usize) -> (r: Vec<Command>)
        requires
            old(self).wf(),
            m < NUM_MIXES,
            s <= NUM_CHANNELS,
        ensures
            final(self).wf(),
            only_mix_changed(*old(self), *final(self), m as int),
            final(self).mixes@[m as int].name == old(self).mixes@[m as int].name,
            final(self).mixes@[m as int].strips.bus_strip == old(self).mixes@[m as int].strips.bus_strip,
            s < NUM_CHANNELS ==> final(self).mixes@[m as int].channels() == apply_solo_rule(
                old(self).mixes@[m as int].channels().update(
                    s as int,
                    Strip {
                        solo: !old(self).strip_spec(m as int, s as int).solo,
                        ..old(self).strip_spec(m as int, s as int)
                    },
                ),
            ),
            s == NUM_CHANNELS ==> final(self).mixes@[m as int].channels() == old(self).mixes@[m as int].channels(),
            r@ == state_commands(final(self).mixes@, NUM_MIXES as int),
    {
        self.mixes[m].toggle_solo(s);
        assert(self.mixes@[m as int].channels().len() == NUM_CHANNELS);
        self.write_state()
    }

    /// Clears every solo of mix `m` and writes the whole state.
    pub fn reset_solo(&mut self, m: usize) -> (r: Vec<Command>)
        requires
            old(self).wf(),
            m < NUM_MIXES,
        ensures
            final(self).wf(),
            only_mix_changed(*old(self), *final(self), m as int),
            final(self).mixes@[m as int].name == old(self).mixes@[m as int].name,
            final(self).mixes@[m as int].strips.bus_strip == old(self).mixes@[m as int].strips.bus_strip,
            forall|i: int|
                0 <= i < NUM_CHANNELS ==> #[trigger] final(self).mixes@[m as int].channels()[i] == (Strip {
                    solo: false,
                    mute_by_solo: false,
                    ..old(self).mixes@[m as int].channels()[i]
                }),
            r@ == state_commands(final(self).mixes@, NUM_MIXES as int),
    {
        self.mixes[m].reset_solo();
        self.write_state()
    }

    /// Clears every mute of mix `m`, the bus strip included, and writes the whole state.
    pub fn reset_mute(&mut self, m: usize) -> (r: Vec<Command>)
        requires
            old(self).wf(),
            m < NUM_MIXES,
        ensures
            final(self).wf(),
            only_mix_changed(*old(self), *final(self), m as int),
            final(self).mixes@[m as int].name == old(self).mixes@[m as int].name,
            final(self).mixes@[m as int].strips.bus_strip == (Strip {
                mute: false,
                ..old(self).mixes@[m as int].strips.bus_strip
            }),
            forall|i: int|
                0 <= i < NUM_CHANNELS ==> #[trigger] final(self).mixes@[m as int].channels()[i] == (Strip {
                    mute: false,
                    ..old(self).mixes@[m as int].channels()[i]
                }),
            r@ == state_commands(final(self).mixes@, NUM_MIXES as int),
    {
        self.mixes[m].reset_mute();
        self.write_state()
    }

    /// Restores the persisted part of a saved model: the channel names, and for each mix
    /// what `Mix::load_from` takes. A saved model of another shape is refused and the model
    /// left as it was.
    pub fn load_config(&mut self, channel_names: Vec<String>, mixes: &Vec<Mix>) -> (r: Result<(), ConfigError>)
        requires
            old(self).wf(),
        ensures
            final(self).wf(),
            r.is_ok() <==> config_shape_ok(channel_names@, mixes@),
            r.is_err() ==> *final(self) == *old(self),
            r.is_ok() ==> {
                &&& final(self).channel_names@ == channel_names@
                &&& final(self).channel_meters@ == old(self).channel_meters@
                &&& final(self).bus_meters@ == old(self).bus_meters@
                &&& final(self).mixes@.len() == NUM_MIXES
                &&& forall|m: int| 0 <= m < NUM_MIXES ==> mix_loaded(
                    old(self).mixes@[m],
                    #[trigger] final(self).mixes@[m],
                    mixes@[m],
                )
            },
    {
        if channel_names.len() != NUM_CHANNELS || mixes.len() != NUM_MIXES {
            return Err(ConfigError::Shape);
        }
        let mut k: usize = 0;
        while k < NUM_MIXES
            invariant
                k <= NUM_MIXES,
                *self == *old(self),
                self.wf(),
                mixes@.len() == NUM_MIXES,
                forall|j: int| 0 <= j < k ==> (#[trigger] mixes@[j]).channels().len() == NUM_CHANNELS,
            decreases NUM_MIXES - k,
        {
            if mixes[k].strips.channel_strips.len() != NUM_CHANNELS {
                return Err(ConfigError::Shape);
            }
            k = k + 1;
        }
        let mut m: usize = 0;
        while m < NUM_MIXES
            invariant
                m <= NUM_MIXES,
                config_shape_ok(channel_names@, mixes@),
                self.wf(),
                self.channel_names@ == old(self).channel_names@,
                self.channel_meters@ == old(self).channel_meters@,
                self.bus_meters@ == old(self).bus_meters@,
                self.mixes@.len() == NUM_MIXES,
                forall|j: int| 0 <= j < m ==> mix_loaded(old(self).mixes@[j], #[trigger] self.mixes@[j], mixes@[j]),
                forall|j: int| m <= j < NUM_MIXES ==> #[trigger] self.mixes@[j] == old(self).mixes@[j],
            decreases NUM_MIXES - m,
        {
            assert(mixes@[m as int].channels().len() == NUM_CHANNELS);
            self.mixes[m].load_from(&mixes[m]);
            m = m + 1;
        }
        self.channel_names = channel_names;
        Ok(())
    }

    /// Renames input channel `index`; the name is shared by every mix.
    pub fn rename_channel(&mut self, index: usize, name: String)
        requires
            old(self).wf(),
            index < NUM_CHANNELS,
        ensures
            final(self).wf(),
            final(self).channel_names@ == old(self).channel_names@.update(index as int, name),
            final(self).mixes@ == old(self).mixes@,
    {
        self.channel_names.set(index, name);
    }

    /// Renames mix `mix_index`.
    pub fn rename_mix(&mut self, mix_index: usize, name: String)
        requires
            old(self).wf(),
            mix_index < NUM_MIXES,
        ensures
            final(self).wf(),
            only_mix_changed(*old(self), *final(self), mix_index as int),
            final(self).mixes@[mix_index as int].name == name,
            final(self).mixes@[mix_index as int].strips == old(self).mixes@[mix_index as int].strips,
    {
        self.mixes[mix_index].name = name;
    }
}

/// Updates each meter with the reading of its word.
fn update_meters(meters: &mut Vec<Meter>, words: &Vec<u32>)
    requires
        old(meters)@.len() == words@.len(),
    ensures
        final(meters)@.len() == old(meters)@.len(),
        forall|i: int|
            0 <= i < words@.len() ==> #[trigger] final(meters)@[i] == meter_update(
                old(meters)@[i],
                meter_reading(words@[i] as int),
            ),
{
    let mut i: usize = 0;
    while i < words.len()
        invariant
            i <= words@.len(),
            meters@.len() == words@.len(),
            forall|k: int|
                0 <= k < i ==> #[trigger] meters@[k] == meter_update(
                    old(meters)@[k],
                    meter_reading(words@[k] as int),
                ),
            forall|k: int| i <= k < words@.len() ==> #[trigger] meters@[k] == old(meters)@[k],
        decreases words@.len() - i,
    {
        let mut m = meters[i];
        m.update(decode_meter(words[i]));
        meters.set(i, m);
        i = i + 1;
    }
}

/// Clears the clip latch and the maximum of each meter.
fn clear_meters(meters: &mut Vec<Meter>)
    ensures
        final(meters)@.len() == old(meters)@.len(),
        forall|i: int|
            0 <= i < old(meters)@.len() ==> #[trigger] final(meters)@[i] == (Meter {
                clip: false,
                max: NEG_INFINITY_MDB,
                ..old(meters)@[i]
            }),
{
    let mut i: usize = 0;
    while i < meters.len()
        invariant
            i <= meters@.len(),
            meters@.len() == old(meters)@.len(),
            forall|k: int|
                0 <= k < i ==> #[trigger] meters@[k] == (Meter {
                    clip: false,
                    max: NEG_INFINITY_MDB,
                    ..old(meters)@[k]
                }),
            forall|k: int| i <= k < meters@.len() ==> #[trigger] meters@[k] == old(meters)@[k],
        decreases meters@.len() - i,
    {
        let mut m = meters[i];
        m.clip = false;
        m.max = NEG_INFINITY_MDB;
        meters.set(i, m);
        i = i + 1;
    }
}

/// `n` fresh meters.
fn fresh_meters(n: usize) -> (r: Vec<Meter>)
    ensures
        r@.len() == n,
        forall|i: int| 0 <= i < n ==> #[trigger] r@[i] == fresh_meter(),
{
    let mut r: Vec<Meter> = Vec::new();
    let mut i: usize = 0;
    while i < n
        invariant
            i <= n,
            r@.len() == i,
            forall|k: int| 0 <= k < i ==> #[trigger] r@[k] == fresh_meter(),
        decreases n - i,
    {
        r.push(Meter { value: METER_FLOOR_MDB, max: METER_FLOOR_MDB, clip: false });
        i = i + 1;
    }
    r
}

} // verus!
