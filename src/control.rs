use vstd::prelude::*;

use crate::codec::clamp_spec;
use crate::frame::{button_command, Button, Command};
use crate::midi::MidiMessage;
use crate::midi_control::{
    bound_entry, default_range_spec, floor_div, lookup, other_control, transform_spec, ControlTarget,
    GlobalControl, MidiControl, MidiLearnState, MidiMapping, StripControl, StripTarget,
};
use crate::mixer::{apply_solo_rule, Strip, StripKind};
use crate::studio::{strip_changed, only_mix_changed, PreSonusStudio1824c};
use crate::writer::{state_commands, strip_commands, NUM_CHANNELS, NUM_MIXES};

verus! {

/// How long learn mode waits for a control change, in milliseconds.
pub const LEARN_TIMEOUT_MS: u64 = 5000;

/// A raw MIDI value at or above this presses a mute or solo button.
pub const PRESS_THRESHOLD: u8 = 63;

/// What the front-end must do after a MIDI message: send these commands, in order, and
/// persist the mapping when asked.
pub struct MidiOutcome {
    pub commands: Vec<Command>,
    pub save_mapping: bool,
}

/// The control surface of the core: the mixer model, the MIDI mapping with its learn
/// state, and the strip that the keyboard and MIDI selectors point at.
pub struct Control {
    pub studio: PreSonusStudio1824c,
    pub mapping: MidiMapping,
    pub learn_state: MidiLearnState,
    pub active_mix_index: usize,
    pub active_strip_index: usize,
    pub bypass: bool,
}

/// The range a binding learned for `target` gets.
pub open spec fn learn_range(target: ControlTarget) -> Option<crate::midi_control::ValueRange> {
    match target {
        ControlTarget::Strip(t) => default_range_spec(t.control),
        ControlTarget::Global(_) => default_range_spec(StripControl::Fader),
    }
}

/// The button a global switch control toggles, if it is one.
pub open spec fn switch_button(g: GlobalControl) -> Option<Button> {
    match g {
        GlobalControl::PhantomPower => Some(Button::Phantom),
        GlobalControl::Line1_2 => Some(Button::Line),
        GlobalControl::MainMute => Some(Button::Mute),
        GlobalControl::MainMono => Some(Button::Mono),
        _ => None,
    }
}

/// The current state of the switch that `b` drives.
pub open spec fn switch_state(s: PreSonusStudio1824c, b: Button) -> bool {
    match b {
        Button::Phantom => s.phantom_power,
        Button::Line => s.in_1_2_line,
        Button::Mute => s.main_mute,
        Button::Mono => s.main_mono,
    }
}

/// The mix that a MIDI value selects: floor(value / 127 * 8), at most 8.
pub open spec fn selected_mix(value: int) -> int {
    if value * 8 / 127 > 8 {
        8
    } else {
        value * 8 / 127
    }
}

/// The strip that a MIDI value selects: floor(value / 127 * 10), at most 36.
pub open spec fn selected_strip(value: int) -> int {
    if value * 10 / 127 > 36 {
        36
    } else {
        value * 10 / 127
    }
}

/// A strip target within the model.
pub open spec fn target_in_range(t: StripTarget) -> bool {
    t.mix_index < NUM_MIXES && t.strip_index <= NUM_CHANNELS
}

impl Control {
    pub open spec fn wf(&self) -> bool {
        &&& self.studio.wf()
        &&& self.active_mix_index < NUM_MIXES
        &&& self.active_strip_index <= NUM_CHANNELS
    }

    /// The core over a model and a mapping, not learning, mix 0 and strip 0 active.
    pub fn new(studio: PreSonusStudio1824c, mapping: MidiMapping) -> (r: Control)
        requires
            studio.wf(),
        ensures
            r.wf(),
            r.studio == studio,
            r.mapping == mapping,
            r.learn_state == MidiLearnState::Inactive,
            r.active_mix_index == 0,
            r.active_strip_index == 0,
            !r.bypass,
    {
        Control {
            studio,
            mapping,
            learn_state: MidiLearnState::Inactive,
            active_mix_index: 0,
            active_strip_index: 0,
            bypass: false,
        }
    }

    /// Switches the bypass preset on or off: on, the preset is written; off, the mixer
    /// state is written back.
    pub fn toggle_bypass(&mut self) -> (r: Vec<Command>)
        requires
            old(self).wf(),
        ensures
            final(self).wf(),
            final(self).bypass == !old(self).bypass,
            final(self).studio == old(self).studio,
            final(self).bypass ==> r@.len() == crate::writer::BYPASS_LEN && forall|i: int|
                0 <= i < crate::writer::BYPASS_LEN ==> #[trigger] r@[i] == crate::writer::bypass_command(i),
            !final(self).bypass ==> r@ == state_commands(old(self).studio.mixes@, NUM_MIXES as int),
    {
        self.bypass = !self.bypass;
        if self.bypass {
            self.studio.bypass_mixer()
        } else {
            self.studio.write_state()
        }
    }

    /// Starts learning: the next control change is bound to `target`.
    pub fn midi_learn_start(&mut self, target: ControlTarget)
        ensures
            final(self).learn_state == (MidiLearnState::Learning { target }),
            final(self).studio == old(self).studio,
            final(self).mapping == old(self).mapping,
            final(self).active_mix_index == old(self).active_mix_index,
            final(self).active_strip_index == old(self).active_strip_index,
    {
        self.learn_state = self.mapping.start_learning(target);
    }

    /// Leaves learn mode with no change (Esc, or the learn timeout).
    pub fn midi_learn_cancel(&mut self)
        ensures
            final(self).learn_state == MidiLearnState::Inactive,
            final(self).studio == old(self).studio,
            final(self).mapping == old(self).mapping,
            final(self).active_mix_index == old(self).active_mix_index,
            final(self).active_strip_index == old(self).active_strip_index,
    {
        self.learn_state = MidiLearnState::Inactive;
    }

    /// Ends learn mode once it has lasted `elapsed_ms` milliseconds or more of the
    /// 5-second limit; returns whether it ended.
    pub fn check_learn_timeout(&mut self, elapsed_ms: u64) -> (r: bool)
        ensures
            r == (old(self).learn_state != MidiLearnState::Inactive && elapsed_ms >= LEARN_TIMEOUT_MS),
            r ==> final(self).learn_state == MidiLearnState::Inactive,
            !r ==> final(self).learn_state == old(self).learn_state,
            final(self).studio == old(self).studio,
            final(self).mapping == old(self).mapping,
            final(self).active_mix_index == old(self).active_mix_index,
            final(self).active_strip_index == old(self).active_strip_index,
            final(self).bypass == old(self).bypass,
    {
        match self.learn_state {
            MidiLearnState::Learning { .. } => {
                if elapsed_ms >= LEARN_TIMEOUT_MS {
                    self.learn_state = MidiLearnState::Inactive;
                    true
                } else {
                    false
                }
            },
            MidiLearnState::Inactive => false,
        }
    }

    /// Renames what the active strip stands for: the shared name of its channel, or the
    /// name of the active mix for its bus or main strip.
    pub fn rename_active(&mut self, name: String)
        requires
            old(self).wf(),
        ensures
            final(self).wf(),
            final(self).active_mix_index == old(self).active_mix_index,
            final(self).active_strip_index == old(self).active_strip_index,
            old(self).active_strip_index < NUM_CHANNELS ==> {
                &&& final(self).studio.channel_names@ == old(self).studio.channel_names@.update(
                    old(self).active_strip_index as int,
                    name,
                )
                &&& final(self).studio.mixes@ == old(self).studio.mixes@
            },
            old(self).active_strip_index == NUM_CHANNELS ==> {
                &&& only_mix_changed(old(self).studio, final(self).studio, old(self).active_mix_index as int)
                &&& final(self).studio.mixes@[old(self).active_mix_index as int].name == name
            },
    {
        if self.active_strip_index < NUM_CHANNELS {
            self.studio.rename_channel(self.active_strip_index, name);
        } else {
            self.studio.rename_mix(self.active_mix_index, name);
        }
    }

    /// Makes mix `index` active.
    pub fn set_active_mix(&mut self, index: usize)
        requires
            old(self).wf(),
            index < NUM_MIXES,
        ensures
            final(self).wf(),
            final(self).active_mix_index == index,
            final(self).active_strip_index == old(self).active_strip_index,
            final(self).studio == old(self).studio,
            final(self).mapping == old(self).mapping,
            final(self).learn_state == old(self).learn_state,
    {
        self.active_mix_index = index;
    }

    /// Makes strip `index` active, clamped to the strips of a mix (0..=36).
    pub fn set_active_strip(&mut self, index: i64)
        requires
            old(self).wf(),
        ensures
            final(self).wf(),
            final(self).active_strip_index == clamp_spec(index as int, 0, NUM_CHANNELS as int),
            final(self).active_mix_index == old(self).active_mix_index,
            final(self).studio == old(self).studio,
            final(self).mapping == old(self).mapping,
            final(self).learn_state == old(self).learn_state,
    {
        self.active_strip_index = if index < 0 {
            0
        } else if index > NUM_CHANNELS as i64 {
            NUM_CHANNELS
        } else {
            index as usize
        };
    }

    /// Handles one MIDI message. While learning, the control is bound to the learned target
    /// (see `MidiMapping::learn_mapping`), learning ends and the mapping is to be saved.
    /// Otherwise the message drives the target its control is bound to, if any.
    pub fn handle_midi(&mut self, msg: MidiMessage) -> (r: MidiOutcome)
        requires
            old(self).wf(),
        ensures
            final(self).wf(),
            ({
                let MidiMessage::ControlChange { channel, controller, value } = msg;
                let k = MidiControl { channel, cc: controller };
                match old(self).learn_state {
                    MidiLearnState::Learning { target } => {
                        &&& final(self).learn_state == MidiLearnState::Inactive
                        &&& final(self).mapping.mappings@ == old(self).mapping.mappings@.filter(
                            other_control(k),
                        ).push(bound_entry(k, target, learn_range(target)))
                        &&& r.save_mapping
                        &&& r.commands@.len() == 0
                        &&& final(self).studio == old(self).studio
                        &&& final(self).active_mix_index == old(self).active_mix_index
                        &&& final(self).active_strip_index == old(self).active_strip_index
                    },
                    MidiLearnState::Inactive => {
                        &&& final(self).learn_state == MidiLearnState::Inactive
                        &&& final(self).mapping == old(self).mapping
                        &&& !r.save_mapping
                        &&& match lookup(old(self).mapping.mappings@, k) {
                            None => {
                                &&& final(self).studio == old(self).studio
                                &&& r.commands@.len() == 0
                                &&& final(self).active_mix_index == old(self).active_mix_index
                                &&& final(self).active_strip_index == old(self).active_strip_index
                            },
                            Some(e) => match e.target {
                                ControlTarget::Strip(t) => {
                                    &&& final(self).active_mix_index == old(self).active_mix_index
                                    &&& final(self).active_strip_index == old(self).active_strip_index
                                    &&& Self::strip_effect(
                                        old(self).studio,
                                        final(self).studio,
                                        t,
                                        match e.value_range {
                                            Some(range) => transform_spec(range, value as int),
                                            None => value as int * 1000,
                                        },
                                        value,
                                        r.commands@,
                                    )
                                },
                                ControlTarget::Global(g) => Self::global_effect(
                                    *old(self),
                                    *final(self),
                                    g,
                                    value,
                                    r.commands@,
                                ),
                            },
                        }
                    },
                }
            }),
    {
        let MidiMessage::ControlChange { channel, controller, value } = msg;
        let midi = MidiControl { channel, cc: controller };
        match self.learn_state {
            MidiLearnState::Learning { target } => {
                let control = match target {
                    ControlTarget::Strip(t) => t.control,
                    ControlTarget::Global(_) => StripControl::Fader,
                };
                let range = MidiMapping::default_range_for_control(&control);
                let state = self.learn_state;
                self.mapping.learn_mapping(&state, midi, range);
                self.learn_state = MidiLearnState::Inactive;
                MidiOutcome { commands: Vec::new(), save_mapping: true }
            },
            MidiLearnState::Inactive => {
                let commands = match self.mapping.get_target(&midi) {
                    Some(ControlTarget::Strip(t)) => {
                        let v = self.mapping.transform_value(&midi, value);
                        self.handle_strip_control(t, v, value)
                    },
                    Some(ControlTarget::Global(g)) => self.handle_global_control(g, value),
                    None => Vec::new(),
                };
                MidiOutcome { commands, save_mapping: false }
            },
        }
    }

    /// What a message for strip target `t`, with transformed value `v` and raw value `raw`,
    /// does to the model and sends. A target outside the model is ignored. A fader takes
    /// `v` (clamped); a balance takes `v` in whole steps (clamped to [-100, +100]); a press
    /// of mute toggles it (the main mute switch for a main strip) and the whole state is
    /// written; a press of solo goes through the solo rule and the whole state is written.
    pub open spec fn strip_effect(
        a: PreSonusStudio1824c,
        b: PreSonusStudio1824c,
        t: StripTarget,
        v: int,
        raw: u8,
        cmds: Seq<Command>,
    ) -> bool {
        let m = t.mix_index as int;
        let s = t.strip_index as int;
        if !target_in_range(t) {
            b == a && cmds.len() == 0
        } else {
            let st = a.strip_spec(m, s);
            match t.control {
                StripControl::Fader => {
                    &&& strip_changed(a, b, m, s, Strip { fader: clamp_spec(v, st.min as int, st.max as int) as i64, ..st })
                    &&& cmds == strip_commands(b.mixes@[m], s)
                },
                StripControl::Balance => {
                    &&& strip_changed(a, b, m, s, Strip { balance: clamp_spec(v / 1000, -100, 100) as i64, ..st })
                    &&& cmds == strip_commands(b.mixes@[m], s)
                },
                StripControl::Mute => {
                    if raw < PRESS_THRESHOLD {
                        b == a && cmds == state_commands(a.mixes@, NUM_MIXES as int)
                    } else if st.kind == StripKind::Main {
                        b == a && cmds == seq![button_command(Button::Mute, !a.main_mute)] + state_commands(
                            a.mixes@,
                            NUM_MIXES as int,
                        )
                    } else {
                        &&& strip_changed(a, b, m, s, Strip { mute: !st.mute, ..st })
                        &&& cmds == strip_commands(b.mixes@[m], s) + state_commands(b.mixes@, NUM_MIXES as int)
                    }
                },
                StripControl::Solo => {
                    if raw < PRESS_THRESHOLD {
                        b == a && cmds.len() == 0
                    } else {
                        &&& only_mix_changed(a, b, m)
                        &&& b.mixes@[m].name == a.mixes@[m].name
                        &&& b.mixes@[m].strips.bus_strip == a.mixes@[m].strips.bus_strip
                        &&& s < NUM_CHANNELS ==> b.mixes@[m].channels() == apply_solo_rule(
                            a.mixes@[m].channels().update(s, Strip { solo: !st.solo, ..st }),
                        )
                        &&& s == NUM_CHANNELS ==> b.mixes@[m].channels() == a.mixes@[m].channels()
                        &&& cmds == state_commands(b.mixes@, NUM_MIXES as int)
                    }
                },
            }
        }
    }

    /// What a message for global control `g` with raw value `raw` does: a switch is toggled
    /// (its command sent) when `raw` is above 63; the selectors pick the active mix or strip.
    pub open spec fn global_effect(a: Control, b: Control, g: GlobalControl, raw: u8, cmds: Seq<Command>) -> bool {
        &&& b.studio == a.studio
        &&& match switch_button(g) {
            Some(button) => {
                &&& b.active_mix_index == a.active_mix_index
                &&& b.active_strip_index == a.active_strip_index
                &&& cmds == if raw > PRESS_THRESHOLD {
                    seq![button_command(button, !switch_state(a.studio, button))]
                } else {
                    Seq::<Command>::empty()
                }
            },
            None => {
                &&& cmds.len() == 0
                &&& g == GlobalControl::ActiveMixSelect ==> b.active_mix_index == selected_mix(raw as int)
                    && b.active_strip_index == a.active_strip_index
                &&& g == GlobalControl::ActiveStripSelect ==> b.active_strip_index == selected_strip(
                    raw as int,
                ) && b.active_mix_index == a.active_mix_index
            },
        }
    }

    fn handle_strip_control(&mut self, t: StripTarget, v: i64, raw: u8) -> (r: Vec<Command>)
        requires
            old(self).wf(),
        ensures
            final(self).wf(),
            final(self).mapping == old(self).mapping,
            final(self).learn_state == old(self).learn_state,
            final(self).active_mix_index == old(self).active_mix_index,
            final(self).active_strip_index == old(self).active_strip_index,
            Self::strip_effect(old(self).studio, final(self).studio, t, v as int, raw, r@),
    {
        if t.mix_index >= NUM_MIXES || t.strip_index > NUM_CHANNELS {
            return Vec::new();
        }
        let m = t.mix_index;
        let s = t.strip_index;
        match t.control {
            StripControl::Fader => self.studio.set_fader(m, s, v),
            StripControl::Balance => {
                let steps = floor_div(v as i128, 1000) as i64;
                self.studio.set_balance(m, s, steps)
            },
            StripControl::Mute => {
                let mut r: Vec<Command> = Vec::new();
                if raw >= PRESS_THRESHOLD {
                    r = self.studio.toggle_mute(m, s);
                }
                let mut all = self.studio.write_state();
                r.append(&mut all);
                r
            },
            StripControl::Solo => {
                if raw >= PRESS_THRESHOLD {
                    self.studio.toggle_solo(m, s)
                } else {
                    Vec::new()
                }
            },
        }
    }

    fn handle_global_control(&mut self, g: GlobalControl, raw: u8) -> (r: Vec<Command>)
        requires
            old(self).wf(),
        ensures
            final(self).wf(),
            final(self).mapping == old(self).mapping,
            final(self).learn_state == old(self).learn_state,
            Self::global_effect(*old(self), *final(self), g, raw, r@),
    {
        let mut r: Vec<Command> = Vec::new();
        let pressed = raw > PRESS_THRESHOLD;
        match g {
            GlobalControl::PhantomPower => {
                if pressed {
                    r.push(self.studio.set_phantom_power(!self.studio.phantom_power));
                }
            },
            GlobalControl::Line1_2 => {
                if pressed {
                    r.push(self.studio.set_1_2_line(!self.studio.in_1_2_line));
                }
            },
            GlobalControl::MainMute => {
                if pressed {
                    r.push(self.studio.set_main_mute(!self.studio.main_mute));
                }
            },
            GlobalControl::MainMono => {
                if pressed {
                    r.push(self.studio.set_main_mono(!self.studio.main_mono));
                }
            },
            GlobalControl::ActiveMixSelect => {
                let index = raw as usize * 8 / 127;
                self.set_active_mix(if index > 8 {
                    8
                } else {
                    index
                });
            },
            GlobalControl::ActiveStripSelect => {
                let index = raw as i64 * 10 / 127;
                self.set_active_strip(index);
            },
        }
        assert(r@ =~= if pressed && switch_button(g).is_some() {
            seq![button_command(switch_button(g).unwrap(), !switch_state(old(self).studio, switch_button(g).unwrap()))]
        } else {
            Seq::<Command>::empty()
        });
        r
    }
}

} // verus!
