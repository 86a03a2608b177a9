use vstd::prelude::*;

use crate::codec::{clamp_fader_spec, encode_db, gain_word, MUTED, UNITY};
use crate::frame::{Channel, Command, MODE_BUS_STRIP, MODE_CHANNEL_STRIP};
use crate::mixer::{pan_spec, wire_muted, Mix, PanLaw, StripKind, Strip};

verus! {

/// Number of mixes of the device.
pub const NUM_MIXES: usize = 9;

/// Number of input sources of every mix.
pub const NUM_CHANNELS: usize = 36;

/// The gain word for one side of a strip at `level`.
pub open spec fn level_word(s: Strip, level: int) -> u32 {
    if wire_muted(s) {
        MUTED
    } else {
        gain_word(clamp_fader_spec(level)) as u32
    }
}

/// The commands that bring strip `index` of `mix` (in iteration order) to the device.
#[verifier::opaque]
pub open spec fn strip_commands(mix: Mix, index: int) -> Seq<Command> {
    let s = mix.strips.strip_at(index);
    let bus = mix.strips.bus_strip.number;
    if index >= mix.channels().len() {
        seq![
            Command {
                mode: MODE_BUS_STRIP,
                input_strip: bus,
                output_bus: 0,
                output_channel: 0,
                value: level_word(s, s.fader as int),
            },
        ]
    } else {
        let lr = pan_spec(s.fader as int, s.balance as int, PanLaw::Exponential);
        seq![
            Command {
                mode: MODE_CHANNEL_STRIP,
                input_strip: index as u32,
                output_bus: bus,
                output_channel: 0,
                value: level_word(s, lr.0),
            },
            Command {
                mode: MODE_CHANNEL_STRIP,
                input_strip: index as u32,
                output_bus: bus,
                output_channel: 1,
                value: level_word(s, lr.1),
            },
        ]
    }
}

/// A side of a strip carries MUTED exactly when the strip is muted on the wire.
pub proof fn lemma_level_word_muted(s: Strip, level: int)
    ensures
        (level_word(s, level) == MUTED) == wire_muted(s),
{
    crate::codec::lemma_gain_word_bounds(clamp_fader_spec(level));
}

/// Every command written for strip `index` of `mix` carries MUTED exactly when the strip is
/// muted on the wire: a channel strip when it is muted or muted by solo and not itself
/// soloed, a bus or main strip when it is muted.
pub proof fn lemma_effective_mute(mix: Mix, index: int)
    requires
        0 <= index <= mix.channels().len(),
    ensures
        strip_commands(mix, index).len() == if index < mix.channels().len() {
            2int
        } else {
            1int
        },
        forall|k: int|
            0 <= k < strip_commands(mix, index).len() ==> (#[trigger] strip_commands(mix, index)[k].value
                == MUTED) == wire_muted(mix.strips.strip_at(index)),
{
    reveal(strip_commands);
    let s = mix.strips.strip_at(index);
    let lr = pan_spec(s.fader as int, s.balance as int, PanLaw::Exponential);
    lemma_level_word_muted(s, s.fader as int);
    lemma_level_word_muted(s, lr.0);
    lemma_level_word_muted(s, lr.1);
}

/// The commands for the first `k` strips of `mix`, in iteration order.
pub open spec fn mix_commands(mix: Mix, k: int) -> Seq<Command>
    decreases k,
{
    if k <= 0 {
        seq![]
    } else {
        mix_commands(mix, k - 1) + strip_commands(mix, k - 1)
    }
}

/// The commands for every strip of the first `k` mixes.
pub open spec fn state_commands(mixes: Seq<Mix>, k: int) -> Seq<Command>
    decreases k,
{
    if k <= 0 {
        seq![]
    } else {
        state_commands(mixes, k - 1) + mix_commands(mixes[k - 1], (mixes[k - 1].channels().len() + 1) as int)
    }
}

/// Command `i` of the bypass preset: first every bus at UNITY, then for each mix `m` and
/// channel `c` in 0..35 a left and a right route, UNITY only for DAW `18 + 2m` on the left
/// and `19 + 2m` on the right.
pub open spec fn bypass_command(i: int) -> Command {
    if i < NUM_MIXES {
        Command { mode: MODE_BUS_STRIP, input_strip: i as u32, output_bus: 0, output_channel: 0, value: UNITY }
    } else {
        let j = i - NUM_MIXES;
        let m = j / 70;
        let c = (j % 70) / 2;
        let side = j % 2;
        let on = (side == 0 && c == 18 + 2 * m) || (side == 1 && c == 19 + 2 * m);
        Command {
            mode: MODE_CHANNEL_STRIP,
            input_strip: c as u32,
            output_bus: m as u32,
            output_channel: side as u32,
            value: if on { UNITY } else { MUTED },
        }
    }
}

/// Number of commands of the bypass preset.
pub const BYPASS_LEN: usize = 639;

/// The commands for strip `index` (iteration order) of `mix`.
pub fn write_strip(mix: &Mix, index: usize) -> (r: Vec<Command>)
    requires
        mix.wf(),
        index <= mix.channels().len(),
    ensures
        r@ == strip_commands(*mix, index as int),
{
    let s = *mix.strips.get(index);
    let bus = mix.strips.bus_strip.number;
    let muted = match s.kind {
        StripKind::Channel => (s.mute || s.mute_by_solo) && !s.solo,
        _ => s.mute,
    };
    let mut r: Vec<Command> = Vec::new();
    if index >= mix.strips.channel_strips.len() {
        let value = if muted {
            MUTED
        } else {
            encode_db(s.fader)
        };
        r.push(Command::output_fader(bus, value));
    } else {
        let (left, right) = s.pan_rule(PanLaw::Exponential);
        let lv = if muted {
            MUTED
        } else {
            encode_db(left)
        };
        let rv = if muted {
            MUTED
        } else {
            encode_db(right)
        };
        r.push(Command::input_fader(index as u32, bus, Channel::Left, lv));
        r.push(Command::input_fader(index as u32, bus, Channel::Right, rv));
    }
    reveal(strip_commands);
    assert(r@ =~= strip_commands(*mix, index as int));
    r
}

/// The commands for every strip of `mix`: channel strips in order, then the bus strip.
pub fn write_mix(mix: &Mix) -> (r: Vec<Command>)
    requires
        mix.wf(),
    ensures
        r@ == mix_commands(*mix, (mix.channels().len() + 1) as int),
{
    let mut r: Vec<Command> = Vec::new();
    let mut j: usize = 0;
    let n = mix.strips.channel_strips.len();
    while j < n
        invariant
            mix.wf(),
            n == mix.channels().len(),
            j <= n,
            r@ == mix_commands(*mix, j as int),
        decreases n - j,
    {
        let mut cmds = write_strip(mix, j);
        assert(mix_commands(*mix, j + 1) == mix_commands(*mix, j as int) + strip_commands(*mix, j as int));
        r.append(&mut cmds);
        j = j + 1;
    }
    let mut cmds = write_strip(mix, n);
    assert(mix_commands(*mix, n + 1) == mix_commands(*mix, n as int) + strip_commands(*mix, n as int));
    r.append(&mut cmds);
    r
}

proof fn lemma_bypass_index(m: int, c: int, side: int)
    requires
        0 <= m < 9,
        0 <= c < 35,
        0 <= side < 2,
    ensures
        (70 * m + 2 * c + side) / 70 == m,
        ((70 * m + 2 * c + side) % 70) / 2 == c,
        (70 * m + 2 * c + side) % 2 == side,
{
    vstd::arithmetic::div_mod::lemma_fundamental_div_mod_converse(70 * m + 2 * c + side, 70, m, 2 * c + side);
    vstd::arithmetic::div_mod::lemma_fundamental_div_mod_converse(2 * c + side, 2, c, side);
    vstd::arithmetic::div_mod::lemma_fundamental_div_mod_converse(70 * m + 2 * c + side, 2, 35 * m + c, side);
}

/// The bypass preset: every bus at UNITY, and each DAW pair routed alone, at UNITY,
/// to the two sides of its own mix.
pub fn bypass_commands() -> (r: Vec<Command>)
    ensures
        r@.len() == BYPASS_LEN,
        forall|i: int| 0 <= i < BYPASS_LEN ==> #[trigger] r@[i] == bypass_command(i),
{
    let mut r: Vec<Command> = Vec::new();
    let mut m: u32 = 0;
    while m < 9
        invariant
            m <= 9,
            r@.len() == m,
            forall|i: int| 0 <= i < m ==> #[trigger] r@[i] == bypass_command(i),
        decreases 9 - m,
    {
        r.push(Command::output_fader(m, UNITY));
        m = m + 1;
    }
    let mut m: u32 = 0;
    while m < 9
        invariant
            m <= 9,
            r@.len() == 9 + 70 * m,
            forall|i: int| 0 <= i < r@.len() ==> #[trigger] r@[i] == bypass_command(i),
        decreases 9 - m,
    {
        let daw_left: u32 = 18 + 2 * m;
        let daw_right: u32 = daw_left + 1;
        let mut c: u32 = 0;
        while c < 35
            invariant
                m < 9,
                c <= 35,
                daw_left == 18 + 2 * m,
                daw_right == daw_left + 1,
                r@.len() == 9 + 70 * m + 2 * c,
                forall|i: int| 0 <= i < r@.len() ==> #[trigger] r@[i] == bypass_command(i),
            decreases 35 - c,
        {
            let left = if c == daw_left {
                UNITY
            } else {
                MUTED
            };
            let right = if c == daw_right {
                UNITY
            } else {
                MUTED
            };
            proof {
                lemma_bypass_index(m as int, c as int, 0);
                lemma_bypass_index(m as int, c as int, 1);
            }
            r.push(Command::input_fader(c, m, Channel::Left, left));
            r.push(Command::input_fader(c, m, Channel::Right, right));
            c = c + 1;
        }
        m = m + 1;
    }
    r
}

} // verus!
