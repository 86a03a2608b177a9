use vstd::multiset::Multiset;
use vstd::prelude::*;

verus! {

broadcast use vstd::seq_lib::group_to_multiset_ensures;

/// A control of a strip that a MIDI controller can drive.
#[derive(Clone, Copy, PartialEq, Eq, Hash, Debug)]
pub enum StripControl {
    Fader,
    Balance,
    Mute,
    Solo,
}

/// A control on strip `strip_index` of mix `mix_index`.
#[derive(Clone, Copy, PartialEq, Eq, Hash, Debug)]
pub struct StripTarget {
    pub mix_index: usize,
    pub strip_index: usize,
    pub control: StripControl,
}

/// A MIDI control source: channel 0..15 and controller number 0..127.
#[derive(Clone, Copy, PartialEq, Eq, Hash, Debug)]
pub struct MidiControl {
    pub channel: u8,
    pub cc: u8,
}

/// Device-wide controls, not tied to a strip.
#[derive(Clone, Copy, PartialEq, Eq, Hash, Debug)]
pub enum GlobalControl {
    PhantomPower,
    Line1_2,
    MainMute,
    MainMono,
    ActiveMixSelect,
    ActiveStripSelect,
}

/// What a MIDI control drives.
#[derive(Clone, Copy, PartialEq, Eq, Debug)]
pub enum ControlTarget {
    Strip(StripTarget),
    Global(GlobalControl),
}

/// Shape of the response of a value range.
#[derive(Clone, Copy, PartialEq, Eq, Debug)]
pub enum Curve {
    Linear,
    Exponential,
    Logarithmic,
}

/// Maps raw MIDI values in [midi_min, midi_max] onto [target_min, target_max]; targets are
/// in thousandths of the target's unit (dB for a fader, balance steps for a balance).
#[derive(Clone, Copy, PartialEq, Eq, Debug)]
pub struct ValueRange {
    pub midi_min: u8,
    pub midi_max: u8,
    pub target_min: i64,
    pub target_max: i64,
    pub curve: Curve,
}

/// One binding of a MIDI control to a target, with an optional value range.
#[derive(Clone, Copy, PartialEq, Eq, Debug)]
pub struct MidiMappingEntry {
    pub midi: MidiControl,
    pub target: ControlTarget,
    pub value_range: Option<ValueRange>,
}

/// The ordered list of MIDI bindings.
#[derive(Clone, Debug)]
pub struct MidiMapping {
    pub mappings: Vec<MidiMappingEntry>,
}

/// Whether the next control change is bound to a target.
#[derive(Clone, Copy, PartialEq, Eq, Debug)]
pub enum MidiLearnState {
    Inactive,
    Learning { target: ControlTarget },
}

/// Scale of the fixed-point square root of the logarithmic curve.
pub const SQRT_SCALE: i128 = 1_000_000;

/// `r` is the integer square root of `n`.
pub open spec fn is_isqrt(n: int, r: int) -> bool {
    0 <= r && r * r <= n < (r + 1) * (r + 1)
}

/// The integer square root of `n`.
pub open spec fn isqrt_spec(n: int) -> int {
    choose|r: int| #[trigger] is_isqrt(n, r)
}

proof fn lemma_isqrt_unique(n: int, r: int)
    requires
        0 <= r,
        r * r <= n < (r + 1) * (r + 1),
    ensures
        isqrt_spec(n) == r,
{
    assert(is_isqrt(n, r));
    let q = isqrt_spec(n);
    assert(0 <= q && q * q <= n < (q + 1) * (q + 1));
    if q < r {
        assert((q + 1) * (q + 1) <= r * r) by (nonlinear_arith)
            requires
                0 <= q < r,
        ;
    }
    if q > r {
        assert((r + 1) * (r + 1) <= q * q) by (nonlinear_arith)
            requires
                0 <= r < q,
        ;
    }
}

/// Integer square root by bisection.
pub fn isqrt(n: u64) -> (r: u64)
    requires
        n < 0x4000_0000_0000_0000,
    ensures
        r == isqrt_spec(n as int),
        (r as int) * (r as int) <= n < (r as int + 1) * (r as int + 1),
{
    let mut lo: u64 = 0;
    let mut hi: u64 = 0x8000_0000;
    assert(n < (hi as int) * (hi as int));
    while hi - lo > 1
        invariant
            lo < hi <= 0x8000_0000,
            (lo as int) * (lo as int) <= n < (hi as int) * (hi as int),
        decreases hi - lo,
    {
        let mid = lo + (hi - lo) / 2;
        assert((mid as int) * (mid as int) <= 0x8000_0000 * 0x8000_0000int) by (nonlinear_arith)
            requires
                0 <= mid <= 0x8000_0000,
        ;
        if mid * mid <= n {
            lo = mid;
        } else {
            hi = mid;
        }
    }
    assert(hi == lo + 1);
    proof {
        lemma_isqrt_unique(n as int, lo as int);
    }
    lo
}

/// The normalized position of `v` in [lo, lo + den], pinned to [0, den].
pub open spec fn pinned(v: int, lo: int, den: int) -> int {
    if v < lo {
        0
    } else if v - lo > den {
        den
    } else {
        v - lo
    }
}

/// The value that a range gives for raw value `v`: the position x of `v` in
/// [midi_min, midi_max] (pinned to that range) shaped by the curve (x, x^2 or sqrt(x)) and
/// scaled onto [target_min, target_max], rounded down. An empty or reversed MIDI range
/// gives target_min.
pub open spec fn transform_spec(r: ValueRange, v: int) -> int {
    let den = r.midi_max - r.midi_min;
    let span = r.target_max - r.target_min;
    if den <= 0 {
        r.target_min as int
    } else {
        let x = pinned(v, r.midi_min as int, den);
        match r.curve {
            Curve::Linear => r.target_min + x * span / den,
            Curve::Exponential => r.target_min + x * x * span / (den * den),
            Curve::Logarithmic => r.target_min + isqrt_spec(x * den * SQRT_SCALE * SQRT_SCALE) * span / (
            den * SQRT_SCALE),
        }
    }
}

proof fn lemma_scaled_between(a: int, b: int, span: int)
    requires
        0 <= a <= b,
        0 < b,
    ensures
        span >= 0 ==> 0 <= a * span / b <= span,
        span < 0 ==> span <= a * span / b <= 0,
{
    if span >= 0 {
        assert(0 <= a * span <= b * span) by (nonlinear_arith)
            requires
                0 <= a <= b,
                span >= 0,
        ;
        assert(a * span / b <= span) by (nonlinear_arith)
            requires
                a * span <= b * span,
                0 < b,
        ;
        assert(0 <= a * span / b) by (nonlinear_arith)
            requires
                0 <= a * span,
                0 < b,
        ;
    } else {
        assert(b * span <= a * span <= 0) by (nonlinear_arith)
            requires
                0 <= a <= b,
                span < 0,
        ;
        assert(span <= a * span / b) by (nonlinear_arith)
            requires
                b * span <= a * span,
                0 < b,
        ;
        assert(a * span / b <= 0) by (nonlinear_arith)
            requires
                a * span <= 0,
                0 < b,
        ;
    }
}

/// `a / d` rounded down, for d > 0.
pub(crate) fn floor_div(a: i128, d: i128) -> (r: i128)
    requires
        d > 0,
    ensures
        r == a / d,
{
    if a >= 0 {
        ((a as u128) / (d as u128)) as i128
    } else {
        let m = (-(a + 1)) as u128;
        let q = m / (d as u128);
        proof {
            let ai = a as int;
            let di = d as int;
            let qi = q as int;
            let ri = m as int % di;
            vstd::arithmetic::div_mod::lemma_fundamental_div_mod(m as int, di);
            assert(qi == m as int / di);
            assert(0 <= ri < di) by {
                vstd::arithmetic::div_mod::lemma_mod_bound(m as int, di);
            }
            assert(ai == (-qi - 1) * di + (di - 1 - ri)) by (nonlinear_arith)
                requires
                    m as int == di * qi + ri,
                    ai == -(m as int) - 1,
            ;
            vstd::arithmetic::div_mod::lemma_fundamental_div_mod_converse(ai, di, -qi - 1, di - 1 - ri);
        }
        -(q as i128) - 1
    }
}

impl ValueRange {
    /// Maps a raw MIDI value into the target range (see `transform_spec`).
    pub fn transform(&self, midi_value: u8) -> (r: i64)
        ensures
            r == transform_spec(*self, midi_value as int),
    {
        if self.midi_max <= self.midi_min {
            return self.target_min;
        }
        let den: i128 = (self.midi_max - self.midi_min) as i128;
        let x: i128 = if midi_value < self.midi_min {
            0
        } else if (midi_value - self.midi_min) as i128 > den {
            den
        } else {
            (midi_value - self.midi_min) as i128
        };
        let span: i128 = self.target_max as i128 - self.target_min as i128;
        let (num, d): (i128, i128) = match self.curve {
            Curve::Linear => (x, den),
            Curve::Exponential => {
                assert(0 <= x * x <= den * den <= 255 * 255 && den * den > 0) by (nonlinear_arith)
                    requires
                        0 <= x <= den <= 255,
                        den > 0,
                ;
                (x * x, den * den)
            },
            Curve::Logarithmic => {
                assert(0 <= x * den <= den * den <= 255 * 255) by (nonlinear_arith)
                    requires
                        0 <= x <= den <= 255,
                ;
                let sq = isqrt((x * den) as u64 * 1_000_000_000_000);
                proof {
                    let n = (x * den) as int * 1_000_000_000_000;
                    let b = den as int * 1_000_000;
                    assert(n <= b * b) by (nonlinear_arith)
                        requires
                            n == (x * den) as int * 1_000_000_000_000,
                            b == den as int * 1_000_000,
                            0 <= x <= den,
                    ;
                    if sq as int > b {
                        assert((b + 1) * (b + 1) <= (sq as int) * (sq as int)) by (nonlinear_arith)
                            requires
                                0 <= b < sq as int,
                        ;
                        assert(b * b < (b + 1) * (b + 1)) by (nonlinear_arith)
                            requires
                                0 <= b,
                        ;
                    }
                    assert(sq as int <= b);
                    assert(b <= 255 * 1_000_000) by (nonlinear_arith)
                        requires
                            b == den as int * 1_000_000,
                            den <= 255,
                    ;
                }
                assert(den * SQRT_SCALE > 0);
                (sq as i128, den * SQRT_SCALE)
            },
        };
        proof {
            lemma_scaled_between(num as int, d as int, span as int);
        }
        assert(-0x10_0000_0000_0000_0000_0000_0000int <= num * span <= 0x10_0000_0000_0000_0000_0000_0000int)
            by (nonlinear_arith)
            requires
                0 <= num <= 255 * 1_000_000,
                -0x1_0000_0000_0000_0000int <= span <= 0x1_0000_0000_0000_0000int,
        ;
        let q = floor_div(num * span, d);
        (self.target_min as i128 + q) as i64
    }
}


/// The first entry of `s` from index `i` on that is bound to `k`.
pub open spec fn find_from(s: Seq<MidiMappingEntry>, k: MidiControl, i: int) -> Option<MidiMappingEntry>
    decreases s.len() - i,
{
    if i < 0 || i >= s.len() {
        None
    } else if s[i].midi == k {
        Some(s[i])
    } else {
        find_from(s, k, i + 1)
    }
}

/// The first entry of `s` bound to `k`.
pub open spec fn lookup(s: Seq<MidiMappingEntry>, k: MidiControl) -> Option<MidiMappingEntry> {
    find_from(s, k, 0)
}

/// Sort key of an entry: channel first, then controller number.
pub open spec fn entry_key(e: MidiMappingEntry) -> int {
    e.midi.channel * 256 + e.midi.cc
}

pub open spec fn sorted_by_key(s: Seq<MidiMappingEntry>) -> bool {
    forall|i: int, j: int| 0 <= i < j < s.len() ==> entry_key(#[trigger] s[i]) <= entry_key(#[trigger] s[j])
}

/// The full linear range from MIDI 0..127 onto [lo, hi].
pub open spec fn full_range(lo: i64, hi: i64) -> ValueRange {
    ValueRange { midi_min: 0, midi_max: 127, target_min: lo, target_max: hi, curve: Curve::Linear }
}

/// The range a learned binding gets: faders -50..+10 dB, balances -100..+100, none for
/// mute and solo.
pub open spec fn default_range_spec(c: StripControl) -> Option<ValueRange> {
    match c {
        StripControl::Fader => Some(full_range(-50_000i64, 10_000i64)),
        StripControl::Balance => Some(full_range(-100_000i64, 100_000i64)),
        _ => None,
    }
}

/// Entry `i` of the default mapping: CC 1..8 to the faders of strips 0..7 of mix 0
/// (-96..+10 dB), CC 10..17 to their balances, CC 102 to phantom power; all on channel 0.
pub open spec fn default_entry(i: int) -> MidiMappingEntry {
    if i < 8 {
        MidiMappingEntry {
            midi: MidiControl { channel: 0, cc: (i + 1) as u8 },
            target: ControlTarget::Strip(
                StripTarget { mix_index: 0, strip_index: i as usize, control: StripControl::Fader },
            ),
            value_range: Some(full_range(-96_000i64, 10_000i64)),
        }
    } else if i < 16 {
        MidiMappingEntry {
            midi: MidiControl { channel: 0, cc: (i + 2) as u8 },
            target: ControlTarget::Strip(
                StripTarget { mix_index: 0, strip_index: (i - 8) as usize, control: StripControl::Balance },
            ),
            value_range: Some(full_range(-100_000i64, 100_000i64)),
        }
    } else {
        MidiMappingEntry {
            midi: MidiControl { channel: 0, cc: 102 },
            target: ControlTarget::Global(GlobalControl::PhantomPower),
            value_range: None,
        }
    }
}

/// The entry that binds `midi` to `target`; a global target takes no range.
pub open spec fn bound_entry(midi: MidiControl, target: ControlTarget, range: Option<ValueRange>) -> MidiMappingEntry {
    match target {
        ControlTarget::Strip(_) => MidiMappingEntry { midi, target, value_range: range },
        ControlTarget::Global(_) => MidiMappingEntry { midi, target, value_range: None },
    }
}

/// Whether an entry is bound to another control than `k`.
pub open spec fn other_control(k: MidiControl) -> spec_fn(MidiMappingEntry) -> bool {
    |e: MidiMappingEntry| e.midi != k
}

fn same_control(a: &MidiControl, b: &MidiControl) -> (r: bool)
    ensures
        r == (*a == *b),
{
    a.channel == b.channel && a.cc == b.cc
}

fn key_of(e: &MidiMappingEntry) -> (r: u32)
    ensures
        r == entry_key(*e),
{
    e.midi.channel as u32 * 256 + e.midi.cc as u32
}

/// The entries of `s` bound to another control than `k`, in order.
fn without_control(s: &Vec<MidiMappingEntry>, k: &MidiControl) -> (r: Vec<MidiMappingEntry>)
    ensures
        r@ == s@.filter(other_control(*k)),
{
    let mut r: Vec<MidiMappingEntry> = Vec::new();
    let mut i: usize = 0;
    while i < s.len()
        invariant
            i <= s@.len(),
            r@ == s@.subrange(0, i as int).filter(other_control(*k)),
        decreases s@.len() - i,
    {
        proof {
            assert(s@.subrange(0, i + 1) =~= s@.subrange(0, i as int).push(s@[i as int]));
            s@.subrange(0, i as int).lemma_filter_push(s@[i as int], other_control(*k));
        }
        if !same_control(&s[i].midi, k) {
            r.push(s[i]);
        }
        i = i + 1;
    }
    assert(s@.subrange(0, s@.len() as int) =~= s@);
    r
}

impl MidiMapping {
    /// A mapping with no entries.
    pub fn new() -> (r: Self)
        ensures
            r.mappings@ == Seq::<MidiMappingEntry>::empty(),
    {
        MidiMapping { mappings: Vec::new() }
    }

    /// Orders the entries by channel, then controller number, keeping every entry.
    pub fn sort_mappings(&mut self)
        ensures
            final(self).mappings@.to_multiset() == old(self).mappings@.to_multiset(),
            sorted_by_key(final(self).mappings@),
    {
        let mut rest: Vec<MidiMappingEntry> = Vec::new();
        std::mem::swap(&mut rest, &mut self.mappings);
        let ghost orig = rest@;
        let mut out: Vec<MidiMappingEntry> = Vec::new();
        while rest.len() > 0
            invariant
                out@.to_multiset().add(rest@.to_multiset()) == orig.to_multiset(),
                sorted_by_key(out@),
                forall|i: int, j: int|
                    0 <= i < out@.len() && 0 <= j < rest@.len() ==> entry_key(#[trigger] out@[i])
                        <= entry_key(#[trigger] rest@[j]),
            decreases rest@.len(),
        {
            let mut mi: usize = 0;
            let mut j: usize = 1;
            while j < rest.len()
                invariant
                    0 <= mi < rest@.len(),
                    1 <= j <= rest@.len(),
                    forall|k: int| 0 <= k < j ==> entry_key(rest@[mi as int]) <= entry_key(#[trigger] rest@[k]),
                decreases rest@.len() - j,
            {
                if key_of(&rest[j]) < key_of(&rest[mi]) {
                    mi = j;
                }
                j = j + 1;
            }
            let ghost before = rest@;
            let e = rest.remove(mi);
            proof {
                assert(before.to_multiset().count(e) > 0) by {
                    assert(before.contains(e));
                }
                assert(rest@.to_multiset() == before.to_multiset().remove(e));
                assert(out@.push(e).to_multiset() == out@.to_multiset().insert(e));
                assert(out@.to_multiset().insert(e).add(before.to_multiset().remove(e)) =~= out@.to_multiset().add(
                    before.to_multiset(),
                ));
                assert forall|k: int| 0 <= k < rest@.len() implies entry_key(e) <= entry_key(#[trigger] rest@[k]) by {
                    if k < mi {
                        assert(rest@[k] == before[k]);
                    } else {
                        assert(rest@[k] == before[k + 1]);
                    }
                }
            }
            out.push(e);
            proof {
                assert forall|i: int, j: int|
                    0 <= i < out@.len() && 0 <= j < rest@.len() implies entry_key(#[trigger] out@[i])
                    <= entry_key(#[trigger] rest@[j]) by {
                    if i < out@.len() - 1 {
                        if j < mi {
                            assert(rest@[j] == before[j]);
                        } else {
                            assert(rest@[j] == before[j + 1]);
                        }
                    }
                }
            }
        }
        assert(rest@.to_multiset() =~= Multiset::empty());
        assert(out@.to_multiset().add(Multiset::empty()) =~= out@.to_multiset());
        self.mappings = out;
    }

    /// Appends a binding of `midi` to a strip control.
    pub fn map_strip(&mut self, midi: MidiControl, target: StripTarget, value_range: Option<ValueRange>)
        ensures
            final(self).mappings@ == old(self).mappings@.push(
                MidiMappingEntry { midi, target: ControlTarget::Strip(target), value_range },
            ),
    {
        self.mappings.push(MidiMappingEntry { midi, target: ControlTarget::Strip(target), value_range });
    }

    /// Appends a binding of `midi` to a global control.
    pub fn map_global(&mut self, midi: MidiControl, target: GlobalControl)
        ensures
            final(self).mappings@ == old(self).mappings@.push(
                MidiMappingEntry { midi, target: ControlTarget::Global(target), value_range: None },
            ),
    {
        self.mappings.push(MidiMappingEntry { midi, target: ControlTarget::Global(target), value_range: None });
    }

    /// The first entry bound to `midi`.
    pub fn find(&self, midi: &MidiControl) -> (r: Option<MidiMappingEntry>)
        ensures
            r == lookup(self.mappings@, *midi),
    {
        let mut i: usize = 0;
        while i < self.mappings.len()
            invariant
                i <= self.mappings@.len(),
                find_from(self.mappings@, *midi, i as int) == lookup(self.mappings@, *midi),
            decreases self.mappings@.len() - i,
        {
            if same_control(&self.mappings[i].midi, midi) {
                return Some(self.mappings[i]);
            }
            i = i + 1;
        }
        None
    }

    /// The target of the first entry bound to `midi`.
    pub fn get_target(&self, midi: &MidiControl) -> (r: Option<ControlTarget>)
        ensures
            r == (match lookup(self.mappings@, *midi) {
                Some(e) => Some(e.target),
                None => None::<ControlTarget>,
            }),
    {
        match self.find(midi) {
            Some(e) => Some(e.target),
            None => None,
        }
    }

    /// The value that a raw MIDI value of `midi` stands for, in thousandths of the target's
    /// unit: through the entry's range when it has one, else the raw value itself.
    pub fn transform_value(&self, midi: &MidiControl, midi_value: u8) -> (r: i64)
        ensures
            r == (match lookup(self.mappings@, *midi) {
                Some(e) => match e.value_range {
                    Some(range) => transform_spec(range, midi_value as int),
                    None => midi_value as int * 1000,
                },
                None => midi_value as int * 1000,
            }),
    {
        match self.find(midi) {
            Some(e) => match e.value_range {
                Some(range) => range.transform(midi_value),
                None => midi_value as i64 * 1000,
            },
            None => midi_value as i64 * 1000,
        }
    }

    /// The mapping of a standard control surface (see `default_entry`).
    pub fn create_default() -> (r: Self)
        ensures
            r.mappings@.len() == 17,
            forall|i: int| 0 <= i < 17 ==> #[trigger] r.mappings@[i] == default_entry(i),
    {
        let mut mapping = Self::new();
        let mut i: u8 = 0;
        while i < 8
            invariant
                i <= 8,
                mapping.mappings@.len() == i,
                forall|k: int| 0 <= k < i ==> #[trigger] mapping.mappings@[k] == default_entry(k),
            decreases 8 - i,
        {
            mapping.map_strip(
                MidiControl { channel: 0, cc: i + 1 },
                StripTarget { mix_index: 0, strip_index: i as usize, control: StripControl::Fader },
                Some(
                    ValueRange {
                        midi_min: 0,
                        midi_max: 127,
                        target_min: -96_000,
                        target_max: 10_000,
                        curve: Curve::Linear,
                    },
                ),
            );
            i = i + 1;
        }
        let mut i: u8 = 0;
        while i < 8
            invariant
                i <= 8,
                mapping.mappings@.len() == 8 + i,
                forall|k: int| 0 <= k < 8 + i ==> #[trigger] mapping.mappings@[k] == default_entry(k),
            decreases 8 - i,
        {
            mapping.map_strip(
                MidiControl { channel: 0, cc: i + 10 },
                StripTarget { mix_index: 0, strip_index: i as usize, control: StripControl::Balance },
                Some(
                    ValueRange {
                        midi_min: 0,
                        midi_max: 127,
                        target_min: -100_000,
                        target_max: 100_000,
                        curve: Curve::Linear,
                    },
                ),
            );
            i = i + 1;
        }
        mapping.map_global(MidiControl { channel: 0, cc: 102 }, GlobalControl::PhantomPower);
        mapping
    }

    /// Enters learn mode for `target`.
    pub fn start_learning(&self, target: ControlTarget) -> (r: MidiLearnState)
        ensures
            r == (MidiLearnState::Learning { target }),
    {
        MidiLearnState::Learning { target }
    }

    /// While learning, binds `midi` to the learned target: every entry of `midi` is removed
    /// and the new entry appended (with `default_range` for a strip target, none for a
    /// global one); returns whether a binding was made.
    pub fn learn_mapping(
        &mut self,
        learn_state: &MidiLearnState,
        midi: MidiControl,
        default_range: Option<ValueRange>,
    ) -> (r: bool)
        ensures
            r == (*learn_state != MidiLearnState::Inactive),
            *learn_state == MidiLearnState::Inactive ==> final(self).mappings@ == old(self).mappings@,
            learn_state matches MidiLearnState::Learning { target } ==> final(self).mappings@ == old(
                self,
            ).mappings@.filter(other_control(midi)).push(bound_entry(midi, *target, default_range)),
    {
        match learn_state {
            MidiLearnState::Learning { target } => {
                self.mappings = without_control(&self.mappings, &midi);
                match target {
                    ControlTarget::Strip(strip_target) => {
                        self.map_strip(midi, *strip_target, default_range);
                    },
                    ControlTarget::Global(global_control) => {
                        self.map_global(midi, *global_control);
                    },
                }
                true
            },
            MidiLearnState::Inactive => false,
        }
    }

    /// Removes every entry bound to `midi`; returns whether one was removed.
    pub fn remove_mapping(&mut self, midi: &MidiControl) -> (r: bool)
        ensures
            final(self).mappings@ == old(self).mappings@.filter(other_control(*midi)),
            r == (final(self).mappings@.len() < old(self).mappings@.len()),
    {
        let len_before = self.mappings.len();
        self.mappings = without_control(&self.mappings, midi);
        proof {
            old(self).mappings@.lemma_filter_len(other_control(*midi));
        }
        self.mappings.len() < len_before
    }

    /// The range a learned binding of `control` gets.
    pub fn default_range_for_control(control: &StripControl) -> (r: Option<ValueRange>)
        ensures
            r == default_range_spec(*control),
    {
        match control {
            StripControl::Fader => Some(
                ValueRange {
                    midi_min: 0,
                    midi_max: 127,
                    target_min: -50_000,
                    target_max: 10_000,
                    curve: Curve::Linear,
                },
            ),
            StripControl::Balance => Some(
                ValueRange {
                    midi_min: 0,
                    midi_max: 127,
                    target_min: -100_000,
                    target_max: 100_000,
                    curve: Curve::Linear,
                },
            ),
            StripControl::Mute | StripControl::Solo => None,
        }
    }
}

} // verus!
