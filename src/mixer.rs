use vstd::prelude::*;

use crate::codec::{clamp_spec, MAX_FADER_MDB, MIN_FADER_MDB};

verus! {

/// Largest balance magnitude: -100 is hard left, +100 hard right.
pub const BALANCE_LIMIT: i64 = 100;

/// What a strip of a mix stands for.
#[derive(Clone, Copy, PartialEq, Eq, Debug)]
pub enum StripKind {
    Channel,
    Bus,
    Main,
}

/// Rule that turns (fader, balance) into left and right levels.
#[derive(Clone, Copy, PartialEq, Eq, Debug)]
pub enum PanLaw {
    Simple,
    Exponential,
}

/// One addressable source or destination within a mix.
/// Levels are in thousandths of a dB; the balance is in whole steps of [-100, +100].
#[derive(Clone, Copy, PartialEq, Eq, Debug)]
pub struct Strip {
    pub fader: i64,
    pub balance: i64,
    pub solo: bool,
    pub mute: bool,
    pub mute_by_solo: bool,
    pub max: i64,
    pub min: i64,
    pub active: bool,
    pub kind: StripKind,
    pub number: u32,
}

/// Left and right levels of a strip under a pan law, before the fader clamp of the codec.
pub open spec fn pan_spec(fader: int, balance: int, law: PanLaw) -> (int, int) {
    match law {
        PanLaw::Simple => {
            if balance < 0 {
                (fader, fader + balance * 1000)
            } else if balance > 0 {
                (fader - balance * 1000, fader)
            } else {
                (fader, fader)
            }
        },
        PanLaw::Exponential => {
            let v = fader - balance * balance * 1000 / 96;
            if balance < 0 {
                (fader, v)
            } else if balance > 0 {
                (v, fader)
            } else {
                (fader, fader)
            }
        },
    }
}

/// Whether the device receives MUTED for this strip: a soloed channel is never
/// suppressed; bus and main strips follow their own mute alone.
pub open spec fn wire_muted(s: Strip) -> bool {
    match s.kind {
        StripKind::Channel => (s.mute || s.mute_by_solo) && !s.solo,
        _ => s.mute,
    }
}

/// A strip at 0 dB, centred, with nothing muted or soloed.
pub open spec fn fresh_strip(kind: StripKind, number: u32) -> Strip {
    Strip {
        fader: 0,
        balance: 0,
        solo: false,
        mute: false,
        mute_by_solo: false,
        max: MAX_FADER_MDB,
        min: MIN_FADER_MDB,
        active: false,
        kind,
        number,
    }
}

impl Strip {
    pub open spec fn wf(&self) -> bool {
        &&& MIN_FADER_MDB <= self.min <= self.fader <= self.max <= MAX_FADER_MDB
        &&& -BALANCE_LIMIT <= self.balance <= BALANCE_LIMIT
    }

    /// A strip at 0 dB, centred, with nothing muted or soloed.
    pub fn fresh(kind: StripKind, number: u32) -> (r: Strip)
        ensures
            r.wf(),
            r == fresh_strip(kind, number),
    {
        Strip {
            fader: 0,
            balance: 0,
            solo: false,
            mute: false,
            mute_by_solo: false,
            max: MAX_FADER_MDB,
            min: MIN_FADER_MDB,
            active: false,
            kind,
            number,
        }
    }

    /// Sets the fader, clamped to [min, max].
    pub fn set_fader(&mut self, value: i64)
        requires
            old(self).min <= old(self).max,
        ensures
            *final(self) == (Strip {
                fader: clamp_spec(value as int, old(self).min as int, old(self).max as int) as i64,
                ..*old(self)
            }),
    {
        self.fader = if value < self.min {
            self.min
        } else if value > self.max {
            self.max
        } else {
            value
        };
    }

    /// Left and right levels under the given pan law.
    pub fn pan_rule(&self, law: PanLaw) -> (r: (i64, i64))
        requires
            self.wf(),
        ensures
            r.0 == pan_spec(self.fader as int, self.balance as int, law).0,
            r.1 == pan_spec(self.fader as int, self.balance as int, law).1,
    {
        let mut left = self.fader;
        let mut right = self.fader;
        match law {
            PanLaw::Simple => {
                if self.balance < 0 {
                    right = self.fader + self.balance * 1000;
                } else if self.balance > 0 {
                    left = self.fader - self.balance * 1000;
                }
            },
            PanLaw::Exponential => {
                let b = if self.balance < 0 {
                    -self.balance
                } else {
                    self.balance
                };
                assert(b * b <= 10000) by (nonlinear_arith)
                    requires
                        0 <= b <= 100,
                ;
                assert(b * b == self.balance * self.balance) by (nonlinear_arith)
                    requires
                        b == self.balance || b == -self.balance,
                ;
                let v = self.fader - b * b * 1000 / 96;
                if self.balance < 0 {
                    right = v;
                } else if self.balance > 0 {
                    left = v;
                }
            },
        }
        (left, right)
    }
}

/// Strip `o` with the persisted fields of `saved`: fader and balance (each clamped),
/// solo, mute and solo-mute.
pub open spec fn loaded_strip(o: Strip, saved: Strip) -> Strip {
    Strip {
        fader: clamp_spec(saved.fader as int, o.min as int, o.max as int) as i64,
        balance: clamp_spec(saved.balance as int, -100, 100) as i64,
        solo: saved.solo,
        mute: saved.mute,
        mute_by_solo: saved.mute_by_solo,
        ..o
    }
}

/// Where the solo rule already holds, deriving the solo-mutes again changes nothing.
pub proof fn lemma_solo_rule_stable(s: Seq<Strip>)
    requires
        solo_rule_holds(s),
    ensures
        apply_solo_rule(s) == s,
{
    assert(apply_solo_rule(s) =~= s) by {
        assert forall|i: int| 0 <= i < s.len() implies #[trigger] apply_solo_rule(s)[i] == s[i] by {
            if any_solo(s) {
                assert(s[i].mute_by_solo == !s[i].solo);
            } else {
                assert(!s[i].mute_by_solo);
            }
            assert(s[i].mute_by_solo == (any_solo(s) && !s[i].solo));
            assert(apply_solo_rule(s)[i] == Strip { mute_by_solo: any_solo(s) && !s[i].solo, ..s[i] });
        }
    }
}

/// Whether some strip of `s` is soloed.
pub open spec fn any_solo(s: Seq<Strip>) -> bool {
    exists|i: int| 0 <= i < s.len() && #[trigger] s[i].solo
}

/// The strips of `s` with `mute_by_solo` derived from the solo set.
pub open spec fn apply_solo_rule(s: Seq<Strip>) -> Seq<Strip> {
    s.map_values(|st: Strip| Strip { mute_by_solo: any_solo(s) && !st.solo, ..st })
}

/// Either nothing is soloed and nothing is muted by solo, or something is soloed and
/// exactly the strips that are not soloed are muted by solo.
pub open spec fn solo_rule_holds(s: Seq<Strip>) -> bool {
    if any_solo(s) {
        forall|i: int| 0 <= i < s.len() ==> #[trigger] s[i].mute_by_solo == !s[i].solo
    } else {
        forall|i: int| 0 <= i < s.len() ==> !(#[trigger] s[i].mute_by_solo)
    }
}

/// Deriving `mute_by_solo` from the solo set establishes the solo rule, whatever the
/// strips held before.
pub proof fn lemma_solo_rule_established(s: Seq<Strip>)
    ensures
        solo_rule_holds(apply_solo_rule(s)),
{
    let t = apply_solo_rule(s);
    if any_solo(s) {
        let i = choose|i: int| 0 <= i < s.len() && #[trigger] s[i].solo;
        assert(t[i].solo);
    } else {
        if any_solo(t) {
            let i = choose|i: int| 0 <= i < t.len() && #[trigger] t[i].solo;
            assert(s[i].solo);
        }
    }
}

/// The solo rule depends on the solo and solo-mute flags alone.
pub proof fn lemma_solo_rule_same(a: Seq<Strip>, b: Seq<Strip>)
    requires
        a.len() == b.len(),
        forall|i: int|
            0 <= i < a.len() ==> (#[trigger] a[i]).solo == b[i].solo && a[i].mute_by_solo
                == b[i].mute_by_solo,
    ensures
        solo_rule_holds(a) == solo_rule_holds(b),
        any_solo(a) == any_solo(b),
{
    if any_solo(a) {
        let i = choose|i: int| 0 <= i < a.len() && #[trigger] a[i].solo;
        assert(b[i].solo);
    }
    if any_solo(b) {
        let i = choose|i: int| 0 <= i < b.len() && #[trigger] b[i].solo;
        assert(a[i].solo);
    }
    if any_solo(a) {
        if solo_rule_holds(a) {
            assert forall|i: int| 0 <= i < b.len() implies #[trigger] b[i].mute_by_solo == !b[i].solo by {
                assert(a[i].mute_by_solo == !a[i].solo);
            }
        }
        if solo_rule_holds(b) {
            assert forall|i: int| 0 <= i < a.len() implies #[trigger] a[i].mute_by_solo == !a[i].solo by {
                assert(b[i].mute_by_solo == !b[i].solo);
            }
        }
    } else {
        if solo_rule_holds(a) {
            assert forall|i: int| 0 <= i < b.len() implies !(#[trigger] b[i].mute_by_solo) by {
                assert(!a[i].mute_by_solo);
            }
        }
        if solo_rule_holds(b) {
            assert forall|i: int| 0 <= i < a.len() implies !(#[trigger] a[i].mute_by_solo) by {
                assert(!b[i].mute_by_solo);
            }
        }
    }
}

/// The channel strips of a mix and its one bus strip.
#[derive(Clone, Debug)]
pub struct MixStrips {
    pub channel_strips: Vec<Strip>,
    pub bus_strip: Strip,
}

impl MixStrips {
    /// Strip `i` in iteration order: channel strips first, then the bus strip.
    pub open spec fn strip_at(&self, i: int) -> Strip {
        if i < self.channel_strips@.len() {
            self.channel_strips@[i]
        } else {
            self.bus_strip
        }
    }

    /// Strip `index` in iteration order (the bus strip at index `channel_strips.len()`).
    pub fn get(&self, index: usize) -> (r: &Strip)
        requires
            index <= self.channel_strips@.len(),
        ensures
            *r == self.strip_at(index as int),
    {
        if index < self.channel_strips.len() {
            &self.channel_strips[index]
        } else {
            &self.bus_strip
        }
    }

    /// Every strip in iteration order: channel strips, then the bus strip.
    pub fn iter(&self) -> (r: Vec<Strip>)
        ensures
            r@ == self.channel_strips@.push(self.bus_strip),
    {
        let mut r: Vec<Strip> = Vec::new();
        let mut i: usize = 0;
        while i < self.channel_strips.len()
            invariant
                i <= self.channel_strips@.len(),
                r@ == self.channel_strips@.subrange(0, i as int),
            decreases self.channel_strips@.len() - i,
        {
            r.push(self.channel_strips[i]);
            i = i + 1;
            assert(r@ =~= self.channel_strips@.subrange(0, i as int));
        }
        r.push(self.bus_strip);
        assert(r@ =~= self.channel_strips@.push(self.bus_strip));
        r
    }

    /// Replaces strip `index` in iteration order.
    pub fn set(&mut self, index: usize, strip: Strip)
        requires
            index <= old(self).channel_strips@.len(),
        ensures
            index < old(self).channel_strips@.len() ==> final(self).channel_strips@ == old(
                self,
            ).channel_strips@.update(index as int, strip) && final(self).bus_strip == old(self).bus_strip,
            index == old(self).channel_strips@.len() ==> final(self).channel_strips@ == old(
                self,
            ).channel_strips@ && final(self).bus_strip == strip,
    {
        if index < self.channel_strips.len() {
            self.channel_strips.set(index, strip);
        } else {
            self.bus_strip = strip;
        }
    }
}

/// One stereo output bus and the sources feeding it.
#[derive(Clone, Debug)]
pub struct Mix {
    pub name: String,
    pub strips: MixStrips,
}

impl Mix {
    pub open spec fn channels(&self) -> Seq<Strip> {
        self.strips.channel_strips@
    }

    pub open spec fn wf(&self) -> bool {
        &&& self.channels().len() <= u32::MAX
        &&& forall|i: int|
            0 <= i < self.channels().len() ==> {
                &&& (#[trigger] self.channels()[i]).kind == StripKind::Channel
                &&& self.channels()[i].number == i
                &&& self.channels()[i].wf()
            }
        &&& self.strips.bus_strip.kind != StripKind::Channel
        &&& self.strips.bus_strip.wf()
        &&& !self.strips.bus_strip.solo
        &&& !self.strips.bus_strip.mute_by_solo
        &&& solo_rule_holds(self.channels())
    }

    /// A mix of `number_of_channels` fresh channel strips and a fresh bus strip of the
    /// given kind and output number.
    pub fn new(mix_name: String, mix_kind: StripKind, mix_number: u32, number_of_channels: usize) -> (r: Mix)
        requires
            mix_kind != StripKind::Channel,
            number_of_channels <= u32::MAX,
        ensures
            r.wf(),
            r.name@ == mix_name@,
            r.channels().len() == number_of_channels,
            forall|i: int|
                0 <= i < number_of_channels ==> #[trigger] r.channels()[i] == fresh_strip(
                    StripKind::Channel,
                    i as u32,
                ),
            r.strips.bus_strip == fresh_strip(mix_kind, mix_number),
    {
        let mut channel_strips: Vec<Strip> = Vec::new();
        let mut i: usize = 0;
        while i < number_of_channels
            invariant
                i <= number_of_channels <= u32::MAX,
                channel_strips@.len() == i,
                forall|j: int|
                    0 <= j < i ==> #[trigger] channel_strips@[j] == fresh_strip(
                        StripKind::Channel,
                        j as u32,
                    ),
            decreases number_of_channels - i,
        {
            channel_strips.push(Strip::fresh(StripKind::Channel, i as u32));
            i = i + 1;
        }
        let r = Mix {
            name: mix_name,
            strips: MixStrips { channel_strips, bus_strip: Strip::fresh(mix_kind, mix_number) },
        };
        assert(!any_solo(r.channels()));
        r
    }

    /// Toggles the solo of channel strip `index` and re-derives `mute_by_solo` for every
    /// channel strip; the bus strip cannot be soloed, so an index past the channel strips
    /// changes nothing.
    pub fn toggle_solo(&mut self, index: usize)
        requires
            old(self).wf(),
        ensures
            final(self).wf(),
            final(self).name == old(self).name,
            final(self).strips.bus_strip == old(self).strips.bus_strip,
            index < old(self).channels().len() ==> final(self).channels() == apply_solo_rule(
                old(self).channels().update(
                    index as int,
                    Strip { solo: !old(self).channels()[index as int].solo, ..old(self).channels()[index as int] },
                ),
            ),
            index >= old(self).channels().len() ==> final(self).channels() == old(self).channels(),
    {
        if index < self.strips.channel_strips.len() {
            let mut s = self.strips.channel_strips[index];
            s.solo = !s.solo;
            self.strips.channel_strips.set(index, s);
            self.apply_solo();
        }
    }

    /// Re-derives `mute_by_solo` of every channel strip from the solo set.
    fn apply_solo(&mut self)
        requires
            old(self).channels().len() <= u32::MAX,
            forall|i: int|
                0 <= i < old(self).channels().len() ==> {
                    &&& (#[trigger] old(self).channels()[i]).kind == StripKind::Channel
                    &&& old(self).channels()[i].number == i
                    &&& old(self).channels()[i].wf()
                },
            old(self).strips.bus_strip.kind != StripKind::Channel,
            old(self).strips.bus_strip.wf(),
            !old(self).strips.bus_strip.solo,
            !old(self).strips.bus_strip.mute_by_solo,
        ensures
            final(self).wf(),
            final(self).name == old(self).name,
            final(self).strips.bus_strip == old(self).strips.bus_strip,
            final(self).channels() == apply_solo_rule(old(self).channels()),
    {
        let ghost s0 = self.channels();
        let n = self.strips.channel_strips.len();
        let mut any = false;
        let mut i: usize = 0;
        while i < n
            invariant
                n == self.channels().len(),
                self.channels() == s0,
                i <= n,
                any <==> exists|j: int| 0 <= j < i && #[trigger] s0[j].solo,
            decreases n - i,
        {
            if self.strips.channel_strips[i].solo {
                any = true;
            }
            i = i + 1;
        }
        assert(any == any_solo(s0));
        let mut i: usize = 0;
        while i < n
            invariant
                n == self.channels().len(),
                n == s0.len(),
                i <= n,
                any == any_solo(s0),
                self.name == old(self).name,
                self.strips.bus_strip == old(self).strips.bus_strip,
                forall|j: int| 0 <= j < i ==> #[trigger] self.channels()[j] == apply_solo_rule(s0)[j],
                forall|j: int| i <= j < n ==> #[trigger] self.channels()[j] == s0[j],
            decreases n - i,
        {
            let mut s = self.strips.channel_strips[i];
            s.mute_by_solo = any && !s.solo;
            self.strips.channel_strips.set(i, s);
            i = i + 1;
        }
        assert(self.channels() =~= apply_solo_rule(s0));
        proof {
            lemma_solo_rule_established(s0);
        }
    }

    /// `new` is `old` with strip `index` (iteration order) replaced by `st`.
    pub open spec fn strip_replaced(old: Mix, new: Mix, index: int, st: Strip) -> bool {
        &&& new.name == old.name
        &&& if index < old.channels().len() {
            new.channels() == old.channels().update(index, st) && new.strips.bus_strip == old.strips.bus_strip
        } else {
            new.channels() == old.channels() && new.strips.bus_strip == st
        }
    }

    /// Replaces strip `index` (iteration order) by a strip of the same kind, number, solo
    /// and solo-mute.
    pub fn set_strip(&mut self, index: usize, st: Strip)
        requires
            old(self).wf(),
            index <= old(self).channels().len(),
            st.wf(),
            st.kind == old(self).strips.strip_at(index as int).kind,
            st.number == old(self).strips.strip_at(index as int).number,
            st.solo == old(self).strips.strip_at(index as int).solo,
            st.mute_by_solo == old(self).strips.strip_at(index as int).mute_by_solo,
        ensures
            final(self).wf(),
            Mix::strip_replaced(*old(self), *final(self), index as int, st),
    {
        self.strips.set(index, st);
        proof {
            lemma_solo_rule_same(old(self).channels(), self.channels());
        }
    }

    /// Takes the persisted fields of `saved`: name, and per channel strip fader (clamped),
    /// balance (clamped), solo, mute and solo-mute, then re-derives the solo-mutes from the
    /// solos; the bus strip takes fader (clamped) and mute.
    pub fn load_from(&mut self, saved: &Mix)
        requires
            old(self).wf(),
            saved.channels().len() == old(self).channels().len(),
        ensures
            final(self).wf(),
            final(self).name == saved.name,
            final(self).channels() == apply_solo_rule(
                Seq::new(
                    old(self).channels().len(),
                    |i: int| loaded_strip(old(self).channels()[i], saved.channels()[i]),
                ),
            ),
            final(self).strips.bus_strip == (Strip {
                fader: clamp_spec(
                    saved.strips.bus_strip.fader as int,
                    old(self).strips.bus_strip.min as int,
                    old(self).strips.bus_strip.max as int,
                ) as i64,
                mute: saved.strips.bus_strip.mute,
                ..old(self).strips.bus_strip
            }),
    {
        let n = self.strips.channel_strips.len();
        let ghost loaded = Seq::new(
            old(self).channels().len(),
            |i: int| loaded_strip(old(self).channels()[i], saved.channels()[i]),
        );
        let mut i: usize = 0;
        while i < n
            invariant
                n == self.channels().len(),
                n == old(self).channels().len(),
                n == saved.channels().len(),
                n <= u32::MAX,
                i <= n,
                self.strips.bus_strip == old(self).strips.bus_strip,
                loaded == Seq::new(
                    old(self).channels().len(),
                    |i: int| loaded_strip(old(self).channels()[i], saved.channels()[i]),
                ),
                forall|j: int| 0 <= j < i ==> #[trigger] self.channels()[j] == loaded[j],
                forall|j: int| i <= j < n ==> #[trigger] self.channels()[j] == old(self).channels()[j],
                forall|j: int|
                    0 <= j < n ==> {
                        &&& (#[trigger] old(self).channels()[j]).kind == StripKind::Channel
                        &&& old(self).channels()[j].number == j
                        &&& old(self).channels()[j].wf()
                    },
            decreases n - i,
        {
            let o = self.strips.channel_strips[i];
            let sv = saved.strips.channel_strips[i];
            let mut st = o;
            st.set_fader(sv.fader);
            st.balance = if sv.balance < -BALANCE_LIMIT {
                -BALANCE_LIMIT
            } else if sv.balance > BALANCE_LIMIT {
                BALANCE_LIMIT
            } else {
                sv.balance
            };
            st.solo = sv.solo;
            st.mute = sv.mute;
            st.mute_by_solo = sv.mute_by_solo;
            self.strips.channel_strips.set(i, st);
            i = i + 1;
        }
        assert(self.channels() =~= loaded);
        let mut b = self.strips.bus_strip;
        b.set_fader(saved.strips.bus_strip.fader);
        b.mute = saved.strips.bus_strip.mute;
        self.strips.bus_strip = b;
        self.apply_solo();
        self.name = saved.name.clone();
    }

    /// Clears every solo of the mix, and with it every `mute_by_solo`.
    pub fn reset_solo(&mut self)
        requires
            old(self).wf(),
        ensures
            final(self).wf(),
            final(self).name == old(self).name,
            final(self).strips.bus_strip == old(self).strips.bus_strip,
            final(self).channels().len() == old(self).channels().len(),
            forall|i: int|
                0 <= i < old(self).channels().len() ==> #[trigger] final(self).channels()[i] == (Strip {
                    solo: false,
                    mute_by_solo: false,
                    ..old(self).channels()[i]
                }),
    {
        let n = self.strips.channel_strips.len();
        let mut i: usize = 0;
        while i < n
            invariant
                n == self.channels().len(),
                n == old(self).channels().len(),
                i <= n,
                self.name == old(self).name,
                self.strips.bus_strip == old(self).strips.bus_strip,
                forall|j: int|
                    0 <= j < i ==> #[trigger] self.channels()[j] == (Strip {
                        solo: false,
                        mute_by_solo: false,
                        ..old(self).channels()[j]
                    }),
                forall|j: int| i <= j < n ==> #[trigger] self.channels()[j] == old(self).channels()[j],
            decreases n - i,
        {
            let mut s = self.strips.channel_strips[i];
            s.solo = false;
            s.mute_by_solo = false;
            self.strips.channel_strips.set(i, s);
            i = i + 1;
        }
        assert(!any_solo(self.channels()));
    }

    /// Clears the mute of every strip of the mix, the bus strip included.
    pub fn reset_mute(&mut self)
        requires
            old(self).wf(),
        ensures
            final(self).wf(),
            final(self).name == old(self).name,
            final(self).strips.bus_strip == (Strip { mute: false, ..old(self).strips.bus_strip }),
            final(self).channels().len() == old(self).channels().len(),
            forall|i: int|
                0 <= i < old(self).channels().len() ==> #[trigger] final(self).channels()[i] == (Strip {
                    mute: false,
                    ..old(self).channels()[i]
                }),
    {
        let n = self.strips.channel_strips.len();
        let mut i: usize = 0;
        while i < n
            invariant
                n == self.channels().len(),
                n == old(self).channels().len(),
                i <= n,
                self.name == old(self).name,
                self.strips.bus_strip == old(self).strips.bus_strip,
                forall|j: int|
                    0 <= j < i ==> #[trigger] self.channels()[j] == (Strip {
                        mute: false,
                        ..old(self).channels()[j]
                    }),
                forall|j: int| i <= j < n ==> #[trigger] self.channels()[j] == old(self).channels()[j],
            decreases n - i,
        {
            let mut s = self.strips.channel_strips[i];
            s.mute = false;
            self.strips.channel_strips.set(i, s);
            i = i + 1;
        }
        self.strips.bus_strip.mute = false;
        assert(any_solo(self.channels()) == any_solo(old(self).channels())) by {
            if any_solo(old(self).channels()) {
                let k = choose|k: int| 0 <= k < old(self).channels().len() && #[trigger] old(self).channels()[k].solo;
                assert(self.channels()[k].solo);
            }
            if any_solo(self.channels()) {
                let k = choose|k: int| 0 <= k < self.channels().len() && #[trigger] self.channels()[k].solo;
                assert(old(self).channels()[k].solo);
            }
        }
    }
}

} // verus!
