use vstd::prelude::*;

verus! {

/// Command mode of a button (global switch) write.
pub const MODE_BUTTON: u32 = 0x00;

/// Command mode of a route from an input to one side of a mix bus.
pub const MODE_CHANNEL_STRIP: u32 = 0x64;

/// Command mode of a mix bus output level.
pub const MODE_BUS_STRIP: u32 = 0x65;

/// First constant field of a command frame ("iraP" read as bytes).
pub const COMMAND_MAGIC1: u32 = 0x5061_7269;

/// Second constant field of a command frame.
pub const COMMAND_MAGIC2: u32 = 0x0000_0014;

/// First constant field of a state frame ("smed" read as bytes).
pub const STATE_MAGIC1: u32 = 0x6465_6d73;

/// Second constant field of a state frame.
pub const STATE_MAGIC2: u32 = 0x0000_00F4;

/// Size of a command frame in bytes.
pub const COMMAND_LEN: usize = 28;

/// Size of a state frame in bytes.
pub const STATE_LEN: usize = 252;

/// Number of input meters in a state frame.
pub const INPUT_METERS: usize = 36;

/// Number of bus meters in a state frame.
pub const BUS_METERS: usize = 18;

/// Byte offset of the first input meter (mic, then S/PDIF, ADAT and DAW).
pub const INPUT_METER_OFFSET: usize = 0x10;

/// Byte offset of the first bus meter.
pub const BUS_METER_OFFSET: usize = 0xA0;

/// Byte offset of the phantom power switch word.
pub const PHANTOM_OFFSET: usize = 0xE8;

/// Byte offset of the line 1-2 switch word.
pub const LINE_OFFSET: usize = 0xEC;

/// Byte offset of the main mute switch word.
pub const MUTE_OFFSET: usize = 0xF0;

/// Byte offset of the main mono switch word.
pub const MONO_OFFSET: usize = 0xF4;

/// Side of a stereo mix bus that a channel-strip command addresses.
#[derive(Clone, Copy, PartialEq, Eq, Debug)]
pub enum Channel {
    Left,
    Right,
}

impl Channel {
    pub open spec fn selector_spec(self) -> u32 {
        match self {
            Channel::Left => 0,
            Channel::Right => 1,
        }
    }

    /// The `output_channel` field for this side.
    pub fn selector(&self) -> (r: u32)
        ensures
            r == self.selector_spec(),
    {
        match self {
            Channel::Left => 0,
            Channel::Right => 1,
        }
    }
}

/// A global switch of the device, addressed by a button-mode command.
#[derive(Clone, Copy, PartialEq, Eq, Debug)]
pub enum Button {
    Line,
    Mute,
    Mono,
    Phantom,
}

impl Button {
    pub open spec fn selector_spec(self) -> u32 {
        match self {
            Button::Line => 0,
            Button::Mute => 1,
            Button::Mono => 2,
            Button::Phantom => 4,
        }
    }

    /// The `output_channel` field that selects this switch.
    pub fn selector(&self) -> (r: u32)
        ensures
            r == self.selector_spec(),
    {
        match self {
            Button::Line => 0,
            Button::Mute => 1,
            Button::Mono => 2,
            Button::Phantom => 4,
        }
    }
}

/// The variable fields of a 28-byte command frame.
#[derive(Clone, Copy, PartialEq, Eq, Debug)]
pub struct Command {
    pub mode: u32,
    pub input_strip: u32,
    pub output_bus: u32,
    pub output_channel: u32,
    pub value: u32,
}

/// The button-mode command that turns `button` on or off.
pub open spec fn button_command(button: Button, on: bool) -> Command {
    Command {
        mode: MODE_BUTTON,
        input_strip: 0,
        output_bus: 0,
        output_channel: button.selector_spec(),
        value: if on { 1u32 } else { 0u32 },
    }
}

/// The four little-endian bytes of a 32-bit word.
pub open spec fn le_bytes(w: u32) -> Seq<u8> {
    seq![
        (w % 0x100) as u8,
        ((w / 0x100) % 0x100) as u8,
        ((w / 0x1_0000) % 0x100) as u8,
        (w / 0x100_0000) as u8,
    ]
}

/// The 32-bit little-endian word at byte offset `off`.
pub open spec fn word_at(b: Seq<u8>, off: int) -> int {
    b[off] + 0x100 * b[off + 1] + 0x1_0000 * b[off + 2] + 0x100_0000 * b[off + 3]
}

impl Command {
    /// The frame bytes: mode, input strip, the two magic words, output bus,
    /// output channel and value, each as a little-endian word.
    pub open spec fn bytes_spec(self) -> Seq<u8> {
        le_bytes(self.mode) + le_bytes(self.input_strip) + le_bytes(COMMAND_MAGIC1) + le_bytes(
            COMMAND_MAGIC2,
        ) + le_bytes(self.output_bus) + le_bytes(self.output_channel) + le_bytes(self.value)
    }

    /// A route from input strip `input` to one side of mix bus `bus`.
    pub fn input_fader(input: u32, bus: u32, side: Channel, value: u32) -> (r: Command)
        ensures
            r == (Command {
                mode: MODE_CHANNEL_STRIP,
                input_strip: input,
                output_bus: bus,
                output_channel: side.selector_spec(),
                value,
            }),
    {
        Command {
            mode: MODE_CHANNEL_STRIP,
            input_strip: input,
            output_bus: bus,
            output_channel: side.selector(),
            value,
        }
    }

    /// The output level of mix bus `bus`.
    pub fn output_fader(bus: u32, value: u32) -> (r: Command)
        ensures
            r == (Command {
                mode: MODE_BUS_STRIP,
                input_strip: bus,
                output_bus: 0,
                output_channel: 0,
                value,
            }),
    {
        Command { mode: MODE_BUS_STRIP, input_strip: bus, output_bus: 0, output_channel: 0, value }
    }

    /// Turns a global switch on or off.
    pub fn button(button: Button, on: bool) -> (r: Command)
        ensures
            r == button_command(button, on),
    {
        Command {
            mode: MODE_BUTTON,
            input_strip: 0,
            output_bus: 0,
            output_channel: button.selector(),
            value: if on { 1 } else { 0 },
        }
    }

    /// Encodes the command as its 28-byte frame.
    pub fn to_bytes(&self) -> (r: Vec<u8>)
        ensures
            r@ == self.bytes_spec(),
            r@.len() == COMMAND_LEN,
    {
        let mut v: Vec<u8> = Vec::new();
        push_word(&mut v, self.mode);
        push_word(&mut v, self.input_strip);
        push_word(&mut v, COMMAND_MAGIC1);
        push_word(&mut v, COMMAND_MAGIC2);
        push_word(&mut v, self.output_bus);
        push_word(&mut v, self.output_channel);
        push_word(&mut v, self.value);
        assert(v@ =~= self.bytes_spec());
        v
    }
}

/// Appends the little-endian bytes of `w`.
fn push_word(v: &mut Vec<u8>, w: u32)
    ensures
        final(v)@ == old(v)@ + le_bytes(w),
{
    v.push((w % 0x100) as u8);
    v.push(((w / 0x100) % 0x100) as u8);
    v.push(((w / 0x1_0000) % 0x100) as u8);
    v.push((w / 0x100_0000) as u8);
    assert(v@ =~= old(v)@ + le_bytes(w));
}

/// Reads the little-endian word at byte offset `off`.
pub fn read_word(b: &[u8], off: usize) -> (r: u32)
    requires
        off + 4 <= b@.len(),
    ensures
        r == word_at(b@, off as int),
{
    let b0 = b[off] as u32;
    let b1 = b[off + 1] as u32;
    let b2 = b[off + 2] as u32;
    let b3 = b[off + 3] as u32;
    b0 + 0x100 * b1 + 0x1_0000 * b2 + 0x100_0000 * b3
}

/// Why a state frame was discarded.
#[derive(Clone, Copy, PartialEq, Eq, Debug)]
pub enum DecodeError {
    /// The frame is not 252 bytes long.
    Length,
    /// A magic field does not hold its constant.
    Magic,
}

/// The fields of a 252-byte state frame.
#[derive(Clone, PartialEq, Eq, Debug)]
pub struct StateFrame {
    pub d1: u32,
    pub d2: u32,
    /// Input meter words: 8 mic, 2 S/PDIF, 8 ADAT, 18 DAW.
    pub input_meters: Vec<u32>,
    /// Bus meter words, a stereo pair per mix.
    pub bus_meters: Vec<u32>,
    pub phantom: u32,
    pub line: u32,
    pub mute: u32,
    pub mono: u32,
    pub d5: u32,
}

/// A state frame is accepted when it has the right size and both magic fields.
pub open spec fn state_frame_ok(b: Seq<u8>) -> bool {
    b.len() == STATE_LEN && word_at(b, 8) == STATE_MAGIC1 && word_at(b, 12) == STATE_MAGIC2
}

/// The fields that decoding `b` gives.
pub open spec fn state_fields(b: Seq<u8>, f: StateFrame) -> bool {
    &&& f.d1 == word_at(b, 0)
    &&& f.d2 == word_at(b, 4)
    &&& f.input_meters@.len() == INPUT_METERS
    &&& forall|i: int|
        0 <= i < INPUT_METERS ==> #[trigger] f.input_meters@[i] == word_at(b, INPUT_METER_OFFSET + 4 * i)
    &&& f.bus_meters@.len() == BUS_METERS
    &&& forall|i: int|
        0 <= i < BUS_METERS ==> #[trigger] f.bus_meters@[i] == word_at(b, BUS_METER_OFFSET + 4 * i)
    &&& f.phantom == word_at(b, PHANTOM_OFFSET as int)
    &&& f.line == word_at(b, LINE_OFFSET as int)
    &&& f.mute == word_at(b, MUTE_OFFSET as int)
    &&& f.mono == word_at(b, MONO_OFFSET as int)
    &&& f.d5 == word_at(b, 0xF8)
}

/// Reads `n` consecutive words starting at byte offset `off`.
fn read_words(b: &[u8], off: usize, n: usize) -> (r: Vec<u32>)
    requires
        off + 4 * n <= b@.len(),
    ensures
        r@.len() == n,
        forall|i: int| 0 <= i < n ==> #[trigger] r@[i] == word_at(b@, off + 4 * i),
{
    let mut r: Vec<u32> = Vec::new();
    let mut i: usize = 0;
    let len = b.len();
    while i < n
        invariant
            len == b@.len(),
            off + 4 * n <= b@.len(),
            i <= n,
            r@.len() == i,
            forall|j: int| 0 <= j < i ==> #[trigger] r@[j] == word_at(b@, off + 4 * j),
        decreases n - i,
    {
        r.push(read_word(b, off + 4 * i));
        i = i + 1;
    }
    r
}

/// Decodes a state frame; a frame of the wrong size or with a wrong magic field is refused.
pub fn decode_state(b: &[u8]) -> (r: Result<StateFrame, DecodeError>)
    ensures
        b@.len() != STATE_LEN ==> r == Err::<StateFrame, DecodeError>(DecodeError::Length),
        b@.len() == STATE_LEN && !state_frame_ok(b@) ==> r == Err::<StateFrame, DecodeError>(
            DecodeError::Magic,
        ),
        r.is_ok() <==> state_frame_ok(b@),
        r matches Ok(f) ==> state_fields(b@, f),
{
    if b.len() != STATE_LEN {
        return Err(DecodeError::Length);
    }
    if read_word(b, 8) != STATE_MAGIC1 || read_word(b, 12) != STATE_MAGIC2 {
        return Err(DecodeError::Magic);
    }
    Ok(
        StateFrame {
            d1: read_word(b, 0),
            d2: read_word(b, 4),
            input_meters: read_words(b, INPUT_METER_OFFSET, INPUT_METERS),
            bus_meters: read_words(b, BUS_METER_OFFSET, BUS_METERS),
            phantom: read_word(b, PHANTOM_OFFSET),
            line: read_word(b, LINE_OFFSET),
            mute: read_word(b, MUTE_OFFSET),
            mono: read_word(b, MONO_OFFSET),
            d5: read_word(b, 0xF8),
        },
    )
}

/// The outgoing scratch of a state request: all zero but the two magic fields.
pub open spec fn state_request_spec() -> Seq<u8> {
    Seq::new(8, |i: int| 0u8) + le_bytes(STATE_MAGIC1) + le_bytes(STATE_MAGIC2) + Seq::new(
        (STATE_LEN - 16) as nat,
        |i: int| 0u8,
    )
}

/// Builds the 252-byte outgoing scratch of a state request.
pub fn state_request_frame() -> (r: Vec<u8>)
    ensures
        r@ == state_request_spec(),
        r@.len() == STATE_LEN,
{
    let mut v: Vec<u8> = Vec::new();
    push_word(&mut v, 0);
    push_word(&mut v, 0);
    push_word(&mut v, STATE_MAGIC1);
    push_word(&mut v, STATE_MAGIC2);
    let mut i: usize = 16;
    while i < STATE_LEN
        invariant
            16 <= i <= STATE_LEN,
            v@.len() == i,
            v@.subrange(0, 16) == le_bytes(0) + le_bytes(0) + le_bytes(STATE_MAGIC1) + le_bytes(
                STATE_MAGIC2,
            ),
            forall|j: int| 16 <= j < i ==> v@[j] == 0u8,
        decreases STATE_LEN - i,
    {
        v.push(0);
        i = i + 1;
    }
    let ghost head = le_bytes(0) + le_bytes(0) + le_bytes(STATE_MAGIC1) + le_bytes(STATE_MAGIC2);
    assert(state_request_spec().subrange(0, 16) =~= head);
    assert forall|j: int| 0 <= j < STATE_LEN implies v@[j] == state_request_spec()[j] by {
        if j < 16 {
            assert(v@[j] == v@.subrange(0, 16)[j]);
            assert(state_request_spec()[j] == state_request_spec().subrange(0, 16)[j]);
        }
    }
    assert(v@ =~= state_request_spec());
    v
}

} // verus!
