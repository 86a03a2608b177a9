use baton::frame::{
    decode_state, read_word, state_request_frame, Button, Channel, Command, DecodeError,
    STATE_MAGIC1, STATE_MAGIC2,
};

#[test]
fn command_frame_layout() {
    let c = Command {
        mode: 0x65,
        input_strip: 0x22,
        output_bus: 0x04,
        output_channel: 0x01,
        value: 12_677_158,
    };
    assert_eq!(
        c.to_bytes(),
        vec![
            0x65, 0x00, 0x00, 0x00, 0x22, 0x00, 0x00, 0x00, 0x69, 0x72, 0x61, 0x50, 0x14, 0x00,
            0x00, 0x00, 0x04, 0x00, 0x00, 0x00, 0x01, 0x00, 0x00, 0x00, 0x26, 0x70, 0xC1, 0x00
        ]
    );
}

#[test]
fn command_builders_fill_the_fields() {
    let c = Command::input_fader(5, 3, Channel::Right, 77);
    assert_eq!((c.mode, c.input_strip, c.output_bus, c.output_channel, c.value), (0x64, 5, 3, 1, 77));
    let c = Command::output_fader(4, 9);
    assert_eq!((c.mode, c.input_strip, c.output_bus, c.output_channel, c.value), (0x65, 4, 0, 0, 9));
    let c = Command::button(Button::Phantom, true);
    assert_eq!((c.mode, c.output_channel, c.value), (0x00, 4, 1));
    let c = Command::button(Button::Line, false);
    assert_eq!((c.output_channel, c.value), (0, 0));
    assert_eq!(Command::button(Button::Mute, true).output_channel, 1);
    assert_eq!(Command::button(Button::Mono, true).output_channel, 2);
}

fn put(b: &mut [u8], off: usize, w: u32) {
    b[off..off + 4].copy_from_slice(&w.to_le_bytes());
}

fn state_bytes() -> Vec<u8> {
    let mut b = vec![0u8; 252];
    put(&mut b, 8, STATE_MAGIC1);
    put(&mut b, 12, STATE_MAGIC2);
    for i in 0..36 {
        put(&mut b, 0x10 + 4 * i, 1000 + i as u32);
    }
    for i in 0..18 {
        put(&mut b, 0xA0 + 4 * i, 2000 + i as u32);
    }
    put(&mut b, 0xE8, 1);
    put(&mut b, 0xF0, 0x101);
    put(&mut b, 0xF8, 0xDEAD);
    b
}

#[test]
fn state_frame_fields() {
    let f = decode_state(&state_bytes()).unwrap();
    assert_eq!(f.input_meters.len(), 36);
    assert_eq!(f.input_meters[0], 1000);
    assert_eq!(f.input_meters[35], 1035);
    assert_eq!(f.bus_meters[17], 2017);
    assert_eq!((f.phantom, f.line, f.mute, f.mono, f.d5), (1, 0, 0x101, 0, 0xDEAD));
}

#[test]
fn state_frame_errors() {
    let b = state_bytes();
    assert_eq!(decode_state(&b[..251]), Err(DecodeError::Length));
    let mut bad = b.clone();
    bad[8] ^= 0xFF;
    assert_eq!(decode_state(&bad), Err(DecodeError::Magic));
    let mut bad = b;
    put(&mut bad, 12, 0xF5);
    assert_eq!(decode_state(&bad), Err(DecodeError::Magic));
}

#[test]
fn state_request_scratch_is_zero_but_magic() {
    let s = state_request_frame();
    assert_eq!(s.len(), 252);
    assert_eq!(read_word(&s, 8), STATE_MAGIC1);
    assert_eq!(read_word(&s, 12), STATE_MAGIC2);
    assert!(s[..8].iter().all(|&x| x == 0));
    assert!(s[16..].iter().all(|&x| x == 0));
}
