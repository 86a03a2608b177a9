use baton::codec::{
    clamp_mdb, decode_meter, encode_db, CHANNEL_UNITY, MAX_FADER_MDB, MIN_FADER_MDB,
    NEG_INFINITY_MDB, ZERO_DBFS,
};

fn exact_word(mdb: i64) -> f64 {
    (CHANNEL_UNITY as f64 * 10f64.powf(mdb as f64 / 20_000.0)).round()
}

#[test]
fn gain_encoding_of_unity() {
    assert_eq!(encode_db(0), 0x0100_0000);
}

#[test]
fn gain_encoding_of_minus_six_db() {
    let w = encode_db(-6_000) as f64;
    assert!((w - exact_word(-6_000)).abs() <= 1.0);
}

#[test]
fn gain_encoding_clamps_to_the_fader_range() {
    assert_eq!(encode_db(-120_000), encode_db(-96_000));
    assert_eq!(encode_db(50_000), encode_db(10_000));
    assert_eq!(clamp_mdb(-120_000), MIN_FADER_MDB);
    assert_eq!(clamp_mdb(11_000), MAX_FADER_MDB);
    assert_eq!(clamp_mdb(-3_500), -3_500);
}

#[test]
fn gain_encoding_is_within_one_unit_over_the_range() {
    let mut d: i64 = -96_000;
    while d <= 10_000 {
        let w = encode_db(d) as f64;
        assert!((w - exact_word(d)).abs() <= 1.0, "at {} mdB: {} vs {}", d, w, exact_word(d));
        d += 997;
    }
    assert!((encode_db(10_000) as f64 - exact_word(10_000)).abs() <= 1.0);
}

#[test]
fn meter_decoding_reference_points() {
    assert_eq!(decode_meter(ZERO_DBFS), 0);
    assert_eq!(decode_meter(0x4000_0000), -6_021);
    assert_eq!(decode_meter(0), NEG_INFINITY_MDB);
}

#[test]
fn meter_decoding_is_close_to_the_logarithm() {
    for m in [1u32, 7, 1000, 0x0100_0000, 0x1234_5678, 0x7FFF_FFFF, 0xFFFF_FFFF] {
        let exact = 20_000.0 * (m as f64 / ZERO_DBFS as f64).log10();
        assert!((decode_meter(m) as f64 - exact).abs() <= 1.0, "word {:#x}", m);
    }
}

// A gain word is scaled to CHANNEL_UNITY and a meter word to ZERO_DBFS, so a gain word
// read back as a meter reads 20*log10(2^24 / 2^31) below the level it encodes.
#[test]
fn encode_then_decode_is_offset_by_the_scale_ratio() {
    let offset = 20_000.0 * (CHANNEL_UNITY as f64 / ZERO_DBFS as f64).log10();
    for d in [-30_000i64, -10_000, 0, 10_000] {
        let back = decode_meter(encode_db(d)) as f64;
        assert!((back - (d as f64 + offset)).abs() <= 2.0, "at {} mdB", d);
    }
}
