use audio_isolation_mirror::dsp::{apply_mode_in_place, ChannelMode};

#[test]
fn both_passes_through() {
    assert_eq!(ChannelMode::Both.apply(0.3f32, 0.7f32), (0.3, 0.7));
}

#[test]
fn left_no_mirror_mutes_right() {
    assert_eq!(ChannelMode::Left { mirror: false }.apply(0.3f32, 0.7f32), (0.3, 0.0));
}

#[test]
fn left_mirror_copies_left_into_right() {
    assert_eq!(ChannelMode::Left { mirror: true }.apply(0.3f32, 0.7f32), (0.3, 0.3));
}

#[test]
fn right_no_mirror_mutes_left() {
    assert_eq!(ChannelMode::Right { mirror: false }.apply(0.3f32, 0.7f32), (0.0, 0.7));
}

#[test]
fn right_mirror_copies_right_into_left() {
    assert_eq!(ChannelMode::Right { mirror: true }.apply(0.3f32, 0.7f32), (0.7, 0.7));
}

#[test]
fn code_roundtrip() {
    for mode in [
        ChannelMode::Both,
        ChannelMode::Left { mirror: false },
        ChannelMode::Left { mirror: true },
        ChannelMode::Right { mirror: false },
        ChannelMode::Right { mirror: true },
    ] {
        assert_eq!(ChannelMode::from_code(mode.to_code()), mode);
    }
}

#[test]
fn unknown_codes_mean_both() {
    assert_eq!(ChannelMode::from_code(5), ChannelMode::Both);
    assert_eq!(ChannelMode::from_code(255), ChannelMode::Both);
}

#[test]
fn codes_are_the_stored_numbers() {
    assert_eq!(ChannelMode::Both.to_code(), 0);
    assert_eq!(ChannelMode::Left { mirror: false }.to_code(), 1);
    assert_eq!(ChannelMode::Left { mirror: true }.to_code(), 2);
    assert_eq!(ChannelMode::Right { mirror: false }.to_code(), 3);
    assert_eq!(ChannelMode::Right { mirror: true }.to_code(), 4);
}

#[test]
fn integer_samples_work_too() {
    assert_eq!(ChannelMode::Right { mirror: false }.apply(5i16, -7i16), (0, -7));
}

#[test]
fn applying_twice_changes_nothing() {
    for code in 0..5 {
        let mode = ChannelMode::from_code(code);
        let (l, r) = mode.apply(0.25f32, -0.5);
        assert_eq!(mode.apply(l, r), (l, r));
    }
}

#[test]
fn right_is_left_flipped() {
    for mirror in [false, true] {
        let (l, r) = ChannelMode::Left { mirror }.apply(1u32, 2);
        assert_eq!(ChannelMode::Right { mirror }.apply(2u32, 1), (r, l));
    }
}

#[test]
fn in_place_mixes_whole_frames_only() {
    let mut buf = [1.0f32, 2.0, 3.0, 4.0, 5.0];
    apply_mode_in_place(&mut buf, 2, ChannelMode::Left { mirror: true });
    assert_eq!(buf, [1.0, 1.0, 3.0, 3.0, 5.0]);
}

#[test]
fn in_place_lets_extra_channels_pass() {
    let mut buf = [1u32, 2, 3, 4, 5, 6, 7];
    apply_mode_in_place(&mut buf, 3, ChannelMode::Right { mirror: false });
    assert_eq!(buf, [0, 2, 3, 0, 5, 6, 7]);
}

#[test]
fn in_place_both_is_passthrough() {
    let mut buf = [9u8, 8, 7, 6];
    apply_mode_in_place(&mut buf, 2, ChannelMode::Both);
    assert_eq!(buf, [9, 8, 7, 6]);
}

#[test]
fn in_place_isolates_every_frame() {
    let buf = [1i32, 2, 3, 4, 5, 6];
    let cases = [
        (ChannelMode::Left { mirror: false }, [1, 0, 3, 0, 5, 0]),
        (ChannelMode::Left { mirror: true }, [1, 1, 3, 3, 5, 5]),
        (ChannelMode::Right { mirror: false }, [0, 2, 0, 4, 0, 6]),
        (ChannelMode::Right { mirror: true }, [2, 2, 4, 4, 6, 6]),
    ];
    for (mode, expected) in cases {
        let mut out = buf;
        apply_mode_in_place(&mut out, 2, mode);
        assert_eq!(out, expected);
    }
}
