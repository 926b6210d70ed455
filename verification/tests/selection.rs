use audio_isolation_mirror::dsp::ChannelMode;
use audio_isolation_mirror::selection::{decompose, effective_mode, ChannelSelection};

#[test]
fn mirror_means_nothing_while_both_play() {
    assert_eq!(effective_mode(ChannelSelection::Both, true), ChannelMode::Both);
    assert_eq!(effective_mode(ChannelSelection::Both, false), ChannelMode::Both);
}

#[test]
fn controls_stand_for_modes() {
    assert_eq!(effective_mode(ChannelSelection::Left, true), ChannelMode::Left { mirror: true });
    assert_eq!(effective_mode(ChannelSelection::Right, false), ChannelMode::Right { mirror: false });
}

#[test]
fn modes_show_as_their_controls() {
    for code in 0..5 {
        let mode = ChannelMode::from_code(code);
        let (sel, mirror) = decompose(mode);
        assert_eq!(effective_mode(sel, mirror), mode);
    }
    assert_eq!(decompose(ChannelMode::Both), (ChannelSelection::Both, false));
    assert_eq!(decompose(ChannelMode::Right { mirror: true }), (ChannelSelection::Right, true));
}
