use audio_isolation_mirror::dsp::ChannelMode;
use audio_isolation_mirror::handles::{ModeHandle, MuteHandle};

#[test]
fn mode_handle_shows_what_it_was_made_with() {
    for code in 0..5 {
        let mode = ChannelMode::from_code(code);
        assert_eq!(ModeHandle::new(mode).get(), mode);
    }
}

#[test]
fn mode_handle_is_shared_by_clones() {
    let ui = ModeHandle::new(ChannelMode::Both);
    let callback = ui.clone();
    ui.set(ChannelMode::Right { mirror: true });
    assert_eq!(callback.get(), ChannelMode::Right { mirror: true });
    callback.set(ChannelMode::Left { mirror: false });
    assert_eq!(ui.get(), ChannelMode::Left { mirror: false });
}

#[test]
fn mute_handle_is_shared_by_clones() {
    let ui = MuteHandle::new(false);
    let callback = ui.clone();
    assert!(!callback.get());
    ui.set(true);
    assert!(callback.get());
    assert!(MuteHandle::new(true).get());
}
