use audio_isolation_mirror::dsp::ChannelMode;
use audio_isolation_mirror::engine::{
    check_input_format, check_output_format, finish_block, input_stream_error,
    output_stream_error, AudioEngine, ChannelMismatch, Resampled, SampleFormat, StreamParams,
};
use audio_isolation_mirror::handles::{ModeHandle, MuteHandle};

fn params(channels: u16, sample_rate: u32) -> StreamParams {
    StreamParams { channels, sample_rate }
}

fn bits(samples: &[f32]) -> Vec<u32> {
    samples.iter().map(|s| s.to_bits()).collect()
}

fn floats(samples: &[u32]) -> Vec<f32> {
    samples.iter().map(|s| f32::from_bits(*s)).collect()
}

fn engine(input_rate: u32, output_rate: u32) -> (AudioEngine, ModeHandle, MuteHandle) {
    let mode = ModeHandle::new(ChannelMode::Both);
    let mute = MuteHandle::new(false);
    let engine =
        AudioEngine::start(params(2, input_rate), params(2, output_rate), mode.clone(), mute.clone());
    match engine {
        Ok(engine) => (engine, mode, mute),
        Err(e) => panic!("{}", e.message()),
    }
}

fn start_error(input: u16, output: u16) -> ChannelMismatch {
    let mode = ModeHandle::new(ChannelMode::Both);
    let mute = MuteHandle::new(false);
    match AudioEngine::start(params(input, 48000), params(output, 48000), mode, mute) {
        Ok(_) => panic!("expected a mismatch"),
        Err(e) => e,
    }
}

#[test]
fn mono_and_unequal_devices_are_refused() {
    let mono = start_error(1, 1);
    assert_eq!(
        mono.message(),
        "expected matching stereo input/output devices, got 1 in / 1 out"
    );
    let unequal = start_error(2, 6);
    assert_eq!(unequal, ChannelMismatch { input: 2, output: 6 });
    assert_eq!(
        unequal.message(),
        "expected matching stereo input/output devices, got 2 in / 6 out"
    );
}

#[test]
fn devices_fit_or_are_refused_by_start() {
    assert!(AudioEngine::fits(params(2, 48000), params(2, 44100)));
    assert!(AudioEngine::fits(params(1, 48000), params(1, 48000)));
    assert!(AudioEngine::fits(params(2, 48000), params(6, u32::MAX)));
}

#[test]
fn nothing_is_dropped_at_first() {
    let (mut engine, _, _) = engine(8000, 8000);
    let first: Vec<u32> = (1..=4000).collect();
    let second: Vec<u32> = (4001..=4096).collect();
    engine.capture.process(&first);
    engine.capture.process(&second);
    let mut out = vec![0; 4096];
    engine.playback.play(&mut out);
    assert_eq!(out, (1..=4096).collect::<Vec<u32>>());
}

#[test]
fn samples_come_out_in_order_and_then_silence() {
    let (mut engine, _, _) = engine(48000, 48000);
    assert!(engine.capture.process(&bits(&[0.1, 0.2, 0.3, 0.4])).is_empty());
    let mut out = bits(&[9.0; 6]);
    engine.playback.play(&mut out);
    assert_eq!(floats(&out), vec![0.1, 0.2, 0.3, 0.4, 0.0, 0.0]);
    engine.playback.play(&mut out);
    assert_eq!(floats(&out), vec![0.0; 6]);
}

#[test]
fn first_in_is_first_out_over_many_blocks() {
    let (mut engine, _, _) = engine(48000, 48000);
    let mut heard = Vec::new();
    for start in (0..40_000u32).step_by(1000) {
        let block: Vec<u32> = (start..start + 1000).collect();
        engine.capture.process(&block);
        let mut out = vec![0u32; 1000];
        engine.playback.play(&mut out);
        heard.extend(out);
    }
    assert_eq!(heard, (0..40_000u32).collect::<Vec<u32>>());
}

#[test]
fn what_does_not_fit_is_dropped() {
    // 8000 Hz stereo asks for 3200 samples, so the ring has its least size.
    let (mut engine, _, _) = engine(8000, 8000);
    let block: Vec<u32> = (1..=5000).collect();
    engine.capture.process(&block);
    let mut out = vec![7u32; 5000];
    engine.playback.play(&mut out);
    assert_eq!(out[4095], 4096);
    assert_eq!(out[4096], 0);
}

#[test]
fn a_ring_that_was_full_takes_what_has_room_again() {
    let (mut engine, _, _) = engine(8000, 8000);
    engine.capture.process(&(1..=5000).collect::<Vec<u32>>());
    let mut out = vec![0; 96];
    engine.playback.play(&mut out);
    engine.capture.process(&(6001..=6200).collect::<Vec<u32>>());
    let mut rest = vec![0; 4200];
    engine.playback.play(&mut rest);
    assert_eq!((rest[0], rest[3999], rest[4000], rest[4095]), (97, 4096, 6001, 6096));
    assert_eq!(rest[4096], 0);
}

#[test]
fn the_ring_drains_while_muted() {
    let (mut engine, _, mute) = engine(8000, 8000);
    engine.capture.process(&[1, 2, 3, 4]);
    mute.set(true);
    let mut out = [9, 9];
    engine.playback.play(&mut out);
    assert_eq!(out, [0, 0]);
    mute.set(false);
    engine.playback.play(&mut out);
    assert_eq!(out, [3, 4]);
}

#[test]
fn ring_holds_a_fifth_of_a_second() {
    let (mut engine, _, _) = engine(48000, 48000);
    let block: Vec<u32> = (1..=30_000).collect();
    engine.capture.process(&block);
    let mut out = vec![0u32; 30_000];
    engine.playback.play(&mut out);
    assert_eq!(out[19_199], 19_200);
    assert_eq!(out[19_200], 0);
}

#[test]
fn mode_and_mute_take_effect_at_once() {
    let (mut engine, mode, mute) = engine(44100, 44100);
    mode.set(ChannelMode::Left { mirror: true });
    engine.capture.process(&bits(&[0.5, -0.5, 0.25, -0.25]));
    let mut out = bits(&[0.0; 2]);
    engine.playback.play(&mut out);
    assert_eq!(floats(&out), vec![0.5, 0.5]);
    mute.set(true);
    engine.playback.play(&mut out);
    assert_eq!(floats(&out), vec![0.0, 0.0]);
}

#[test]
fn resampled_chunks_reach_the_output() {
    let (mut engine, _, _) = engine(48000, 44100);
    let raw: Vec<u32> = (0..2048).collect();
    let chunks = engine.capture.process(&raw);
    assert_eq!(chunks.len(), 1);
    let mut out = vec![3u32; 4];
    engine.playback.play(&mut out);
    assert_eq!(out, vec![0; 4]);
    let block = Resampled { rows: vec![vec![1, 3, 5], vec![2, 4, 6]], frames: 2 };
    assert_eq!(engine.capture.resampled(&Ok(block)), 4);
    engine.playback.play(&mut out);
    assert_eq!(out, vec![1, 2, 3, 4]);
}

#[test]
fn a_chunk_that_fails_is_skipped() {
    let (mut engine, _, _) = engine(48000, 44100);
    assert_eq!(engine.capture.resampled(&Err("no".to_string())), 0);
    let mut out = vec![3u32; 2];
    engine.playback.play(&mut out);
    assert_eq!(out, vec![0, 0]);
}

#[test]
fn a_block_is_completed() {
    let mut out = [1u32, 2, 3, 4, 5];
    finish_block(&mut out, 3, 2, ChannelMode::Right { mirror: true }, false);
    assert_eq!(out, [2, 2, 0, 0, 0]);
    let mut out = [1u32, 2, 3, 4];
    finish_block(&mut out, 4, 2, ChannelMode::Both, true);
    assert_eq!(out, [0; 4]);
}

#[test]
fn input_formats() {
    assert_eq!(check_input_format(SampleFormat::F32, "F32"), Ok(()));
    assert_eq!(check_input_format(SampleFormat::I16, "I16"), Ok(()));
    assert_eq!(check_input_format(SampleFormat::U16, "U16"), Ok(()));
    assert_eq!(
        check_input_format(SampleFormat::Other, "F64"),
        Err("unsupported input sample format: F64".to_string())
    );
}

#[test]
fn output_formats() {
    assert_eq!(check_output_format(SampleFormat::F32, "F32"), Ok(()));
    assert_eq!(
        check_output_format(SampleFormat::I16, "I16"),
        Err("unsupported output sample format: I16, use F32 output device".to_string())
    );
    assert!(check_output_format(SampleFormat::U16, "U16").is_err());
    assert!(check_output_format(SampleFormat::Other, "F64").is_err());
}

#[test]
fn stream_errors_name_the_side() {
    assert_eq!(input_stream_error("gone"), "input device error: gone");
    assert_eq!(output_stream_error("gone"), "output device error: gone");
}
