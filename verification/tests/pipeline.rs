use audio_isolation_mirror::pipeline::{interleave, InputPipeline, Work, CHUNK_SIZE};

fn chunks(work: Work<u32>) -> Vec<Vec<Vec<u32>>> {
    match work {
        Work::Resample(chunks) => chunks,
        Work::Emit(_) => panic!("expected chunks"),
    }
}

#[test]
fn matching_rates_pass_samples_on() {
    let mut pipeline: InputPipeline<f32> = InputPipeline::new(48000, 48000, 2);
    match pipeline.process(&[0.1, 0.2, 0.3]) {
        Work::Emit(samples) => assert_eq!(samples, vec![0.1, 0.2, 0.3]),
        Work::Resample(_) => panic!("expected samples"),
    }
}

#[test]
fn short_input_waits_for_more() {
    let mut pipeline: InputPipeline<u32> = InputPipeline::new(48000, 44100, 2);
    assert!(chunks(pipeline.process(&[1, 2, 3, 4])).is_empty());
}

#[test]
fn a_chunk_is_one_row_per_channel() {
    let mut pipeline: InputPipeline<u32> = InputPipeline::new(48000, 44100, 2);
    let raw: Vec<u32> = (0..2 * CHUNK_SIZE as u32 + 3).collect();
    let got = chunks(pipeline.process(&raw));
    assert_eq!(got.len(), 1);
    assert_eq!(got[0].len(), 2);
    assert_eq!(got[0][0].len(), 1024);
    assert_eq!(&got[0][0][..3], &[0, 2, 4]);
    assert_eq!(&got[0][1][..3], &[1, 3, 5]);
    assert_eq!(got[0][1][1023], 2047);
}

#[test]
fn no_sample_is_lost_however_input_is_cut() {
    let raw: Vec<u32> = (0..10_000).collect();
    let mut whole: InputPipeline<u32> = InputPipeline::new(1, 2, 3);
    let at_once = chunks(whole.process(&raw));
    let mut pieces: InputPipeline<u32> = InputPipeline::new(1, 2, 3);
    let mut in_pieces = Vec::new();
    for part in raw.chunks(777) {
        in_pieces.extend(chunks(pieces.process(part)));
    }
    assert_eq!(at_once.len(), 3);
    assert_eq!(at_once, in_pieces);
    let mut rejoined = Vec::new();
    for chunk in &at_once {
        rejoined.extend(interleave(chunk, CHUNK_SIZE));
    }
    assert_eq!(rejoined, raw[..3 * 3 * CHUNK_SIZE].to_vec());
}

#[test]
fn interleave_takes_the_frames_that_count() {
    let rows = vec![vec![1, 3, 5, 99], vec![2, 4, 6, 99]];
    assert_eq!(interleave(&rows, 3), vec![1, 2, 3, 4, 5, 6]);
    assert_eq!(interleave(&rows, 0), Vec::<i32>::new());
}

#[test]
fn channels_stay_apart() {
    let mut left_only: InputPipeline<u32> = InputPipeline::new(48000, 44100, 2);
    let mut both: InputPipeline<u32> = InputPipeline::new(48000, 44100, 2);
    let frames: u32 = 2 * CHUNK_SIZE as u32 + 7;
    let a: Vec<u32> = (0..frames).flat_map(|i| [i, 0]).collect();
    let b: Vec<u32> = (0..frames).flat_map(|i| [i, 1_000_000 + i]).collect();
    let (a, b) = (chunks(left_only.process(&a)), chunks(both.process(&b)));
    assert_eq!((a.len(), b.len()), (2, 2));
    for (x, y) in a.iter().zip(&b) {
        assert_eq!(x[0], y[0]);
        assert_ne!(x[1], y[1]);
        let (x, y) = (interleave(x, CHUNK_SIZE), interleave(y, CHUNK_SIZE));
        assert!(x.iter().step_by(2).eq(y.iter().step_by(2)));
    }
}
