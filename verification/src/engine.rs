//! The audio engine between a capture device and a playback device: what has
//! to hold of the two devices, and what the two audio callbacks do.
use crate::dsp::{apply_mode_in_place, mode_applied, ChannelMode};
use crate::handles::{ModeHandle, MuteHandle};
use crate::pipeline::{
    chunks_of, chunks_view, interleave, interleaved, rejoined, rest_of, rows_view, InputPipeline,
    Work,
};
use crate::ring::{
    consumer_capacity, consumer_stream, freed, lesser, new_ring, paired, pop_slice,
    producer_capacity, producer_stream, push_slice, received, seen, sent, RingConsumer,
    RingProducer,
};
use crate::text::{decimal, join2, join3, to_decimal};
use vstd::arithmetic::div_mod::lemma_fundamental_div_mod;
use vstd::prelude::*;
use vstd::string::StringExecFns;

verus! {

/// What a device negotiated for a stream.
#[derive(Debug, Clone, Copy, PartialEq, Eq, Structural)]
pub struct StreamParams {
    pub channels: u16,
    pub sample_rate: u32,
}

/// The two devices do not carry the same frames of two or more channels.
#[derive(Debug, Clone, Copy, PartialEq, Eq, Structural)]
pub struct ChannelMismatch {
    pub input: u16,
    pub output: u16,
}

impl ChannelMismatch {
    /// The text of the error.
    pub fn message(&self) -> (text: String)
        ensures
            text@ == "expected matching stereo input/output devices, got "@ + decimal(
                self.input as nat,
            ) + " in / "@ + decimal(self.output as nat) + " out"@,
    {
        let mut text: String = join3(
            "expected matching stereo input/output devices, got ",
            &to_decimal(self.input as u64),
            " in / ",
        );
        text.append(&to_decimal(self.output as u64));
        text.append(" out");
        text
    }
}

/// The engine works between these devices: both carry the same number of
/// channels, at least two.
pub open spec fn channels_match(input: StreamParams, output: StreamParams) -> bool {
    input.channels >= 2 && output.channels == input.channels
}

/// Room for about 200ms at the output's sample rate, and never for less than
/// 4096 samples.
pub open spec fn ring_capacity(output_rate: u32, channels: u16) -> int {
    let headroom = output_rate as int * channels as int / 5;
    if headroom < 4096 {
        4096
    } else {
        headroom
    }
}

/// The samples of a second of output can be counted, and the ring fits in
/// memory.
pub open spec fn ring_fits(output_rate: u32, channels: u16) -> bool {
    &&& output_rate as int * channels as int <= usize::MAX
    &&& 4 * ring_capacity(output_rate, channels) <= isize::MAX
}

/// The capture side: runs on the input device's audio thread.
pub struct CaptureSide {
    pipeline: InputPipeline<u32>,
    producer: RingProducer,
}

/// The playback side: runs on the output device's audio thread.
pub struct PlaybackSide {
    consumer: RingConsumer,
    channels: usize,
    mode: ModeHandle,
    mute: MuteHandle,
}

/// Both sides of a running engine.
pub struct AudioEngine {
    pub capture: CaptureSide,
    pub playback: PlaybackSide,
}

impl AudioEngine {
    /// Whether `start` can be called for these devices.
    pub fn fits(input: StreamParams, output: StreamParams) -> (fits: bool)
        ensures
            fits == (channels_match(input, output) ==> ring_fits(
                output.sample_rate,
                input.channels,
            )),
    {
        if input.channels < 2 || output.channels != input.channels {
            return true;
        }
        assert(0 <= output.sample_rate * input.channels <= 0xffff_ffff * 0xffff)
            by (nonlinear_arith);
        let samples: u64 = output.sample_rate as u64 * input.channels as u64;
        let headroom: u64 = samples / 5;
        let capacity: u64 = if headroom < 4096 { 4096 } else { headroom };
        samples <= usize::MAX as u64 && 4 * capacity <= isize::MAX as u64
    }

    /// Sets up both sides for two devices, or says why they do not fit
    /// together.
    pub fn start(
        input: StreamParams,
        output: StreamParams,
        mode: ModeHandle,
        mute: MuteHandle,
    ) -> (engine: Result<AudioEngine, ChannelMismatch>)
        requires
            channels_match(input, output) ==> ring_fits(output.sample_rate, input.channels),
        ensures
            engine is Ok <==> channels_match(input, output),
            engine matches Err(e) ==> e.input == input.channels && e.output == output.channels,
            engine matches Ok(engine) ==> {
                &&& engine.capture.wf()
                &&& engine.playback.wf()
                &&& engine.capture.resamples() == (input.sample_rate != output.sample_rate)
                &&& engine.capture.channels() == input.channels
                &&& engine.playback.channels() == input.channels
                &&& engine.capture.backlog() == Seq::<u32>::empty()
                &&& producer_capacity(engine.capture.producer()) == ring_capacity(
                    output.sample_rate,
                    input.channels,
                )
                &&& consumer_capacity(engine.playback.consumer()) == ring_capacity(
                    output.sample_rate,
                    input.channels,
                )
                &&& paired(engine.capture.producer(), engine.playback.consumer())
                &&& sent(engine.capture.producer()) == Seq::<u32>::empty()
                &&& received(engine.playback.consumer()) == Seq::<u32>::empty()
                &&& engine.playback.mode_handle() == mode
                &&& engine.playback.mute_handle() == mute
            },
    {
        if input.channels < 2 || output.channels != input.channels {
            return Err(ChannelMismatch { input: input.channels, output: output.channels });
        }
        let channels: usize = input.channels as usize;
        let pipeline: InputPipeline<u32> = InputPipeline::new(
            input.sample_rate,
            output.sample_rate,
            channels,
        );
        let headroom: usize = output.sample_rate as usize * channels / 5;
        let capacity: usize = if headroom < 4096 { 4096 } else { headroom };
        let (producer, consumer) = new_ring(capacity);
        Ok(
            AudioEngine {
                capture: CaptureSide { pipeline, producer },
                playback: PlaybackSide { consumer, channels, mode, mute },
            },
        )
    }
}

impl CaptureSide {
    /// The half of the ring that this side fills.
    pub closed spec fn producer(&self) -> RingProducer {
        self.producer
    }

    /// Whether captured audio is resampled before it goes into the ring.
    pub closed spec fn resamples(&self) -> bool {
        self.pipeline.resamples()
    }

    /// Channels in a frame.
    pub closed spec fn channels(&self) -> int {
        self.pipeline.channels()
    }

    /// Captured samples that do not fill a chunk yet.
    pub closed spec fn backlog(&self) -> Seq<u32> {
        self.pipeline.backlog()
    }

    /// The pipeline is in order.
    pub closed spec fn wf(&self) -> bool {
        self.pipeline.wf()
    }

    /// Takes captured samples in. Where the rates match they go straight into
    /// the ring, as far as it has room; otherwise the answer holds the chunks
    /// that are to be resampled now, and nothing goes into the ring yet.
    pub fn process(&mut self, raw: &[u32]) -> (chunks: Vec<Vec<Vec<u32>>>)
        requires
            old(self).wf(),
        ensures
            final(self).wf(),
            final(self).resamples() == old(self).resamples(),
            final(self).channels() == old(self).channels(),
            producer_capacity(final(self).producer()) == producer_capacity(old(self).producer()),
            producer_stream(final(self).producer()) == producer_stream(old(self).producer()),
            ({
                let total = old(self).backlog() + raw@;
                if old(self).resamples() {
                    &&& chunks_view(chunks@) == chunks_of(total, old(self).channels())
                    &&& final(self).backlog() == rest_of(total, old(self).channels())
                    &&& final(self).producer() == old(self).producer()
                } else {
                    &&& chunks@.len() == 0
                    &&& final(self).backlog() == old(self).backlog()
                    &&& forwarded(old(self).producer(), final(self).producer(), raw@)
                }
            }),
    {
        match self.pipeline.process(raw) {
            Work::Emit(samples) => {
                let count: usize = push_slice(&mut self.producer, &samples);
                assert(accepted(old(self).producer(), self.producer, raw@, count as int));
                Vec::new()
            },
            Work::Resample(chunks) => chunks,
        }
    }

    /// Takes what the resampler made of a chunk. Its frames go into the ring,
    /// as far as it has room, and the answer tells how many samples went in. A
    /// chunk that could not be resampled is skipped.
    pub fn resampled(&mut self, outcome: &Result<Resampled, String>) -> (count: usize)
        requires
            outcome matches Ok(block) ==> block.wf(),
        ensures
            final(self).wf() == old(self).wf(),
            final(self).resamples() == old(self).resamples(),
            final(self).channels() == old(self).channels(),
            final(self).backlog() == old(self).backlog(),
            match outcome {
                Ok(block) => accepted(
                    old(self).producer(),
                    final(self).producer(),
                    block.samples(),
                    count as int,
                ),
                Err(_) => count == 0 && final(self).producer() == old(self).producer(),
            },
    {
        match outcome {
            Ok(block) => {
                let samples: Vec<u32> = interleave(&block.rows, block.frames);
                push_slice(&mut self.producer, &samples)
            },
            Err(_) => 0,
        }
    }
}

/// What a resampler made of a chunk: one row of samples per channel, of which
/// the first `frames` count.
pub struct Resampled {
    pub rows: Vec<Vec<u32>>,
    pub frames: usize,
}

impl Resampled {
    /// No row is shorter than the frames that count, and the samples can be
    /// counted.
    pub open spec fn wf(&self) -> bool {
        &&& self.frames * self.rows@.len() <= usize::MAX
        &&& forall|ch: int|
            0 <= ch < self.rows@.len() ==> self.frames <= (#[trigger] self.rows@[ch])@.len()
    }

    /// The frames that count, interleaved.
    pub open spec fn samples(&self) -> Seq<u32> {
        interleaved(rows_view(self.rows@), self.frames as int)
    }
}

/// How many samples were in the ring when the half last looked, before it took
/// more in.
pub open spec fn queued_before(before: RingProducer, after: RingProducer) -> int {
    sent(before).len() - freed(after)
}

/// The half took the first `count` of these samples in, and nothing else: as
/// many as there was room for.
pub open spec fn accepted(
    before: RingProducer,
    after: RingProducer,
    samples: Seq<u32>,
    count: int,
) -> bool {
    &&& 0 <= queued_before(before, after) <= producer_capacity(before)
    &&& count == lesser(
        samples.len() as int,
        producer_capacity(before) - queued_before(before, after),
    )
    &&& producer_capacity(after) == producer_capacity(before)
    &&& producer_stream(after) == producer_stream(before)
    &&& sent(after) == sent(before) + samples.take(count)
    &&& sent(after).is_prefix_of(producer_stream(after))
}

/// The half took as many of these samples in as there was room for.
pub open spec fn forwarded(before: RingProducer, after: RingProducer, samples: Seq<u32>) -> bool {
    exists|count: int| accepted(before, after, samples, count)
}

/// Samples are lost only while the ring is full: where not all of them were
/// taken, those that were fill it to its capacity.
pub proof fn law_only_a_full_ring_drops(
    before: RingProducer,
    after: RingProducer,
    samples: Seq<u32>,
    count: int,
)
    requires
        accepted(before, after, samples, count),
    ensures
        count < samples.len() ==> sent(after).len() - freed(after) == producer_capacity(after),
        queued_before(before, after) + samples.len() <= producer_capacity(before) ==> sent(after)
            == sent(before) + samples,
{
    assert(samples.take(samples.len() as int) =~= samples);
}

/// Nothing is dropped at first: as long as no more has gone in than the ring
/// can hold, every sample is taken.
pub proof fn law_nothing_is_dropped_at_first(
    before: RingProducer,
    after: RingProducer,
    samples: Seq<u32>,
    count: int,
)
    requires
        accepted(before, after, samples, count),
        sent(before).len() + samples.len() <= producer_capacity(before),
    ensures
        count == samples.len(),
        sent(after) == sent(before) + samples,
{
    assert(samples.take(samples.len() as int) =~= samples);
}

/// The samples that came out of the half between two moments.
pub open spec fn taken_between(before: RingConsumer, after: RingConsumer) -> Seq<u32> {
    received(after).skip(received(before).len() as int)
}

/// The half gave out the samples that were next in line, and nothing else: as
/// many as it had seen go in, up to `len`.
pub open spec fn drained(before: RingConsumer, after: RingConsumer, len: int) -> bool {
    &&& 0 <= seen(after) - received(before).len() <= consumer_capacity(before)
    &&& taken_between(before, after).len() == lesser(len, seen(after) - received(before).len())
    &&& consumer_capacity(after) == consumer_capacity(before)
    &&& consumer_stream(after) == consumer_stream(before)
    &&& received(before).is_prefix_of(received(after))
    &&& received(after).is_prefix_of(consumer_stream(after))
}

/// The samples that are in the ring: those that went in through the one half
/// and have not come out of the other.
pub open spec fn queued(producer: RingProducer, consumer: RingConsumer) -> Seq<u32> {
    sent(producer).skip(received(consumer).len() as int)
}

/// What goes in is queued behind what is there. Where the half has seen
/// everything that left, only those samples are lost that find the ring full,
/// and it never holds more than its capacity.
pub proof fn law_queue_takes_what_has_room(
    before: RingProducer,
    after: RingProducer,
    consumer: RingConsumer,
    samples: Seq<u32>,
    count: int,
)
    requires
        accepted(before, after, samples, count),
        freed(after) == received(consumer).len(),
    ensures
        ({
            let room = producer_capacity(before) - queued(before, consumer).len();
            &&& count == lesser(samples.len() as int, room)
            &&& queued(after, consumer) == queued(before, consumer) + samples.take(count)
            &&& queued(after, consumer).len() <= producer_capacity(after)
        }),
{
    assert(queued(after, consumer) =~= queued(before, consumer) + samples.take(count));
}

/// A block gets the oldest samples that are queued, in order and none twice.
/// Where the half has seen everything that went in, it gets as many as are
/// queued, up to its length, and they are no longer queued afterwards.
pub proof fn law_block_gets_the_oldest(
    producer: RingProducer,
    before: RingConsumer,
    after: RingConsumer,
    len: int,
)
    requires
        paired(producer, before),
        drained(before, after, len),
        seen(after) == sent(producer).len(),
        len >= 0,
    ensures
        ({
            let taken = taken_between(before, after);
            &&& taken.len() == lesser(len, queued(producer, before).len() as int)
            &&& taken == queued(producer, before).take(taken.len() as int)
            &&& queued(producer, after) == queued(producer, before).skip(taken.len() as int)
            &&& paired(producer, after)
        }),
{
    let taken = taken_between(before, after);
    let waiting = queued(producer, before);
    let first = received(before).len() as int;
    let stream = producer_stream(producer);
    assert forall|i: int| 0 <= i < taken.len() implies taken[i] == waiting[i] by {
        assert(received(after)[first + i] == stream[first + i]);
        assert(sent(producer)[first + i] == stream[first + i]);
    }
    assert(taken =~= waiting.take(taken.len() as int));
    assert(queued(producer, after) =~= waiting.skip(taken.len() as int));
}

/// A stretch of silence.
pub open spec fn silence(len: int) -> Seq<u32> {
    Seq::new(len as nat, |i: int| 0u32)
}

/// What a playback callback hands to the device, given the samples that it
/// took out of the ring: they are followed by silence up to the length that
/// the device asked for, the channel mode is applied, and a muted app gives
/// nothing but silence.
pub open spec fn rendered(
    taken: Seq<u32>,
    len: int,
    channels: int,
    mode: ChannelMode,
    muted: bool,
) -> Seq<u32> {
    if muted {
        silence(len)
    } else {
        mode_applied(taken + silence(len - taken.len()), channels, mode, 0u32)
    }
}

/// Silences the samples from `from` on.
fn silence_from(out: &mut [u32], from: usize)
    requires
        from <= old(out)@.len(),
    ensures
        final(out)@ == old(out)@.take(from as int) + silence(old(out)@.len() - from),
{
    let ghost before = out@;
    let mut i: usize = from;
    while i < out.len()
        invariant
            from <= i <= out@.len(),
            out@.len() == before.len(),
            forall|j: int| 0 <= j < from ==> out@[j] == before[j],
            forall|j: int| from <= j < i ==> out@[j] == 0,
        decreases out@.len() - i,
    {
        out[i] = 0;
        i = i + 1;
    }
    assert(out@ =~= before.take(from as int) + silence(before.len() - from));
}

/// Completes a block of output of which the first `filled` samples came out of
/// the ring.
pub fn finish_block(
    out: &mut [u32],
    filled: usize,
    channels: usize,
    mode: ChannelMode,
    muted: bool,
)
    requires
        channels >= 2,
        filled <= old(out)@.len(),
    ensures
        final(out)@ == rendered(
            old(out)@.take(filled as int),
            old(out)@.len() as int,
            channels as int,
            mode,
            muted,
        ),
{
    silence_from(out, filled);
    apply_mode_in_place(out, channels, mode);
    if muted {
        silence_from(out, 0);
        assert(out@ =~= silence(out@.len() as int));
    }
}

impl PlaybackSide {
    /// The half of the ring that this side empties.
    pub closed spec fn consumer(&self) -> RingConsumer {
        self.consumer
    }

    /// Channels in a frame.
    pub closed spec fn channels(&self) -> int {
        self.channels as int
    }

    /// The handle that steers the channel mode.
    pub closed spec fn mode_handle(&self) -> ModeHandle {
        self.mode
    }

    /// The handle that mutes.
    pub closed spec fn mute_handle(&self) -> MuteHandle {
        self.mute
    }

    /// Frames are stereo at least.
    pub open spec fn wf(&self) -> bool {
        self.channels() >= 2
    }

    /// Fills a block of output with the samples that are next in line, as many
    /// as are there and fit, in the mode that the UI has set. They leave the
    /// ring while muted too.
    pub fn play(&mut self, out: &mut [u32])
        requires
            old(self).wf(),
        ensures
            final(self).wf(),
            final(self).channels() == old(self).channels(),
            final(self).mode_handle() == old(self).mode_handle(),
            final(self).mute_handle() == old(self).mute_handle(),
            drained(old(self).consumer(), final(self).consumer(), old(out)@.len() as int),
            ({
                let taken = taken_between(old(self).consumer(), final(self).consumer());
                exists|mode: ChannelMode, muted: bool|
                    {
                        &&& #[trigger] old(self).mode_handle().may_show(mode)
                        &&& #[trigger] old(self).mute_handle().may_show(muted)
                        &&& final(out)@ == rendered(
                            taken,
                            old(out)@.len() as int,
                            old(self).channels(),
                            mode,
                            muted,
                        )
                    }
            }),
    {
        let filled: usize = pop_slice(&mut self.consumer, out);
        let ghost taken = out@.take(filled as int);
        let mode: ChannelMode = self.mode.get();
        let muted: bool = self.mute.get();
        finish_block(out, filled, self.channels, mode, muted);
        proof {
            assert(old(self).mode_handle().may_show(mode));
            assert(old(self).mute_handle().may_show(muted));
            assert(out@ == rendered(
                taken,
                old(out)@.len() as int,
                old(self).channels(),
                mode,
                muted,
            ));
            assert(taken_between(old(self).consumer(), self.consumer()) =~= taken);
        }
    }
}

/// A muted app hands out silence, whatever came in and whatever the mode: a
/// full block of zeros.
pub proof fn law_mute_silences(taken: Seq<u32>, len: int, channels: int, mode: ChannelMode)
    requires
        0 <= taken.len() <= len,
    ensures
        rendered(taken, len, channels, mode, true) == silence(len),
        rendered(taken, len, channels, mode, true).len() == len,
        forall|i: int|
            0 <= i < len ==> #[trigger] rendered(taken, len, channels, mode, true)[i] == 0,
{
}

/// While both channels play and enough samples are there, what goes out is
/// what came in.
pub proof fn law_both_forwards_unchanged(taken: Seq<u32>, channels: int)
    requires
        channels >= 2,
    ensures
        rendered(taken, taken.len() as int, channels, ChannelMode::Both, false) == taken,
{
    assert(taken + silence(0) =~= taken);
    crate::dsp::law_both_is_passthrough(taken, channels, 0u32);
}

/// What is heard is what was captured: while both channels play, a block holds
/// the samples that are next in line in the stream between the two sides, in
/// order and unchanged, and after them nothing but silence.
pub proof fn law_played_is_next_in_the_stream(
    stream: Seq<u32>,
    before: Seq<u32>,
    taken: Seq<u32>,
    len: int,
    channels: int,
)
    requires
        channels >= 2,
        taken.len() <= len,
        (before + taken).is_prefix_of(stream),
    ensures
        ({
            let out = rendered(taken, len, channels, ChannelMode::Both, false);
            &&& out.len() == len
            &&& forall|i: int|
                0 <= i < taken.len() ==> #[trigger] out[i] == stream[before.len() + i]
            &&& forall|i: int| taken.len() <= i < len ==> #[trigger] out[i] == 0
        }),
{
    let block = taken + silence(len - taken.len());
    crate::dsp::law_both_is_passthrough(block, channels, 0u32);
    let out = rendered(taken, len, channels, ChannelMode::Both, false);
    assert forall|i: int| 0 <= i < taken.len() implies #[trigger] out[i] == stream[before.len()
        + i] by {
        assert((before + taken)[before.len() + i] == taken[i]);
    }
}

/// The ring has room for a fifth of a second of output, rounded down to whole
/// samples, and never for less than 4096 samples.
pub proof fn law_ring_headroom(output_rate: u32, channels: u16)
    ensures
        5 * (ring_capacity(output_rate, channels) + 1) > output_rate as int * channels as int,
        ring_capacity(output_rate, channels) >= 4096,
        ring_capacity(output_rate, channels) > 4096 ==> 5 * ring_capacity(output_rate, channels)
            <= output_rate as int * channels as int,
{
}

/// The sample formats a device may offer.
#[derive(Debug, Clone, Copy, PartialEq, Eq, Structural)]
pub enum SampleFormat {
    F32,
    I16,
    U16,
    Other,
}

/// The error for an input format that cannot be read.
pub open spec fn input_format_error(name: Seq<char>) -> Seq<char> {
    "unsupported input sample format: "@ + name
}

/// The error for an output format that cannot be written.
pub open spec fn output_format_error(name: Seq<char>) -> Seq<char> {
    "unsupported output sample format: "@ + name + ", use F32 output device"@
}

/// Whether samples of this format, which goes by `name`, can be captured.
pub fn check_input_format(format: SampleFormat, name: &str) -> (checked: Result<(), String>)
    ensures
        checked is Ok <==> format != SampleFormat::Other,
        checked matches Err(e) ==> e@ == input_format_error(name@),
{
    match format {
        SampleFormat::F32 | SampleFormat::I16 | SampleFormat::U16 => Ok(()),
        SampleFormat::Other => Err(join2("unsupported input sample format: ", name)),
    }
}

/// Whether samples of this format, which goes by `name`, can be played.
pub fn check_output_format(format: SampleFormat, name: &str) -> (checked: Result<(), String>)
    ensures
        checked is Ok <==> format == SampleFormat::F32,
        checked matches Err(e) ==> e@ == output_format_error(name@),
{
    match format {
        SampleFormat::F32 => Ok(()),
        _ => Err(join3("unsupported output sample format: ", name, ", use F32 output device")),
    }
}

/// What is shown when the input stream fails.
pub fn input_stream_error(err: &str) -> (text: String)
    ensures
        text@ == "input device error: "@ + err@,
{
    join2("input device error: ", err)
}

/// What is shown when the output stream fails.
pub fn output_stream_error(err: &str) -> (text: String)
    ensures
        text@ == "output device error: "@ + err@,
{
    join2("output device error: ", err)
}

/// An unmuted block in a left-hand mode: in every whole frame the left side is
/// the captured left sample, or silence once the samples have run out, and the
/// right side is a copy of it where it is mirrored and silence where it is not.
pub proof fn law_left_is_heard(
    taken: Seq<u32>,
    len: int,
    channels: int,
    mirror: bool,
    frame: int,
)
    requires
        channels >= 2,
        taken.len() <= len,
        0 <= frame < len / channels,
    ensures
        ({
            let out = rendered(taken, len, channels, ChannelMode::Left { mirror }, false);
            let at = frame * channels;
            &&& out.len() == len
            &&& 0 <= at < at + 1 < len
            &&& out[at] == if at < taken.len() { taken[at] } else { 0 }
            &&& mirror ==> out[at + 1] == out[at]
            &&& !mirror ==> out[at + 1] == 0
        }),
{
    let block = taken + silence(len - taken.len());
    crate::dsp::law_left_is_isolated(block, channels, mirror, 0u32, frame);
}

/// An unmuted block in a right-hand mode: in every whole frame the right side
/// is the captured right sample, or silence once the samples have run out, and
/// the left side is a copy of it where it is mirrored and silence where it is
/// not.
pub proof fn law_right_is_heard(
    taken: Seq<u32>,
    len: int,
    channels: int,
    mirror: bool,
    frame: int,
)
    requires
        channels >= 2,
        taken.len() <= len,
        0 <= frame < len / channels,
    ensures
        ({
            let out = rendered(taken, len, channels, ChannelMode::Right { mirror }, false);
            let at = frame * channels;
            &&& out.len() == len
            &&& 0 <= at < at + 1 < len
            &&& out[at + 1] == if at + 1 < taken.len() { taken[at + 1] } else { 0 }
            &&& mirror ==> out[at] == out[at + 1]
            &&& !mirror ==> out[at] == 0
        }),
{
    let block = taken + silence(len - taken.len());
    crate::dsp::law_right_is_isolated(block, channels, mirror, 0u32, frame);
}

/// Only the first two channels are mixed: every further channel of an unmuted
/// block, whatever the mode, is what was captured, and silence after it.
pub proof fn law_further_channels_are_heard(
    taken: Seq<u32>,
    len: int,
    channels: int,
    mode: ChannelMode,
    frame: int,
    ch: int,
)
    requires
        2 <= ch < channels,
        taken.len() <= len,
        0 <= frame < len / channels,
    ensures
        ({
            let out = rendered(taken, len, channels, mode, false);
            let at = frame * channels + ch;
            &&& 0 <= at < len == out.len()
            &&& out[at] == if at < taken.len() { taken[at] } else { 0 }
        }),
{
    let block = taken + silence(len - taken.len());
    crate::dsp::law_extra_channels_pass_through(block, channels, mode, 0u32, frame, ch);
    crate::dsp::lemma_position_in_frame(block, channels, frame, ch);
}

/// A last frame of an unmuted block that is cut short is not mixed, whatever
/// the mode.
pub proof fn law_cut_off_frame_is_heard(
    taken: Seq<u32>,
    len: int,
    channels: int,
    mode: ChannelMode,
    i: int,
)
    requires
        channels >= 2,
        taken.len() <= len,
        len / channels * channels <= i < len,
        0 <= i,
    ensures
        ({
            let out = rendered(taken, len, channels, mode, false);
            &&& out.len() == len
            &&& out[i] == if i < taken.len() { taken[i] } else { 0 }
        }),
{
    let block = taken + silence(len - taken.len());
    crate::dsp::law_cut_off_frame_stays(block, channels, mode, 0u32, i);
}

/// What is heard of an isolated channel does not depend on the other one: two
/// captures that agree on the left channel sound the same in the left-hand
/// modes, and two that agree on the right one in the right-hand modes.
pub proof fn law_other_channel_is_not_heard(
    a: Seq<u32>,
    b: Seq<u32>,
    channels: int,
    mirror: bool,
    frame: int,
)
    requires
        channels >= 2,
        a.len() == b.len(),
        0 <= frame < a.len() as int / channels,
    ensures
        ({
            let len = a.len() as int;
            let at = frame * channels;
            let left = ChannelMode::Left { mirror };
            let right = ChannelMode::Right { mirror };
            &&& a[at] == b[at] ==> {
                &&& rendered(a, len, channels, left, false)[at] == rendered(
                    b,
                    len,
                    channels,
                    left,
                    false,
                )[at]
                &&& rendered(a, len, channels, left, false)[at + 1] == rendered(
                    b,
                    len,
                    channels,
                    left,
                    false,
                )[at + 1]
            }
            &&& a[at + 1] == b[at + 1] ==> {
                &&& rendered(a, len, channels, right, false)[at] == rendered(
                    b,
                    len,
                    channels,
                    right,
                    false,
                )[at]
                &&& rendered(a, len, channels, right, false)[at + 1] == rendered(
                    b,
                    len,
                    channels,
                    right,
                    false,
                )[at + 1]
            }
        }),
{
    law_left_is_heard(a, a.len() as int, channels, mirror, frame);
    law_left_is_heard(b, a.len() as int, channels, mirror, frame);
    law_right_is_heard(a, a.len() as int, channels, mirror, frame);
    law_right_is_heard(b, a.len() as int, channels, mirror, frame);
}

/// Which devices go together: those with equally many channels, two or more.
/// Whatever ring they ask for, it is made wherever its samples can be counted
/// and their bytes allocated.
pub proof fn law_devices_that_go_together(input: StreamParams, output: StreamParams)
    ensures
        input.channels < 2 ==> !channels_match(input, output),
        input.channels != output.channels ==> !channels_match(input, output),
        input.channels == output.channels && input.channels >= 2 ==> channels_match(
            input,
            output,
        ),
        output.sample_rate as int * input.channels as int <= usize::MAX && 4 * ring_capacity(
            output.sample_rate,
            input.channels,
        ) <= isize::MAX ==> ring_fits(output.sample_rate, input.channels),
{
}

/// What goes into the ring: a leading part of the samples, in order, behind
/// all that went in before; and all of them where they find room.
pub proof fn law_samples_go_in_in_order(
    before: RingProducer,
    after: RingProducer,
    samples: Seq<u32>,
)
    requires
        forwarded(before, after, samples),
    ensures
        sent(before).len() <= sent(after).len() <= sent(before).len() + samples.len(),
        forall|i: int| 0 <= i < sent(before).len() ==> #[trigger] sent(after)[i] == sent(before)[i],
        forall|i: int|
            sent(before).len() <= i < sent(after).len() ==> #[trigger] sent(after)[i] == samples[i
                - sent(before).len()],
        sent(after).len() < sent(before).len() + samples.len() ==> sent(after).len() - freed(after)
            == producer_capacity(after),
        producer_capacity(after) == producer_capacity(before),
        producer_stream(after) == producer_stream(before),
{
    let count = choose|count: int| accepted(before, after, samples, count);
    assert(accepted(before, after, samples, count));
}

/// The same of a block that the resampler made: the answer is how many of its
/// samples went in, and they are the first ones.
pub proof fn law_accepted_samples(
    before: RingProducer,
    after: RingProducer,
    samples: Seq<u32>,
    count: int,
)
    requires
        accepted(before, after, samples, count),
    ensures
        0 <= count <= samples.len(),
        sent(after).len() == sent(before).len() + count,
        forwarded(before, after, samples),
{
}

/// What comes out of the ring: the samples that follow those that came out
/// before, in order; and as many as have been seen to go in, up to the length
/// that is asked for.
pub proof fn law_samples_come_out_in_order(before: RingConsumer, after: RingConsumer, len: int)
    requires
        drained(before, after, len),
        len >= 0,
    ensures
        ({
            let taken = taken_between(before, after);
            &&& received(after) == received(before) + taken
            &&& received(after).len() == received(before).len() + taken.len()
            &&& forall|i: int|
                0 <= i < taken.len() ==> #[trigger] taken[i] == consumer_stream(
                    before,
                )[received(before).len() + i]
            &&& taken.len() <= len
            &&& taken.len() < len ==> received(after).len() == seen(after)
            &&& received(after).len() <= seen(after)
            &&& consumer_capacity(after) == consumer_capacity(before)
            &&& consumer_stream(after) == consumer_stream(before)
        }),
{
    let taken = taken_between(before, after);
    assert(received(after) =~= received(before) + taken);
    assert forall|i: int| 0 <= i < taken.len() implies #[trigger] taken[i] == consumer_stream(
        before,
    )[received(before).len() + i] by {
        assert(received(after)[received(before).len() + i] == consumer_stream(
            after,
        )[received(before).len() + i]);
    }
}

/// What is in the ring is what went in and has not come out, oldest first.
pub proof fn law_queued_samples(producer: RingProducer, consumer: RingConsumer, i: int)
    requires
        received(consumer).len() <= sent(producer).len(),
        0 <= i < sent(producer).len() - received(consumer).len(),
    ensures
        queued(producer, consumer).len() == sent(producer).len() - received(consumer).len(),
        queued(producer, consumer)[i] == sent(producer)[received(consumer).len() + i],
{
}

/// Of a resampled block, entry `i` of row `k` becomes sample `k` of frame `i`,
/// and only the frames that count are taken.
pub proof fn law_resampled_entries(block: Resampled, i: int, k: int)
    requires
        0 <= k < block.rows@.len(),
        0 <= i < block.frames,
    ensures
        block.samples().len() == block.frames * block.rows@.len(),
        0 <= i * block.rows@.len() + k < block.samples().len(),
        block.samples()[i * block.rows@.len() + k] == block.rows@[k]@[i],
{
    crate::pipeline::law_interleaved_entries(rows_view(block.rows@), block.frames as int, i, k);
}

/// The errors for formats that cannot be used name the format.
pub proof fn law_format_errors(name: Seq<char>)
    ensures
        input_format_error(name) == "unsupported input sample format: "@ + name,
        output_format_error(name) == "unsupported output sample format: "@ + name
            + ", use F32 output device"@,
{
}

/// An engine starts exactly between devices that go together. It resamples
/// exactly where their rates differ, begins with nothing waiting and nothing in
/// its ring, which has the capacity that the output asks for, and its playback
/// listens to the very handles it was given. A refusal tells both numbers of
/// channels.
pub proof fn law_engine_starts(
    input: StreamParams,
    output: StreamParams,
    mode: ModeHandle,
    mute: MuteHandle,
    engine: Result<AudioEngine, ChannelMismatch>,
)
    requires
        call_ensures(AudioEngine::start, (input, output, mode, mute), engine),
    ensures
        engine is Ok <==> input.channels >= 2 && input.channels == output.channels,
        engine matches Err(e) ==> e.input == input.channels && e.output == output.channels,
        engine matches Ok(engine) ==> {
            &&& engine.capture.resamples() <==> input.sample_rate != output.sample_rate
            &&& engine.capture.channels() == input.channels
            &&& engine.playback.channels() == output.channels
            &&& engine.capture.backlog().len() == 0
            &&& engine.playback.mode_handle() == mode
            &&& engine.playback.mute_handle() == mute
            &&& paired(engine.capture.producer(), engine.playback.consumer())
            &&& queued(engine.capture.producer(), engine.playback.consumer()).len() == 0
            &&& producer_capacity(engine.capture.producer()) == consumer_capacity(
                engine.playback.consumer(),
            )
            &&& producer_capacity(engine.capture.producer()) == ring_capacity(
                output.sample_rate,
                output.channels,
            )
        },
{
}

/// Samples of 32-bit floats and of 16-bit integers can be captured, those of
/// 32-bit floats played; everything else is refused by name.
pub proof fn law_formats(
    format: SampleFormat,
    name: &str,
    capture: Result<(), String>,
    play: Result<(), String>,
)
    requires
        call_ensures(check_input_format, (format, name), capture),
        call_ensures(check_output_format, (format, name), play),
    ensures
        format == SampleFormat::F32 ==> capture is Ok && play is Ok,
        format == SampleFormat::I16 || format == SampleFormat::U16 ==> capture is Ok && play is Err,
        format == SampleFormat::Other ==> capture is Err && play is Err,
        capture matches Err(e) ==> e@ == "unsupported input sample format: "@ + name@,
        play matches Err(e) ==> e@ == "unsupported output sample format: "@ + name@
            + ", use F32 output device"@,
{
}

/// What a call of `finish_block` leaves in the block: zeros where it is muted;
/// otherwise, in every whole frame, the side that is isolated holds the sample
/// that was there, or zero where it is beyond the filled part, and the other
/// side a copy of it or zero. Plain stereo keeps both sides.
pub proof fn law_finished_block(
    out: &mut [u32],
    filled: usize,
    channels: usize,
    mode: ChannelMode,
    muted: bool,
    frame: int,
)
    requires
        channels >= 2,
        filled <= old(out)@.len(),
        0 <= frame < old(out)@.len() as int / channels as int,
        call_ensures(finish_block, (out, filled, channels, mode, muted), ()),
    ensures
        ({
            let block = old(out)@;
            let done = final(out)@;
            let at = frame * channels;
            &&& 0 <= at < at + 1 < block.len() == done.len()
            &&& muted ==> done[at] == 0 && done[at + 1] == 0
            &&& !muted ==> {
                &&& mode is Left || mode is Both ==> done[at] == (if at < filled {
                    block[at]
                } else {
                    0
                })
                &&& mode is Right || mode is Both ==> done[at + 1] == (if at + 1 < filled {
                    block[at + 1]
                } else {
                    0
                })
                &&& mode == (ChannelMode::Left { mirror: true }) ==> done[at + 1] == done[at]
                &&& mode == (ChannelMode::Left { mirror: false }) ==> done[at + 1] == 0
                &&& mode == (ChannelMode::Right { mirror: true }) ==> done[at] == done[at + 1]
                &&& mode == (ChannelMode::Right { mirror: false }) ==> done[at] == 0
            }
        }),
{
    let block = old(out)@;
    let len = block.len() as int;
    let taken = block.take(filled as int);
    let at = frame * channels;
    law_left_is_heard(taken, len, channels as int, true, frame);
    law_left_is_heard(taken, len, channels as int, false, frame);
    law_right_is_heard(taken, len, channels as int, true, frame);
    law_right_is_heard(taken, len, channels as int, false, frame);
    law_played_is_next_in_the_stream(taken, Seq::empty(), taken, len, channels as int);
    assert(Seq::<u32>::empty() + taken =~= taken);
    law_mute_silences(taken, len, channels as int, mode);
    let both = rendered(taken, len, channels as int, ChannelMode::Both, false);
    let silent = rendered(taken, len, channels as int, mode, true);
    assert(at < filled ==> both[at] == taken[0 + at]);
    assert(at + 1 < filled ==> both[at + 1] == taken[0 + (at + 1)]);
    assert(both[at] == both[at]);
    assert(silent[at] == 0 && silent[at + 1] == 0);
}

/// What a call of `play` hands out while the handles show but one mode and but
/// one mute value: the oldest samples that are queued, as many as the block
/// holds, isolated as that mode says; silence after them; and nothing but
/// silence where it is muted, though the samples leave the ring all the same.
pub proof fn law_played_block(
    side: &mut PlaybackSide,
    out: &mut [u32],
    mode: ChannelMode,
    muted: bool,
    frame: int,
)
    requires
        old(side).wf(),
        0 <= frame < old(out)@.len() as int / old(side).channels(),
        forall|m: ChannelMode| #[trigger] old(side).mode_handle().may_show(m) ==> m == mode,
        forall|m: bool| #[trigger] old(side).mute_handle().may_show(m) ==> m == muted,
        call_ensures(PlaybackSide::play, (side, out), ()),
    ensures
        ({
            let first = received(old(side).consumer()).len() as int;
            let waiting = seen(final(side).consumer()) - first;
            let len = old(out)@.len() as int;
            let stream = consumer_stream(old(side).consumer());
            let count = received(final(side).consumer()).len() - first;
            let at = frame * old(side).channels();
            let done = final(out)@;
            &&& done.len() == len
            &&& 0 <= at < at + 1 < len
            &&& count == (if waiting < len {
                waiting
            } else {
                len
            })
            &&& muted ==> done[at] == 0 && done[at + 1] == 0
            &&& !muted ==> {
                &&& mode is Left || mode is Both ==> done[at] == (if at < count {
                    stream[first + at]
                } else {
                    0
                })
                &&& mode is Right || mode is Both ==> done[at + 1] == (if at + 1 < count {
                    stream[first + at + 1]
                } else {
                    0
                })
                &&& mode == (ChannelMode::Left { mirror: true }) ==> done[at + 1] == done[at]
                &&& mode == (ChannelMode::Left { mirror: false }) ==> done[at + 1] == 0
                &&& mode == (ChannelMode::Right { mirror: true }) ==> done[at] == done[at + 1]
                &&& mode == (ChannelMode::Right { mirror: false }) ==> done[at] == 0
            }
        }),
{
    let before = old(side).consumer();
    let after = final(side).consumer();
    let taken = taken_between(before, after);
    let len = old(out)@.len() as int;
    let channels = old(side).channels();
    let at = frame * channels;
    let first = received(before).len() as int;
    law_samples_come_out_in_order(before, after, len);
    law_left_is_heard(taken, len, channels, true, frame);
    law_left_is_heard(taken, len, channels, false, frame);
    law_right_is_heard(taken, len, channels, true, frame);
    law_right_is_heard(taken, len, channels, false, frame);
    law_played_is_next_in_the_stream(taken, Seq::empty(), taken, len, channels);
    assert(Seq::<u32>::empty() + taken =~= taken);
    law_mute_silences(taken, len, channels, mode);
    let both = rendered(taken, len, channels, ChannelMode::Both, false);
    let silent = rendered(taken, len, channels, mode, true);
    assert(silent[at] == 0 && silent[at + 1] == 0);
    assert(at < taken.len() ==> both[at] == taken[0 + at] && taken[at] == consumer_stream(
        before,
    )[first + at]);
    assert(at + 1 < taken.len() ==> both[at + 1] == taken[0 + (at + 1)] && taken[at + 1]
        == consumer_stream(before)[first + (at + 1)]);
    assert(both[at] == both[at] && both[at + 1] == both[at + 1]);
}

/// What a call of `process` does with captured samples. Where the rates match
/// they go into the ring in order, behind what is there, and none is left out
/// but where the ring is full. Where they do not, whole chunks of 1024 frames
/// come back, and every sample is found again in a chunk or in what waits.
pub proof fn law_captured_samples(side: &mut CaptureSide, raw: &[u32], chunks: Vec<Vec<Vec<u32>>>)
    requires
        old(side).wf(),
        call_ensures(CaptureSide::process, (side, raw), chunks),
    ensures
        ({
            let total = old(side).backlog() + raw@;
            let before = sent(old(side).producer());
            let after = sent(final(side).producer());
            &&& !old(side).resamples() ==> {
                &&& chunks@.len() == 0
                &&& final(side).backlog() == old(side).backlog()
                &&& before.len() <= after.len() <= before.len() + raw@.len()
                &&& forall|i: int| 0 <= i < before.len() ==> #[trigger] after[i] == before[i]
                &&& forall|i: int|
                    before.len() <= i < after.len() ==> #[trigger] after[i] == raw@[i
                        - before.len()]
                &&& after.len() < before.len() + raw@.len() ==> after.len() - freed(
                    final(side).producer(),
                ) == producer_capacity(old(side).producer())
            }
            &&& old(side).resamples() ==> {
                &&& after == before
                &&& chunks@.len() == total.len() as int / (1024 * old(side).channels())
                &&& rejoined(chunks_view(chunks@)) + final(side).backlog() == total
            }
            &&& final(side).resamples() == old(side).resamples()
            &&& final(side).channels() == old(side).channels()
        }),
{
    let total = old(side).backlog() + raw@;
    if old(side).resamples() {
        let channels = old(side).channels();
        crate::pipeline::law_nothing_is_lost(total, channels);
        lemma_fundamental_div_mod(total.len() as int, 1024 * channels);
        assert(total.len() as int / (1024 * channels) >= 0) by (nonlinear_arith)
            requires
                channels >= 1,
        ;
        crate::pipeline::law_rows_and_chunks_views(Seq::<Vec<u32>>::empty(), chunks@);
    } else {
        law_samples_go_in_in_order(old(side).producer(), final(side).producer(), raw@);
    }
}

/// What a call of `resampled` does with a block: its frames go into the ring in
/// order, first ones first, and the answer is how many samples went in; one
/// that failed changes nothing.
pub proof fn law_resampled_block(
    side: &mut CaptureSide,
    outcome: &Result<Resampled, String>,
    count: usize,
)
    requires
        outcome matches Ok(block) ==> block.wf(),
        call_ensures(CaptureSide::resampled, (side, outcome), count),
    ensures
        final(side).backlog() == old(side).backlog(),
        final(side).channels() == old(side).channels(),
        final(side).resamples() == old(side).resamples(),
        outcome is Err ==> count == 0 && final(side).producer() == old(side).producer(),
        outcome matches Ok(block) ==> {
            let before = sent(old(side).producer());
            let after = sent(final(side).producer());
            &&& after.len() == before.len() + count
            &&& count <= block.samples().len()
            &&& forall|i: int| 0 <= i < before.len() ==> #[trigger] after[i] == before[i]
            &&& forall|i: int|
                before.len() <= i < after.len() ==> #[trigger] after[i] == block.samples()[i
                    - before.len()]
            &&& count < block.samples().len() ==> after.len() - freed(final(side).producer())
                == producer_capacity(old(side).producer())
        },
{
    if outcome is Ok {
        let block = outcome->Ok_0;
        let before = old(side).producer();
        let after = final(side).producer();
        law_accepted_samples(before, after, block.samples(), count as int);
        law_samples_go_in_in_order(before, after, block.samples());
    }
}

/// What the remaining calls answer: whether a ring can be made for devices that
/// go together, and texts that name what they are about.
pub proof fn law_engine_texts(
    input: StreamParams,
    output: StreamParams,
    fits: bool,
    mismatch: ChannelMismatch,
    text: String,
    err: &str,
    input_text: String,
    output_text: String,
)
    requires
        call_ensures(AudioEngine::fits, (input, output), fits),
        call_ensures(ChannelMismatch::message, (&mismatch,), text),
        call_ensures(input_stream_error, (err,), input_text),
        call_ensures(output_stream_error, (err,), output_text),
    ensures
        input.channels < 2 || input.channels != output.channels ==> fits,
        input.channels >= 2 && input.channels == output.channels ==> (fits <==> {
            &&& output.sample_rate as int * input.channels as int <= usize::MAX
            &&& 4 * ring_capacity(output.sample_rate, input.channels) <= isize::MAX
        }),
        text@ == "expected matching stereo input/output devices, got "@ + decimal(
            mismatch.input as nat,
        ) + " in / "@ + decimal(mismatch.output as nat) + " out"@,
        input_text@ == "input device error: "@ + err@,
        output_text@ == "output device error: "@ + err@,
{
}

} // verus!
