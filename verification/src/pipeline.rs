//! Cutting captured audio into the fixed-size chunks a resampler works on, and
//! putting what it returns back together.
//!
//! Two independently-clocked devices very commonly negotiate different rates
//! (e.g. a 48kHz virtual cable vs 44.1kHz headphones); forwarding raw samples
//! 1:1 in that case causes audible crackling and pitch drift.
use vstd::arithmetic::div_mod::{lemma_fundamental_div_mod, lemma_fundamental_div_mod_converse};
use vstd::prelude::*;

verus! {

/// Frames in one chunk.
pub const CHUNK_SIZE: usize = 1024;

/// One row of samples per channel, taken out of interleaved frames.
pub open spec fn rows_of<S>(samples: Seq<S>, channels: int, frames: int) -> Seq<Seq<S>> {
    Seq::new(
        channels as nat,
        |ch: int| Seq::new(frames as nat, |i: int| samples[i * channels + ch]),
    )
}

/// Interleaved frames, put together out of one row of samples per channel.
pub open spec fn interleaved<S>(rows: Seq<Seq<S>>, frames: int) -> Seq<S> {
    Seq::new(
        (frames * rows.len()) as nat,
        |j: int| rows[j % rows.len() as int][j / rows.len() as int],
    )
}

/// Samples in one chunk.
pub open spec fn chunk_len(channels: int) -> int {
    CHUNK_SIZE * channels
}

/// How many whole chunks a stretch of samples holds.
pub open spec fn chunk_count<S>(total: Seq<S>, channels: int) -> int {
    total.len() as int / chunk_len(channels)
}

/// The whole chunks of a stretch of samples, in order, each one as rows.
pub open spec fn chunks_of<S>(total: Seq<S>, channels: int) -> Seq<Seq<Seq<S>>> {
    Seq::new(
        chunk_count(total, channels) as nat,
        |k: int|
            rows_of(
                total.subrange(k * chunk_len(channels), (k + 1) * chunk_len(channels)),
                channels,
                CHUNK_SIZE as int,
            ),
    )
}

/// What is left of a stretch of samples after its whole chunks.
pub open spec fn rest_of<S>(total: Seq<S>, channels: int) -> Seq<S> {
    total.skip(chunk_count(total, channels) * chunk_len(channels))
}

/// Chunks put back together, one after the other.
pub open spec fn rejoined<S>(chunks: Seq<Seq<Seq<S>>>) -> Seq<S>
    decreases chunks.len(),
{
    if chunks.len() == 0 {
        Seq::empty()
    } else {
        rejoined(chunks.drop_last()) + interleaved(chunks.last(), CHUNK_SIZE as int)
    }
}

/// The samples of a list of rows.
pub open spec fn rows_view<S>(rows: Seq<Vec<S>>) -> Seq<Seq<S>> {
    rows.map_values(|row: Vec<S>| row@)
}

/// The samples of a list of chunks.
pub open spec fn chunks_view<S>(chunks: Seq<Vec<Vec<S>>>) -> Seq<Seq<Seq<S>>> {
    chunks.map_values(|chunk: Vec<Vec<S>>| rows_view(chunk@))
}

/// What is to be done with the samples that came in.
pub enum Work<S> {
    /// The rates match: forward these samples as they are.
    Emit(Vec<S>),
    /// Resample these chunks in order and forward what comes out of each.
    Resample(Vec<Vec<Vec<S>>>),
}

/// Prepares interleaved input audio for conversion from the input device's
/// sample rate to the output device's sample rate.
pub struct InputPipeline<S> {
    resampling: bool,
    channels: usize,
    pending: Vec<S>,
}

impl<S: Copy> InputPipeline<S> {
    /// Whether the audio has to be resampled.
    pub closed spec fn resamples(&self) -> bool {
        self.resampling
    }

    /// Channels in a frame.
    pub closed spec fn channels(&self) -> int {
        self.channels as int
    }

    /// Samples that came in and do not fill a chunk yet.
    pub closed spec fn backlog(&self) -> Seq<S> {
        self.pending@
    }

    /// There is at least one channel, and the samples of two chunks can be
    /// counted.
    pub open spec fn wf(&self) -> bool {
        &&& self.channels() >= 1
        &&& 2 * chunk_len(self.channels()) <= usize::MAX
    }

    /// A pipeline between two devices of the given rates. It resamples exactly
    /// where the rates differ.
    pub fn new(input_rate: u32, output_rate: u32, channels: usize) -> (pipeline: Self)
        requires
            channels >= 1,
            2 * chunk_len(channels as int) <= usize::MAX,
        ensures
            pipeline.wf(),
            pipeline.resamples() == (input_rate != output_rate),
            pipeline.channels() == channels,
            pipeline.backlog() == Seq::<S>::empty(),
    {
        InputPipeline {
            resampling: input_rate != output_rate,
            channels,
            pending: Vec::with_capacity(CHUNK_SIZE * channels * 2),
        }
    }

    /// Feeds raw interleaved input samples. Where the rates match they are to
    /// be forwarded as they are; otherwise the answer holds every chunk that
    /// is complete by now, and what does not fill a chunk waits for more.
    pub fn process(&mut self, raw: &[S]) -> (work: Work<S>)
        requires
            old(self).wf(),
        ensures
            final(self).wf(),
            final(self).resamples() == old(self).resamples(),
            final(self).channels() == old(self).channels(),
            ({
                let total = old(self).backlog() + raw@;
                if old(self).resamples() {
                    &&& work matches Work::Resample(chunks)
                    &&& chunks_view(chunks@) == chunks_of(total, old(self).channels())
                    &&& final(self).backlog() == rest_of(total, old(self).channels())
                } else {
                    &&& work matches Work::Emit(samples)
                    &&& samples@ == raw@
                    &&& final(self).backlog() == old(self).backlog()
                }
            }),
    {
        if !self.resampling {
            return Work::Emit(vstd::slice::slice_to_vec(raw));
        }
        let ghost before = self.pending@;
        let mut i: usize = 0;
        while i < raw.len()
            invariant
                i <= raw@.len(),
                self.pending@ == before + raw@.take(i as int),
                self.channels == old(self).channels,
                self.resampling == old(self).resampling,
            decreases raw@.len() - i,
        {
            self.pending.push(raw[i]);
            i = i + 1;
            assert(raw@.take(i as int) =~= raw@.take(i - 1).push(raw@[i - 1]));
            assert(self.pending@ =~= before + raw@.take(i as int));
        }
        assert(raw@.take(i as int) =~= raw@);
        let ghost total = self.pending@;
        let channels: usize = self.channels;
        let chunk: usize = CHUNK_SIZE * channels;
        let count: usize = self.pending.len() / chunk;
        let mut chunks: Vec<Vec<Vec<S>>> = Vec::new();
        let mut k: usize = 0;
        let mut base: usize = 0;
        proof {
            lemma_fundamental_div_mod(total.len() as int, chunk as int);
            assert(chunk * count == count * chunk) by (nonlinear_arith);
        }
        while k < count
            invariant
                k <= count,
                channels >= 1,
                chunk == chunk_len(channels as int),
                count == chunk_count(total, channels as int),
                count * chunk <= total.len() <= usize::MAX,
                base == k * chunk,
                self.pending@ == total,
                self.channels == old(self).channels,
                self.resampling == old(self).resampling,
                chunks@.len() == k,
                forall|m: int|
                    0 <= m < k ==> rows_view(#[trigger] chunks@[m]@) == chunks_of(
                        total,
                        channels as int,
                    )[m],
            decreases count - k,
        {
            assert((k + 1) * chunk == k * chunk + chunk) by (nonlinear_arith);
            assert((k + 1) * chunk <= count * chunk) by (nonlinear_arith)
                requires
                    k < count,
            ;
            let rows: Vec<Vec<S>> = deinterleave(&self.pending, base, channels);
            chunks.push(rows);
            base = base + chunk;
            k = k + 1;
        }
        let rest: Vec<S> = self.pending.split_off(base);
        self.pending = rest;
        proof {
            assert(chunks_view(chunks@) =~= chunks_of(total, channels as int));
            assert(self.pending@ =~= rest_of(total, channels as int));
        }
        Work::Resample(chunks)
    }
}

/// Takes the chunk that begins at `base` apart into one row per channel.
fn deinterleave<S: Copy>(samples: &Vec<S>, base: usize, channels: usize) -> (rows: Vec<Vec<S>>)
    requires
        channels >= 1,
        base + chunk_len(channels as int) <= samples@.len(),
    ensures
        rows_view(rows@) == rows_of(
            samples@.subrange(base as int, base + chunk_len(channels as int)),
            channels as int,
            CHUNK_SIZE as int,
        ),
{
    let ghost part = samples@.subrange(base as int, base + chunk_len(channels as int));
    let ghost wanted = rows_of(part, channels as int, CHUNK_SIZE as int);
    let len: usize = samples.len();
    let mut rows: Vec<Vec<S>> = Vec::new();
    let mut ch: usize = 0;
    while ch < channels
        invariant
            ch <= channels,
            channels >= 1,
            len == samples@.len(),
            base + chunk_len(channels as int) <= len,
            part == samples@.subrange(base as int, base + chunk_len(channels as int)),
            wanted == rows_of(part, channels as int, CHUNK_SIZE as int),
            rows@.len() == ch,
            forall|c: int| 0 <= c < ch ==> (#[trigger] rows@[c])@ == wanted[c],
        decreases channels - ch,
    {
        let mut row: Vec<S> = Vec::new();
        let mut i: usize = 0;
        let mut at: usize = base + ch;
        while i < CHUNK_SIZE
            invariant
                i <= CHUNK_SIZE,
                ch < channels,
                len == samples@.len(),
                base + chunk_len(channels as int) <= len,
                part == samples@.subrange(base as int, base + chunk_len(channels as int)),
                at == base + i * channels + ch || i == CHUNK_SIZE,
                row@.len() == i,
                forall|n: int|
                    0 <= n < i ==> row@[n] == part[#[trigger] (n * channels as int) + ch],
            decreases CHUNK_SIZE - i,
        {
            assert(i * channels + channels <= CHUNK_SIZE * channels) by (nonlinear_arith)
                requires
                    i < CHUNK_SIZE,
            ;
            assert((i + 1) * channels == i * channels + channels) by (nonlinear_arith);
            assert(part[i * channels as int + ch] == samples@[at as int]);
            row.push(samples[at]);
            i = i + 1;
            if i < CHUNK_SIZE {
                assert(i * channels + channels <= CHUNK_SIZE * channels) by (nonlinear_arith)
                    requires
                        i < CHUNK_SIZE,
                ;
                at = at + channels;
            }
        }
        assert(row@ =~= wanted[ch as int]);
        rows.push(row);
        ch = ch + 1;
    }
    assert(rows_view(rows@) =~= wanted);
    rows
}

/// Puts the first `frames` samples of each channel back together, frame by
/// frame.
pub fn interleave<S: Copy>(rows: &Vec<Vec<S>>, frames: usize) -> (out: Vec<S>)
    requires
        frames * rows@.len() <= usize::MAX,
        forall|ch: int| 0 <= ch < rows@.len() ==> frames <= (#[trigger] rows@[ch])@.len(),
    ensures
        out@ == interleaved(rows_view(rows@), frames as int),
{
    let ghost wanted = interleaved(rows_view(rows@), frames as int);
    let channels: usize = rows.len();
    let mut out: Vec<S> = Vec::with_capacity(frames * channels);
    let mut i: usize = 0;
    while i < frames
        invariant
            i <= frames,
            channels == rows@.len(),
            frames * channels <= usize::MAX,
            forall|ch: int| 0 <= ch < rows@.len() ==> frames <= (#[trigger] rows@[ch])@.len(),
            wanted == interleaved(rows_view(rows@), frames as int),
            wanted.len() == frames * channels,
            out@.len() == i * channels,
            forall|j: int| 0 <= j < out@.len() ==> out@[j] == wanted[j],
        decreases frames - i,
    {
        let mut ch: usize = 0;
        assert((i + 1) * channels == i * channels + channels) by (nonlinear_arith);
        assert((i + 1) * channels <= frames * channels) by (nonlinear_arith)
            requires
                i < frames,
        ;
        while ch < channels
            invariant
                i < frames,
                ch <= channels,
                channels == rows@.len(),
                i * channels + channels <= frames * channels,
                forall|c: int| 0 <= c < rows@.len() ==> frames <= (#[trigger] rows@[c])@.len(),
                wanted == interleaved(rows_view(rows@), frames as int),
                wanted.len() == frames * channels,
                out@.len() == i * channels + ch,
                forall|j: int| 0 <= j < out@.len() ==> out@[j] == wanted[j],
            decreases channels - ch,
        {
            proof {
                lemma_fundamental_div_mod_converse(
                    i * channels + ch,
                    channels as int,
                    i as int,
                    ch as int,
                );
            }
            out.push(rows[ch][i]);
            ch = ch + 1;
        }
        i = i + 1;
    }
    assert(out@ =~= wanted);
    out
}

/// Taking frames apart into rows and putting the rows back together gives the
/// same samples.
pub proof fn law_interleave_undoes_rows<S>(samples: Seq<S>, channels: int, frames: int)
    requires
        channels >= 1,
        frames >= 0,
        samples.len() == frames * channels,
    ensures
        interleaved(rows_of(samples, channels, frames), frames) == samples,
{
    let rows = rows_of(samples, channels, frames);
    let back = interleaved(rows, frames);
    assert forall|j: int| 0 <= j < samples.len() implies back[j] == samples[j] by {
        lemma_fundamental_div_mod(j, channels);
        let q = j / channels;
        assert(0 <= q < frames) by (nonlinear_arith)
            requires
                0 <= j < frames * channels,
                channels >= 1,
                q == j / channels,
        ;
        assert(q * channels == channels * q) by (nonlinear_arith);
        assert(rows[j % channels][q] == samples[q * channels + j % channels]);
    }
    assert(back =~= samples);
}

/// Putting rows together and taking them apart again gives the same rows.
pub proof fn law_rows_undo_interleave<S>(rows: Seq<Seq<S>>, frames: int)
    requires
        rows.len() >= 1,
        frames >= 0,
        forall|ch: int| 0 <= ch < rows.len() ==> (#[trigger] rows[ch]).len() == frames,
    ensures
        rows_of(interleaved(rows, frames), rows.len() as int, frames) == rows,
{
    let channels = rows.len() as int;
    let flat = interleaved(rows, frames);
    let back = rows_of(flat, channels, frames);
    assert forall|ch: int| 0 <= ch < channels implies back[ch] == rows[ch] by {
        assert forall|i: int| 0 <= i < frames implies back[ch][i] == rows[ch][i] by {
            lemma_fundamental_div_mod_converse(i * channels + ch, channels, i, ch);
            assert(0 <= i * channels + ch < frames * channels) by (nonlinear_arith)
                requires
                    0 <= i < frames,
                    0 <= ch < channels,
            ;
        }
        assert(back[ch] =~= rows[ch]);
    }
    assert(back =~= rows);
}

/// No sample is lost, doubled or moved: the chunks of a stretch, put back
/// together, and what is left over make up the stretch.
pub proof fn law_nothing_is_lost<S>(total: Seq<S>, channels: int)
    requires
        channels >= 1,
    ensures
        rejoined(chunks_of(total, channels)) + rest_of(total, channels) == total,
{
    let len = chunk_len(channels);
    let count = chunk_count(total, channels);
    lemma_fundamental_div_mod(total.len() as int, len);
    assert(len * count == count * len) by (nonlinear_arith);
    assert(count >= 0) by (nonlinear_arith)
        requires
            len >= 1,
            count == total.len() as int / len,
    ;
    lemma_rejoined_prefix(total, channels, count);
    assert(chunks_of(total, channels).take(count) =~= chunks_of(total, channels));
    assert(total.take(count * len) + rest_of(total, channels) =~= total);
}

proof fn lemma_rejoined_prefix<S>(total: Seq<S>, channels: int, k: int)
    requires
        channels >= 1,
        0 <= k <= chunk_count(total, channels),
        chunk_count(total, channels) * chunk_len(channels) <= total.len(),
    ensures
        k * chunk_len(channels) <= total.len(),
        rejoined(chunks_of(total, channels).take(k)) == total.take(k * chunk_len(channels)),
    decreases k,
{
    let len = chunk_len(channels);
    let count = chunk_count(total, channels);
    let chunks = chunks_of(total, channels);
    assert(k * len <= count * len) by (nonlinear_arith)
        requires
            k <= count,
            len >= 1,
    ;
    if k == 0 {
        assert(k * len == 0) by (nonlinear_arith)
            requires
                k == 0,
        ;
        assert(total.take(k * len) =~= Seq::<S>::empty());
    } else {
        lemma_rejoined_prefix(total, channels, k - 1);
        assert((k - 1) * len + len == k * len) by (nonlinear_arith);
        assert((k - 1) * len >= 0) by (nonlinear_arith)
            requires
                k >= 1,
                len >= 1,
        ;
        let part = total.subrange((k - 1) * len, k * len);
        law_interleave_undoes_rows(part, channels, CHUNK_SIZE as int);
        assert(chunks.take(k).drop_last() =~= chunks.take(k - 1));
        assert(chunks.take(k).last() == rows_of(part, channels, CHUNK_SIZE as int));
        assert(total.take((k - 1) * len) + part =~= total.take(k * len));
    }
}

/// What waits for more samples never fills a chunk.
pub proof fn law_backlog_is_short<S>(total: Seq<S>, channels: int)
    requires
        channels >= 1,
    ensures
        rest_of(total, channels).len() < chunk_len(channels),
{
    lemma_fundamental_div_mod(total.len() as int, chunk_len(channels));
    let count = chunk_count(total, channels);
    assert(chunk_len(channels) * count == count * chunk_len(channels)) by (nonlinear_arith);
    assert(count >= 0) by (nonlinear_arith)
        requires
            chunk_len(channels) >= 1,
            count == total.len() as int / chunk_len(channels),
    ;
    assert(count * chunk_len(channels) >= 0) by (nonlinear_arith)
        requires
            count >= 0,
            chunk_len(channels) >= 1,
    ;
}

/// How the samples are spread over calls makes no difference: feeding `a` and
/// later `b` gives the chunks and the rest that feeding both at once gives.
pub proof fn law_feeding_in_pieces<S>(a: Seq<S>, b: Seq<S>, channels: int)
    requires
        channels >= 1,
    ensures
        chunks_of(a + b, channels) == chunks_of(a, channels) + chunks_of(
            rest_of(a, channels) + b,
            channels,
        ),
        rest_of(a + b, channels) == rest_of(rest_of(a, channels) + b, channels),
{
    let len = chunk_len(channels);
    let first = chunk_count(a, channels);
    let later = rest_of(a, channels) + b;
    let second = chunk_count(later, channels);
    let rem = later.len() as int % len;
    lemma_fundamental_div_mod(a.len() as int, len);
    assert(len * first == first * len) by (nonlinear_arith);
    assert(first >= 0) by (nonlinear_arith)
        requires
            len >= 1,
            first == a.len() as int / len,
    ;
    assert(first * len >= 0) by (nonlinear_arith)
        requires
            first >= 0,
            len >= 1,
    ;
    lemma_fundamental_div_mod(later.len() as int, len);
    assert(second >= 0) by (nonlinear_arith)
        requires
            len >= 1,
            second == later.len() as int / len,
    ;
    assert(len * second == second * len) by (nonlinear_arith);
    assert((first + second) * len == first * len + second * len) by (nonlinear_arith);
    assert(second * len >= 0) by (nonlinear_arith)
        requires
            second >= 0,
            len >= 1,
    ;
    lemma_fundamental_div_mod_converse((a + b).len() as int, len, first + second, rem);
    assert(later =~= (a + b).skip(first * len));
    assert(rest_of(a + b, channels) =~= rest_of(later, channels));
    let whole = chunks_of(a + b, channels);
    let parts = chunks_of(a, channels) + chunks_of(later, channels);
    assert forall|k: int| 0 <= k < whole.len() implies whole[k] == parts[k] by {
        assert((k + 1) * len == k * len + len) by (nonlinear_arith);
        assert(k * len >= 0) by (nonlinear_arith)
            requires
                k >= 0,
                len >= 1,
        ;
        if k < first {
            assert((k + 1) * len <= first * len) by (nonlinear_arith)
                requires
                    k < first,
                    len >= 1,
            ;
            assert((a + b).subrange(k * len, (k + 1) * len) =~= a.subrange(
                k * len,
                (k + 1) * len,
            ));
        } else {
            let m = k - first;
            assert((m + 1) * len == m * len + len) by (nonlinear_arith);
            assert(k * len == first * len + m * len) by (nonlinear_arith)
                requires
                    k == first + m,
            ;
            assert((m + 1) * len <= second * len) by (nonlinear_arith)
                requires
                    m < second,
                    len >= 1,
            ;
            assert(m * len >= 0) by (nonlinear_arith)
                requires
                    m >= 0,
                    len >= 1,
            ;
            assert((a + b).subrange(k * len, (k + 1) * len) =~= later.subrange(
                m * len,
                (m + 1) * len,
            ));
        }
    }
    assert(whole =~= parts);
}

/// The two stretches hold the same samples of channel `k`.
pub open spec fn same_channel<S>(a: Seq<S>, b: Seq<S>, channels: int, k: int) -> bool {
    &&& a.len() == b.len()
    &&& forall|j: int| 0 <= j < a.len() && j % channels == k ==> #[trigger] a[j] == b[j]
}

/// Channels never leak or swap: the row of a channel depends on the samples of
/// that channel alone, in every chunk, and so does what waits for more.
pub proof fn law_channels_stay_apart<S>(a: Seq<S>, b: Seq<S>, channels: int, k: int)
    requires
        0 <= k < channels,
        same_channel(a, b, channels, k),
    ensures
        chunks_of(a, channels).len() == chunks_of(b, channels).len(),
        forall|n: int|
            0 <= n < chunks_of(a, channels).len() ==> #[trigger] chunks_of(a, channels)[n][k]
                == chunks_of(b, channels)[n][k],
        same_channel(rest_of(a, channels), rest_of(b, channels), channels, k),
{
    let len = chunk_len(channels);
    let count = chunk_count(a, channels);
    lemma_fundamental_div_mod(a.len() as int, len);
    assert(len * count == count * len) by (nonlinear_arith);
    assert(count >= 0) by (nonlinear_arith)
        requires
            len >= 1,
            count == a.len() as int / len,
    ;
    assert forall|n: int| 0 <= n < chunks_of(a, channels).len() implies #[trigger] chunks_of(
        a,
        channels,
    )[n][k] == chunks_of(b, channels)[n][k] by {
        let row_a = chunks_of(a, channels)[n][k];
        let row_b = chunks_of(b, channels)[n][k];
        assert((n + 1) * len == n * len + len) by (nonlinear_arith);
        assert(0 <= n * len && (n + 1) * len <= count * len) by (nonlinear_arith)
            requires
                0 <= n < count,
                len >= 1,
        ;
        assert forall|i: int| 0 <= i < CHUNK_SIZE implies row_a[i] == row_b[i] by {
            let at = n * len + (i * channels + k);
            assert(0 <= i * channels && i * channels + channels <= CHUNK_SIZE * channels)
                by (nonlinear_arith)
                requires
                    0 <= i < CHUNK_SIZE,
                    channels >= 1,
            ;
            assert(at == (n * CHUNK_SIZE + i) * channels + k) by (nonlinear_arith)
                requires
                    at == n * len + (i * channels + k),
                    len == CHUNK_SIZE * channels,
            ;
            lemma_fundamental_div_mod_converse(at, channels, n * CHUNK_SIZE + i, k);
            assert(a[at] == b[at]);
        }
        assert(row_a =~= row_b);
    }
    let base = count * len;
    assert(base >= 0) by (nonlinear_arith)
        requires
            base == count * len,
            count >= 0,
            len >= 1,
    ;
    assert forall|j: int|
        0 <= j < rest_of(a, channels).len() && j % channels == k implies #[trigger] rest_of(
        a,
        channels,
    )[j] == rest_of(b, channels)[j] by {
        let q = j / channels;
        lemma_fundamental_div_mod(j, channels);
        assert(base + j == (count * CHUNK_SIZE + q) * channels + k) by (nonlinear_arith)
            requires
                base == count * len,
                len == CHUNK_SIZE * channels,
                j == channels * q + k,
        ;
        lemma_fundamental_div_mod_converse(base + j, channels, count * CHUNK_SIZE + q, k);
        assert(a[base + j] == b[base + j]);
    }
}

/// The way back: interleaved frames hold of a channel what its row holds, and
/// nothing of another row.
pub proof fn law_rows_stay_apart<S>(a: Seq<Seq<S>>, b: Seq<Seq<S>>, frames: int, k: int)
    requires
        0 <= k < a.len() == b.len(),
        frames >= 0,
        a[k] == b[k],
    ensures
        interleaved(a, frames).len() == frames * a.len(),
        same_channel(interleaved(a, frames), interleaved(b, frames), a.len() as int, k),
{
    assert(frames * a.len() >= 0) by (nonlinear_arith)
        requires
            frames >= 0,
            a.len() >= 0,
    ;
}

/// Where every sample goes: a chunk holds 1024 frames, as one row per channel;
/// in chunk `n`, entry `i` of row `k` is the sample of channel `k` in frame `i`
/// of that chunk, in the order in which the samples came in. As many chunks are
/// handed out as are complete.
pub proof fn law_chunk_entries<S>(total: Seq<S>, channels: int, n: int, k: int, i: int)
    requires
        channels >= 1,
        0 <= n < total.len() as int / (1024 * channels),
        0 <= k < channels,
        0 <= i < 1024,
    ensures
        chunks_of(total, channels).len() == total.len() as int / (1024 * channels),
        chunks_of(total, channels)[n].len() == channels,
        chunks_of(total, channels)[n][k].len() == 1024,
        0 <= n * (1024 * channels) + i * channels + k < total.len(),
        chunks_of(total, channels)[n][k][i] == total[n * (1024 * channels) + i * channels + k],
{
    let len = 1024 * channels;
    let count = total.len() as int / len;
    lemma_fundamental_div_mod(total.len() as int, len);
    assert(len * count == count * len) by (nonlinear_arith);
    assert((n + 1) * len == n * len + len) by (nonlinear_arith);
    assert(0 <= n * len && (n + 1) * len <= count * len) by (nonlinear_arith)
        requires
            0 <= n < count,
            len >= 1,
    ;
    assert(0 <= i * channels && i * channels + channels <= 1024 * channels) by (nonlinear_arith)
        requires
            0 <= i < 1024,
            channels >= 1,
    ;
}

/// What waits is what comes after the complete chunks: fewer samples than a
/// chunk holds, unchanged and in order.
pub proof fn law_rest_entries<S>(total: Seq<S>, channels: int, j: int)
    requires
        channels >= 1,
        0 <= j < total.len() as int % (1024 * channels),
    ensures
        rest_of(total, channels).len() == total.len() as int % (1024 * channels),
        rest_of(total, channels)[j] == total[total.len() - total.len() as int % (1024 * channels)
            + j],
{
    let len = 1024 * channels;
    let count = total.len() as int / len;
    lemma_fundamental_div_mod(total.len() as int, len);
    assert(len * count == count * len) by (nonlinear_arith);
    assert(count * len >= 0) by (nonlinear_arith)
        requires
            len >= 1,
            count == total.len() as int / len,
    ;
}

/// Where a stretch is all complete chunks, nothing waits.
pub proof fn law_no_rest_after_whole_chunks<S>(total: Seq<S>, channels: int)
    requires
        channels >= 1,
        total.len() as int % (1024 * channels) == 0,
    ensures
        rest_of(total, channels).len() == 0,
{
    let len = 1024 * channels;
    let count = total.len() as int / len;
    lemma_fundamental_div_mod(total.len() as int, len);
    assert(len * count == count * len) by (nonlinear_arith);
    assert(count * len >= 0) by (nonlinear_arith)
        requires
            len >= 1,
            count == total.len() as int / len,
    ;
}

/// Where every entry goes on the way back: entry `i` of row `k` becomes sample
/// `k` of frame `i`, and there are as many samples as the frames hold.
pub proof fn law_interleaved_entries<S>(rows: Seq<Seq<S>>, frames: int, i: int, k: int)
    requires
        0 <= k < rows.len(),
        0 <= i < frames,
    ensures
        interleaved(rows, frames).len() == frames * rows.len(),
        0 <= i * rows.len() + k < frames * rows.len(),
        interleaved(rows, frames)[i * rows.len() + k] == rows[k][i],
{
    let channels = rows.len() as int;
    lemma_fundamental_div_mod_converse(i * channels + k, channels, i, k);
    assert(0 <= i * channels + k < frames * channels) by (nonlinear_arith)
        requires
            0 <= i < frames,
            0 <= k < channels,
    ;
}

/// What lists of rows and chunks stand for is what they hold.
pub proof fn law_rows_and_chunks_views<S>(rows: Seq<Vec<S>>, chunks: Seq<Vec<Vec<S>>>)
    ensures
        rows_view(rows).len() == rows.len(),
        forall|k: int| 0 <= k < rows.len() ==> #[trigger] rows_view(rows)[k] == rows[k]@,
        chunks_view(chunks).len() == chunks.len(),
        forall|n: int, k: int|
            0 <= n < chunks.len() && 0 <= k < chunks[n]@.len() ==> {
                &&& chunks_view(chunks)[n].len() == chunks[n]@.len()
                &&& #[trigger] chunks_view(chunks)[n][k] == chunks[n]@[k]@
            },
{
}

/// What calls on a pipeline do: a new one resamples exactly where the rates
/// differ, and nothing waits in it; samples pass through unchanged where it
/// does not resample; and where it does, every whole chunk comes back as rows
/// in which entry `i` of row `k` is the sample of channel `k` in frame `i`, and
/// nothing is lost.
pub proof fn law_pipeline_calls<S: Copy>(
    input_rate: u32,
    output_rate: u32,
    channels: usize,
    fresh: InputPipeline<S>,
    pipeline: &mut InputPipeline<S>,
    raw: &[S],
    work: Work<S>,
    n: int,
    k: int,
    i: int,
)
    requires
        call_ensures(InputPipeline::<S>::new, (input_rate, output_rate, channels), fresh),
        old(pipeline).wf(),
        call_ensures(InputPipeline::<S>::process, (pipeline, raw), work),
        0 <= n,
        0 <= k < old(pipeline).channels(),
        0 <= i < 1024,
    ensures
        fresh.resamples() <==> input_rate != output_rate,
        fresh.channels() == channels,
        fresh.backlog().len() == 0,
        !old(pipeline).resamples() ==> work is Emit && work->Emit_0@ == raw@,
        old(pipeline).resamples() ==> work is Resample && {
            let chunks = work->Resample_0@;
            let total = old(pipeline).backlog() + raw@;
            let len = 1024 * old(pipeline).channels();
            &&& chunks.len() == total.len() as int / len
            &&& rejoined(chunks_view(chunks)) + final(pipeline).backlog() == total
            &&& final(pipeline).backlog().len() < len
            &&& n < chunks.len() ==> {
                &&& chunks[n]@.len() == old(pipeline).channels()
                &&& chunks[n]@[k]@.len() == 1024
                &&& chunks[n]@[k]@[i] == total[n * len + i * old(pipeline).channels() + k]
            }
        },
{
    if old(pipeline).resamples() {
        let chunks = work->Resample_0@;
        let total = old(pipeline).backlog() + raw@;
        let width = old(pipeline).channels();
        law_nothing_is_lost(total, width);
        law_backlog_is_short(total, width);
        assert(total.len() as int / (1024 * width) >= 0) by (nonlinear_arith)
            requires
                width >= 1,
        ;
        assert(chunks_view(chunks).len() == chunks.len());
        if n < chunks.len() {
            law_chunk_entries(total, width, n, k, i);
            assert(chunks_view(chunks)[n] == rows_view(chunks[n]@));
            assert(rows_view(chunks[n]@).len() == chunks[n]@.len());
            assert(rows_view(chunks[n]@)[k] == chunks[n]@[k]@);
        }
    }
}

/// What a call of `interleave` gives: as many samples as the frames hold, with
/// entry `i` of row `k` as sample `k` of frame `i`.
pub proof fn law_interleave_call<S: Copy>(
    rows: &Vec<Vec<S>>,
    frames: usize,
    out: Vec<S>,
    i: int,
    k: int,
)
    requires
        0 <= k < rows@.len(),
        0 <= i < frames,
        call_ensures(interleave::<S>, (rows, frames), out),
    ensures
        out@.len() == frames * rows@.len(),
        0 <= i * rows@.len() + k < out@.len(),
        out@[i * rows@.len() + k] == rows@[k]@[i],
{
    law_interleaved_entries(rows_view(rows@), frames as int, i, k);
}

} // verus!
