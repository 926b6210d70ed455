//! Channel modes and the gain matrix that each of them stands for.
use vstd::arithmetic::div_mod::{lemma_fundamental_div_mod, lemma_fundamental_div_mod_converse};
use vstd::prelude::*;

verus! {

/// Which channel of a stereo source is heard, and where.
#[derive(Debug, Clone, Copy, PartialEq, Eq, Structural)]
pub enum ChannelMode {
    /// Plain stereo.
    Both,
    /// Only the left channel; `mirror` plays it out of both sides.
    Left { mirror: bool },
    /// Only the right channel; `mirror` plays it out of both sides.
    Right { mirror: bool },
}

/// `s` is what the sample type calls its default: zero, hence silence, for
/// the integer and the floating-point sample types.
pub open spec fn is_silence<S: Default>(s: S) -> bool {
    call_ensures(S::default, (), s)
}

impl ChannelMode {
    /// The number a mode is stored under.
    pub open spec fn code(self) -> u8 {
        match self {
            ChannelMode::Both => 0,
            ChannelMode::Left { mirror } => if mirror { 2 } else { 1 },
            ChannelMode::Right { mirror } => if mirror { 4 } else { 3 },
        }
    }

    /// The mode stored under `code`; a number that stands for no mode means
    /// plain stereo.
    pub open spec fn of_code(code: u8) -> ChannelMode {
        if code == 1 || code == 2 {
            ChannelMode::Left { mirror: code == 2 }
        } else if code == 3 || code == 4 {
            ChannelMode::Right { mirror: code == 4 }
        } else {
            ChannelMode::Both
        }
    }

    /// The gain matrix on one pair of samples. A side that is not heard gets
    /// `silence`.
    pub open spec fn mixed<S>(self, left: S, right: S, silence: S) -> (S, S) {
        match self {
            ChannelMode::Both => (left, right),
            ChannelMode::Left { mirror } => (left, if mirror { left } else { silence }),
            ChannelMode::Right { mirror } => (if mirror { right } else { silence }, right),
        }
    }

    /// The same mode with the two sides exchanged.
    pub open spec fn flipped(self) -> ChannelMode {
        match self {
            ChannelMode::Both => ChannelMode::Both,
            ChannelMode::Left { mirror } => ChannelMode::Right { mirror },
            ChannelMode::Right { mirror } => ChannelMode::Left { mirror },
        }
    }

    /// The number this mode is stored under.
    pub fn to_code(self) -> (code: u8)
        ensures
            code == self.code(),
    {
        match self {
            ChannelMode::Both => 0,
            ChannelMode::Left { mirror: false } => 1,
            ChannelMode::Left { mirror: true } => 2,
            ChannelMode::Right { mirror: false } => 3,
            ChannelMode::Right { mirror: true } => 4,
        }
    }

    /// The mode stored under `code`, plain stereo where there is none.
    pub fn from_code(code: u8) -> (mode: ChannelMode)
        ensures
            mode == ChannelMode::of_code(code),
    {
        match code {
            1 => ChannelMode::Left { mirror: false },
            2 => ChannelMode::Left { mirror: true },
            3 => ChannelMode::Right { mirror: false },
            4 => ChannelMode::Right { mirror: true },
            _ => ChannelMode::Both,
        }
    }

    /// The gain matrix with the silent sample given by the caller.
    fn mix<S: Copy>(self, in_l: S, in_r: S, silence: S) -> (out: (S, S))
        ensures
            out == self.mixed(in_l, in_r, silence),
    {
        match self {
            ChannelMode::Both => (in_l, in_r),
            ChannelMode::Left { mirror: false } => (in_l, silence),
            ChannelMode::Left { mirror: true } => (in_l, in_l),
            ChannelMode::Right { mirror: false } => (silence, in_r),
            ChannelMode::Right { mirror: true } => (in_r, in_r),
        }
    }

    /// Applies this mode's gain matrix to a single (left, right) sample pair.
    pub fn apply<S: Copy + Default>(self, in_l: S, in_r: S) -> (out: (S, S))
        ensures
            applied(self, in_l, in_r, out),
    {
        let silence: S = S::default();
        assert(is_silence(silence));
        self.mix(in_l, in_r, silence)
    }
}

/// `out` is what `mode` makes of a pair of samples.
pub open spec fn applied<S: Default>(mode: ChannelMode, in_l: S, in_r: S, out: (S, S)) -> bool {
    exists|silence: S| #[trigger]
        is_silence(silence) && out == mode.mixed(in_l, in_r, silence)
}

/// The sample type has one silence.
pub open spec fn one_silence<S: Default>() -> bool {
    forall|a: S, b: S| #[trigger] is_silence(a) && #[trigger] is_silence(b) ==> a == b
}

/// An interleaved buffer after the gain matrix: in every whole frame the first
/// two samples are mixed, any further ones stay; a last frame that is cut
/// short stays as it is.
pub open spec fn mode_applied<S>(
    buf: Seq<S>,
    channels: int,
    mode: ChannelMode,
    silence: S,
) -> Seq<S> {
    Seq::new(
        buf.len(),
        |i: int|
            if i / channels < buf.len() as int / channels {
                if i % channels == 0 {
                    mode.mixed(buf[i], buf[i + 1], silence).0
                } else if i % channels == 1 {
                    mode.mixed(buf[i - 1], buf[i], silence).1
                } else {
                    buf[i]
                }
            } else {
                buf[i]
            },
    )
}

/// Applies the channel gain matrix to an interleaved buffer in place. Only the
/// first two channels are treated as left/right; any extra channels pass
/// through.
pub fn apply_mode_in_place<S: Copy + Default>(buf: &mut [S], channels: usize, mode: ChannelMode)
    requires
        channels >= 2 || (channels == 1 && old(buf)@.len() == 0),
    ensures
        exists|silence: S| #[trigger]
            is_silence(silence) && final(buf)@ == mode_applied(
                old(buf)@,
                channels as int,
                mode,
                silence,
            ),
{
    let silence: S = S::default();
    let ghost before = buf@;
    let ghost wanted = mode_applied(before, channels as int, mode, silence);
    let len: usize = buf.len();
    let frames: usize = len / channels;
    let mut frame: usize = 0;
    let mut base: usize = 0;
    proof {
        lemma_fundamental_div_mod(len as int, channels as int);
        assert(channels * frames == frames * channels) by (nonlinear_arith);
    }
    while frame < frames
        invariant
            len == before.len(),
            buf@.len() == len,
            channels >= 2 || len == 0,
            channels >= 1,
            frames == len as int / channels as int,
            len == frames * channels + len as int % channels as int,
            0 <= len as int % (channels as int) < channels,
            frame <= frames,
            base == frame * channels,
            wanted == mode_applied(before, channels as int, mode, silence),
            forall|i: int| 0 <= i < base ==> buf@[i] == wanted[i],
            forall|i: int| base <= i < len ==> buf@[i] == before[i],
        decreases frames - frame,
    {
        assert((frame + 1) * channels == frame * channels + channels) by (nonlinear_arith);
        assert((frame + 1) * channels <= frames * channels) by (nonlinear_arith)
            requires
                frame < frames,
        ;
        let (l, r) = mode.mix(buf[base], buf[base + 1], silence);
        buf[base] = l;
        buf[base + 1] = r;
        proof {
            assert forall|i: int| base <= i < base + channels implies buf@[i] == wanted[i] by {
                lemma_fundamental_div_mod_converse(
                    i,
                    channels as int,
                    frame as int,
                    i - base,
                );
            }
        }
        base = base + channels;
        frame = frame + 1;
    }
    proof {
        assert forall|i: int| 0 <= i < len implies buf@[i] == wanted[i] by {
            if base <= i {
                lemma_fundamental_div_mod_converse(i, channels as int, frames as int, i - base);
            }
        }
        assert(buf@ =~= wanted);
        assert(is_silence(silence));
    }
}

/// Storing a mode and reading it back gives the same mode.
pub proof fn law_code_roundtrip(mode: ChannelMode)
    ensures
        ChannelMode::of_code(mode.code()) == mode,
{
}

/// No two modes are stored under the same number.
pub proof fn law_codes_are_distinct(a: ChannelMode, b: ChannelMode)
    requires
        a != b,
    ensures
        a.code() != b.code(),
{
}

/// The right-hand modes are the left-hand ones, mirrored: exchanging the two
/// samples and flipping the mode exchanges the two outputs.
pub proof fn law_flip<S>(mode: ChannelMode, left: S, right: S, silence: S)
    ensures
        mode.flipped().mixed(right, left, silence) == (
            mode.mixed(left, right, silence).1,
            mode.mixed(left, right, silence).0,
        ),
{
}

/// What `apply` gives for a right-hand mode is what it gives for the left-hand
/// one, with the two channels exchanged before and after.
pub proof fn law_right_is_left_exchanged<S: Default>(
    mirror: bool,
    left: S,
    right: S,
    exchanged: (S, S),
    out: (S, S),
)
    requires
        one_silence::<S>(),
        applied(ChannelMode::Left { mirror }, right, left, exchanged),
        applied(ChannelMode::Right { mirror }, left, right, out),
    ensures
        out == (exchanged.1, exchanged.0),
{
}

/// Applying a mode a second time changes nothing.
pub proof fn law_mix_is_idempotent<S>(mode: ChannelMode, left: S, right: S, silence: S)
    ensures
        ({
            let once = mode.mixed(left, right, silence);
            mode.mixed(once.0, once.1, silence) == once
        }),
{
}

/// Plain stereo leaves every buffer as it is.
pub proof fn law_both_is_passthrough<S>(buf: Seq<S>, channels: int, silence: S)
    requires
        channels >= 2,
    ensures
        mode_applied(buf, channels, ChannelMode::Both, silence) == buf,
{
    assert(mode_applied(buf, channels, ChannelMode::Both, silence) =~= buf);
}

/// The left-hand modes play the left channel: in every whole frame the left
/// sample stays, and the right one becomes silence or, mirrored, the left one.
pub proof fn law_left_is_isolated<S>(
    buf: Seq<S>,
    channels: int,
    mirror: bool,
    silence: S,
    frame: int,
)
    requires
        channels >= 2,
        0 <= frame < buf.len() as int / channels,
    ensures
        ({
            let out = mode_applied(buf, channels, ChannelMode::Left { mirror }, silence);
            let at = frame * channels;
            &&& 0 <= at < at + 1 < buf.len() == out.len()
            &&& out[at] == buf[at]
            &&& out[at + 1] == if mirror { buf[at] } else { silence }
        }),
{
    lemma_position_in_frame(buf, channels, frame, 0);
    lemma_position_in_frame(buf, channels, frame, 1);
}

/// The right-hand modes play the right channel: in every whole frame the right
/// sample stays, and the left one becomes silence or, mirrored, the right one.
pub proof fn law_right_is_isolated<S>(
    buf: Seq<S>,
    channels: int,
    mirror: bool,
    silence: S,
    frame: int,
)
    requires
        channels >= 2,
        0 <= frame < buf.len() as int / channels,
    ensures
        ({
            let out = mode_applied(buf, channels, ChannelMode::Right { mirror }, silence);
            let at = frame * channels;
            &&& 0 <= at < at + 1 < buf.len() == out.len()
            &&& out[at] == if mirror { buf[at + 1] } else { silence }
            &&& out[at + 1] == buf[at + 1]
        }),
{
    lemma_position_in_frame(buf, channels, frame, 0);
    lemma_position_in_frame(buf, channels, frame, 1);
}

/// Channels beyond the first two pass through, whatever the mode.
pub proof fn law_extra_channels_pass_through<S>(
    buf: Seq<S>,
    channels: int,
    mode: ChannelMode,
    silence: S,
    frame: int,
    ch: int,
)
    requires
        2 <= ch < channels,
        0 <= frame < buf.len() as int / channels,
    ensures
        mode_applied(buf, channels, mode, silence)[frame * channels + ch] == buf[frame * channels
            + ch],
{
    lemma_position_in_frame(buf, channels, frame, ch);
}

/// Where a sample of a whole frame lies.
pub proof fn lemma_position_in_frame<S>(buf: Seq<S>, channels: int, frame: int, ch: int)
    requires
        0 <= ch < channels,
        0 <= frame < buf.len() as int / channels,
    ensures
        0 <= frame * channels + ch < buf.len(),
        (frame * channels + ch) / channels == frame,
        (frame * channels + ch) % channels == ch,
{
    let frames = buf.len() as int / channels;
    lemma_fundamental_div_mod(buf.len() as int, channels);
    lemma_fundamental_div_mod_converse(frame * channels + ch, channels, frame, ch);
    assert(0 <= frame * channels && frame * channels + channels <= channels * frames)
        by (nonlinear_arith)
        requires
            0 <= frame < frames,
            channels >= 1,
    ;
}

/// The numbers that modes are stored under. A number beyond them means plain
/// stereo.
pub proof fn law_stored_numbers(code: u8)
    ensures
        ChannelMode::Both.code() == 0,
        (ChannelMode::Left { mirror: false }).code() == 1,
        (ChannelMode::Left { mirror: true }).code() == 2,
        (ChannelMode::Right { mirror: false }).code() == 3,
        (ChannelMode::Right { mirror: true }).code() == 4,
        code == 0 || code > 4 ==> ChannelMode::of_code(code) == ChannelMode::Both,
        1 <= code <= 4 ==> ChannelMode::of_code(code).code() == code,
{
}

/// What `apply` gives: plain stereo changes nothing, an isolated channel stays
/// on its side, and the other side gets a copy of it or the type's default.
pub proof fn law_apply_isolates<S: Default>(mode: ChannelMode, left: S, right: S, out: (S, S))
    requires
        applied(mode, left, right, out),
    ensures
        mode == ChannelMode::Both ==> out.0 == left && out.1 == right,
        mode is Left ==> out.0 == left,
        mode is Right ==> out.1 == right,
        mode == (ChannelMode::Left { mirror: true }) ==> out.1 == left,
        mode == (ChannelMode::Right { mirror: true }) ==> out.0 == right,
        mode == (ChannelMode::Left { mirror: false }) ==> call_ensures(S::default, (), out.1),
        mode == (ChannelMode::Right { mirror: false }) ==> call_ensures(S::default, (), out.0),
{
}

/// A last frame that is cut short stays as it is, whatever the mode, and no
/// sample is added or dropped.
pub proof fn law_cut_off_frame_stays<S>(
    buf: Seq<S>,
    channels: int,
    mode: ChannelMode,
    silence: S,
    i: int,
)
    requires
        channels >= 2,
        0 <= i < buf.len(),
        buf.len() as int / channels * channels <= i,
    ensures
        mode_applied(buf, channels, mode, silence).len() == buf.len(),
        mode_applied(buf, channels, mode, silence)[i] == buf[i],
{
    let frames = buf.len() as int / channels;
    lemma_fundamental_div_mod(buf.len() as int, channels);
    lemma_fundamental_div_mod(i, channels);
    assert(i / channels >= frames) by (nonlinear_arith)
        requires
            frames * channels <= i,
            channels >= 2,
    ;
}

/// A mode that is stored by one call and read back by another is the same mode.
pub proof fn law_store_and_read_calls(mode: ChannelMode, code: u8, read: ChannelMode)
    requires
        call_ensures(ChannelMode::to_code, (mode,), code),
        call_ensures(ChannelMode::from_code, (code,), read),
    ensures
        read == mode,
        code <= 4,
        code == 0 <==> mode == ChannelMode::Both,
        code == 1 || code == 2 <==> mode is Left,
        code == 2 || code == 4 <==> mode == (ChannelMode::Left { mirror: true }) || mode == (
        ChannelMode::Right { mirror: true }),
{
}

/// What a call of `apply_mode_in_place` makes of a whole frame: the isolated
/// side keeps its sample, and the other one gets a copy of it or the type's
/// default; plain stereo keeps both.
pub proof fn law_mixed_in_place<S: Copy + Default>(
    buf: &mut [S],
    channels: usize,
    mode: ChannelMode,
    frame: int,
)
    requires
        channels >= 2,
        0 <= frame < old(buf)@.len() as int / channels as int,
        call_ensures(apply_mode_in_place::<S>, (buf, channels, mode), ()),
    ensures
        ({
            let before = old(buf)@;
            let after = final(buf)@;
            let at = frame * channels;
            &&& 0 <= at < at + 1 < before.len() == after.len()
            &&& mode is Both || mode is Left ==> after[at] == before[at]
            &&& mode is Both || mode is Right ==> after[at + 1] == before[at + 1]
            &&& mode == (ChannelMode::Left { mirror: true }) ==> after[at + 1] == before[at]
            &&& mode == (ChannelMode::Right { mirror: true }) ==> after[at] == before[at + 1]
            &&& mode == (ChannelMode::Left { mirror: false }) ==> call_ensures(
                S::default,
                (),
                after[at + 1],
            )
            &&& mode == (ChannelMode::Right { mirror: false }) ==> call_ensures(
                S::default,
                (),
                after[at],
            )
        }),
{
    let before = old(buf)@;
    let silence = choose|silence: S| #[trigger]
        is_silence(silence) && final(buf)@ == mode_applied(
            before,
            channels as int,
            mode,
            silence,
        );
    law_left_is_isolated(before, channels as int, true, silence, frame);
    law_left_is_isolated(before, channels as int, false, silence, frame);
    law_right_is_isolated(before, channels as int, true, silence, frame);
    law_right_is_isolated(before, channels as int, false, silence, frame);
    law_both_is_passthrough(before, channels as int, silence);
}

} // verus!
