//! The two controls a user sets, channel and mirror, and the mode they stand
//! for.
use crate::dsp::ChannelMode;
use vstd::prelude::*;

verus! {

/// The channel the user picked.
#[derive(Debug, Clone, Copy, PartialEq, Eq, Structural)]
pub enum ChannelSelection {
    Both,
    Left,
    Right,
}

/// The mode that a channel and the mirror switch stand for. The switch means
/// nothing while both channels play.
pub open spec fn mode_of(sel: ChannelSelection, mirror: bool) -> ChannelMode {
    match sel {
        ChannelSelection::Both => ChannelMode::Both,
        ChannelSelection::Left => ChannelMode::Left { mirror },
        ChannelSelection::Right => ChannelMode::Right { mirror },
    }
}

/// The controls that show a mode.
pub open spec fn controls_of(mode: ChannelMode) -> (ChannelSelection, bool) {
    match mode {
        ChannelMode::Both => (ChannelSelection::Both, false),
        ChannelMode::Left { mirror } => (ChannelSelection::Left, mirror),
        ChannelMode::Right { mirror } => (ChannelSelection::Right, mirror),
    }
}

/// The mode that the two controls stand for.
pub fn effective_mode(sel: ChannelSelection, mirror: bool) -> (mode: ChannelMode)
    ensures
        mode == mode_of(sel, mirror),
{
    match sel {
        ChannelSelection::Both => ChannelMode::Both,
        ChannelSelection::Left => ChannelMode::Left { mirror },
        ChannelSelection::Right => ChannelMode::Right { mirror },
    }
}

/// The two controls that show `mode`.
pub fn decompose(mode: ChannelMode) -> (controls: (ChannelSelection, bool))
    ensures
        controls == controls_of(mode),
{
    match mode {
        ChannelMode::Both => (ChannelSelection::Both, false),
        ChannelMode::Left { mirror } => (ChannelSelection::Left, mirror),
        ChannelMode::Right { mirror } => (ChannelSelection::Right, mirror),
    }
}

/// The controls that show a mode stand for that mode.
pub proof fn law_controls_show_the_mode(mode: ChannelMode)
    ensures
        mode_of(controls_of(mode).0, controls_of(mode).1) == mode,
{
}

/// The controls come back as they were set. The mirror switch comes back off
/// where both channels play.
pub proof fn law_controls_roundtrip(sel: ChannelSelection, mirror: bool)
    ensures
        controls_of(mode_of(sel, mirror)) == (sel, mirror && sel != ChannelSelection::Both),
{
}

/// Each channel stands for its own mode, and the mirror switch passes into it.
pub proof fn law_each_channel_has_its_mode(mirror: bool)
    ensures
        mode_of(ChannelSelection::Both, mirror) == ChannelMode::Both,
        mode_of(ChannelSelection::Left, mirror) == (ChannelMode::Left { mirror }),
        mode_of(ChannelSelection::Right, mirror) == (ChannelMode::Right { mirror }),
        controls_of(ChannelMode::Both) == (ChannelSelection::Both, false),
        controls_of(ChannelMode::Left { mirror }) == (ChannelSelection::Left, mirror),
        controls_of(ChannelMode::Right { mirror }) == (ChannelSelection::Right, mirror),
{
}

} // verus!
