//! The channel map of the output stream: decoder channel flags mapped to
//! the positions the audio server knows.
use vstd::prelude::*;

verus! {

pub const FRONT_LEFT: u32 = 0x0000_0001;
pub const FRONT_RIGHT: u32 = 0x0000_0002;
pub const FRONT_CENTRE: u32 = 0x0000_0004;
pub const LFE1: u32 = 0x0000_0008;
pub const REAR_LEFT: u32 = 0x0000_0010;
pub const REAR_RIGHT: u32 = 0x0000_0020;
pub const FRONT_LEFT_CENTRE: u32 = 0x0000_0040;
pub const FRONT_RIGHT_CENTRE: u32 = 0x0000_0080;
pub const REAR_CENTRE: u32 = 0x0000_0100;
pub const SIDE_LEFT: u32 = 0x0000_0200;
pub const SIDE_RIGHT: u32 = 0x0000_0400;
pub const TOP_CENTRE: u32 = 0x0000_0800;
pub const TOP_FRONT_LEFT: u32 = 0x0000_1000;
pub const TOP_FRONT_CENTRE: u32 = 0x0000_2000;
pub const TOP_FRONT_RIGHT: u32 = 0x0000_4000;
pub const TOP_REAR_LEFT: u32 = 0x0000_8000;
pub const TOP_REAR_CENTRE: u32 = 0x0001_0000;
pub const TOP_REAR_RIGHT: u32 = 0x0002_0000;

/// A channel position of the output stream.
#[derive(Clone, Copy, Debug, PartialEq, Eq, Structural)]
pub enum ChannelPosition {
    Mono,
    FrontLeft,
    FrontRight,
    FrontCenter,
    RearLeft,
    RearCenter,
    RearRight,
    Lfe,
    FrontLeftOfCenter,
    FrontRightOfCenter,
    SideLeft,
    SideRight,
    TopCenter,
    TopFrontLeft,
    TopFrontCenter,
    TopFrontRight,
    TopRearLeft,
    TopRearCenter,
    TopRearRight,
}

/// The position of one channel flag; front left alone is mono. `None` for a
/// flag with no position.
pub open spec fn position_of(flag: u32, mono: bool) -> Option<ChannelPosition> {
    if flag == FRONT_LEFT && mono {
        Some(ChannelPosition::Mono)
    } else if flag == FRONT_LEFT {
        Some(ChannelPosition::FrontLeft)
    } else if flag == FRONT_RIGHT {
        Some(ChannelPosition::FrontRight)
    } else if flag == FRONT_CENTRE {
        Some(ChannelPosition::FrontCenter)
    } else if flag == REAR_LEFT {
        Some(ChannelPosition::RearLeft)
    } else if flag == REAR_CENTRE {
        Some(ChannelPosition::RearCenter)
    } else if flag == REAR_RIGHT {
        Some(ChannelPosition::RearRight)
    } else if flag == LFE1 {
        Some(ChannelPosition::Lfe)
    } else if flag == FRONT_LEFT_CENTRE {
        Some(ChannelPosition::FrontLeftOfCenter)
    } else if flag == FRONT_RIGHT_CENTRE {
        Some(ChannelPosition::FrontRightOfCenter)
    } else if flag == SIDE_LEFT {
        Some(ChannelPosition::SideLeft)
    } else if flag == SIDE_RIGHT {
        Some(ChannelPosition::SideRight)
    } else if flag == TOP_CENTRE {
        Some(ChannelPosition::TopCenter)
    } else if flag == TOP_FRONT_LEFT {
        Some(ChannelPosition::TopFrontLeft)
    } else if flag == TOP_FRONT_CENTRE {
        Some(ChannelPosition::TopFrontCenter)
    } else if flag == TOP_FRONT_RIGHT {
        Some(ChannelPosition::TopFrontRight)
    } else if flag == TOP_REAR_LEFT {
        Some(ChannelPosition::TopRearLeft)
    } else if flag == TOP_REAR_CENTRE {
        Some(ChannelPosition::TopRearCenter)
    } else if flag == TOP_REAR_RIGHT {
        Some(ChannelPosition::TopRearRight)
    } else {
        None
    }
}

/// The position of one channel flag, `mono` when it is the only channel.
pub fn channel_position(flag: u32, mono: bool) -> (r: Option<ChannelPosition>)
    ensures
        r == position_of(flag, mono),
{
    if flag == FRONT_LEFT && mono {
        Some(ChannelPosition::Mono)
    } else if flag == FRONT_LEFT {
        Some(ChannelPosition::FrontLeft)
    } else if flag == FRONT_RIGHT {
        Some(ChannelPosition::FrontRight)
    } else if flag == FRONT_CENTRE {
        Some(ChannelPosition::FrontCenter)
    } else if flag == REAR_LEFT {
        Some(ChannelPosition::RearLeft)
    } else if flag == REAR_CENTRE {
        Some(ChannelPosition::RearCenter)
    } else if flag == REAR_RIGHT {
        Some(ChannelPosition::RearRight)
    } else if flag == LFE1 {
        Some(ChannelPosition::Lfe)
    } else if flag == FRONT_LEFT_CENTRE {
        Some(ChannelPosition::FrontLeftOfCenter)
    } else if flag == FRONT_RIGHT_CENTRE {
        Some(ChannelPosition::FrontRightOfCenter)
    } else if flag == SIDE_LEFT {
        Some(ChannelPosition::SideLeft)
    } else if flag == SIDE_RIGHT {
        Some(ChannelPosition::SideRight)
    } else if flag == TOP_CENTRE {
        Some(ChannelPosition::TopCenter)
    } else if flag == TOP_FRONT_LEFT {
        Some(ChannelPosition::TopFrontLeft)
    } else if flag == TOP_FRONT_CENTRE {
        Some(ChannelPosition::TopFrontCenter)
    } else if flag == TOP_FRONT_RIGHT {
        Some(ChannelPosition::TopFrontRight)
    } else if flag == TOP_REAR_LEFT {
        Some(ChannelPosition::TopRearLeft)
    } else if flag == TOP_REAR_CENTRE {
        Some(ChannelPosition::TopRearCenter)
    } else if flag == TOP_REAR_RIGHT {
        Some(ChannelPosition::TopRearRight)
    } else {
        None
    }
}

/// Whether bit `i` of `mask` is set.
pub open spec fn has_bit(mask: u32, i: u32) -> bool {
    (mask >> i) & 1u32 == 1u32
}

/// The flags of the bits of `mask` from bit `i` up, lowest first.
pub open spec fn flags_from(mask: u32, i: nat) -> Seq<u32>
    decreases 32 - i,
{
    if i >= 32 {
        seq![]
    } else {
        let rest = flags_from(mask, i + 1);
        if has_bit(mask, i as u32) {
            seq![1u32 << (i as u32)] + rest
        } else {
            rest
        }
    }
}

/// The single-bit flags of a channel mask, lowest first.
pub open spec fn channel_flags(mask: u32) -> Seq<u32> {
    flags_from(mask, 0)
}

/// Splits a channel mask into its single-bit flags, lowest first.
pub fn split_channels(mask: u32) -> (r: Vec<u32>)
    ensures
        r@ == channel_flags(mask),
{
    let mut flags: Vec<u32> = Vec::new();
    let mut i: u32 = 0;
    while i < 32
        invariant
            i <= 32,
            flags@ + flags_from(mask, i as nat) == channel_flags(mask),
        decreases 32 - i,
    {
        if (mask >> i) & 1u32 == 1u32 {
            let flag: u32 = 1u32 << i;
            assert(flags@.push(flag) + flags_from(mask, (i + 1) as nat) =~= flags@ + (seq![flag]
                + flags_from(mask, (i + 1) as nat)));
            flags.push(flag);
        }
        i += 1;
    }
    assert(flags@ + flags_from(mask, 32) =~= flags@);
    flags
}

/// Maps every channel of `mask` to its position, in the order of the flags;
/// with one channel, front left is mono. The first flag with no position
/// fails the map, with that flag.
pub fn map_channels(mask: u32) -> (r: Result<Vec<ChannelPosition>, u32>)
    ensures
        ({
            let flags = channel_flags(mask);
            let mono = flags.len() == 1;
            match r {
                Ok(v) => {
                    &&& v@.len() == flags.len()
                    &&& forall|k: int|
                        0 <= k < flags.len() ==> position_of(#[trigger] flags[k], mono) == Some(
                            v@[k],
                        )
                },
                Err(f) => exists|k: int|
                    0 <= k < flags.len() && flags[k] == f && position_of(f, mono) is None && (
                    forall|j: int| 0 <= j < k ==> position_of(#[trigger] flags[j], mono) is Some),
            }
        }),
{
    let flags = split_channels(mask);
    let mono = flags.len() == 1;
    let mut positions: Vec<ChannelPosition> = Vec::new();
    let mut k: usize = 0;
    while k < flags.len()
        invariant
            flags@ == channel_flags(mask),
            mono == (flags@.len() == 1),
            k <= flags@.len(),
            positions@.len() == k,
            forall|j: int| 0 <= j < k ==> position_of(#[trigger] flags@[j], mono) == Some(positions@[j]),
        decreases flags@.len() - k,
    {
        match channel_position(flags[k], mono) {
            Some(p) => positions.push(p),
            None => {
                assert(forall|j: int| 0 <= j < k ==> position_of(#[trigger] flags@[j], mono) is Some);
                return Err(flags[k]);
            },
        }
        k += 1;
    }
    Ok(positions)
}

} // verus!
