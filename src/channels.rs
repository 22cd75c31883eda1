//! Mapping of an abstract channel layout onto the positions that the
//! output device understands.
//!
//! A layout is a bit set: bit `i` stands for one speaker position, in the
//! order of the decoder's channel flags (front left is bit 0, front right
//! bit 1, and so on). The channels of a buffer come in the order of their
//! bits, lowest first.
use vstd::prelude::*;
use vstd::arithmetic::power2::{pow2, lemma_pow2_unfold, lemma2_to64};

verus! {

pub const FRONT_LEFT: u32 = 0x0000_0001;
pub const FRONT_RIGHT: u32 = 0x0000_0002;
pub const FRONT_CENTRE: u32 = 0x0000_0004;
pub const LFE1: u32 = 0x0000_0008;
pub const REAR_LEFT: u32 = 0x0000_0010;
pub const REAR_RIGHT: u32 = 0x0000_0020;
pub const FRONT_LEFT_CENTRE: u32 = 0x0000_0040;
pub const FRONT_RIGHT_CENTRE: u32 = 0x0000_0080;
pub const REAR_CENTRE: u32 = 0x0000_0100;
pub const SIDE_LEFT: u32 = 0x0000_0200;
pub const SIDE_RIGHT: u32 = 0x0000_0400;
pub const TOP_CENTRE: u32 = 0x0000_0800;
pub const TOP_FRONT_LEFT: u32 = 0x0000_1000;
pub const TOP_FRONT_CENTRE: u32 = 0x0000_2000;
pub const TOP_FRONT_RIGHT: u32 = 0x0000_4000;
pub const TOP_REAR_LEFT: u32 = 0x0000_8000;
pub const TOP_REAR_CENTRE: u32 = 0x0001_0000;
pub const TOP_REAR_RIGHT: u32 = 0x0002_0000;
pub const REAR_LEFT_CENTRE: u32 = 0x0004_0000;
pub const REAR_RIGHT_CENTRE: u32 = 0x0008_0000;
pub const FRONT_LEFT_WIDE: u32 = 0x0010_0000;
pub const FRONT_RIGHT_WIDE: u32 = 0x0020_0000;
pub const FRONT_LEFT_HIGH: u32 = 0x0040_0000;
pub const FRONT_CENTRE_HIGH: u32 = 0x0080_0000;
pub const FRONT_RIGHT_HIGH: u32 = 0x0100_0000;
pub const LFE2: u32 = 0x0200_0000;

/// A speaker position as the output device names it.
#[derive(Debug, Clone, Copy, PartialEq, Eq, Structural)]
pub enum ChannelPosition {
    Mono,
    FrontLeft,
    FrontRight,
    FrontCenter,
    RearLeft,
    RearCenter,
    RearRight,
    Lfe,
    FrontLeftOfCenter,
    FrontRightOfCenter,
    SideLeft,
    SideRight,
    TopCenter,
    TopFrontLeft,
    TopFrontCenter,
    TopFrontRight,
    TopRearLeft,
    TopRearCenter,
    TopRearRight,
}

/// The device position of the channel at bit `bit`, if the device has one.
pub open spec fn position_of_bit(bit: nat) -> Option<ChannelPosition> {
    if bit == 0 {
        Some(ChannelPosition::FrontLeft)
    } else if bit == 1 {
        Some(ChannelPosition::FrontRight)
    } else if bit == 2 {
        Some(ChannelPosition::FrontCenter)
    } else if bit == 3 {
        Some(ChannelPosition::Lfe)
    } else if bit == 4 {
        Some(ChannelPosition::RearLeft)
    } else if bit == 5 {
        Some(ChannelPosition::RearRight)
    } else if bit == 6 {
        Some(ChannelPosition::FrontLeftOfCenter)
    } else if bit == 7 {
        Some(ChannelPosition::FrontRightOfCenter)
    } else if bit == 8 {
        Some(ChannelPosition::RearCenter)
    } else if bit == 9 {
        Some(ChannelPosition::SideLeft)
    } else if bit == 10 {
        Some(ChannelPosition::SideRight)
    } else if bit == 11 {
        Some(ChannelPosition::TopCenter)
    } else if bit == 12 {
        Some(ChannelPosition::TopFrontLeft)
    } else if bit == 13 {
        Some(ChannelPosition::TopFrontCenter)
    } else if bit == 14 {
        Some(ChannelPosition::TopFrontRight)
    } else if bit == 15 {
        Some(ChannelPosition::TopRearLeft)
    } else if bit == 16 {
        Some(ChannelPosition::TopRearCenter)
    } else if bit == 17 {
        Some(ChannelPosition::TopRearRight)
    } else {
        None
    }
}

/// The indices of the set bits of `rest`, lowest first, counted from `first`.
pub open spec fn set_bits_from(rest: nat, first: nat) -> Seq<nat>
    decreases rest,
{
    if rest == 0 {
        Seq::empty()
    } else if rest % 2 == 1 {
        seq![first].add(set_bits_from(rest / 2, first + 1))
    } else {
        set_bits_from(rest / 2, first + 1)
    }
}

/// The channels of a layout, as bit indices in the order a buffer holds them.
pub open spec fn channel_bits(layout: u32) -> Seq<nat> {
    set_bits_from(layout as nat, 0)
}

/// Whether every channel of the layout has a device position.
pub open spec fn all_mappable(bits: Seq<nat>) -> bool {
    forall|k: int| 0 <= k < bits.len() ==> (#[trigger] position_of_bit(bits[k])).is_some()
}

/// The device's channel map for a layout: absent when any channel has no
/// device position; otherwise a layout of one channel is the device's mono
/// position, and each channel of a larger one maps to its own position.
pub open spec fn device_map(layout: u32) -> Option<Seq<ChannelPosition>> {
    let bits = channel_bits(layout);
    if !all_mappable(bits) {
        None
    } else if bits.len() == 1 {
        Some(seq![ChannelPosition::Mono])
    } else {
        Some(bits.map_values(|b: nat| position_of_bit(b).unwrap()))
    }
}

/// The device position of the channel at bit `bit`, if it has one.
pub fn position_for_bit(bit: u32) -> (r: Option<ChannelPosition>)
    ensures
        r == position_of_bit(bit as nat),
{
    match bit {
        0 => Some(ChannelPosition::FrontLeft),
        1 => Some(ChannelPosition::FrontRight),
        2 => Some(ChannelPosition::FrontCenter),
        3 => Some(ChannelPosition::Lfe),
        4 => Some(ChannelPosition::RearLeft),
        5 => Some(ChannelPosition::RearRight),
        6 => Some(ChannelPosition::FrontLeftOfCenter),
        7 => Some(ChannelPosition::FrontRightOfCenter),
        8 => Some(ChannelPosition::RearCenter),
        9 => Some(ChannelPosition::SideLeft),
        10 => Some(ChannelPosition::SideRight),
        11 => Some(ChannelPosition::TopCenter),
        12 => Some(ChannelPosition::TopFrontLeft),
        13 => Some(ChannelPosition::TopFrontCenter),
        14 => Some(ChannelPosition::TopFrontRight),
        15 => Some(ChannelPosition::TopRearLeft),
        16 => Some(ChannelPosition::TopRearCenter),
        17 => Some(ChannelPosition::TopRearRight),
        _ => None,
    }
}

/// The channels of a layout, as bit indices, lowest first.
pub fn layout_bits(layout: u32) -> (r: Vec<u32>)
    ensures
        r@.map_values(|b: u32| b as nat) == channel_bits(layout),
        r@.len() <= 32,
{
    let mut bits: Vec<u32> = Vec::new();
    let mut rest: u32 = layout;
    let mut bit: u32 = 0;
    proof {
        lemma2_to64();
    }
    while rest != 0
        invariant
            bit <= 32,
            (rest as nat) < pow2((32 - bit) as nat),
            channel_bits(layout) == bits@.map_values(|b: u32| b as nat) + set_bits_from(
                rest as nat,
                bit as nat,
            ),
            bits@.len() <= bit,
        decreases rest,
    {
        proof {
            lemma2_to64();
            assert(bit < 32);
            lemma_pow2_unfold((32 - bit) as nat);
        }
        let ghost before = bits@.map_values(|b: u32| b as nat);
        if rest % 2 == 1 {
            bits.push(bit);
            proof {
                assert(bits@.map_values(|b: u32| b as nat) =~= before.push(bit as nat));
                assert(seq![bit as nat].add(set_bits_from((rest / 2) as nat, (bit + 1) as nat))
                    =~= set_bits_from(rest as nat, bit as nat));
                assert(before + set_bits_from(rest as nat, bit as nat) =~= bits@.map_values(
                    |b: u32| b as nat,
                ) + set_bits_from((rest / 2) as nat, (bit + 1) as nat));
            }
        }
        rest = rest / 2;
        bit = bit + 1;
    }
    proof {
        assert(set_bits_from(0, bit as nat) =~= Seq::<nat>::empty());
        assert(channel_bits(layout) =~= bits@.map_values(|b: u32| b as nat));
    }
    bits
}

/// Maps a channel layout to the device's channel map, or `None` when some
/// channel of it has no device position.
pub fn map_channels(layout: u32) -> (r: Option<Vec<ChannelPosition>>)
    ensures
        match r {
            Some(v) => device_map(layout) == Some(v@) && v@.len() <= 32,
            None => device_map(layout).is_none(),
        },
{
    let bits = layout_bits(layout);
    let ghost all = channel_bits(layout);
    let mut map: Vec<ChannelPosition> = Vec::new();
    let mut k: usize = 0;
    while k < bits.len()
        invariant
            k <= bits@.len(),
            bits@.len() <= 32,
            all == channel_bits(layout),
            all == bits@.map_values(|b: u32| b as nat),
            all_mappable(all.take(k as int)),
            map@ == all.take(k as int).map_values(|b: nat| position_of_bit(b).unwrap()),
        decreases bits@.len() - k,
    {
        assert(all[k as int] == bits@[k as int] as nat);
        match position_for_bit(bits[k]) {
            Some(p) => {
                map.push(p);
                proof {
                    assert(all.take(k + 1) =~= all.take(k as int).push(all[k as int]));
                    assert(all.take(k + 1).map_values(|b: nat| position_of_bit(b).unwrap())
                        =~= all.take(k as int).map_values(|b: nat| position_of_bit(b).unwrap()).push(p));
                }
            },
            None => {
                proof {
                    assert(position_of_bit(all[k as int]).is_none());
                    assert(all.len() == bits@.len());
                    assert(!all_mappable(all));
                }
                return None;
            },
        }
        k = k + 1;
    }
    proof {
        assert(all.take(k as int) =~= all);
    }
    if bits.len() == 1 {
        return Some(vec![ChannelPosition::Mono]);
    }
    Some(map)
}

/// A layout of a single channel that the device can represent plays on the
/// device's mono position, and on no other: in particular never on front
/// left alone. A lone channel that the device cannot represent is refused.
pub proof fn lemma_single_channel_is_mono(layout: u32)
    requires
        channel_bits(layout).len() == 1,
        position_of_bit(channel_bits(layout)[0]).is_some(),
    ensures
        device_map(layout) == Some(seq![ChannelPosition::Mono]),
{
}

} // verus!
