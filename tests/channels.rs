use mplay::channels::{
    layout_bits, map_channels, position_for_bit, ChannelPosition, FRONT_CENTRE, FRONT_LEFT, FRONT_LEFT_WIDE,
    FRONT_RIGHT, LFE1, LFE2, REAR_LEFT, REAR_RIGHT, SIDE_LEFT, SIDE_RIGHT, TOP_REAR_RIGHT,
};
use mplay::error::AudioOutputError;
use mplay::output::stream_config;

#[test]
fn stereo_maps_to_left_and_right() {
    let map = map_channels(FRONT_LEFT | FRONT_RIGHT).unwrap();
    assert_eq!(map, vec![ChannelPosition::FrontLeft, ChannelPosition::FrontRight]);
}

#[test]
fn lone_front_left_maps_to_mono() {
    let map = map_channels(FRONT_LEFT).unwrap();
    assert_eq!(map, vec![ChannelPosition::Mono]);
    assert_ne!(map, vec![ChannelPosition::FrontLeft]);
}

#[test]
fn single_mappable_channel_maps_to_mono() {
    assert_eq!(map_channels(FRONT_CENTRE), Some(vec![ChannelPosition::Mono]));
    assert_eq!(map_channels(TOP_REAR_RIGHT), Some(vec![ChannelPosition::Mono]));
}

#[test]
fn single_unmappable_channel_fails() {
    assert_eq!(map_channels(LFE2), None);
    assert_eq!(map_channels(FRONT_LEFT_WIDE), None);
}

#[test]
fn layout_bits_lowest_first() {
    assert_eq!(layout_bits(0), Vec::<u32>::new());
    assert_eq!(layout_bits(FRONT_LEFT | FRONT_RIGHT), vec![0, 1]);
    assert_eq!(layout_bits(LFE2 | SIDE_LEFT | FRONT_CENTRE), vec![2, 9, 25]);
    assert_eq!(layout_bits(u32::MAX).len(), 32);
}

#[test]
fn surround_layout_in_bit_order() {
    let layout = SIDE_RIGHT | FRONT_LEFT | LFE1 | FRONT_RIGHT | FRONT_CENTRE | SIDE_LEFT;
    let map = map_channels(layout).unwrap();
    assert_eq!(
        map,
        vec![
            ChannelPosition::FrontLeft,
            ChannelPosition::FrontRight,
            ChannelPosition::FrontCenter,
            ChannelPosition::Lfe,
            ChannelPosition::SideLeft,
            ChannelPosition::SideRight,
        ]
    );
}

#[test]
fn rear_and_top_positions() {
    let map = map_channels(REAR_LEFT | REAR_RIGHT | TOP_REAR_RIGHT).unwrap();
    assert_eq!(
        map,
        vec![ChannelPosition::RearLeft, ChannelPosition::RearRight, ChannelPosition::TopRearRight]
    );
}

#[test]
fn unmappable_channel_fails_whole_map() {
    assert_eq!(map_channels(FRONT_LEFT | FRONT_RIGHT | FRONT_LEFT_WIDE), None);
    assert_eq!(map_channels(LFE2 | FRONT_CENTRE), None);
    assert_eq!(map_channels(u32::MAX), None);
}

#[test]
fn empty_layout_maps_to_empty() {
    assert_eq!(map_channels(0), Some(vec![]));
}

#[test]
fn bit_positions() {
    assert_eq!(position_for_bit(0), Some(ChannelPosition::FrontLeft));
    assert_eq!(position_for_bit(8), Some(ChannelPosition::RearCenter));
    assert_eq!(position_for_bit(17), Some(ChannelPosition::TopRearRight));
    assert_eq!(position_for_bit(18), None);
    assert_eq!(position_for_bit(31), None);
}

#[test]
fn stream_config_for_stereo() {
    let config = stream_config(44_100, FRONT_LEFT | FRONT_RIGHT).unwrap();
    assert_eq!(config.rate, 44_100);
    assert_eq!(config.channels, 2);
    assert_eq!(config.positions, vec![ChannelPosition::FrontLeft, ChannelPosition::FrontRight]);
}

#[test]
fn stream_config_for_mono() {
    let config = stream_config(48_000, FRONT_LEFT).unwrap();
    assert_eq!(config.channels, 1);
    assert_eq!(config.positions, vec![ChannelPosition::Mono]);
}

#[test]
fn stream_config_refuses_rates_out_of_range() {
    assert_eq!(stream_config(0, FRONT_LEFT).unwrap_err(), AudioOutputError::OpenStreamError);
    assert_eq!(
        stream_config(768_001, FRONT_LEFT | FRONT_RIGHT).unwrap_err(),
        AudioOutputError::OpenStreamError
    );
    assert_eq!(stream_config(768_000, FRONT_LEFT | FRONT_RIGHT).unwrap().rate, 768_000);
}

#[test]
fn stream_config_refuses_empty_layout() {
    assert_eq!(stream_config(44_100, 0).unwrap_err(), AudioOutputError::OpenStreamError);
}

#[test]
fn stream_config_refuses_unmappable_layout() {
    assert_eq!(
        stream_config(48_000, FRONT_LEFT | LFE2).unwrap_err(),
        AudioOutputError::OpenStreamError
    );
}
