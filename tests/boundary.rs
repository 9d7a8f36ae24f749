use twitch_tools::channels::{
    channel_position, map_channels, split_channels, ChannelPosition, FRONT_CENTRE, FRONT_LEFT,
    FRONT_RIGHT, LFE1, REAR_LEFT, REAR_RIGHT, TOP_REAR_RIGHT,
};
use twitch_tools::decode::{
    check_start, check_tracks, BlockCheck, BlockSpec, DecodeError, SampleFormat, STEREO_MASK,
};

fn block(format: SampleFormat, channels: u32, rate: u32, frames: usize) -> BlockSpec {
    BlockSpec { format, channels, rate, frames }
}

#[test]
fn exactly_one_track() {
    assert_eq!(check_tracks(0), Err(DecodeError::NoTrack));
    assert_eq!(check_tracks(1), Ok(()));
    assert_eq!(check_tracks(3), Err(DecodeError::MultipleTracks(3)));
}

#[test]
fn track_starts_at_zero() {
    assert_eq!(check_start(0), Ok(()));
    assert_eq!(check_start(1152), Err(DecodeError::NotAtStart(1152)));
}

#[test]
fn stereo_float_blocks_are_appended() {
    let mut check = BlockCheck::new();
    assert_eq!(check.accept(block(SampleFormat::F32, STEREO_MASK, 44_100, 1152)), Ok(true));
    assert_eq!(check.accept(block(SampleFormat::F32, STEREO_MASK, 44_100, 576)), Ok(true));
    assert_eq!(check.frames, 1728);
    assert_eq!(check.finish(None), Ok(44_100));
    assert_eq!(check.finish(Some(48_000)), Ok(44_100));
}

#[test]
fn empty_blocks_add_nothing() {
    let mut check = BlockCheck::new();
    assert_eq!(check.accept(block(SampleFormat::S16, 0x1, 48_000, 0)), Ok(false));
    assert_eq!(check.frames, 0);
    assert_eq!(check.finish(None), Ok(48_000));
}

#[test]
fn other_sample_formats_are_refused() {
    let mut check = BlockCheck::new();
    assert_eq!(
        check.accept(block(SampleFormat::S16, STEREO_MASK, 48_000, 10)),
        Err(DecodeError::UnsupportedSampleFormat(SampleFormat::S16))
    );
    let mut check = BlockCheck::new();
    assert_eq!(
        check.accept(block(SampleFormat::F64, STEREO_MASK, 48_000, 10)),
        Err(DecodeError::UnsupportedSampleFormat(SampleFormat::F64))
    );
}

#[test]
fn other_channel_layouts_are_refused() {
    let mut check = BlockCheck::new();
    assert_eq!(
        check.accept(block(SampleFormat::F32, FRONT_LEFT, 48_000, 10)),
        Err(DecodeError::UnsupportedChannelLayout(FRONT_LEFT))
    );
    let mut check = BlockCheck::new();
    let surround = FRONT_LEFT | FRONT_RIGHT | FRONT_CENTRE;
    assert_eq!(
        check.accept(block(SampleFormat::F32, surround, 48_000, 10)),
        Err(DecodeError::UnsupportedChannelLayout(surround))
    );
}

#[test]
fn sample_rate_must_stay_the_same() {
    let mut check = BlockCheck::new();
    assert_eq!(check.accept(block(SampleFormat::F32, STEREO_MASK, 48_000, 10)), Ok(true));
    assert_eq!(
        check.accept(block(SampleFormat::F32, STEREO_MASK, 44_100, 10)),
        Err(DecodeError::SampleRateChanged { expected: 48_000, found: 44_100 })
    );
}

#[test]
fn no_block_gives_an_empty_sound_at_the_declared_rate() {
    let check = BlockCheck::new();
    assert_eq!(check.frames, 0);
    assert_eq!(check.finish(Some(44_100)), Ok(44_100));
}

#[test]
fn no_block_and_no_declared_rate_means_no_spec() {
    assert_eq!(BlockCheck::new().finish(None), Err(DecodeError::NoSpec));
}

#[test]
fn channel_mask_splits_lowest_first() {
    assert_eq!(split_channels(0), Vec::<u32>::new());
    assert_eq!(split_channels(FRONT_LEFT | FRONT_RIGHT), vec![FRONT_LEFT, FRONT_RIGHT]);
    assert_eq!(
        split_channels(REAR_RIGHT | LFE1 | FRONT_LEFT),
        vec![FRONT_LEFT, LFE1, REAR_RIGHT]
    );
    assert_eq!(split_channels(0x8000_0000), vec![0x8000_0000]);
}

#[test]
fn stereo_maps_to_front_left_and_right() {
    assert_eq!(
        map_channels(FRONT_LEFT | FRONT_RIGHT),
        Ok(vec![ChannelPosition::FrontLeft, ChannelPosition::FrontRight])
    );
}

#[test]
fn lone_front_left_is_mono() {
    assert_eq!(map_channels(FRONT_LEFT), Ok(vec![ChannelPosition::Mono]));
    assert_eq!(channel_position(FRONT_LEFT, false), Some(ChannelPosition::FrontLeft));
}

#[test]
fn surround_positions() {
    assert_eq!(
        map_channels(FRONT_LEFT | FRONT_RIGHT | FRONT_CENTRE | LFE1 | REAR_LEFT | REAR_RIGHT),
        Ok(vec![
            ChannelPosition::FrontLeft,
            ChannelPosition::FrontRight,
            ChannelPosition::FrontCenter,
            ChannelPosition::Lfe,
            ChannelPosition::RearLeft,
            ChannelPosition::RearRight,
        ])
    );
    assert_eq!(channel_position(TOP_REAR_RIGHT, false), Some(ChannelPosition::TopRearRight));
}

#[test]
fn unknown_channel_fails_the_map() {
    // rear left centre has no position on the server
    assert_eq!(map_channels(FRONT_LEFT | 0x0004_0000), Err(0x0004_0000));
    assert_eq!(map_channels(0x0010_0000 | 0x0020_0000), Err(0x0010_0000));
}
