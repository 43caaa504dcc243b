//! What the channels of a song add up to, frame by frame.

use crate::engine::channel::ChannelState;
use crate::engine::channel::FULL_SCALE;
use crate::song::PCMData;
use crate::song::Song;
use vstd::prelude::*;

verus! {

/// The eight-bit sample data of instrument `index` of `song`, counted from
/// 0; nothing where the song has no such instrument or its data are not
/// eight-bit.
pub open spec fn sample_bytes(song: Song, index: int) -> Option<Seq<u8>> {
    if 0 <= index < song.samples@.len() {
        match song.samples@[index] {
            PCMData::U8(bytes) => Some(bytes@),
            PCMData::U16(_) => None,
        }
    } else {
        None
    }
}

/// What `channel` adds to the left lane of a frame; nothing where its
/// instrument has no data.
pub open spec fn left_share(channel: ChannelState, song: Song) -> int {
    match sample_bytes(song, channel.sample_index as int) {
        Some(data) => channel.left_share(data),
        None => 0,
    }
}

/// What `channel` adds to the right lane of a frame.
pub open spec fn right_share(channel: ChannelState, song: Song) -> int {
    match sample_bytes(song, channel.sample_index as int) {
        Some(data) => channel.right_share(data),
        None => 0,
    }
}

/// `channel` after a frame has been taken from it. A channel whose
/// instrument has no data stands still.
pub open spec fn after_frame(channel: ChannelState, song: Song) -> ChannelState {
    match sample_bytes(song, channel.sample_index as int) {
        Some(_) => channel.advanced(),
        None => channel,
    }
}

/// What all of `channels` add to the left lane of a frame.
pub open spec fn mixed_left(channels: Seq<ChannelState>, song: Song) -> int
    decreases channels.len(),
{
    if channels.len() == 0 {
        0
    } else {
        mixed_left(channels.drop_last(), song) + left_share(channels.last(), song)
    }
}

/// What all of `channels` add to the right lane of a frame.
pub open spec fn mixed_right(channels: Seq<ChannelState>, song: Song) -> int
    decreases channels.len(),
{
    if channels.len() == 0 {
        0
    } else {
        mixed_right(channels.drop_last(), song) + right_share(channels.last(), song)
    }
}

/// `level` held to full scale.
pub open spec fn clamped(level: int) -> i32 {
    if level > FULL_SCALE {
        FULL_SCALE
    } else if level < -FULL_SCALE {
        (-FULL_SCALE) as i32
    } else {
        level as i32
    }
}

/// The lanes of the frame that `channels` sound: the left mix, the right
/// mix, and silence on every lane behind them.
pub open spec fn frame_lanes(channels: Seq<ChannelState>, song: Song, lanes: int) -> Seq<i32> {
    Seq::new(
        lanes as nat,
        |lane: int|
            if lane == 0 {
                clamped(mixed_left(channels, song))
            } else if lane == 1 {
                clamped(mixed_right(channels, song))
            } else {
                0i32
            },
    )
}

/// `channels` after one frame has been taken from each.
pub open spec fn channels_after_frame(channels: Seq<ChannelState>, song: Song) -> Seq<
    ChannelState,
> {
    Seq::new(channels.len(), |i: int| after_frame(channels[i], song))
}

/// `channels` after `frames` frames have been taken from each.
pub open spec fn channels_after_frames(
    channels: Seq<ChannelState>,
    song: Song,
    frames: nat,
) -> Seq<ChannelState>
    decreases frames,
{
    if frames == 0 {
        channels
    } else {
        channels_after_frame(channels_after_frames(channels, song, (frames - 1) as nat), song)
    }
}

/// The lanes of the first `frames` frames that `channels` sound, frame
/// after frame.
pub open spec fn rendered_lanes(
    channels: Seq<ChannelState>,
    song: Song,
    lanes: int,
    frames: nat,
) -> Seq<i32>
    decreases frames,
{
    if frames == 0 {
        Seq::empty()
    } else {
        rendered_lanes(channels, song, lanes, (frames - 1) as nat) + frame_lanes(
            channels_after_frames(channels, song, (frames - 1) as nat),
            song,
            lanes,
        )
    }
}

/// Frames of `lanes` lanes each take up `frames * lanes` places.
pub proof fn lemma_rendered_lanes_len(
    channels: Seq<ChannelState>,
    song: Song,
    lanes: int,
    frames: nat,
)
    requires
        lanes >= 0,
    ensures
        rendered_lanes(channels, song, lanes, frames).len() == frames * lanes,
    decreases frames,
{
    if frames > 0 {
        lemma_rendered_lanes_len(channels, song, lanes, (frames - 1) as nat);
        assert(frames * lanes == (frames - 1) * lanes + lanes) by (nonlinear_arith);
    } else {
        assert(frames * lanes == 0) by (nonlinear_arith)
            requires
                frames == 0,
        ;
    }
}

} // verus!
