//! The channel masks of the source and of the output.

use crate::options::ChannelLayout;
use vstd::prelude::*;
use wave_stream::wave_header::Channels;

verus! {

/// A set of speaker positions, as the wav header records it.
#[verifier::external_type_specification]
#[verifier::external_body]
pub struct ExChannels(Channels);

/// The place of each speaker position among the flags of a mask.
pub const FRONT_LEFT: u8 = 0;

pub const FRONT_RIGHT: u8 = 1;

pub const FRONT_CENTER: u8 = 2;

pub const LOW_FREQUENCY: u8 = 3;

pub const BACK_LEFT: u8 = 4;

pub const BACK_RIGHT: u8 = 5;

/// The positions that `channels` holds, each by its place among the
/// mask's flags.
pub uninterp spec fn positions(channels: Channels) -> Set<u8>;

/// `Channels::new` gives a mask in which every flag is off.
pub assume_specification[ Channels::new ]() -> (channels: Channels)
    ensures
        positions(channels) == Set::<u8>::empty(),
;

/// `Channels::front_left` turns the first flag on and leaves the others.
pub assume_specification[ Channels::front_left ](channels: Channels) -> (with: Channels)
    ensures
        positions(with) == positions(channels).insert(FRONT_LEFT),
;

/// `Channels::front_right` turns the second flag on and leaves the others.
pub assume_specification[ Channels::front_right ](channels: Channels) -> (with: Channels)
    ensures
        positions(with) == positions(channels).insert(FRONT_RIGHT),
;

/// `Channels::front_center` turns the third flag on and leaves the others.
pub assume_specification[ Channels::front_center ](channels: Channels) -> (with: Channels)
    ensures
        positions(with) == positions(channels).insert(FRONT_CENTER),
;

/// `Channels::low_frequency` turns the fourth flag on and leaves the
/// others.
pub assume_specification[ Channels::low_frequency ](channels: Channels) -> (with: Channels)
    ensures
        positions(with) == positions(channels).insert(LOW_FREQUENCY),
;

/// `Channels::back_left` turns the fifth flag on and leaves the others.
pub assume_specification[ Channels::back_left ](channels: Channels) -> (with: Channels)
    ensures
        positions(with) == positions(channels).insert(BACK_LEFT),
;

/// `Channels::back_right` turns the sixth flag on and leaves the others.
pub assume_specification[ Channels::back_right ](channels: Channels) -> (with: Channels)
    ensures
        positions(with) == positions(channels).insert(BACK_RIGHT),
;

/// The `==` of `Channels`, which compares the masks flag by flag.
#[verifier::external_body]
fn same_channels(left: &Channels, right: &Channels) -> (same: bool)
    ensures
        same == (positions(*left) == positions(*right)),
{
    left == right
}

/// The positions of a stereo source: front left and front right.
pub open spec fn stereo_positions() -> Set<u8> {
    set![FRONT_LEFT, FRONT_RIGHT]
}

/// The positions of the output in `layout`.
pub open spec fn layout_positions(layout: ChannelLayout) -> Set<u8> {
    match layout {
        ChannelLayout::Four => set![FRONT_LEFT, FRONT_RIGHT, BACK_LEFT, BACK_RIGHT],
        ChannelLayout::Five => set![FRONT_LEFT, FRONT_RIGHT, FRONT_CENTER, BACK_LEFT, BACK_RIGHT],
        ChannelLayout::FiveOne => set![
            FRONT_LEFT,
            FRONT_RIGHT,
            FRONT_CENTER,
            LOW_FREQUENCY,
            BACK_LEFT,
            BACK_RIGHT,
        ],
    }
}

/// The mask of a source that can be upmixed.
pub fn stereo_channels() -> (channels: Channels)
    ensures
        positions(channels) == stereo_positions(),
{
    let channels = Channels::new().front_left().front_right();
    assert(positions(channels) =~= stereo_positions());
    channels
}

/// Whether a source with the mask `channels` can be upmixed: it has to
/// hold front left and front right, and nothing else.
pub fn is_stereo(channels: &Channels) -> (stereo: bool)
    ensures
        stereo == (positions(*channels) == stereo_positions()),
{
    let expected_channels = stereo_channels();
    same_channels(channels, &expected_channels)
}

/// The mask of the output in `layout`.
pub fn output_channels(layout: ChannelLayout) -> (channels: Channels)
    ensures
        positions(channels) == layout_positions(layout),
{
    let channels = match layout {
        ChannelLayout::Four => Channels::new().front_left().front_right().back_left().back_right(),
        ChannelLayout::Five => Channels::new().front_left().front_right().front_center().back_left().back_right(),
        ChannelLayout::FiveOne => Channels::new().front_left().front_right().front_center().low_frequency().back_left().back_right(),
    };
    assert(positions(channels) =~= layout_positions(layout));
    channels
}

} // verus!
