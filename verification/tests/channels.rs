use soft_matrix::channels::{is_stereo, output_channels, stereo_channels};
use soft_matrix::matrix::{matrix_profile, steers_right_left, MatrixProfile, SQMatrix};
use soft_matrix::options::{ChannelLayout, MatrixFormat};
use wave_stream::wave_header::Channels;

#[test]
fn stereo_is_front_left_and_front_right() {
    let channels = stereo_channels();
    assert_eq!(Channels::new().front_left().front_right(), channels);
    assert_eq!(2, channels.count());
    assert!(channels.front_left && channels.front_right);
}

#[test]
fn only_a_stereo_mask_is_stereo() {
    assert!(is_stereo(&Channels::new().front_right().front_left()));
    assert!(!is_stereo(&Channels::new()));
    assert!(!is_stereo(&Channels::new().front_left()));
    assert!(!is_stereo(&Channels::new().front_left().front_center()));
    assert!(!is_stereo(&Channels::new().front_left().front_right().back_center()));
    assert!(!is_stereo(&Channels::new().back_left().back_right()));
}

#[test]
fn four_channels_are_the_corners() {
    assert_eq!(
        Channels::new().front_left().front_right().back_left().back_right(),
        output_channels(ChannelLayout::Four)
    );
    assert_eq!(0x33, output_channels(ChannelLayout::Four).channel_mask());
}

#[test]
fn five_channels_add_the_centre() {
    assert_eq!(
        Channels::new().front_left().front_right().front_center().back_left().back_right(),
        output_channels(ChannelLayout::Five)
    );
    assert_eq!(0x37, output_channels(ChannelLayout::Five).channel_mask());
}

#[test]
fn five_one_adds_the_low_frequency_channel() {
    assert_eq!(
        Channels::new()
            .front_left()
            .front_right()
            .front_center()
            .low_frequency()
            .back_left()
            .back_right(),
        output_channels(ChannelLayout::FiveOne)
    );
    assert_eq!(0x3F, output_channels(ChannelLayout::FiveOne).channel_mask());
    assert_eq!(6, output_channels(ChannelLayout::FiveOne).count());
}

#[test]
fn only_sq_steers_right_left() {
    assert!(SQMatrix::sq().steer_right_left());
    assert_eq!(SQMatrix {}, SQMatrix::sq());
    assert!(steers_right_left(MatrixFormat::SQ));
    assert!(!steers_right_left(MatrixFormat::Default));
    assert!(!steers_right_left(MatrixFormat::QS));
    assert!(!steers_right_left(MatrixFormat::HorseShoe));
    assert!(!steers_right_left(MatrixFormat::Dolby));
    assert!(!steers_right_left(MatrixFormat::RM));
}

#[test]
fn each_format_has_its_profile() {
    assert_eq!(MatrixProfile::Default, matrix_profile(MatrixFormat::Default));
    assert_eq!(MatrixProfile::QS, matrix_profile(MatrixFormat::QS));
    assert_eq!(MatrixProfile::QS, matrix_profile(MatrixFormat::RM));
    assert_eq!(MatrixProfile::HorseShoe, matrix_profile(MatrixFormat::HorseShoe));
    assert_eq!(MatrixProfile::DolbySafe, matrix_profile(MatrixFormat::Dolby));
    assert_eq!(MatrixProfile::SQ, matrix_profile(MatrixFormat::SQ));
}
