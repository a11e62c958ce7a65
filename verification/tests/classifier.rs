use opus_source::toc::{classify, expected_samples, frame_duration, toc_fields, FrameDuration};

#[test]
fn control_byte_splits_into_config_and_stereo_flag() {
    assert_eq!(toc_fields(0b0110_1100), (13, true));
    assert_eq!(toc_fields(0b0110_1000), (13, false));
    assert_eq!(toc_fields(0b1111_1011), (31, false));
    assert_eq!(toc_fields(0b0000_0100), (0, true));
    assert_eq!(toc_fields(0b1000_0011), (16, false));
}

#[test]
fn every_control_byte_gives_its_high_bits() {
    for toc in 0u8..=255 {
        let (config, stereo) = toc_fields(toc);
        assert_eq!(config, toc >> 3);
        assert_eq!(stereo, (toc >> 2) & 1 == 1);
    }
}

#[test]
fn durations_follow_the_configuration_groups() {
    let expected = [
        FrameDuration::Ms10, FrameDuration::Ms20, FrameDuration::Ms40, FrameDuration::Ms60,
        FrameDuration::Ms10, FrameDuration::Ms20, FrameDuration::Ms40, FrameDuration::Ms60,
        FrameDuration::Ms10, FrameDuration::Ms20, FrameDuration::Ms40, FrameDuration::Ms60,
        FrameDuration::Ms10, FrameDuration::Ms20, FrameDuration::Ms10, FrameDuration::Ms20,
        FrameDuration::Ms2p5, FrameDuration::Ms5, FrameDuration::Ms10, FrameDuration::Ms20,
        FrameDuration::Ms2p5, FrameDuration::Ms5, FrameDuration::Ms10, FrameDuration::Ms20,
        FrameDuration::Ms2p5, FrameDuration::Ms5, FrameDuration::Ms10, FrameDuration::Ms20,
        FrameDuration::Ms2p5, FrameDuration::Ms5, FrameDuration::Ms10, FrameDuration::Ms20,
    ];
    for config in 0u8..32 {
        assert_eq!(frame_duration(config), expected[config as usize]);
    }
}

#[test]
fn named_configurations() {
    assert_eq!(frame_duration(0), FrameDuration::Ms10);
    assert_eq!(frame_duration(16), FrameDuration::Ms2p5);
    assert_eq!(frame_duration(13), FrameDuration::Ms20);
}

#[test]
fn classify_is_the_same_on_every_call() {
    for toc in 0u8..=255 {
        assert_eq!(classify(toc), classify(toc));
        assert_eq!(classify(toc).0, frame_duration(toc >> 3));
    }
}

#[test]
fn microseconds_of_each_duration() {
    assert_eq!(FrameDuration::Ms2p5.microseconds(), 2_500);
    assert_eq!(FrameDuration::Ms5.microseconds(), 5_000);
    assert_eq!(FrameDuration::Ms10.microseconds(), 10_000);
    assert_eq!(FrameDuration::Ms20.microseconds(), 20_000);
    assert_eq!(FrameDuration::Ms40.microseconds(), 40_000);
    assert_eq!(FrameDuration::Ms60.microseconds(), 60_000);
}

#[test]
fn stereo_twenty_millisecond_packet_fills_1920_samples() {
    let toc: u8 = (13 << 3) | (1 << 2);
    assert_eq!(classify(toc), (FrameDuration::Ms20, true));
    assert_eq!(expected_samples(48_000, toc), 1920);
}

#[test]
fn expected_samples_by_duration() {
    assert_eq!(expected_samples(48_000, 16 << 3), 120);
    assert_eq!(expected_samples(48_000, 17 << 3), 240);
    assert_eq!(expected_samples(48_000, 0), 480);
    assert_eq!(expected_samples(48_000, 1 << 3), 960);
    assert_eq!(expected_samples(48_000, 2 << 3), 1920);
    assert_eq!(expected_samples(48_000, 3 << 3), 2880);
    assert_eq!(expected_samples(48_000, (3 << 3) | 4), 5760);
    assert_eq!(expected_samples(48_000, 0x18), 2880);
    assert_eq!(expected_samples(u32::MAX, (3 << 3) | 4), 257_698_037 * 2);
    assert_eq!(expected_samples(44_100, 16 << 3), 110);
    assert_eq!(expected_samples(0, 0xff), 0);
}

#[test]
fn per_channel_length_is_one_of_six_at_48_khz() {
    let lengths = [120u32, 240, 480, 960, 1920, 2880];
    for toc in 0u8..=255 {
        let per_channel = expected_samples(48_000, toc) / (1 + ((toc as u32 >> 2) & 1));
        assert!(lengths.contains(&per_channel));
    }
    for config in [3u8, 7, 11] {
        assert_eq!(expected_samples(48_000, config << 3), 2880);
    }
}
