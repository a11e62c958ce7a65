use opus_source::container::caf::{CafAudioDesc, OpusSourceCaf, OPUS_FORMAT_CODE};
use opus_source::container::ogg::OpusSourceOgg;
use opus_source::error::OpusSourceError;

fn headers(channels: u8) -> (Vec<u8>, Vec<u8>) {
    let mut id = b"OpusHead".to_vec();
    id.extend_from_slice(&[1, channels, 0, 0, 0x80, 0xbb, 0, 0, 0, 0, 0]);
    let mut tags = b"OpusTags".to_vec();
    tags.extend_from_slice(&[2, 0, 0, 0, b'h', b'i', 0, 0, 0, 0]);
    (id, tags)
}

fn constant(len: usize, value: f32) -> Vec<u32> {
    vec![value.to_bits(); len]
}

#[test]
fn replay_concatenates_the_buffers() {
    let (id, tags) = headers(2);
    let packets = vec![vec![(16 << 3) | 4, 7], vec![17 << 3]];
    let buffers = vec![constant(240, 0.5), constant(240, -0.5)];
    let out = OpusSourceOgg::replay(id, tags, &packets, &buffers).unwrap();
    assert_eq!(out.len(), 480);
    assert!(out[..240].iter().all(|s| f32::from_bits(*s) == 0.5));
    assert!(out[240..].iter().all(|s| f32::from_bits(*s) == -0.5));
}

#[test]
fn replay_yields_channels_times_frames() {
    let (id, tags) = headers(2);
    let stereo = |config: u8| vec![(config << 3) | 4];
    let packets = vec![stereo(13), stereo(16), stereo(2), stereo(3)];
    let frames = [960usize, 120, 1920, 2880];
    let buffers: Vec<Vec<u32>> = frames.iter().map(|f| constant(2 * f, 1.0)).collect();
    let out = OpusSourceOgg::replay(id, tags, &packets, &buffers).unwrap();
    assert_eq!(out.len(), 2 * (960 + 120 + 1920 + 2880));
}

#[test]
fn replay_passes_over_empty_packets() {
    let (id, tags) = headers(1);
    let packets = vec![vec![], vec![16 << 3], vec![], vec![]];
    let buffers = vec![constant(5, 9.0), constant(120, 0.25), Vec::new(), constant(1, 9.0)];
    let out = OpusSourceOgg::replay(id, tags, &packets, &buffers).unwrap();
    assert_eq!(out, constant(120, 0.25));
}

#[test]
fn replay_of_no_packets_is_empty() {
    let (id, tags) = headers(1);
    assert_eq!(OpusSourceOgg::replay(id, tags, &Vec::new(), &Vec::new()), Ok(Vec::new()));
}

#[test]
fn replay_reports_a_buffer_of_the_wrong_length() {
    let (id, tags) = headers(1);
    let packets = vec![vec![16 << 3], vec![16 << 3]];
    let buffers = vec![constant(120, 0.0), constant(121, 0.0)];
    assert_eq!(
        OpusSourceOgg::replay(id, tags, &packets, &buffers),
        Err(OpusSourceError::DecodeFailure)
    );
    let (id, tags) = headers(1);
    assert_eq!(
        OpusSourceOgg::replay(id, tags, &packets, &vec![constant(120, 0.0)]),
        Err(OpusSourceError::DecodeFailure)
    );
}

#[test]
fn replay_needs_valid_headers() {
    let (mut id, tags) = headers(1);
    id[3] = b'S';
    assert_eq!(
        OpusSourceOgg::replay(id, tags, &Vec::new(), &Vec::new()),
        Err(OpusSourceError::InvalidHeaderData)
    );
}

#[test]
fn replay_of_one_mono_sixty_millisecond_packet_is_2880_samples() {
    let (id, tags) = headers(1);
    let packets = vec![vec![0x18u8, 0, 0]];
    let out = OpusSourceOgg::replay(id, tags, &packets, &vec![constant(2880, 0.5)]).unwrap();
    assert_eq!(out.len(), 2880);
    let (id, tags) = headers(1);
    assert_eq!(
        OpusSourceOgg::replay(id, tags, &packets, &vec![constant(3000, 0.5)]),
        Err(OpusSourceError::DecodeFailure)
    );
}

fn opus_desc(channels: u32, frames_per_packet: u32) -> CafAudioDesc {
    CafAudioDesc {
        sample_rate: 48_000,
        format_code: Some(OPUS_FORMAT_CODE),
        channels_per_frame: channels,
        frames_per_packet,
    }
}

#[test]
fn caf_replay_hands_out_every_chunk_in_order() {
    let packets = vec![vec![1u8], vec![], vec![2, 3]];
    let buffers = vec![constant(8, 1.0), constant(8, 2.0), constant(8, 3.0)];
    let out = OpusSourceCaf::replay(opus_desc(2, 4), &packets, &buffers).unwrap();
    assert_eq!(out.len(), 3 * 4 * 2);
    for k in 0..3 {
        for j in 0..8 {
            assert_eq!(out[k * 8 + j], buffers[k][j]);
        }
    }
}

#[test]
fn caf_replay_of_no_packets_is_empty() {
    assert_eq!(OpusSourceCaf::replay(opus_desc(1, 960), &Vec::new(), &Vec::new()), Ok(Vec::new()));
}

#[test]
fn caf_replay_reports_a_chunk_of_the_wrong_length() {
    let packets = vec![vec![1u8], vec![2u8]];
    let buffers = vec![constant(960, 0.0), constant(959, 0.0)];
    assert_eq!(
        OpusSourceCaf::replay(opus_desc(1, 960), &packets, &buffers),
        Err(OpusSourceError::DecodeFailure)
    );
    assert_eq!(
        OpusSourceCaf::replay(opus_desc(1, 960), &packets, &vec![constant(960, 0.0)]),
        Err(OpusSourceError::DecodeFailure)
    );
}

#[test]
fn caf_replay_needs_an_opus_track() {
    let mut desc = opus_desc(2, 960);
    desc.format_code = None;
    assert_eq!(
        OpusSourceCaf::replay(desc, &Vec::new(), &Vec::new()),
        Err(OpusSourceError::InvalidAudioStream)
    );
}
