use opus_source::container::ogg::OpusSourceOgg;
use opus_source::error::OpusSourceError;
use opus_source::metadata::OpusMeta;
use opus_source::samples::IterState;

fn id_header(channels: u8, preskip: [u8; 2], gain: [u8; 2]) -> Vec<u8> {
    let mut h = b"OpusHead".to_vec();
    h.push(1);
    h.push(channels);
    h.extend_from_slice(&preskip);
    h.extend_from_slice(&[0x80, 0xbb, 0x00, 0x00]);
    h.extend_from_slice(&gain);
    h.push(0);
    h
}

fn comment_header(vendor: &[u8]) -> Vec<u8> {
    let mut c = b"OpusTags".to_vec();
    c.extend_from_slice(&(vendor.len() as u32).to_le_bytes());
    c.extend_from_slice(vendor);
    c.extend_from_slice(&[0, 0, 0, 0]);
    c
}

#[test]
fn valid_headers_give_the_record() {
    let meta = OpusMeta::with_headers(id_header(2, [0x38, 0x01], [0x00, 0xff]), comment_header(b"abc"))
        .unwrap();
    assert_eq!(meta.sample_rate, 48_000);
    assert_eq!(meta.channel_count, 2);
    assert_eq!(meta.preskip, 312);
    assert_eq!(meta.output_gain, -256);
    assert_eq!(meta.num_frames, None);
}

#[test]
fn fields_are_little_endian() {
    let meta = OpusMeta::with_headers(id_header(1, [0x01, 0x02], [0x10, 0x00]), comment_header(b""))
        .unwrap();
    assert_eq!(meta.channel_count, 1);
    assert_eq!(meta.preskip, 0x0201);
    assert_eq!(meta.output_gain, 16);
    let meta = OpusMeta::with_headers(id_header(1, [0xff, 0xff], [0xff, 0xff]), comment_header(b""))
        .unwrap();
    assert_eq!(meta.preskip, 65535);
    assert_eq!(meta.output_gain, -1);
    let meta = OpusMeta::with_headers(id_header(1, [0, 0], [0x00, 0x80]), comment_header(b""))
        .unwrap();
    assert_eq!(meta.output_gain, i16::MIN);
}

#[test]
fn wrong_id_magic_is_invalid_header_data() {
    let mut id = id_header(2, [0, 0], [0, 0]);
    id[7] = b'D';
    assert_eq!(
        OpusMeta::with_headers(id, comment_header(b"abc")),
        Err(OpusSourceError::InvalidHeaderData)
    );
}

#[test]
fn wrong_comment_magic_is_invalid_header_data() {
    let mut c = comment_header(b"abc");
    c[4] = b't';
    assert_eq!(
        OpusMeta::with_headers(id_header(2, [0, 0], [0, 0]), c),
        Err(OpusSourceError::InvalidHeaderData)
    );
}

#[test]
fn short_id_header_is_invalid_header_data() {
    let mut id = id_header(2, [0, 0], [0, 0]);
    id.truncate(18);
    assert_eq!(
        OpusMeta::with_headers(id, comment_header(b"abc")),
        Err(OpusSourceError::InvalidHeaderData)
    );
    assert_eq!(
        OpusMeta::with_headers(Vec::new(), comment_header(b"abc")),
        Err(OpusSourceError::InvalidHeaderData)
    );
}

#[test]
fn short_comment_header_is_invalid_header_data() {
    let mut c = comment_header(b"abc");
    c.truncate(18);
    assert_eq!(
        OpusMeta::with_headers(id_header(2, [0, 0], [0, 0]), c),
        Err(OpusSourceError::InvalidHeaderData)
    );
    assert_eq!(
        OpusMeta::with_headers(id_header(2, [0, 0], [0, 0]), b"OpusTags".to_vec()),
        Err(OpusSourceError::InvalidHeaderData)
    );
}

#[test]
fn vendor_length_longer_than_the_packet_is_invalid_header_data() {
    let mut c = b"OpusTags".to_vec();
    c.extend_from_slice(&[0xff, 0xff, 0xff, 0xff]);
    c.extend_from_slice(&[0; 64]);
    assert_eq!(
        OpusMeta::with_headers(id_header(2, [0, 0], [0, 0]), c),
        Err(OpusSourceError::InvalidHeaderData)
    );
    let mut c = b"OpusTags".to_vec();
    c.extend_from_slice(&[0x00, 0x01, 0x00, 0x00]);
    c.extend_from_slice(&[0; 64]);
    assert_eq!(
        OpusMeta::with_headers(id_header(2, [0, 0], [0, 0]), c),
        Err(OpusSourceError::InvalidHeaderData)
    );
}

#[test]
fn vendor_string_need_not_be_text() {
    let meta = OpusMeta::with_headers(id_header(2, [0, 0], [0, 0]), comment_header(&[0xff, 0xfe]));
    assert!(meta.is_ok());
}

#[test]
fn more_than_two_channels_are_rejected() {
    assert_eq!(
        OpusMeta::with_headers(id_header(3, [0, 0], [0, 0]), comment_header(b"abc")),
        Err(OpusSourceError::InvalidHeaderData)
    );
    assert_eq!(
        OpusMeta::with_headers(id_header(0, [0, 0], [0, 0]), comment_header(b"abc")),
        Err(OpusSourceError::InvalidHeaderData)
    );
}

#[test]
fn source_opens_on_valid_headers() {
    let source = OpusSourceOgg::new(
        Some(id_header(2, [0x38, 0x01], [0, 0])),
        Some(comment_header(b"abc")),
    )
    .unwrap();
    assert_eq!(source.metadata().channel_count, 2);
    assert_eq!(source.metadata().preskip, 312);
    assert_eq!(source.current_state(), IterState::Empty);
}

#[test]
fn source_with_wrong_magic_does_not_open() {
    let mut id = id_header(2, [0, 0], [0, 0]);
    id[0] = b'0';
    let r = OpusSourceOgg::new(Some(id), Some(comment_header(b"abc")));
    assert!(matches!(r, Err(OpusSourceError::InvalidHeaderData)));
}

#[test]
fn source_without_header_packets_is_no_container() {
    let r = OpusSourceOgg::new(None, Some(comment_header(b"abc")));
    assert!(matches!(r, Err(OpusSourceError::InvalidContainerFormat)));
    let r = OpusSourceOgg::new(Some(id_header(2, [0, 0], [0, 0])), None);
    assert!(matches!(r, Err(OpusSourceError::InvalidContainerFormat)));
}

#[test]
fn error_messages() {
    assert_eq!(OpusSourceError::InvalidAudioStream.message(), "Audio stream is not Opus format");
    assert_eq!(OpusSourceError::InvalidContainerFormat.message(), "Invalid container format");
    assert_eq!(OpusSourceError::InvalidHeaderData.message(), "Invalid header data");
    assert_eq!(OpusSourceError::SeekingNotSupported.message(), "Seeking not supported");
    assert_eq!(OpusSourceError::EndOfDataStream.message(), "End of data stream");
    assert_eq!(OpusSourceError::ContainerReadError.message(), "Container read error");
    assert_eq!(OpusSourceError::DecodeFailure.message(), "Packet could not be decoded");
}
