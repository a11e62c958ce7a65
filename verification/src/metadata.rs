//! The record that describes a stream, and the two identification packets of
//! a length-prefixed stream that it is read from.
use vstd::prelude::*;
use vstd::slice::slice_subrange;
use crate::error::OpusSourceError;
use crate::le::{le_i16, le_u16, le_u32, read_i16, read_u16, read_u32};

verus! {

/// The rate at which decoded samples come out, whatever the rate of the
/// audio before it was encoded.
pub const DECODED_SAMPLE_RATE: u32 = 48_000;

/// What is known of a stream once it is open.
#[derive(Debug, Clone, Copy, PartialEq, Eq)]
pub struct OpusMeta {
    /// Samples per second and channel after decoding.
    pub sample_rate: u32,
    /// Number of interleaved channels.
    pub channel_count: u8,
    /// Leading samples that a player should drop.
    pub preskip: u16,
    /// Gain to apply on playback.
    pub output_gain: i16,
    /// Number of frames in the stream, where the container tells.
    pub num_frames: Option<usize>,
}

/// The eight bytes that open the identification packet.
pub open spec fn head_magic() -> Seq<u8> {
    seq![0x4fu8, 0x70u8, 0x75u8, 0x73u8, 0x48u8, 0x65u8, 0x61u8, 0x64u8]
}

/// The eight bytes that open the comment packet.
pub open spec fn tags_magic() -> Seq<u8> {
    seq![0x4fu8, 0x70u8, 0x75u8, 0x73u8, 0x54u8, 0x61u8, 0x67u8, 0x73u8]
}

/// Whether `bytes` begins with `tag`.
pub open spec fn begins_with(bytes: Seq<u8>, tag: Seq<u8>) -> bool {
    bytes.len() >= tag.len() && bytes.subrange(0, tag.len() as int) == tag
}

/// An identification packet that can be read: it opens with its magic, holds
/// all nineteen bytes of the fixed fields, and names one or two channels.
pub open spec fn id_header_valid(h: Seq<u8>) -> bool {
    &&& h.len() >= 19
    &&& begins_with(h, head_magic())
    &&& (h[9] == 1 || h[9] == 2)
}

/// A comment packet that can be read: it opens with its magic and holds the
/// vendor string's length, the vendor string and the number of tags.
pub open spec fn comment_header_valid(c: Seq<u8>) -> bool {
    &&& c.len() >= 12
    &&& begins_with(c, tags_magic())
    &&& c.len() >= 12 + le_u32(c, 8) + 4
}

/// The record that a valid identification packet describes.
pub open spec fn meta_of_id_header(h: Seq<u8>) -> OpusMeta {
    OpusMeta {
        sample_rate: DECODED_SAMPLE_RATE,
        channel_count: h[9],
        preskip: le_u16(h, 10) as u16,
        output_gain: le_i16(h, 16) as i16,
        num_frames: None,
    }
}

fn starts_with(bytes: &[u8], tag: &[u8]) -> (r: bool)
    ensures
        r == begins_with(bytes@, tag@),
{
    if bytes.len() < tag.len() {
        return false;
    }
    let mut i: usize = 0;
    while i < tag.len()
        invariant
            i <= tag@.len() <= bytes@.len(),
            forall|k: int| 0 <= k < i ==> bytes@[k] == tag@[k],
        decreases tag@.len() - i,
    {
        if bytes[i] != tag[i] {
            proof {
                assert(bytes@.subrange(0, tag@.len() as int)[i as int] == bytes@[i as int]);
            }
            return false;
        }
        i += 1;
    }
    proof {
        assert(bytes@.subrange(0, tag@.len() as int) =~= tag@);
    }
    true
}

impl OpusMeta {
    /// What every record of an open stream satisfies: one or two channels,
    /// at the decoder's rate.
    pub open spec fn valid(self) -> bool {
        &&& self.sample_rate == DECODED_SAMPLE_RATE
        &&& (self.channel_count == 1 || self.channel_count == 2)
    }

    /// Reads the record from the identification packet and the comment
    /// packet of a stream. Either packet being malformed is an
    /// `InvalidHeaderData`; the vendor string and the tags are not looked at.
    pub fn with_headers(id_header: Vec<u8>, comment_header: Vec<u8>) -> (r: Result<
        Self,
        OpusSourceError,
    >)
        ensures
            id_header_valid(id_header@) && comment_header_valid(comment_header@) ==> r == Ok::<
                OpusMeta,
                OpusSourceError,
            >(meta_of_id_header(id_header@)),
            !(id_header_valid(id_header@) && comment_header_valid(comment_header@)) ==> r == Err::<
                OpusMeta,
                OpusSourceError,
            >(OpusSourceError::InvalidHeaderData),
            r is Ok ==> r->Ok_0.valid(),
    {
        let head: Vec<u8> = vec![0x4fu8, 0x70u8, 0x75u8, 0x73u8, 0x48u8, 0x65u8, 0x61u8, 0x64u8];
        let tags: Vec<u8> = vec![0x4fu8, 0x70u8, 0x75u8, 0x73u8, 0x54u8, 0x61u8, 0x67u8, 0x73u8];
        proof {
            assert(head@ =~= head_magic());
            assert(tags@ =~= tags_magic());
        }
        let id: &[u8] = id_header.as_slice();
        if id.len() < 19 || !starts_with(id, head.as_slice()) {
            return Err(OpusSourceError::InvalidHeaderData);
        }
        let channels: u8 = id[9];
        if channels != 1 && channels != 2 {
            return Err(OpusSourceError::InvalidHeaderData);
        }
        let preskip: u16 = read_u16(slice_subrange(id, 10, 12));
        let output_gain: i16 = read_i16(slice_subrange(id, 16, 18));

        let comment: &[u8] = comment_header.as_slice();
        if comment.len() < 12 || !starts_with(comment, tags.as_slice()) {
            return Err(OpusSourceError::InvalidHeaderData);
        }
        let vendor_len: u32 = read_u32(slice_subrange(comment, 8, 12));
        if (comment.len() as u64) < 16 + vendor_len as u64 {
            return Err(OpusSourceError::InvalidHeaderData);
        }
        Ok(
            OpusMeta {
                sample_rate: DECODED_SAMPLE_RATE,
                channel_count: channels,
                preskip,
                output_gain,
                num_frames: None,
            },
        )
    }
}

} // verus!
