//! The two containers a stream can come in, and what they share: the events
//! that the caller reports and the step that takes a decoded buffer in.
//!
//! The caller owns the container reader and the codec. It asks the source for
//! a sample; told that a packet is wanted, it reads one and reports what the
//! reader said; told to decode, it runs the codec into a buffer of the given
//! length and reports what the codec said.
use vstd::prelude::*;
use crate::error::OpusSourceError;
use crate::samples::{IterState, Pull, SampleIterator};

pub mod ogg;
pub mod caf;

verus! {

/// What the container reader said when asked for the next packet.
#[derive(Debug)]
pub enum PacketRead {
    /// A packet, still encoded.
    Packet(Vec<u8>),
    /// No packet is left.
    End,
    /// Reading failed.
    Failed,
}

/// What the codec said when given a packet.
#[derive(Debug)]
pub enum Decoded {
    /// The filled buffer.
    Samples(Vec<u32>),
    /// The codec rejected the packet.
    Failed,
}

/// What to do after a packet was read.
#[derive(Debug, Clone, Copy, PartialEq, Eq, Structural)]
pub enum Fetch {
    /// Decode the packet into a buffer of this many samples.
    Decode(u64),
    /// Drop the packet and read the next one.
    Again,
    /// The stream has ended: read no more.
    Stop,
    /// Samples are still pending, so no packet was wanted: nothing was done.
    Ignored,
}

/// The buffer length that a fetch asks for.
pub open spec fn awaited_by(fetch: Fetch) -> Option<u64> {
    match fetch {
        Fetch::Decode(n) => Some(n),
        _ => None,
    }
}

/// Whether decoding gave a buffer of the awaited length.
pub open spec fn fills(awaiting: Option<u64>, decoded: Decoded) -> bool {
    match (awaiting, decoded) {
        (Some(n), Decoded::Samples(v)) => v@.len() == n,
        _ => false,
    }
}

/// The samples that the codec handed over, if any.
pub open spec fn samples_of(decoded: Decoded) -> Seq<u32> {
    match decoded {
        Decoded::Samples(v) => v@,
        Decoded::Failed => Seq::empty(),
    }
}

/// What the codec's answer amounts to, given the buffer it wrote into and the
/// number of samples that it reports for each channel: the buffer, where the
/// codec filled it to the last sample, and a failure where it wrote fewer or
/// more.
pub fn decoded_from(samples: Vec<u32>, written: u64, channel_count: u8) -> (d: Decoded)
    ensures
        written * channel_count == samples@.len() ==> d == Decoded::Samples(samples),
        written * channel_count != samples@.len() ==> d == Decoded::Failed,
{
    proof {
        assert(0 <= written as int * channel_count as int <= 0xffff_ffff_ffff_ffff * 255)
            by (nonlinear_arith)
            requires
                0 <= written as int <= 0xffff_ffff_ffff_ffff,
                0 <= channel_count as int <= 255,
        ;
    }
    let total: u128 = written as u128 * channel_count as u128;
    if total == samples.len() as u128 {
        Decoded::Samples(samples)
    } else {
        Decoded::Failed
    }
}

/// Takes the outcome of decoding one packet. A buffer of the awaited length
/// becomes the pending samples of an empty iterator. Anything else is a
/// `DecodeFailure` and changes nothing: a rejected packet, a buffer of
/// another length, a buffer that was not awaited or that arrives while
/// samples are pending or after the end.
pub fn install_decoded(samples: &mut SampleIterator, awaiting: Option<u64>, decoded: Decoded) -> (r:
    Result<(), OpusSourceError>)
    ensures
        fills(awaiting, decoded) && old(samples).state() == IterState::Empty ==> r == Ok::<
            (),
            OpusSourceError,
        >(()) && final(samples).pending() == samples_of(decoded) && !final(samples).ended(),
        !(fills(awaiting, decoded) && old(samples).state() == IterState::Empty) ==> r == Err::<
            (),
            OpusSourceError,
        >(OpusSourceError::DecodeFailure) && *final(samples) == *old(samples),
    no_unwind
{
    match (awaiting, decoded) {
        (Some(n), Decoded::Samples(buffer)) => {
            if buffer.len() as u64 == n && samples.install(buffer) {
                Ok(())
            } else {
                Err(OpusSourceError::DecodeFailure)
            }
        },
        _ => Err(OpusSourceError::DecodeFailure),
    }
}

/// Turns the answer to a pull into a result for callers that want the end of
/// the stream as an error: a sample, no sample yet, or `EndOfDataStream`.
pub fn sample_or_end(p: Pull) -> (r: Result<Option<u32>, OpusSourceError>)
    ensures
        r == (match p {
            Pull::Sample(s) => Ok::<Option<u32>, OpusSourceError>(Some(s)),
            Pull::NeedPacket => Ok::<Option<u32>, OpusSourceError>(None),
            Pull::End => Err::<Option<u32>, OpusSourceError>(OpusSourceError::EndOfDataStream),
        }),
{
    match p {
        Pull::Sample(s) => Ok(Some(s)),
        Pull::NeedPacket => Ok(None),
        Pull::End => Err(OpusSourceError::EndOfDataStream),
    }
}

} // verus!
