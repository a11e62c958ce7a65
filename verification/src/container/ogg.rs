//! Opus in Ogg: packets of varying length, each opened by a control byte.
use vstd::prelude::*;
use vstd::slice::slice_to_vec;
use crate::container::{
    awaited_by, fills, install_decoded, samples_of, Decoded, Fetch, PacketRead,
};
use crate::error::OpusSourceError;
use crate::metadata::{
    comment_header_valid, id_header_valid, meta_of_id_header, OpusMeta, DECODED_SAMPLE_RATE,
};
use crate::samples::{state_holding, IterState, Pull, SampleIterator};
use crate::toc::{
    config_of, duration_of_config, expected_samples, expected_samples_spec, frame_samples_spec,
    lemma_expected_samples_even, stereo_of,
};

verus! {

/// The number of samples that one packet of an Ogg stream decodes to: none
/// for an empty packet, which is dropped, else what its control byte tells.
pub open spec fn packet_samples(sample_rate: u32, packet: Seq<u8>) -> int {
    if packet.len() == 0 {
        0
    } else {
        expected_samples_spec(
            sample_rate,
            duration_of_config(config_of(packet[0])),
            stereo_of(packet[0]),
        )
    }
}

/// What a source does with a packet read from an Ogg stream, by the state of
/// its samples: an empty packet is dropped, any other is decoded into as many
/// samples as its control byte tells, and the end of the packets or a failed
/// read ends the stream.
pub open spec fn ogg_fetch(state: IterState, sample_rate: u32, read: PacketRead) -> Fetch {
    match state {
        IterState::Filled => Fetch::Ignored,
        IterState::Exhausted => Fetch::Stop,
        IterState::Empty => match read {
            PacketRead::Packet(p) => if p@.len() == 0 {
                Fetch::Again
            } else {
                Fetch::Decode(packet_samples(sample_rate, p@) as u64)
            },
            PacketRead::End => Fetch::Stop,
            PacketRead::Failed => Fetch::Stop,
        },
    }
}

/// The number of samples that all packets of a stream decode to.
pub open spec fn total_samples(sample_rate: u32, packets: Seq<Vec<u8>>) -> int
    decreases packets.len(),
{
    if packets.len() == 0 {
        0
    } else {
        total_samples(sample_rate, packets.drop_last()) + packet_samples(
            sample_rate,
            packets.last()@,
        )
    }
}

/// Whether `buffers` holds for every packet that is not empty a buffer of
/// the length that the packet decodes to.
pub open spec fn well_decoded(sample_rate: u32, packets: Seq<Vec<u8>>, buffers: Seq<Vec<u32>>) -> bool {
    &&& packets.len() == buffers.len()
    &&& forall|i: int|
        0 <= i < packets.len() && (#[trigger] packets[i])@.len() > 0 ==> buffers[i]@.len()
            == packet_samples(sample_rate, packets[i]@)
}

/// The samples of a whole stream in the order in which they are handed out:
/// the buffers of the packets that are not empty, one after the other.
pub open spec fn stream_samples(packets: Seq<Vec<u8>>, buffers: Seq<Vec<u32>>) -> Seq<u32>
    decreases packets.len(),
{
    if packets.len() == 0 || buffers.len() == 0 {
        Seq::empty()
    } else {
        let prior = stream_samples(packets.drop_last(), buffers.drop_last());
        if packets.last()@.len() == 0 {
            prior
        } else {
            prior + buffers.last()@
        }
    }
}

/// A stream whose codec fills every buffer exactly hands out as many samples
/// as its packets decode to, all told.
pub proof fn lemma_stream_length(sample_rate: u32, packets: Seq<Vec<u8>>, buffers: Seq<Vec<u32>>)
    requires
        well_decoded(sample_rate, packets, buffers),
    ensures
        stream_samples(packets, buffers).len() == total_samples(sample_rate, packets),
    decreases packets.len(),
{
    if packets.len() > 0 {
        assert(packets.drop_last().len() == buffers.drop_last().len());
        assert forall|i: int|
            0 <= i < packets.drop_last().len() && (#[trigger] packets.drop_last()[i])@.len()
                > 0 implies buffers.drop_last()[i]@.len() == packet_samples(
            sample_rate,
            packets.drop_last()[i]@,
        ) by {
            assert(packets.drop_last()[i] == packets[i]);
            assert(buffers.drop_last()[i] == buffers[i]);
        }
        lemma_stream_length(sample_rate, packets.drop_last(), buffers.drop_last());
        let last: int = packets.len() - 1;
        assert(packets.last() == packets[last]);
        assert(buffers.last() == buffers[last]);
    }
}

/// The number of samples that one packet decodes to for each channel of its
/// frame: none for an empty packet.
pub open spec fn packet_frames(sample_rate: u32, packet: Seq<u8>) -> int {
    if packet.len() == 0 {
        0
    } else {
        frame_samples_spec(sample_rate, duration_of_config(config_of(packet[0])))
    }
}

/// The number of samples for each channel that all packets of a stream
/// decode to.
pub open spec fn total_frames(sample_rate: u32, packets: Seq<Vec<u8>>) -> int
    decreases packets.len(),
{
    if packets.len() == 0 {
        0
    } else {
        total_frames(sample_rate, packets.drop_last()) + packet_frames(
            sample_rate,
            packets.last()@,
        )
    }
}

/// Whether every packet that is not empty announces as many channels as the
/// stream has: stereo frames in a stream of two channels, mono frames in a
/// stream of one.
pub open spec fn channels_agree(channel_count: u8, packets: Seq<Vec<u8>>) -> bool {
    forall|i: int|
        0 <= i < packets.len() && (#[trigger] packets[i])@.len() > 0 ==> stereo_of(packets[i]@[0])
            == (channel_count == 2)
}

/// Where the packets announce the channels of the stream, the samples of the
/// whole stream number its channels times the samples of each channel.
pub proof fn lemma_total_by_channels(sample_rate: u32, channel_count: u8, packets: Seq<Vec<u8>>)
    requires
        channel_count == 1 || channel_count == 2,
        channels_agree(channel_count, packets),
    ensures
        total_samples(sample_rate, packets) == channel_count * total_frames(sample_rate, packets),
    decreases packets.len(),
{
    if packets.len() > 0 {
        assert forall|i: int|
            0 <= i < packets.drop_last().len() && (#[trigger] packets.drop_last()[i])@.len()
                > 0 implies stereo_of(packets.drop_last()[i]@[0]) == (channel_count == 2) by {
            assert(packets.drop_last()[i] == packets[i]);
        }
        lemma_total_by_channels(sample_rate, channel_count, packets.drop_last());
        let last: int = packets.len() - 1;
        assert(packets.last() == packets[last]);
    }
}

/// A stream of samples out of the Opus packets of an Ogg stream.
#[derive(Debug)]
pub struct OpusSourceOgg {
    metadata: OpusMeta,
    samples: SampleIterator,
    awaiting: Option<u64>,
}

impl OpusSourceOgg {
    #[verifier::type_invariant]
    spec fn coherent(self) -> bool {
        &&& self.metadata.valid()
        &&& self.awaiting is Some ==> self.samples.state() == IterState::Empty
        &&& self.awaiting is Some ==> self.awaiting->Some_0 as int % (
        self.metadata.channel_count as int) == 0
    }

    /// The record read when the stream was opened.
    pub closed spec fn meta(self) -> OpusMeta {
        self.metadata
    }

    /// The state of the sample iterator.
    pub closed spec fn state(self) -> IterState {
        self.samples.state()
    }

    /// The samples decoded and not yet handed out.
    pub closed spec fn pending(self) -> Seq<u32> {
        self.samples.pending()
    }

    /// The length of the buffer that the packet being decoded is to fill.
    pub closed spec fn awaiting(self) -> Option<u64> {
        self.awaiting
    }

    /// Opens a stream from its first two packets, as far as they could be
    /// read. A packet that could not be read is an `InvalidContainerFormat`,
    /// a malformed one an `InvalidHeaderData`.
    pub fn new(id_header: Option<Vec<u8>>, comment_header: Option<Vec<u8>>) -> (r: Result<
        Self,
        OpusSourceError,
    >)
        ensures
            id_header is None || comment_header is None ==> r is Err && r->Err_0
                == OpusSourceError::InvalidContainerFormat,
            id_header is Some && comment_header is Some && !(id_header_valid(id_header->Some_0@)
                && comment_header_valid(comment_header->Some_0@)) ==> r is Err && r->Err_0
                == OpusSourceError::InvalidHeaderData,
            id_header is Some && comment_header is Some && id_header_valid(id_header->Some_0@)
                && comment_header_valid(comment_header->Some_0@) ==> r is Ok && r->Ok_0.meta()
                == meta_of_id_header(id_header->Some_0@) && r->Ok_0.state() == IterState::Empty
                && r->Ok_0.pending() == Seq::<u32>::empty() && r->Ok_0.awaiting() is None,
            r is Ok ==> r->Ok_0.meta().valid(),
    {
        match (id_header, comment_header) {
            (Some(id), Some(comment)) => {
                match OpusMeta::with_headers(id, comment) {
                    Ok(metadata) => Ok(
                        OpusSourceOgg { metadata, samples: SampleIterator::new(), awaiting: None },
                    ),
                    Err(e) => Err(e),
                }
            },
            _ => Err(OpusSourceError::InvalidContainerFormat),
        }
    }

    /// The record read when the stream was opened. It never changes.
    pub fn metadata(&self) -> (m: OpusMeta)
        ensures
            m == self.meta(),
            m.valid(),
    {
        proof {
            use_type_invariant(&*self);
        }
        self.metadata
    }

    /// Computes `state`.
    pub fn current_state(&self) -> (s: IterState)
        ensures
            s == self.state(),
            s != IterState::Exhausted ==> s == state_holding(self.pending()),
    {
        self.samples.current_state()
    }

    /// Hands out the next sample, or tells that a packet is wanted, or that
    /// the stream has ended. After the end every call answers `End`.
    pub fn next_sample(&mut self) -> (p: Pull)
        ensures
            final(self).meta() == old(self).meta(),
            final(self).awaiting() == old(self).awaiting(),
            old(self).state() == IterState::Filled ==> {
                &&& old(self).pending().len() > 0
                &&& p == Pull::Sample(old(self).pending()[0])
                &&& final(self).pending() == old(self).pending().drop_first()
                &&& final(self).state() == state_holding(final(self).pending())
            },
            old(self).state() == IterState::Empty ==> p == Pull::NeedPacket && final(self).pending()
                == old(self).pending() && final(self).state() == IterState::Empty,
            old(self).state() == IterState::Exhausted ==> p == Pull::End && final(self).pending()
                == old(self).pending() && final(self).state() == IterState::Exhausted,
    {
        proof {
            use_type_invariant(&*self);
        }
        self.samples.pull()
    }

    /// Takes what the reader said when asked for a packet, and answers what
    /// to do with it. An empty packet is never handed on to the codec. The
    /// end of the packets and a failed read both end the stream.
    pub fn on_read(&mut self, read: &PacketRead) -> (f: Fetch)
        ensures
            f == ogg_fetch(old(self).state(), old(self).meta().sample_rate, *read),
            final(self).meta() == old(self).meta(),
            final(self).pending() == old(self).pending(),
            final(self).awaiting() == awaited_by(f),
            final(self).state() == (if f == Fetch::Stop {
                IterState::Exhausted
            } else {
                old(self).state()
            }),
    {
        proof {
            use_type_invariant(&*self);
        }
        match self.samples.current_state() {
            IterState::Filled => {
                self.awaiting = None;
                Fetch::Ignored
            },
            IterState::Exhausted => {
                self.awaiting = None;
                Fetch::Stop
            },
            IterState::Empty => {
                match read {
                    PacketRead::Packet(packet) => {
                        if packet.len() == 0 {
                            self.awaiting = None;
                            Fetch::Again
                        } else {
                            let n: u64 = expected_samples(self.metadata.sample_rate, packet[0]) as u64;
                            proof {
                                lemma_expected_samples_even(packet@[0]);
                            }
                            self.awaiting = Some(n);
                            Fetch::Decode(n)
                        }
                    },
                    _ => {
                        self.awaiting = None;
                        self.samples.finish();
                        Fetch::Stop
                    },
                }
            },
        }
    }

    /// Takes what the codec said of the packet last handed on. A buffer of
    /// the awaited length becomes the pending samples; anything else is a
    /// `DecodeFailure` that leaves the samples as they were.
    pub fn on_decoded(&mut self, decoded: Decoded) -> (r: Result<(), OpusSourceError>)
        ensures
            final(self).meta() == old(self).meta(),
            final(self).awaiting() is None,
            r is Ok ==> final(self).pending().len() as int % (final(self).meta().channel_count as int)
                == 0,
            fills(old(self).awaiting(), decoded) ==> {
                &&& r == Ok::<(), OpusSourceError>(())
                &&& final(self).pending() == samples_of(decoded)
                &&& final(self).state() == state_holding(final(self).pending())
            },
            !fills(old(self).awaiting(), decoded) ==> {
                &&& r == Err::<(), OpusSourceError>(OpusSourceError::DecodeFailure)
                &&& final(self).pending() == old(self).pending()
                &&& final(self).state() == old(self).state()
            },
    {
        proof {
            use_type_invariant(&*self);
        }
        let awaiting: Option<u64> = self.awaiting;
        self.awaiting = None;
        install_decoded(&mut self.samples, awaiting, decoded)
    }

    /// Plays a stream that was read and decoded beforehand: opens it on its
    /// two header packets, takes each packet in turn with the buffer that the
    /// codec made of it, and collects every sample handed out until the
    /// packets end. Empty packets are passed over, whatever stands in their
    /// buffers. A buffer of another length than its packet decodes to is a
    /// `DecodeFailure`.
    pub fn replay(
        id_header: Vec<u8>,
        comment_header: Vec<u8>,
        packets: &Vec<Vec<u8>>,
        buffers: &Vec<Vec<u32>>,
    ) -> (r: Result<Vec<u32>, OpusSourceError>)
        ensures
            !(id_header_valid(id_header@) && comment_header_valid(comment_header@)) ==> r is Err
                && r->Err_0 == OpusSourceError::InvalidHeaderData,
            id_header_valid(id_header@) && comment_header_valid(comment_header@) && !well_decoded(
                DECODED_SAMPLE_RATE,
                packets@,
                buffers@,
            ) ==> r is Err && r->Err_0 == OpusSourceError::DecodeFailure,
            id_header_valid(id_header@) && comment_header_valid(comment_header@) && well_decoded(
                DECODED_SAMPLE_RATE,
                packets@,
                buffers@,
            ) ==> r is Ok && r->Ok_0@ == stream_samples(packets@, buffers@) && r->Ok_0@.len()
                == total_samples(DECODED_SAMPLE_RATE, packets@),
    {
        let mut source: OpusSourceOgg = match OpusSourceOgg::new(
            Some(id_header),
            Some(comment_header),
        ) {
            Ok(source) => source,
            Err(e) => {
                return Err(e);
            },
        };
        if packets.len() != buffers.len() {
            return Err(OpusSourceError::DecodeFailure);
        }
        let mut out: Vec<u32> = Vec::new();
        let mut i: usize = 0;
        while i < packets.len()
            invariant
                id_header_valid(id_header@),
                comment_header_valid(comment_header@),
                i <= packets@.len(),
                packets@.len() == buffers@.len(),
                source.state() == IterState::Empty,
                source.meta().valid(),
                well_decoded(DECODED_SAMPLE_RATE, packets@.take(i as int), buffers@.take(i as int)),
                out@ == stream_samples(packets@.take(i as int), buffers@.take(i as int)),
            decreases packets@.len() - i,
        {
            let ghost prior = out@;
            let ghost next: int = i + 1;
            proof {
                assert(packets@.take(next).drop_last() =~= packets@.take(i as int));
                assert(buffers@.take(next).drop_last() =~= buffers@.take(i as int));
                assert(packets@.take(next).last() == packets@[i as int]);
                assert(buffers@.take(next).last() == buffers@[i as int]);
                if packets@[i as int]@.len() > 0 {
                    lemma_expected_samples_even(packets@[i as int]@[0]);
                }
            }
            let read: PacketRead = PacketRead::Packet(slice_to_vec(packets[i].as_slice()));
            let fetch: Fetch = source.on_read(&read);
            if let Fetch::Decode(n) = fetch {
                let buffer: Vec<u32> = slice_to_vec(buffers[i].as_slice());
                match source.on_decoded(Decoded::Samples(buffer)) {
                    Err(e) => {
                        proof {
                            assert(packets@[i as int]@.len() > 0);
                            assert(buffers@[i as int]@.len() != packet_samples(
                                DECODED_SAMPLE_RATE,
                                packets@[i as int]@,
                            ));
                        }
                        return Err(e);
                    },
                    Ok(()) => {},
                }
                while source.current_state() == IterState::Filled
                    invariant
                        i < buffers@.len(),
                        source.state() != IterState::Exhausted,
                        source.meta().valid(),
                        out@ + source.pending() == prior + buffers@[i as int]@,
                    decreases source.pending().len(),
                {
                    let ghost before = source.pending();
                    if let Pull::Sample(sample) = source.next_sample() {
                        out.push(sample);
                    }
                    proof {
                        assert(before =~= seq![before[0]] + before.drop_first());
                        assert(out@ + source.pending() =~= prior + buffers@[i as int]@);
                    }
                }
                proof {
                    assert(source.pending().len() == 0);
                    assert(out@ =~= prior + buffers@[i as int]@);
                }
            }
            proof {
                assert forall|k: int|
                    0 <= k < packets@.take(next).len() && (#[trigger] packets@.take(
                        next,
                    )[k])@.len() > 0 implies buffers@.take(next)[k]@.len() == packet_samples(
                    DECODED_SAMPLE_RATE,
                    packets@.take(next)[k]@,
                ) by {
                    if k < i {
                        assert(packets@.take(i as int)[k] == packets@.take(next)[k]);
                        assert(buffers@.take(i as int)[k] == buffers@.take(next)[k]);
                    }
                }
            }
            i += 1;
        }
        proof {
            assert(packets@.take(i as int) =~= packets@);
            assert(buffers@.take(i as int) =~= buffers@);
            lemma_stream_length(DECODED_SAMPLE_RATE, packets@, buffers@);
        }
        source.on_read(&PacketRead::End);
        Ok(out)
    }

    /// Seeking is not offered: every call fails with `SeekingNotSupported`
    /// and changes nothing.
    pub fn seek(&mut self, sample: u64) -> (r: Result<(), OpusSourceError>)
        ensures
            r == Err::<(), OpusSourceError>(OpusSourceError::SeekingNotSupported),
            *final(self) == *old(self),
    {
        Err(OpusSourceError::SeekingNotSupported)
    }
}

} // verus!
