//! Opus in CAF: packets that all decode to the same number of frames, told by
//! the container's audio description.
use vstd::prelude::*;
use vstd::slice::slice_to_vec;
use crate::container::{
    awaited_by, fills, install_decoded, samples_of, Decoded, Fetch, PacketRead,
};
use crate::error::OpusSourceError;
use crate::metadata::{OpusMeta, DECODED_SAMPLE_RATE};
use crate::samples::{state_holding, IterState, Pull, SampleIterator};

verus! {

/// The format code under which a CAF file carries Opus: the four letters
/// `opus`.
pub const OPUS_FORMAT_CODE: u32 = 1869641075;

/// What the audio description of a CAF file says of its one track.
#[derive(Debug, Clone, Copy, PartialEq, Eq)]
pub struct CafAudioDesc {
    /// Samples per second of the audio before it was encoded, in whole
    /// numbers. Decoded audio always comes at `DECODED_SAMPLE_RATE`.
    pub sample_rate: u32,
    /// The format code, where the format is none of those that CAF names
    /// itself.
    pub format_code: Option<u32>,
    /// Channels in each frame.
    pub channels_per_frame: u32,
    /// Frames that each packet decodes to.
    pub frames_per_packet: u32,
}

impl CafAudioDesc {
    /// Whether the track is Opus with one or two channels.
    pub open spec fn is_opus(self) -> bool {
        &&& self.format_code == Some(OPUS_FORMAT_CODE)
        &&& (self.channels_per_frame == 1 || self.channels_per_frame == 2)
    }

    /// The record of a stream with this description.
    pub open spec fn meta(self) -> OpusMeta {
        OpusMeta {
            sample_rate: DECODED_SAMPLE_RATE,
            channel_count: self.channels_per_frame as u8,
            preskip: 0,
            output_gain: 0,
            num_frames: None,
        }
    }

    /// The number of samples that every packet decodes to: its frames times
    /// the channels.
    pub open spec fn chunk_len(self) -> int {
        self.frames_per_packet as int * self.channels_per_frame as int
    }
}

/// What a source does with a packet read from a CAF file, by the state of its
/// samples: every packet is decoded into `chunk_len` samples, and the end of
/// the packets or a failed read ends the stream.
pub open spec fn caf_fetch(state: IterState, chunk_len: u64, read: PacketRead) -> Fetch {
    match state {
        IterState::Filled => Fetch::Ignored,
        IterState::Exhausted => Fetch::Stop,
        IterState::Empty => match read {
            PacketRead::Packet(_) => Fetch::Decode(chunk_len),
            PacketRead::End => Fetch::Stop,
            PacketRead::Failed => Fetch::Stop,
        },
    }
}

/// Whether `buffers` holds one buffer of `chunk_len` samples for every
/// packet.
pub open spec fn well_chunked(chunk_len: int, packets: Seq<Vec<u8>>, buffers: Seq<Vec<u32>>) -> bool {
    &&& packets.len() == buffers.len()
    &&& forall|i: int| 0 <= i < buffers.len() ==> (#[trigger] buffers[i])@.len() == chunk_len
}

/// The samples of a whole file in the order in which they are handed out:
/// the buffers of its packets, one after the other.
pub open spec fn chunk_stream(buffers: Seq<Vec<u32>>) -> Seq<u32>
    decreases buffers.len(),
{
    if buffers.len() == 0 {
        Seq::empty()
    } else {
        chunk_stream(buffers.drop_last()) + buffers.last()@
    }
}

/// A file whose codec fills every buffer exactly hands out as many samples
/// as it has packets, times the samples of one packet.
pub proof fn lemma_chunk_stream_length(chunk_len: int, packets: Seq<Vec<u8>>, buffers: Seq<Vec<u32>>)
    requires
        0 <= chunk_len,
        well_chunked(chunk_len, packets, buffers),
    ensures
        chunk_stream(buffers).len() == packets.len() * chunk_len,
    decreases buffers.len(),
{
    if buffers.len() > 0 {
        let n: int = buffers.len() - 1;
        let front = buffers.drop_last();
        assert forall|i: int| 0 <= i < front.len() implies (#[trigger] front[i])@.len()
            == chunk_len by {
            assert(front[i] == buffers[i]);
        }
        lemma_chunk_stream_length(chunk_len, packets.drop_last(), front);
        assert(buffers.last() == buffers[n]);
        assert((n + 1) * chunk_len == n * chunk_len + chunk_len) by (nonlinear_arith);
    } else {
        assert(packets.len() * chunk_len == 0) by (nonlinear_arith)
            requires
                packets.len() == 0,
        ;
    }
}

/// In such a file sample `j` of packet `k` is handed out at place
/// `k * chunk_len + j`: the packets come in their order, each whole.
pub proof fn lemma_chunk_stream_order(
    chunk_len: int,
    packets: Seq<Vec<u8>>,
    buffers: Seq<Vec<u32>>,
    k: int,
    j: int,
)
    requires
        0 <= chunk_len,
        well_chunked(chunk_len, packets, buffers),
        0 <= k < buffers.len(),
        0 <= j < chunk_len,
    ensures
        0 <= k * chunk_len + j < chunk_stream(buffers).len(),
        chunk_stream(buffers)[k * chunk_len + j] == buffers[k]@[j],
    decreases buffers.len(),
{
    let n: int = buffers.len() - 1;
    let front = buffers.drop_last();
    assert forall|i: int| 0 <= i < front.len() implies (#[trigger] front[i])@.len()
        == chunk_len by {
        assert(front[i] == buffers[i]);
    }
    lemma_chunk_stream_length(chunk_len, packets.drop_last(), front);
    lemma_chunk_stream_length(chunk_len, packets, buffers);
    assert(buffers.last() == buffers[n]);
    assert((n + 1) * chunk_len == n * chunk_len + chunk_len) by (nonlinear_arith);
    assert(0 <= k * chunk_len && k * chunk_len + chunk_len <= (n + 1) * chunk_len)
        by (nonlinear_arith)
        requires
            0 <= k <= n,
            0 <= chunk_len,
    ;
    if k < n {
        assert(k * chunk_len + chunk_len <= n * chunk_len) by (nonlinear_arith)
            requires
                0 <= k < n,
                0 <= chunk_len,
        ;
        lemma_chunk_stream_order(chunk_len, packets.drop_last(), front, k, j);
        assert(front[k] == buffers[k]);
    }
}

/// A stream of samples out of the Opus packets of a CAF file.
#[derive(Debug)]
pub struct OpusSourceCaf {
    metadata: OpusMeta,
    frames_per_packet: u32,
    samples: SampleIterator,
    awaiting: Option<u64>,
}

impl OpusSourceCaf {
    #[verifier::type_invariant]
    spec fn coherent(self) -> bool {
        &&& self.metadata.valid()
        &&& self.awaiting is Some ==> self.samples.state() == IterState::Empty
        &&& self.awaiting is Some ==> self.awaiting->Some_0 == self.frames_per_packet as int
            * self.metadata.channel_count as int
    }

    /// The record made when the stream was opened.
    pub closed spec fn meta(self) -> OpusMeta {
        self.metadata
    }

    /// The number of samples that every packet decodes to.
    pub closed spec fn chunk_len(self) -> int {
        self.frames_per_packet as int * self.metadata.channel_count as int
    }

    /// The state of the sample iterator.
    pub closed spec fn state(self) -> IterState {
        self.samples.state()
    }

    /// The samples decoded and not yet handed out.
    pub closed spec fn pending(self) -> Seq<u32> {
        self.samples.pending()
    }

    /// The length of the buffer that the packet being decoded is to fill.
    pub closed spec fn awaiting(self) -> Option<u64> {
        self.awaiting
    }

    /// Opens a stream from the audio description of a CAF file, as far as
    /// the file could be opened. A file that could not be opened is an
    /// `InvalidContainerFormat`; a track that is not Opus, or has more than
    /// two channels or none, an `InvalidAudioStream`.
    pub fn new(desc: Option<CafAudioDesc>) -> (r: Result<Self, OpusSourceError>)
        ensures
            desc is None ==> r is Err && r->Err_0 == OpusSourceError::InvalidContainerFormat,
            desc is Some && !desc->Some_0.is_opus() ==> r is Err && r->Err_0
                == OpusSourceError::InvalidAudioStream,
            desc is Some && desc->Some_0.is_opus() ==> r is Ok && r->Ok_0.meta()
                == desc->Some_0.meta() && r->Ok_0.chunk_len() == desc->Some_0.chunk_len()
                && r->Ok_0.state() == IterState::Empty && r->Ok_0.pending() == Seq::<u32>::empty()
                && r->Ok_0.awaiting() is None,
            r is Ok ==> r->Ok_0.meta().valid(),
    {
        match desc {
            None => Err(OpusSourceError::InvalidContainerFormat),
            Some(d) => {
                let opus: bool = match d.format_code {
                    Some(code) => code == OPUS_FORMAT_CODE,
                    None => false,
                };
                if !opus || (d.channels_per_frame != 1 && d.channels_per_frame != 2) {
                    Err(OpusSourceError::InvalidAudioStream)
                } else {
                    Ok(
                        OpusSourceCaf {
                            metadata: OpusMeta {
                                sample_rate: DECODED_SAMPLE_RATE,
                                channel_count: d.channels_per_frame as u8,
                                preskip: 0,
                                output_gain: 0,
                                num_frames: None,
                            },
                            frames_per_packet: d.frames_per_packet,
                            samples: SampleIterator::new(),
                            awaiting: None,
                        },
                    )
                }
            },
        }
    }

    /// The record made when the stream was opened. It never changes.
    pub fn metadata(&self) -> (m: OpusMeta)
        ensures
            m == self.meta(),
            m.valid(),
    {
        proof {
            use_type_invariant(&*self);
        }
        self.metadata
    }

    /// The number of samples that every packet decodes to: the frames of a
    /// packet times the channels.
    pub fn samples_per_packet(&self) -> (n: u64)
        ensures
            n == self.chunk_len(),
            n % (self.meta().channel_count as u64) == 0,
    {
        proof {
            use_type_invariant(&*self);
            assert(self.frames_per_packet as int * 1 % 1 == 0);
            assert(self.frames_per_packet as int * 2 % 2 == 0);
        }
        self.frames_per_packet as u64 * self.metadata.channel_count as u64
    }

    /// Computes `state`.
    pub fn current_state(&self) -> (s: IterState)
        ensures
            s == self.state(),
            s != IterState::Exhausted ==> s == state_holding(self.pending()),
    {
        self.samples.current_state()
    }

    /// Hands out the next sample, or tells that a packet is wanted, or that
    /// the stream has ended. After the end every call answers `End`.
    pub fn next_sample(&mut self) -> (p: Pull)
        ensures
            final(self).meta() == old(self).meta(),
            final(self).chunk_len() == old(self).chunk_len(),
            final(self).awaiting() == old(self).awaiting(),
            old(self).state() == IterState::Filled ==> {
                &&& old(self).pending().len() > 0
                &&& p == Pull::Sample(old(self).pending()[0])
                &&& final(self).pending() == old(self).pending().drop_first()
                &&& final(self).state() == state_holding(final(self).pending())
            },
            old(self).state() == IterState::Empty ==> p == Pull::NeedPacket && final(self).pending()
                == old(self).pending() && final(self).state() == IterState::Empty,
            old(self).state() == IterState::Exhausted ==> p == Pull::End && final(self).pending()
                == old(self).pending() && final(self).state() == IterState::Exhausted,
    {
        proof {
            use_type_invariant(&*self);
        }
        self.samples.pull()
    }

    /// Takes what the reader said when asked for a packet, and answers what
    /// to do with it. The end of the packets and a failed read both end the
    /// stream.
    pub fn on_read(&mut self, read: &PacketRead) -> (f: Fetch)
        ensures
            f == caf_fetch(old(self).state(), old(self).chunk_len() as u64, *read),
            final(self).meta() == old(self).meta(),
            final(self).chunk_len() == old(self).chunk_len(),
            final(self).pending() == old(self).pending(),
            final(self).awaiting() == awaited_by(f),
            final(self).state() == (if f == Fetch::Stop {
                IterState::Exhausted
            } else {
                old(self).state()
            }),
    {
        proof {
            use_type_invariant(&*self);
        }
        let n: u64 = self.samples_per_packet();
        match self.samples.current_state() {
            IterState::Filled => {
                self.awaiting = None;
                Fetch::Ignored
            },
            IterState::Exhausted => {
                self.awaiting = None;
                Fetch::Stop
            },
            IterState::Empty => {
                match read {
                    PacketRead::Packet(_) => {
                        self.awaiting = Some(n);
                        Fetch::Decode(n)
                    },
                    _ => {
                        self.awaiting = None;
                        self.samples.finish();
                        Fetch::Stop
                    },
                }
            },
        }
    }

    /// Takes what the codec said of the packet last handed on. A buffer of
    /// the awaited length becomes the pending samples; anything else is a
    /// `DecodeFailure` that leaves the samples as they were.
    pub fn on_decoded(&mut self, decoded: Decoded) -> (r: Result<(), OpusSourceError>)
        ensures
            final(self).meta() == old(self).meta(),
            final(self).chunk_len() == old(self).chunk_len(),
            final(self).awaiting() is None,
            r is Ok ==> final(self).pending().len() == final(self).chunk_len(),
            fills(old(self).awaiting(), decoded) ==> {
                &&& r == Ok::<(), OpusSourceError>(())
                &&& final(self).pending() == samples_of(decoded)
                &&& final(self).state() == state_holding(final(self).pending())
            },
            !fills(old(self).awaiting(), decoded) ==> {
                &&& r == Err::<(), OpusSourceError>(OpusSourceError::DecodeFailure)
                &&& final(self).pending() == old(self).pending()
                &&& final(self).state() == old(self).state()
            },
    {
        proof {
            use_type_invariant(&*self);
        }
        let awaiting: Option<u64> = self.awaiting;
        self.awaiting = None;
        install_decoded(&mut self.samples, awaiting, decoded)
    }

    /// Plays a file that was read and decoded beforehand: opens it on its
    /// audio description, takes each packet in turn with the buffer that the
    /// codec made of it, and collects every sample handed out until the
    /// packets end. A buffer of another length than `chunk_len` is a
    /// `DecodeFailure`.
    pub fn replay(desc: CafAudioDesc, packets: &Vec<Vec<u8>>, buffers: &Vec<Vec<u32>>) -> (r: Result<
        Vec<u32>,
        OpusSourceError,
    >)
        ensures
            !desc.is_opus() ==> r is Err && r->Err_0 == OpusSourceError::InvalidAudioStream,
            desc.is_opus() && !well_chunked(desc.chunk_len(), packets@, buffers@) ==> r is Err
                && r->Err_0 == OpusSourceError::DecodeFailure,
            desc.is_opus() && well_chunked(desc.chunk_len(), packets@, buffers@) ==> r is Ok
                && r->Ok_0@ == chunk_stream(buffers@) && r->Ok_0@.len() == packets@.len()
                * desc.chunk_len(),
    {
        let mut source: OpusSourceCaf = match OpusSourceCaf::new(Some(desc)) {
            Ok(source) => source,
            Err(e) => {
                return Err(e);
            },
        };
        if packets.len() != buffers.len() {
            return Err(OpusSourceError::DecodeFailure);
        }
        let mut out: Vec<u32> = Vec::new();
        let mut i: usize = 0;
        while i < packets.len()
            invariant
                desc.is_opus(),
                i <= packets@.len(),
                packets@.len() == buffers@.len(),
                source.state() == IterState::Empty,
                source.chunk_len() == desc.chunk_len(),
                0 <= desc.chunk_len() <= 0x1_ffff_fffe,
                well_chunked(desc.chunk_len(), packets@.take(i as int), buffers@.take(i as int)),
                out@ == chunk_stream(buffers@.take(i as int)),
            decreases packets@.len() - i,
        {
            let ghost prior = out@;
            let ghost next: int = i + 1;
            proof {
                assert(buffers@.take(next).drop_last() =~= buffers@.take(i as int));
                assert(buffers@.take(next).last() == buffers@[i as int]);
            }
            let read: PacketRead = PacketRead::Packet(slice_to_vec(packets[i].as_slice()));
            let fetch: Fetch = source.on_read(&read);
            let buffer: Vec<u32> = slice_to_vec(buffers[i].as_slice());
            match source.on_decoded(Decoded::Samples(buffer)) {
                Err(e) => {
                    proof {
                        assert(buffers@[i as int]@.len() != desc.chunk_len());
                    }
                    return Err(e);
                },
                Ok(()) => {},
            }
            while source.current_state() == IterState::Filled
                invariant
                    i < buffers@.len(),
                    source.state() != IterState::Exhausted,
                    source.chunk_len() == desc.chunk_len(),
                    out@ + source.pending() == prior + buffers@[i as int]@,
                decreases source.pending().len(),
            {
                let ghost before = source.pending();
                if let Pull::Sample(sample) = source.next_sample() {
                    out.push(sample);
                }
                proof {
                    assert(before =~= seq![before[0]] + before.drop_first());
                    assert(out@ + source.pending() =~= prior + buffers@[i as int]@);
                }
            }
            proof {
                assert(source.pending().len() == 0);
                assert(out@ =~= prior + buffers@[i as int]@);
                assert forall|k: int| 0 <= k < buffers@.take(next).len() implies (
                #[trigger] buffers@.take(next)[k])@.len() == desc.chunk_len() by {
                    if k < i {
                        assert(buffers@.take(i as int)[k] == buffers@.take(next)[k]);
                    }
                }
            }
            i += 1;
        }
        proof {
            assert(packets@.take(i as int) =~= packets@);
            assert(buffers@.take(i as int) =~= buffers@);
            lemma_chunk_stream_length(desc.chunk_len(), packets@, buffers@);
        }
        source.on_read(&PacketRead::End);
        Ok(out)
    }

    /// Seeking is not offered: every call fails with `SeekingNotSupported`
    /// and changes nothing.
    pub fn seek(&mut self, sample: u64) -> (r: Result<(), OpusSourceError>)
        ensures
            r == Err::<(), OpusSourceError>(OpusSourceError::SeekingNotSupported),
            *final(self) == *old(self),
    {
        Err(OpusSourceError::SeekingNotSupported)
    }
}

} // verus!
