//! The control byte that opens every packet of a length-prefixed stream.
use vstd::prelude::*;
use crate::bits::{bit_at, bits_value, place_value, reader_new, reader_read_u8};

verus! {

/// How much time the audio of one packet covers.
#[derive(Debug, Clone, Copy, PartialEq, Eq, Structural)]
pub enum FrameDuration {
    /// 2.5 ms
    Ms2p5,
    /// 5 ms
    Ms5,
    /// 10 ms
    Ms10,
    /// 20 ms
    Ms20,
    /// 40 ms
    Ms40,
    /// 60 ms
    Ms60,
}

impl FrameDuration {
    /// The duration in microseconds.
    pub open spec fn micros(self) -> int {
        match self {
            FrameDuration::Ms2p5 => 2_500,
            FrameDuration::Ms5 => 5_000,
            FrameDuration::Ms10 => 10_000,
            FrameDuration::Ms20 => 20_000,
            FrameDuration::Ms40 => 40_000,
            FrameDuration::Ms60 => 60_000,
        }
    }

    /// Computes `micros`.
    pub fn microseconds(&self) -> (n: u32)
        ensures
            n == self.micros(),
            2_500 <= n <= 60_000,
    {
        match self {
            FrameDuration::Ms2p5 => 2_500,
            FrameDuration::Ms5 => 5_000,
            FrameDuration::Ms10 => 10_000,
            FrameDuration::Ms20 => 20_000,
            FrameDuration::Ms40 => 40_000,
            FrameDuration::Ms60 => 60_000,
        }
    }
}

/// The number of samples that one channel carries in a frame of `duration`
/// at `sample_rate`: the rate times the duration, in whole samples.
pub open spec fn frame_samples_spec(sample_rate: u32, duration: FrameDuration) -> int {
    sample_rate as int * duration.micros() / 1_000_000
}

/// The configuration number of a control byte: its five highest bits.
pub open spec fn config_of(toc: u8) -> int {
    toc as int / 8
}

/// Whether a control byte announces a stereo frame: its third lowest bit.
pub open spec fn stereo_of(toc: u8) -> bool {
    (toc as int / 4) % 2 == 1
}

/// The frame duration of each configuration number from 0 to 31. The first
/// twelve run through 10, 20, 40 and 60 ms in groups of four, the next four
/// through 10 and 20 ms in groups of two, the last sixteen through 2.5, 5, 10
/// and 20 ms in groups of four.
pub open spec fn duration_of_config(config: int) -> FrameDuration {
    if config < 12 {
        if config % 4 == 0 {
            FrameDuration::Ms10
        } else if config % 4 == 1 {
            FrameDuration::Ms20
        } else if config % 4 == 2 {
            FrameDuration::Ms40
        } else {
            FrameDuration::Ms60
        }
    } else if config < 16 {
        if config % 2 == 0 {
            FrameDuration::Ms10
        } else {
            FrameDuration::Ms20
        }
    } else {
        if config % 4 == 0 {
            FrameDuration::Ms2p5
        } else if config % 4 == 1 {
            FrameDuration::Ms5
        } else if config % 4 == 2 {
            FrameDuration::Ms10
        } else {
            FrameDuration::Ms20
        }
    }
}

/// The number of samples that a packet decodes to at `sample_rate`: the
/// samples of one channel in one frame, doubled for a stereo frame.
pub open spec fn expected_samples_spec(sample_rate: u32, duration: FrameDuration, stereo: bool) -> int {
    frame_samples_spec(sample_rate, duration) * (if stereo { 2int } else { 1int })
}

proof fn lemma_leading_bits(bytes: Seq<u8>)
    requires
        bytes.len() >= 1,
    ensures
        bits_value(bytes, 0, 5) == config_of(bytes[0]),
        bits_value(bytes, 5, 1) == (bytes[0] as int / 4) % 2,
{
    let b: int = bytes[0] as int;
    reveal_with_fuel(bits_value, 6);
    assert(bit_at(bytes, 0) == (b / 128) % 2);
    assert(bit_at(bytes, 1) == (b / 64) % 2);
    assert(bit_at(bytes, 2) == (b / 32) % 2);
    assert(bit_at(bytes, 3) == (b / 16) % 2);
    assert(bit_at(bytes, 4) == (b / 8) % 2);
    assert(bit_at(bytes, 5) == (b / 4) % 2);
    assert(place_value(2) == 4);
}

/// Every control byte has a configuration number from 0 to 31, and every
/// such number has its duration: 10 ms for 0, 4, 8, 12, 14, 18, 22, 26 and
/// 30; 20 ms for 1, 5, 9, 13, 15, 19, 23, 27 and 31; 40 ms for 2, 6 and 10;
/// 60 ms for 3, 7 and 11; 2.5 ms for 16, 20, 24 and 28; 5 ms for 17, 21, 25
/// and 29.
pub proof fn lemma_duration_table(toc: u8)
    ensures
        0 <= config_of(toc) < 32,
        duration_of_config(config_of(toc)) == FrameDuration::Ms10 <==> (config_of(toc) == 0
            || config_of(toc) == 4 || config_of(toc) == 8 || config_of(toc) == 12 || config_of(toc)
            == 14 || config_of(toc) == 18 || config_of(toc) == 22 || config_of(toc) == 26
            || config_of(toc) == 30),
        duration_of_config(config_of(toc)) == FrameDuration::Ms20 <==> (config_of(toc) == 1
            || config_of(toc) == 5 || config_of(toc) == 9 || config_of(toc) == 13 || config_of(toc)
            == 15 || config_of(toc) == 19 || config_of(toc) == 23 || config_of(toc) == 27
            || config_of(toc) == 31),
        duration_of_config(config_of(toc)) == FrameDuration::Ms40 <==> (config_of(toc) == 2
            || config_of(toc) == 6 || config_of(toc) == 10),
        duration_of_config(config_of(toc)) == FrameDuration::Ms60 <==> (config_of(toc) == 3
            || config_of(toc) == 7 || config_of(toc) == 11),
        duration_of_config(config_of(toc)) == FrameDuration::Ms2p5 <==> (config_of(toc) == 16
            || config_of(toc) == 20 || config_of(toc) == 24 || config_of(toc) == 28),
        duration_of_config(config_of(toc)) == FrameDuration::Ms5 <==> (config_of(toc) == 17
            || config_of(toc) == 21 || config_of(toc) == 25 || config_of(toc) == 29),
{
}

/// At the decoder's rate a frame carries 120, 240, 480, 960, 1920 or 2880
/// samples for each channel, by its duration.
pub proof fn lemma_frame_samples(d: FrameDuration)
    ensures
        frame_samples_spec(48_000, d) == (match d {
            FrameDuration::Ms2p5 => 120int,
            FrameDuration::Ms5 => 240int,
            FrameDuration::Ms10 => 480int,
            FrameDuration::Ms20 => 960int,
            FrameDuration::Ms40 => 1920int,
            FrameDuration::Ms60 => 2880int,
        }),
{
}

/// At the decoder's rate every packet decodes to a whole number of sample
/// pairs, so that its buffer divides evenly among one or two channels.
pub proof fn lemma_expected_samples_even(toc: u8)
    ensures
        expected_samples_spec(48_000, duration_of_config(config_of(toc)), stereo_of(toc)) % 2 == 0,
        0 < expected_samples_spec(48_000, duration_of_config(config_of(toc)), stereo_of(toc))
            <= 5760,
{
    lemma_frame_samples(duration_of_config(config_of(toc)));
}

/// Splits a control byte into its configuration number and its stereo flag.
pub fn toc_fields(toc: u8) -> (r: (u8, bool))
    ensures
        r.0 == config_of(toc),
        r.1 == stereo_of(toc),
        r.0 < 32,
{
    let first: Vec<u8> = vec![toc];
    let mut reader = reader_new(first.as_slice());
    proof {
        lemma_leading_bits(first@);
    }
    let c: u8 = reader_read_u8(&mut reader, 5).unwrap();
    let s: u8 = reader_read_u8(&mut reader, 1).unwrap();
    (c, s != 0)
}

/// The frame duration that a configuration number stands for.
pub fn frame_duration(config: u8) -> (d: FrameDuration)
    requires
        config < 32,
    ensures
        d == duration_of_config(config as int),
{
    match config {
        0 | 4 | 8 | 12 | 14 | 18 | 22 | 26 | 30 => FrameDuration::Ms10,
        1 | 5 | 9 | 13 | 15 | 19 | 23 | 27 | 31 => FrameDuration::Ms20,
        2 | 6 | 10 => FrameDuration::Ms40,
        3 | 7 | 11 => FrameDuration::Ms60,
        16 | 20 | 24 | 28 => FrameDuration::Ms2p5,
        _ => FrameDuration::Ms5,
    }
}

/// Classifies a packet by its control byte: the duration of its frame and
/// whether the frame is stereo.
pub fn classify(toc: u8) -> (r: (FrameDuration, bool))
    ensures
        r.0 == duration_of_config(config_of(toc)),
        r.1 == stereo_of(toc),
{
    let (config, stereo) = toc_fields(toc);
    (frame_duration(config), stereo)
}

/// The length of the buffer that a packet with control byte `toc` decodes
/// into at `sample_rate`.
pub fn expected_samples(sample_rate: u32, toc: u8) -> (n: u32)
    ensures
        n == expected_samples_spec(sample_rate, duration_of_config(config_of(toc)), stereo_of(toc)),
{
    let (duration, stereo) = classify(toc);
    let micros: u64 = duration.microseconds() as u64;
    proof {
        assert(0 <= sample_rate as int * micros as int <= 0xffff_ffff * 60_000) by (nonlinear_arith)
            requires
                0 <= sample_rate as int <= 0xffff_ffff,
                0 <= micros as int <= 60_000,
        ;
    }
    let product: u64 = sample_rate as u64 * micros;
    let per_channel: u32 = (product / 1_000_000) as u32;
    if stereo {
        per_channel * 2
    } else {
        per_channel
    }
}

} // verus!
