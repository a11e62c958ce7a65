//! The failures a stream can report.
use vstd::prelude::*;

verus! {

/// Why a stream could not be opened or could not hand out a sample.
#[derive(Debug, Clone, Copy, PartialEq, Eq, Structural)]
pub enum OpusSourceError {
    /// The container holds audio that is not Opus.
    InvalidAudioStream,
    /// The bytes are not the expected container.
    InvalidContainerFormat,
    /// An identification packet is malformed.
    InvalidHeaderData,
    /// The container reader failed while reading a packet.
    ContainerReadError,
    /// The codec rejected a packet.
    DecodeFailure,
    /// Seeking was asked for.
    SeekingNotSupported,
    /// A sample was asked for after the stream ended.
    EndOfDataStream,
}

impl OpusSourceError {
    /// The text shown for each failure.
    pub open spec fn message_spec(self) -> Seq<char> {
        match self {
            OpusSourceError::InvalidAudioStream => "Audio stream is not Opus format"@,
            OpusSourceError::InvalidContainerFormat => "Invalid container format"@,
            OpusSourceError::InvalidHeaderData => "Invalid header data"@,
            OpusSourceError::ContainerReadError => "Container read error"@,
            OpusSourceError::DecodeFailure => "Packet could not be decoded"@,
            OpusSourceError::SeekingNotSupported => "Seeking not supported"@,
            OpusSourceError::EndOfDataStream => "End of data stream"@,
        }
    }

    /// Renders the failure as text.
    pub fn message(&self) -> (s: String)
        ensures
            s@ == self.message_spec(),
    {
        match self {
            OpusSourceError::InvalidAudioStream => "Audio stream is not Opus format".to_owned(),
            OpusSourceError::InvalidContainerFormat => "Invalid container format".to_owned(),
            OpusSourceError::InvalidHeaderData => "Invalid header data".to_owned(),
            OpusSourceError::ContainerReadError => "Container read error".to_owned(),
            OpusSourceError::DecodeFailure => "Packet could not be decoded".to_owned(),
            OpusSourceError::SeekingNotSupported => "Seeking not supported".to_owned(),
            OpusSourceError::EndOfDataStream => "End of data stream".to_owned(),
        }
    }
}

} // verus!
