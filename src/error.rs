use vstd::prelude::*;

verus! {

/// Everything that can go wrong while starting or stopping a recording.
#[derive(Clone, Copy, Debug, PartialEq, Eq, Structural)]
pub enum RecorderError {
    /// The host reports no input device at all.
    NoDeviceFound,
    /// The device's default sample format is neither 16-bit integer nor 32-bit float.
    UnsupportedFormat,
    /// The host could not list its devices or a device could not report its configuration.
    DeviceQueryFailed,
    /// The output file could not be created.
    FileCreateFailed,
    /// The encoder could not write the file header.
    EncoderInitFailed,
    /// The input stream could not be built.
    StreamBuildFailed,
    /// The input stream could not be started.
    StreamStartFailed,
    /// `stop` was asked for while no session is active.
    NotRecording,
    /// `start` was asked for while a session is already active.
    AlreadyRecording,
    /// The capture callback still held the sink when the session was finalised.
    SinkOwnershipFailed,
    /// The encoder could not flush and close the file.
    EncoderFinalizeFailed,
    /// The encoder refused some of the captured samples.
    PartialRecordingFailure,
}

/// The human-readable text shown to the caller for each error.
pub open spec fn message_text(e: RecorderError) -> Seq<char> {
    match e {
        RecorderError::NoDeviceFound => "no input device found"@,
        RecorderError::UnsupportedFormat => "unsupported sample format"@,
        RecorderError::DeviceQueryFailed => "could not query the input devices"@,
        RecorderError::FileCreateFailed => "could not create the output file"@,
        RecorderError::EncoderInitFailed => "could not open the encoder"@,
        RecorderError::StreamBuildFailed => "could not build the input stream"@,
        RecorderError::StreamStartFailed => "could not start the input stream"@,
        RecorderError::NotRecording => "no recording in progress"@,
        RecorderError::AlreadyRecording => "a recording is already in progress"@,
        RecorderError::SinkOwnershipFailed => "could not take ownership of the writer"@,
        RecorderError::EncoderFinalizeFailed => "could not finalize the output file"@,
        RecorderError::PartialRecordingFailure => "some samples could not be written"@,
    }
}

impl RecorderError {
    /// The message that the caller displays for this error.
    pub fn message(&self) -> (r: &'static str)
        ensures
            r@ == message_text(*self),
    {
        match self {
            RecorderError::NoDeviceFound => "no input device found",
            RecorderError::UnsupportedFormat => "unsupported sample format",
            RecorderError::DeviceQueryFailed => "could not query the input devices",
            RecorderError::FileCreateFailed => "could not create the output file",
            RecorderError::EncoderInitFailed => "could not open the encoder",
            RecorderError::StreamBuildFailed => "could not build the input stream",
            RecorderError::StreamStartFailed => "could not start the input stream",
            RecorderError::NotRecording => "no recording in progress",
            RecorderError::AlreadyRecording => "a recording is already in progress",
            RecorderError::SinkOwnershipFailed => "could not take ownership of the writer",
            RecorderError::EncoderFinalizeFailed => "could not finalize the output file",
            RecorderError::PartialRecordingFailure => "some samples could not be written",
        }
    }
}

} // verus!
