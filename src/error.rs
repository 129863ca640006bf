use vstd::prelude::*;

verus! {

/// What can go wrong between opening a device and handing a recording on.
#[derive(Clone, Copy, Debug, PartialEq, Eq, Structural)]
pub enum AudioError {
    DeviceNotFound,
    UnsupportedFormat,
    StreamCreationFailed,
    AlreadyRecording,
    NotRecording,
    EmptyRecording,
    QueueFull,
    SnapshotWriteFailed,
}

impl AudioError {
    /// A short description for logs and for the user interface.
    pub fn message(&self) -> (r: &'static str)
        ensures
            r@ == audio_error_text(*self),
    {
        match self {
            AudioError::DeviceNotFound => "Device not found",
            AudioError::UnsupportedFormat => "Unsupported sample format",
            AudioError::StreamCreationFailed => "Stream creation failed",
            AudioError::AlreadyRecording => "Already recording",
            AudioError::NotRecording => "Recording is not in progress",
            AudioError::EmptyRecording => "No audio data recorded",
            AudioError::QueueFull => "Processing queue is full",
            AudioError::SnapshotWriteFailed => "Snapshot write failed",
        }
    }
}

pub open spec fn audio_error_text(e: AudioError) -> Seq<char> {
    match e {
        AudioError::DeviceNotFound => "Device not found"@,
        AudioError::UnsupportedFormat => "Unsupported sample format"@,
        AudioError::StreamCreationFailed => "Stream creation failed"@,
        AudioError::AlreadyRecording => "Already recording"@,
        AudioError::NotRecording => "Recording is not in progress"@,
        AudioError::EmptyRecording => "No audio data recorded"@,
        AudioError::QueueFull => "Processing queue is full"@,
        AudioError::SnapshotWriteFailed => "Snapshot write failed"@,
    }
}

/// Failures of model setup.
#[derive(Debug)]
pub enum AppError {
    IoError(String),
    InvalidModel(String),
}

pub open spec fn app_error_text(e: AppError) -> Seq<char> {
    match e {
        AppError::IoError(m) => "IO error: "@ + m@,
        AppError::InvalidModel(m) => "Invalid model: "@ + m@,
    }
}

impl AppError {
    /// The description of the failure, with its detail.
    pub fn message(&self) -> (r: String)
        ensures
            r@ == app_error_text(*self),
    {
        match self {
            AppError::IoError(m) => String::from_str("IO error: ").concat(m.as_str()),
            AppError::InvalidModel(m) => String::from_str("Invalid model: ").concat(m.as_str()),
        }
    }
}

} // verus!
