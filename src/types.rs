use vstd::prelude::*;

verus! {

/// An audio input device, by name.
#[derive(Debug)]
pub struct InputDevice {
    pub name: String,
}

/// The text recognised from a snapshot, and the snapshot it came from.
#[derive(Debug)]
pub struct RecognitionResult {
    pub text: String,
    pub audio_path: String,
}

} // verus!
