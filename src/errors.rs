use vstd::prelude::*;

verus! {

/// The two ways a panel operation can fail.
#[derive(Debug, Clone, Copy, PartialEq, Eq, Structural)]
pub enum ScreenError {
    /// A write to the transport failed.
    WriteError,
    /// The pixel buffer is not 320x480 or 480x320.
    WrongImageSize,
}

impl ScreenError {
    /// Human-readable description of the error.
    pub fn message(&self) -> (r: &'static str) {
        match self {
            ScreenError::WriteError => "Error writing data to screen",
            ScreenError::WrongImageSize => "Wrong image size; must be 320x480 or 480x320",
        }
    }
}

} // verus!
