//! Errors of the scanning pipeline.
//!
//! Per-frame recognition failures are not errors (absence of a code is the
//! routine outcome); these variants cover the device, image handling, true
//! decode faults such as malformed dimensions, and plain I/O, each carrying
//! its detail as text.
use vstd::prelude::*;

verus! {

/// A fault of the scanning pipeline. Device and I/O faults are fatal for a
/// scan loop; a decode fault concerns one frame only.
#[derive(Debug)]
pub enum ScannerError {
    DeviceError(String),
    ImageError(String),
    DecodeError(String),
    IoError(String),
}

impl ScannerError {
    /// A readable description: a fixed prefix naming the fault's area,
    /// then the detail text.
    pub fn message(&self) -> (r: String)
        ensures
            r@ == self.message_spec(),
    {
        match self {
            ScannerError::DeviceError(s) => String::from_str("camera device error: ").concat(
                s.as_str(),
            ),
            ScannerError::ImageError(s) => String::from_str("image processing error: ").concat(
                s.as_str(),
            ),
            ScannerError::DecodeError(s) => String::from_str("decode error: ").concat(s.as_str()),
            ScannerError::IoError(s) => String::from_str("io error: ").concat(s.as_str()),
        }
    }

    pub open spec fn message_spec(&self) -> Seq<char> {
        match self {
            ScannerError::DeviceError(s) => "camera device error: "@ + s@,
            ScannerError::ImageError(s) => "image processing error: "@ + s@,
            ScannerError::DecodeError(s) => "decode error: "@ + s@,
            ScannerError::IoError(s) => "io error: "@ + s@,
        }
    }
}

} // verus!
