//! Core of a code-scanning kiosk: normalize captured frames to grayscale,
//! recognize barcodes and QR codes in them, suppress duplicate consecutive
//! recognitions, and fan the resulting events out to any number of
//! subscribers.
//!
//! Frame acquisition, the HTTP server and the websocket transport live
//! outside this crate; the library works on plain frame bytes and event
//! values handed in and out by that surrounding layer.
use vstd::prelude::*;

pub mod decoder;
pub mod error;
pub mod fanout;
pub mod scan;
pub mod session;
pub mod wire;

pub use error::ScannerError;

verus! {

/// The kind of code recognized in a frame: a one-dimensional linear barcode
/// or a two-dimensional QR matrix code.
#[derive(Debug, Clone, Copy, PartialEq, Eq, Structural)]
pub enum CodeType {
    Barcode,
    QrCode,
}

impl CodeType {
    /// The fixed wire label for this kind of code, used as the type tag of
    /// every emitted event message.
    pub fn label(&self) -> (r: String)
        ensures
            r@ == self.label_spec(),
    {
        match self {
            CodeType::Barcode => String::from_str("BARCODE"),
            CodeType::QrCode => String::from_str("QR"),
        }
    }

    pub open spec fn label_spec(&self) -> Seq<char> {
        match self {
            CodeType::Barcode => "BARCODE"@,
            CodeType::QrCode => "QR"@,
        }
    }
}

/// One successful recognition: the decoded text and the kind of code it was
/// read from.
#[derive(Debug)]
pub struct ScanResult {
    pub code: String,
    pub code_type: CodeType,
}

impl Clone for ScanResult {
    fn clone(&self) -> (r: Self)
        ensures
            r == *self,
    {
        ScanResult { code: self.code.clone(), code_type: self.code_type }
    }
}

/// The transmittable form of a [`ScanResult`]: the fixed type label and the
/// decoded text, the two fields of every event message sent to a client.
#[derive(Debug)]
pub struct ScanEvent {
    pub type_label: String,
    pub code: String,
}

/// The mathematical value of a [`ScanEvent`]: its two fields as character
/// sequences.
pub ghost struct EventV {
    pub label: Seq<char>,
    pub code: Seq<char>,
}

impl View for ScanEvent {
    type V = EventV;

    open spec fn view(&self) -> EventV {
        EventV { label: self.type_label@, code: self.code@ }
    }
}

impl Clone for ScanEvent {
    fn clone(&self) -> (r: Self)
        ensures
            r == *self,
    {
        ScanEvent { type_label: self.type_label.clone(), code: self.code.clone() }
    }
}

impl ScanEvent {
    /// Package a recognition as the event message value that is published:
    /// the kind's fixed label and the decoded text.
    pub fn of_result(result: &ScanResult) -> (r: Self)
        ensures
            r@.label == result.code_type.label_spec(),
            r@.code == result.code@,
    {
        ScanEvent { type_label: result.code_type.label(), code: result.code.clone() }
    }
}

} // verus!
