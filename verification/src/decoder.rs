//! Frame normalization and code recognition.
//!
//! [`yuyv_to_gray`] turns a packed 4:2:2 luma/chroma frame into a plain
//! grayscale buffer; [`decode_image`] then tries QR recognition first and a
//! fixed allow-list of linear barcode symbologies second, through the rxing
//! readers.
use crate::error::ScannerError;
use crate::{CodeType, ScanResult};
use rxing::Reader;
use vstd::prelude::*;

verus! {

/// The grayscale buffer extracted from a packed YUYV frame: one pixel per
/// complete two-byte sample pair, in raster order, each pixel the luminance
/// byte at the pair's even offset. A torn frame shorter than
/// `2 * width * height` bytes simply yields fewer pixels; nothing is padded.
pub open spec fn gray_spec(data: Seq<u8>, width: int, height: int) -> Seq<u8> {
    let pixels = if width * height <= data.len() / 2 {
        width * height
    } else {
        data.len() as int / 2
    };
    Seq::new(pixels as nat, |i: int| data[2 * i])
}

/// Extract the grayscale image of a packed YUYV frame: the luminance byte of
/// each complete sample pair, up to `width * height` pixels. Extraction stops
/// silently at the end of a short buffer.
pub fn yuyv_to_gray(data: &[u8], width: u32, height: u32) -> (gray: Vec<u8>)
    ensures
        gray@ == gray_spec(data@, width as int, height as int),
{
    proof {
        lemma_u32_product_fits(width, height);
    }
    let total: u64 = (width as u64) * (height as u64);
    let half: usize = data.len() / 2;
    let mut gray: Vec<u8> = Vec::new();
    let mut i: usize = 0;
    while (i as u64) < total && i < half
        invariant
            total == width * height,
            half == data@.len() / 2,
            data@.len() <= usize::MAX,
            i <= half,
            i <= total,
            gray@.len() == i,
            forall|j: int| 0 <= j < i ==> gray@[j] == data@[2 * j],
        decreases total - i,
    {
        gray.push(data[2 * i]);
        i += 1;
    }
    proof {
        assert(gray@ =~= gray_spec(data@, width as int, height as int));
    }
    gray
}

/// Normalizer length law: a well-formed buffer of exactly
/// `2 * width * height` bytes normalizes to exactly `width * height`
/// pixels, each the byte at the corresponding even offset.
pub proof fn lemma_normalizer_full_frame(data: Seq<u8>, width: int, height: int)
    requires
        width >= 0,
        height >= 0,
        data.len() == 2 * (width * height),
    ensures
        gray_spec(data, width, height).len() == width * height,
        forall|i: int|
            0 <= i < width * height ==> gray_spec(data, width, height)[i] == data[2 * i],
{
}

/// Normalizer truncation law: a buffer shorter than `2 * width * height`
/// bytes normalizes to exactly half its length, rounded down, in valid
/// leading pixels — nothing is padded and nothing fails.
pub proof fn lemma_normalizer_truncation(data: Seq<u8>, width: int, height: int)
    requires
        width >= 0,
        height >= 0,
        data.len() < 2 * (width * height),
    ensures
        gray_spec(data, width, height).len() == data.len() / 2,
        forall|i: int|
            0 <= i < data.len() / 2 ==> gray_spec(data, width, height)[i] == data[2 * i],
{
}

/// The product of two 32-bit dimensions fits in 64 bits.
proof fn lemma_u32_product_fits(width: u32, height: u32)
    ensures
        0 <= (width as int) * (height as int) <= 0xffff_ffff * 0xffff_ffff,
{
    assert(0 <= (width as int) * (height as int) <= 0xffff_ffff * 0xffff_ffff)
        by (nonlinear_arith)
        requires
            0 <= width as int <= 0xffff_ffff,
            0 <= height as int <= 0xffff_ffff,
    ;
}

/// What rxing's QR reader, with the try-harder hint, reads out of a
/// grayscale image of the given dimensions: the decoded text, or nothing.
/// The result depends on the pixels and dimensions alone.
pub uninterp spec fn qr_text_of(pixels: Seq<u8>, width: int, height: int) -> Option<Seq<char>>;

/// What rxing's multi-format linear reader, restricted to the EAN-13, EAN-8,
/// Code 128 and Code 39 symbologies and given the try-harder hint, reads out
/// of a grayscale image of the given dimensions. The result depends on the
/// pixels and dimensions alone.
pub uninterp spec fn linear_text_of(pixels: Seq<u8>, width: int, height: int) -> Option<Seq<char>>;

/// Relies on rxing's `QRCodeReader`: recognition is a pure function of the
/// image, and a failed recognition is an `Err` value, never a panic.
#[verifier::external_body]
fn qr_decode(gray: &Vec<u8>, width: u32, height: u32) -> (r: Option<String>)
    requires
        gray@.len() == width * height,
        width >= 1,
        height >= 1,
    ensures
        match r {
            Some(text) => qr_text_of(gray@, width as int, height as int) == Some(text@),
            None => qr_text_of(gray@, width as int, height as int) is None,
        },
{
    let source = match rxing::Luma8LuminanceSource::new(gray.clone(), width, height) {
        Ok(s) => s,
        Err(_) => return None,
    };
    let hints = rxing::DecodeHints::default().with(rxing::DecodeHintValue::TryHarder(true));
    let mut bitmap = rxing::BinaryBitmap::new(rxing::common::HybridBinarizer::new(source));
    rxing::qrcode::QRCodeReader::new().decode_with_hints(&mut bitmap, &hints).ok().map(
        |res| res.getText().to_owned(),
    )
}

/// Relies on rxing's `MultiFormatOneDReader`: it tries the allowed
/// symbologies in a fixed order, recognition is a pure function of the
/// image, and a failed recognition is an `Err` value, never a panic.
#[verifier::external_body]
fn linear_decode(gray: &Vec<u8>, width: u32, height: u32) -> (r: Option<String>)
    requires
        gray@.len() == width * height,
        width >= 1,
        height >= 1,
    ensures
        match r {
            Some(text) => linear_text_of(gray@, width as int, height as int) == Some(text@),
            None => linear_text_of(gray@, width as int, height as int) is None,
        },
{
    let source = match rxing::Luma8LuminanceSource::new(gray.clone(), width, height) {
        Ok(s) => s,
        Err(_) => return None,
    };
    let formats = std::collections::HashSet::from([
        rxing::BarcodeFormat::EAN_13, rxing::BarcodeFormat::EAN_8,
        rxing::BarcodeFormat::CODE_128, rxing::BarcodeFormat::CODE_39,
    ]);
    let hints = rxing::DecodeHints::default().with(rxing::DecodeHintValue::TryHarder(true))
        .with(rxing::DecodeHintValue::PossibleFormats(formats));
    let mut bitmap = rxing::BinaryBitmap::new(rxing::common::HybridBinarizer::new(source));
    let mut reader = rxing::oned::MultiFormatOneDReader::new(&hints);
    reader.decode_with_hints(&mut bitmap, &hints).ok().map(|res| res.getText().to_owned())
}

/// What [`decode_image`] recognizes in a well-formed grayscale image: the QR
/// reading when there is one, else the linear barcode reading, else nothing.
pub open spec fn recognition_spec(pixels: Seq<u8>, width: int, height: int) -> Option<
    (Seq<char>, CodeType),
> {
    match qr_text_of(pixels, width, height) {
        Some(text) => Some((text, CodeType::QrCode)),
        None => match linear_text_of(pixels, width, height) {
            Some(text) => Some((text, CodeType::Barcode)),
            None => None,
        },
    }
}

/// Whether a grayscale buffer and the claimed dimensions form a well-formed
/// image: positive dimensions and exactly one byte per pixel.
pub open spec fn image_well_formed(pixels: Seq<u8>, width: int, height: int) -> bool {
    width >= 1 && height >= 1 && pixels.len() == width * height
}

/// Attempt recognition on a grayscale image: QR first, then the allowed
/// linear symbologies. Absence of a code is the routine `Ok(None)`; only a
/// malformed image (dimensions that do not match the buffer) is an error.
pub fn decode_image(gray: &[u8], width: u32, height: u32) -> (r: Result<
    Option<ScanResult>,
    ScannerError,
>)
    ensures
        image_well_formed(gray@, width as int, height as int) <==> r is Ok,
        r matches Ok(found) ==> match recognition_spec(gray@, width as int, height as int) {
            Some((text, kind)) => found matches Some(res) && res.code@ == text && res.code_type
                == kind,
            None => found is None,
        },
        r matches Err(e) ==> e is DecodeError,
{
    proof {
        lemma_u32_product_fits(width, height);
    }
    let len64: u64 = gray.len() as u64;
    if width == 0 || height == 0 || len64 != (width as u64) * (height as u64) {
        return Err(
            ScannerError::DecodeError(
                String::from_str("image dimensions do not match the buffer"),
            ),
        );
    }
    let pixels = vstd::slice::slice_to_vec(gray);
    if let Some(text) = qr_decode(&pixels, width, height) {
        return Ok(Some(ScanResult { code: text, code_type: CodeType::QrCode }));
    }
    if let Some(text) = linear_decode(&pixels, width, height) {
        return Ok(Some(ScanResult { code: text, code_type: CodeType::Barcode }));
    }
    Ok(None)
}

} // verus!
