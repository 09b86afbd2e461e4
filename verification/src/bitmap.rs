use vstd::prelude::*;

use crate::error::PdfiumError;

verus! {

/// A clockwise rotation applied to a page when it is rendered.
#[derive(Debug, Clone, Copy, PartialEq, Eq, Structural)]
pub enum PdfBitmapRotation {
    Degrees0,
    Degrees90,
    Degrees180,
    Degrees270,
}

/// The rotation code that Pdfium uses for each rotation: 0, 1, 2 and 3 quarter turns.
pub open spec fn spec_rotation_code(rotation: PdfBitmapRotation) -> i32 {
    match rotation {
        PdfBitmapRotation::Degrees0 => 0,
        PdfBitmapRotation::Degrees90 => 1,
        PdfBitmapRotation::Degrees180 => 2,
        PdfBitmapRotation::Degrees270 => 3,
    }
}

/// The rotation that a Pdfium rotation code stands for: 0, 1, 2 and 3 quarter turns; any other
/// code is refused.
pub open spec fn spec_rotation_from_code(code: i32) -> Result<PdfBitmapRotation, PdfiumError> {
    if code == 0 {
        Ok(PdfBitmapRotation::Degrees0)
    } else if code == 1 {
        Ok(PdfBitmapRotation::Degrees90)
    } else if code == 2 {
        Ok(PdfBitmapRotation::Degrees180)
    } else if code == 3 {
        Ok(PdfBitmapRotation::Degrees270)
    } else {
        Err(PdfiumError::UnknownBitmapRotation)
    }
}

/// The Pdfium bitmap format used where none, or an unknown one, is configured: four bytes
/// per pixel in blue, green, red, alpha order.
pub const DEFAULT_BITMAP_FORMAT: i32 = 4;

/// Whether a Pdfium bitmap format code names a known format: gray (1), BGR (2), BGRx (3) or
/// BGRA (4).
pub open spec fn spec_is_known_bitmap_format(code: i32) -> bool {
    1 <= code <= 4
}

/// The bitmap format to create a bitmap in, given the configured format code: that format
/// where it is known, otherwise the default format.
pub fn bitmap_format_or_default(code: i32) -> (format: i32)
    ensures
        format == (if spec_is_known_bitmap_format(code) {
            code
        } else {
            DEFAULT_BITMAP_FORMAT
        }),
        spec_is_known_bitmap_format(format),
{
    if 1 <= code && code <= 4 {
        code
    } else {
        DEFAULT_BITMAP_FORMAT
    }
}

impl PdfBitmapRotation {
    /// The rotation that Pdfium's rotation code stands for, or an error for a code that
    /// stands for none of the four rotations.
    pub fn from_pdfium(code: i32) -> (result: Result<PdfBitmapRotation, PdfiumError>)
        ensures
            result == spec_rotation_from_code(code),
    {
        if code == 0 {
            Ok(PdfBitmapRotation::Degrees0)
        } else if code == 1 {
            Ok(PdfBitmapRotation::Degrees90)
        } else if code == 2 {
            Ok(PdfBitmapRotation::Degrees180)
        } else if code == 3 {
            Ok(PdfBitmapRotation::Degrees270)
        } else {
            Err(PdfiumError::UnknownBitmapRotation)
        }
    }

    /// Pdfium's rotation code for this rotation.
    pub fn as_pdfium(&self) -> (code: i32)
        ensures
            code == spec_rotation_code(*self),
    {
        match self {
            PdfBitmapRotation::Degrees0 => 0,
            PdfBitmapRotation::Degrees90 => 1,
            PdfBitmapRotation::Degrees180 => 2,
            PdfBitmapRotation::Degrees270 => 3,
        }
    }
}

/// Reading back the code of a rotation gives that rotation.
pub proof fn lemma_rotation_code_round_trip(rotation: PdfBitmapRotation)
    ensures
        spec_rotation_from_code(spec_rotation_code(rotation)) == Ok::<PdfBitmapRotation, PdfiumError>(
            rotation,
        ),
{
}

/// A code is accepted exactly when it is one of the four rotation codes, and the rotation it
/// stands for has that code.
pub proof fn lemma_rotation_codes_accepted(code: i32)
    ensures
        spec_rotation_from_code(code) is Ok <==> 0 <= code <= 3,
        spec_rotation_from_code(code) matches Ok(r) ==> spec_rotation_code(r) == code,
{
}

} // verus!
