use vstd::prelude::*;

verus! {

/// An error reported by the Pdfium library itself after a failed call.
#[derive(Debug, Clone, Copy, PartialEq, Eq, Structural)]
pub enum PdfiumInternalError {
    Unknown,
    FileError,
    FormatError,
    PasswordError,
    SecurityError,
    PageError,
}

/// The errors that page operations can return.
#[derive(Debug, Clone, Copy, PartialEq, Eq, Structural)]
pub enum PdfiumError {
    /// The page has no embedded thumbnail.
    PageMissingEmbeddedThumbnail,
    /// Pdfium reported that flattening the page failed.
    PageFlattenFailure,
    /// The page could not be found in the page index cache.
    SourcePageIndexNotInCache,
    /// Pdfium returned a rotation code outside the four known rotations.
    UnknownBitmapRotation,
    /// An image could not be produced from a bitmap.
    ImageError,
    /// Pdfium reported an internal error.
    PdfiumLibraryInternalError(PdfiumInternalError),
}

/// The error that a failed call reports, given what Pdfium's last-error query returned:
/// the reported error, or `Unknown` where Pdfium reported none.
pub open spec fn spec_error_from_last_error(last_error: Option<PdfiumInternalError>) -> PdfiumError {
    PdfiumError::PdfiumLibraryInternalError(
        match last_error {
            Some(e) => e,
            None => PdfiumInternalError::Unknown,
        },
    )
}

/// The outcome of a Pdfium call that returns a boolean: success when the boolean is true
/// (non-zero), otherwise the error Pdfium's last-error query reported, or `Unknown`.
pub open spec fn spec_pdfium_bool_result(result: i32, last_error: Option<PdfiumInternalError>) -> Result<(), PdfiumError> {
    if result != 0 {
        Ok(())
    } else {
        Err(spec_error_from_last_error(last_error))
    }
}

/// The error that Pdfium's last-error code stands for: none for code 0 (success), the
/// matching error for codes 1 to 6 (unknown, file, format, password, security, page), and
/// `Unknown` for any other code.
pub open spec fn spec_error_from_code(code: u64) -> Option<PdfiumInternalError> {
    if code == 0 {
        None
    } else if code == 2 {
        Some(PdfiumInternalError::FileError)
    } else if code == 3 {
        Some(PdfiumInternalError::FormatError)
    } else if code == 4 {
        Some(PdfiumInternalError::PasswordError)
    } else if code == 5 {
        Some(PdfiumInternalError::SecurityError)
    } else if code == 6 {
        Some(PdfiumInternalError::PageError)
    } else {
        Some(PdfiumInternalError::Unknown)
    }
}

impl PdfiumInternalError {
    /// The error, if any, that the code returned by Pdfium's last-error query stands for.
    pub fn from_last_error_code(code: u64) -> (result: Option<PdfiumInternalError>)
        ensures
            result == spec_error_from_code(code),
            result is None <==> code == 0,
    {
        if code == 0 {
            None
        } else if code == 2 {
            Some(PdfiumInternalError::FileError)
        } else if code == 3 {
            Some(PdfiumInternalError::FormatError)
        } else if code == 4 {
            Some(PdfiumInternalError::PasswordError)
        } else if code == 5 {
            Some(PdfiumInternalError::SecurityError)
        } else if code == 6 {
            Some(PdfiumInternalError::PageError)
        } else {
            Some(PdfiumInternalError::Unknown)
        }
    }
}

/// Whether a Pdfium call that returns a boolean failed: exactly when the boolean is false
/// (zero). Only then is Pdfium's last-error query consulted.
pub fn pdfium_call_failed(result: i32) -> (failed: bool)
    ensures
        failed == (result == 0),
{
    result == 0
}

/// When a Pdfium call succeeded, its outcome does not depend on what Pdfium's last-error
/// query would report, so the query need not be made.
pub proof fn lemma_success_ignores_last_error(
    result: i32,
    last_error: Option<PdfiumInternalError>,
)
    requires
        result != 0,
    ensures
        spec_pdfium_bool_result(result, last_error) == spec_pdfium_bool_result(result, None),
        spec_pdfium_bool_result(result, last_error) == Ok::<(), PdfiumError>(()),
{
}

/// The outcome of fetching a rectangle from Pdfium, given the boolean the call returned and
/// what Pdfium's last-error query reported: the rectangle is taken exactly when the boolean
/// is true.
pub fn rect_result_from_pdfium(result: i32, last_error: Option<PdfiumInternalError>) -> (r: Result<(), PdfiumError>)
    ensures
        r == spec_pdfium_bool_result(result, last_error),
{
    if result == 0 {
        Err(PdfiumError::from_last_error(last_error))
    } else {
        Ok(())
    }
}

impl PdfiumError {
    /// The error for a call that Pdfium signalled as failed (a null handle or a false result),
    /// given what Pdfium's last-error query returned afterwards.
    pub fn from_last_error(last_error: Option<PdfiumInternalError>) -> (result: PdfiumError)
        ensures
            result == spec_error_from_last_error(last_error),
    {
        match last_error {
            Some(e) => PdfiumError::PdfiumLibraryInternalError(e),
            None => PdfiumError::PdfiumLibraryInternalError(PdfiumInternalError::Unknown),
        }
    }

    /// The outcome of a call whose failure is signalled only through Pdfium's last-error query:
    /// success when no error was reported, otherwise the reported error.
    pub fn check_last_error(last_error: Option<PdfiumInternalError>) -> (result: Result<(), PdfiumError>)
        ensures
            last_error is None <==> result is Ok,
            result == (match last_error {
                Some(e) => Err(PdfiumError::PdfiumLibraryInternalError(e)),
                None => Ok(()),
            }),
    {
        match last_error {
            Some(e) => Err(PdfiumError::PdfiumLibraryInternalError(e)),
            None => Ok(()),
        }
    }
}

} // verus!
