use pdfium_render::bitmap::PdfBitmapRotation;
use pdfium_render::bitmap::bitmap_format_or_default;
use pdfium_render::error::{pdfium_call_failed, rect_result_from_pdfium, PdfiumError, PdfiumInternalError};
use pdfium_render::page::{
    PdfPage, PdfPageContentAction, PdfPageContentRegenerationStrategy, FLATTEN_FAIL,
    FLATTEN_NOTHINGTODO, FLATTEN_SUCCESS,
};

#[test]
fn last_error_outcomes() {
    assert_eq!(
        PdfiumError::from_last_error(None),
        PdfiumError::PdfiumLibraryInternalError(PdfiumInternalError::Unknown)
    );
    assert_eq!(
        PdfiumError::from_last_error(Some(PdfiumInternalError::FormatError)),
        PdfiumError::PdfiumLibraryInternalError(PdfiumInternalError::FormatError)
    );
    assert_eq!(PdfiumError::check_last_error(None), Ok(()));
    assert_eq!(
        PdfiumError::check_last_error(Some(PdfiumInternalError::FileError)),
        Err(PdfiumError::PdfiumLibraryInternalError(PdfiumInternalError::FileError))
    );
}

#[test]
fn rotation_codes() {
    assert_eq!(PdfPage::rotation(0), Ok(PdfBitmapRotation::Degrees0));
    assert_eq!(PdfPage::rotation(1), Ok(PdfBitmapRotation::Degrees90));
    assert_eq!(PdfPage::rotation(2), Ok(PdfBitmapRotation::Degrees180));
    assert_eq!(PdfPage::rotation(3), Ok(PdfBitmapRotation::Degrees270));
    assert_eq!(PdfPage::rotation(4), Err(PdfiumError::UnknownBitmapRotation));
    assert_eq!(PdfPage::rotation(-1), Err(PdfiumError::UnknownBitmapRotation));
    assert_eq!(PdfPage::set_rotation(PdfBitmapRotation::Degrees270), 3);
    assert_eq!(PdfBitmapRotation::Degrees90.as_pdfium(), 1);
}

#[test]
fn rotation_round_trip() {
    for rotation in [
        PdfBitmapRotation::Degrees0,
        PdfBitmapRotation::Degrees90,
        PdfBitmapRotation::Degrees180,
        PdfBitmapRotation::Degrees270,
    ] {
        assert_eq!(PdfPage::rotation(PdfPage::set_rotation(rotation)), Ok(rotation));
        assert_eq!(PdfBitmapRotation::from_pdfium(rotation.as_pdfium()), Ok(rotation));
    }
}

#[test]
fn embedded_thumbnail_outcomes() {
    assert_eq!(
        PdfPage::embedded_thumbnail(true),
        Err(PdfiumError::PageMissingEmbeddedThumbnail)
    );
    assert_eq!(PdfPage::embedded_thumbnail(false), Ok(()));
}

#[test]
fn text_page_outcomes() {
    assert_eq!(PdfPage::text_page_loaded(false, None), Ok(()));
    assert_eq!(
        PdfPage::text_page_loaded(true, None),
        Err(PdfiumError::PdfiumLibraryInternalError(PdfiumInternalError::Unknown))
    );
    assert_eq!(
        PdfPage::text_page_loaded(true, Some(PdfiumInternalError::PageError)),
        Err(PdfiumError::PdfiumLibraryInternalError(PdfiumInternalError::PageError))
    );
}

#[test]
fn regeneration_outcomes() {
    let (mut page, _) = PdfPage::from_pdfium(None);
    assert_eq!(page.regenerate_content(1, None), Ok(()));
    assert_eq!(
        page.regenerate_content(0, None),
        Err(PdfiumError::PdfiumLibraryInternalError(PdfiumInternalError::Unknown))
    );
    assert_eq!(
        PdfPage::regenerate_content_immut_for_handle(0, Some(PdfiumInternalError::SecurityError)),
        Err(PdfiumError::PdfiumLibraryInternalError(PdfiumInternalError::SecurityError))
    );
    assert_eq!(
        PdfPage::regenerate_content_immut_for_handle(7, Some(PdfiumInternalError::SecurityError)),
        Ok(())
    );
}

#[test]
fn flatten_outcomes() {
    let (mut page, _) = PdfPage::from_pdfium(None);
    assert_eq!(page.flatten(FLATTEN_NOTHINGTODO), Ok(PdfPageContentAction::Proceed));
    assert!(!page.regenerates_content_on_close());
    assert_eq!(page.flatten(FLATTEN_FAIL), Err(PdfiumError::PageFlattenFailure));
    assert_eq!(page.flatten(-1), Err(PdfiumError::PageFlattenFailure));
    assert_eq!(page.flatten(3), Err(PdfiumError::PageFlattenFailure));
    assert!(!page.regenerates_content_on_close());
    assert_eq!(page.flatten(FLATTEN_SUCCESS), Ok(PdfPageContentAction::RegenerateContent));
    // The flattened change is pending until the content is regenerated.
    assert!(page.regenerates_content_on_close());
    assert_eq!(page.text(), PdfPageContentAction::RegenerateContent);
}

#[test]
fn flatten_under_manual_strategy_still_asks_for_regeneration() {
    let (mut page, _) = PdfPage::from_pdfium(None);
    page.set_content_regeneration_strategy(PdfPageContentRegenerationStrategy::Manual);
    assert_eq!(page.flatten(FLATTEN_SUCCESS), Ok(PdfPageContentAction::RegenerateContent));
    assert!(!page.regenerates_content_on_close());
}

#[test]
fn delete_outcomes() {
    assert_eq!(PdfPage::delete(None), Err(PdfiumError::SourcePageIndexNotInCache));
    assert_eq!(PdfPage::delete(Some(12)), Ok(12));
    assert_eq!(PdfPage::delete(Some(0)), Ok(0));
}

#[test]
fn last_error_codes() {
    assert_eq!(PdfiumInternalError::from_last_error_code(0), None);
    assert_eq!(PdfiumInternalError::from_last_error_code(1), Some(PdfiumInternalError::Unknown));
    assert_eq!(PdfiumInternalError::from_last_error_code(2), Some(PdfiumInternalError::FileError));
    assert_eq!(PdfiumInternalError::from_last_error_code(3), Some(PdfiumInternalError::FormatError));
    assert_eq!(PdfiumInternalError::from_last_error_code(4), Some(PdfiumInternalError::PasswordError));
    assert_eq!(PdfiumInternalError::from_last_error_code(5), Some(PdfiumInternalError::SecurityError));
    assert_eq!(PdfiumInternalError::from_last_error_code(6), Some(PdfiumInternalError::PageError));
    assert_eq!(PdfiumInternalError::from_last_error_code(99), Some(PdfiumInternalError::Unknown));
}

#[test]
fn rect_results() {
    assert_eq!(rect_result_from_pdfium(1, None), Ok(()));
    assert_eq!(rect_result_from_pdfium(1, Some(PdfiumInternalError::PageError)), Ok(()));
    assert_eq!(
        rect_result_from_pdfium(0, None),
        Err(PdfiumError::PdfiumLibraryInternalError(PdfiumInternalError::Unknown))
    );
    assert_eq!(
        rect_result_from_pdfium(0, Some(PdfiumInternalError::PasswordError)),
        Err(PdfiumError::PdfiumLibraryInternalError(PdfiumInternalError::PasswordError))
    );
}

#[test]
fn call_failure_from_boolean_alone() {
    assert!(pdfium_call_failed(0));
    assert!(!pdfium_call_failed(1));
    assert!(!pdfium_call_failed(-3));
}

#[test]
fn bitmap_formats() {
    assert_eq!(bitmap_format_or_default(1), 1);
    assert_eq!(bitmap_format_or_default(3), 3);
    assert_eq!(bitmap_format_or_default(4), 4);
    assert_eq!(bitmap_format_or_default(0), 4);
    assert_eq!(bitmap_format_or_default(9), 4);
    assert_eq!(bitmap_format_or_default(-1), 4);
}
