use pdfium_render::error::{PdfiumError, PdfiumInternalError};
use pdfium_render::page::{PdfPage, PdfPageRenderSettings, PdfPageRenderStep};

#[test]
fn fonts_are_distinct_in_order_of_first_use() {
    assert_eq!(PdfPage::fonts(&vec![3, 5, 3, 7, 5]), vec![3, 5, 7]);
    assert_eq!(PdfPage::fonts(&vec![9, 9, 9]), vec![9]);
    assert_eq!(PdfPage::fonts(&vec![]), Vec::<usize>::new());
}

#[test]
fn fonts_of_fonts_are_the_same() {
    let once = PdfPage::fonts(&vec![8, 1, 8, 2, 1, 4]);
    assert_eq!(once, vec![8, 1, 2, 4]);
    assert_eq!(PdfPage::fonts(&once), once);
}

fn settings(clear: bool, form_data: bool, form: bool, highlights: usize) -> PdfPageRenderSettings {
    PdfPageRenderSettings {
        do_clear_bitmap_before_rendering: clear,
        do_render_form_data: form_data,
        has_form: form,
        form_field_highlight_count: highlights,
    }
}

#[test]
fn render_with_form_fields() {
    assert_eq!(
        PdfPage::render_into_bitmap_with_settings(settings(true, true, true, 2)),
        vec![
            PdfPageRenderStep::ClearBitmap,
            PdfPageRenderStep::RenderPageBitmap,
            PdfPageRenderStep::SetFormFieldHighlight { index: 0 },
            PdfPageRenderStep::SetFormFieldHighlight { index: 1 },
            PdfPageRenderStep::DrawFormFields,
        ]
    );
}

#[test]
fn render_without_form() {
    assert_eq!(
        PdfPage::render_into_bitmap_with_settings(settings(false, true, false, 3)),
        vec![PdfPageRenderStep::RenderPageBitmap]
    );
    assert_eq!(
        PdfPage::render_into_bitmap_with_settings(settings(false, true, true, 0)),
        vec![PdfPageRenderStep::RenderPageBitmap, PdfPageRenderStep::DrawFormFields]
    );
}

#[test]
fn render_with_matrix() {
    assert_eq!(
        PdfPage::render_into_bitmap_with_settings(settings(true, false, true, 4)),
        vec![PdfPageRenderStep::ClearBitmap, PdfPageRenderStep::RenderPageBitmapWithMatrix]
    );
    assert_eq!(
        PdfPage::render_into_bitmap_with_settings(settings(false, false, false, 0)),
        vec![PdfPageRenderStep::RenderPageBitmapWithMatrix]
    );
}

#[test]
fn render_steps_that_check_for_errors() {
    assert!(PdfPageRenderStep::ClearBitmap.checks_last_error());
    assert!(PdfPageRenderStep::RenderPageBitmap.checks_last_error());
    assert!(PdfPageRenderStep::DrawFormFields.checks_last_error());
    assert!(PdfPageRenderStep::RenderPageBitmapWithMatrix.checks_last_error());
    assert!(!PdfPageRenderStep::SetFormFieldHighlight { index: 0 }.checks_last_error());
}

#[test]
fn render_step_outcomes() {
    let reported = Some(PdfiumInternalError::PageError);
    let failed = Err(PdfiumError::PdfiumLibraryInternalError(PdfiumInternalError::PageError));
    assert_eq!(PdfPageRenderStep::ClearBitmap.outcome(reported), failed);
    assert_eq!(PdfPageRenderStep::RenderPageBitmap.outcome(reported), failed);
    assert_eq!(PdfPageRenderStep::DrawFormFields.outcome(reported), failed);
    assert_eq!(PdfPageRenderStep::RenderPageBitmapWithMatrix.outcome(reported), failed);
    assert_eq!(PdfPageRenderStep::SetFormFieldHighlight { index: 0 }.outcome(reported), Ok(()));
    assert_eq!(PdfPageRenderStep::RenderPageBitmap.outcome(None), Ok(()));
}

#[test]
fn render_stops_at_first_reported_error() {
    let steps = PdfPage::render_into_bitmap_with_settings(settings(true, true, true, 1));
    let reported = [
        None,
        None,
        Some(PdfiumInternalError::FileError),
        Some(PdfiumInternalError::FormatError),
    ];
    let mut outcome = Ok(());
    for (step, report) in steps.iter().zip(reported.iter()) {
        outcome = step.outcome(*report);
        if outcome.is_err() {
            break;
        }
    }
    // The highlight step does not check for errors; drawing the form fields does.
    assert_eq!(
        outcome,
        Err(PdfiumError::PdfiumLibraryInternalError(PdfiumInternalError::FormatError))
    );
}
