use pdfium_render::page::{PdfPage, PdfPageContentAction, PdfPageContentRegenerationStrategy, PdfPageOrientation};

fn fresh_page() -> PdfPage {
    let (page, objects_flag) = PdfPage::from_pdfium(Some("iv".to_string()));
    assert!(objects_flag);
    page
}

#[test]
fn new_page_has_default_strategy_and_label() {
    let (page, objects_flag) = PdfPage::from_pdfium(Some("Cover".to_string()));
    assert!(objects_flag);
    assert_eq!(page.label(), Some("Cover"));
    assert_eq!(
        page.content_regeneration_strategy(),
        PdfPageContentRegenerationStrategy::AutomaticOnEveryChange
    );
    assert_eq!(page.text(), PdfPageContentAction::Proceed);
    assert_eq!(page.objects(), PdfPageContentAction::Proceed);
    assert_eq!(page.annotations(), PdfPageContentAction::Proceed);
    assert!(!page.regenerates_content_on_close());
}

#[test]
fn page_without_label() {
    let (page, _) = PdfPage::from_pdfium(None);
    assert_eq!(page.label(), None);
}

#[test]
fn orientation_follows_width_and_height() {
    let landscape = PdfPage::orientation(true);
    let portrait = PdfPage::orientation(false);
    assert_eq!(landscape, PdfPageOrientation::Landscape);
    assert_eq!(portrait, PdfPageOrientation::Portrait);
    assert!(PdfPage::is_landscape(landscape));
    assert!(!PdfPage::is_portrait(landscape));
    assert!(PdfPage::is_portrait(portrait));
    assert!(!PdfPage::is_landscape(portrait));
}

#[test]
fn transparency_and_thumbnail_flags() {
    assert!(!PdfPage::has_transparency(0));
    assert!(PdfPage::has_transparency(1));
    assert!(PdfPage::has_transparency(-1));
    assert!(!PdfPage::has_embedded_thumbnail(0));
    assert!(PdfPage::has_embedded_thumbnail(4096));
}

#[test]
fn every_change_strategy_commits_each_change() {
    let mut page = fresh_page();
    assert!(page.objects_mut());
    assert!(page.annotations_mut());
    assert_eq!(page.text(), PdfPageContentAction::Proceed);
    assert_eq!(page.objects(), PdfPageContentAction::Proceed);
    assert!(!page.regenerates_content_on_close());
}

#[test]
fn manual_strategy_never_regenerates() {
    let mut page = fresh_page();
    assert!(!page.set_content_regeneration_strategy(PdfPageContentRegenerationStrategy::Manual));
    assert!(!page.objects_mut());
    assert!(!page.annotations_mut());
    assert_eq!(page.text(), PdfPageContentAction::Proceed);
    assert_eq!(page.annotations(), PdfPageContentAction::Proceed);
    assert_eq!(page.objects(), PdfPageContentAction::Proceed);
    assert!(!page.regenerates_content_on_close());
}

#[test]
fn on_drop_strategy_regenerates_on_close() {
    let mut page = fresh_page();
    assert!(!page.set_content_regeneration_strategy(
        PdfPageContentRegenerationStrategy::AutomaticOnDrop
    ));
    assert_eq!(
        page.content_regeneration_strategy(),
        PdfPageContentRegenerationStrategy::AutomaticOnDrop
    );
    assert!(!page.regenerates_content_on_close());
    assert!(!page.annotations_mut());
    assert_eq!(page.objects(), PdfPageContentAction::Proceed);
    assert!(page.regenerates_content_on_close());
}

#[test]
fn switching_back_to_every_change_commits_on_next_read() {
    let mut page = fresh_page();
    page.set_content_regeneration_strategy(PdfPageContentRegenerationStrategy::Manual);
    page.objects_mut();
    assert!(page.set_content_regeneration_strategy(
        PdfPageContentRegenerationStrategy::AutomaticOnEveryChange
    ));
    assert_eq!(page.text(), PdfPageContentAction::RegenerateContent);
    assert_eq!(page.annotations(), PdfPageContentAction::RegenerateContent);
    assert_eq!(page.objects(), PdfPageContentAction::RegenerateContent);
    assert!(page.regenerates_content_on_close());
    // A later mutable access under this strategy leaves nothing pending.
    page.annotations_mut();
    assert_eq!(page.text(), PdfPageContentAction::Proceed);
}

#[test]
fn strategy_is_the_one_set_last() {
    let mut page = fresh_page();
    assert_eq!(
        page.content_regeneration_strategy(),
        PdfPageContentRegenerationStrategy::AutomaticOnEveryChange
    );
    page.set_content_regeneration_strategy(PdfPageContentRegenerationStrategy::Manual);
    page.objects_mut();
    page.flatten(0);
    page.set_content_regeneration_strategy(PdfPageContentRegenerationStrategy::AutomaticOnDrop);
    page.annotations_mut();
    let _ = page.regenerate_content(1, None);
    assert_eq!(
        page.content_regeneration_strategy(),
        PdfPageContentRegenerationStrategy::AutomaticOnDrop
    );
    assert_eq!(page.label(), Some("iv"));
}

#[test]
fn nothing_pending_until_a_change_is_marked() {
    let mut page = fresh_page();
    page.set_content_regeneration_strategy(PdfPageContentRegenerationStrategy::AutomaticOnDrop);
    let _ = page.regenerate_content(0, None);
    let _ = page.flatten(2);
    let _ = page.flatten(0);
    page.set_content_regeneration_strategy(PdfPageContentRegenerationStrategy::AutomaticOnEveryChange);
    assert_eq!(page.text(), PdfPageContentAction::Proceed);
    assert_eq!(page.objects(), PdfPageContentAction::Proceed);
    assert!(!page.regenerates_content_on_close());
}
