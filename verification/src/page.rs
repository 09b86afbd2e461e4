use vstd::prelude::*;

use std::collections::HashMap;

use crate::bitmap::{spec_rotation_code, spec_rotation_from_code, PdfBitmapRotation};
use crate::error::{
    spec_error_from_last_error, spec_pdfium_bool_result, PdfiumError, PdfiumInternalError,
};

verus! {

/// The orientation of a page.
#[derive(Debug, Clone, Copy, PartialEq, Eq, Structural)]
pub enum PdfPageOrientation {
    Portrait,
    Landscape,
}

/// When, if ever, the content of a page is regenerated automatically.
///
/// Updates to a page are not committed to the underlying document until the page's content
/// is regenerated; changes not committed when a page is reloaded or closed are lost.
#[derive(Debug, Clone, Copy, PartialEq, Eq, Structural)]
pub enum PdfPageContentRegenerationStrategy {
    /// Content is regenerated on any change to the page. This is the default.
    AutomaticOnEveryChange,
    /// Content is regenerated only when the page is about to be closed.
    AutomaticOnDrop,
    /// Content is never regenerated automatically.
    Manual,
}

/// What must happen before one of the page's collections is handed out.
#[derive(Debug, Clone, Copy, PartialEq, Eq, Structural)]
pub enum PdfPageContentAction {
    /// The page's content must be regenerated first.
    RegenerateContent,
    /// Nothing needs to happen first.
    Proceed,
}

/// The state of a page as the regeneration logic sees it.
pub struct PdfPageView {
    pub label: Option<Seq<char>>,
    pub regeneration_strategy: PdfPageContentRegenerationStrategy,
    pub is_content_regeneration_required: bool,
}

/// A single page of a document: its label and its content regeneration bookkeeping.
///
/// The Pdfium handle of the page, and the collections of annotations, boundaries, links and
/// objects that belong to it, are held by the caller beside this value.
pub struct PdfPage {
    label: Option<String>,
    regeneration_strategy: PdfPageContentRegenerationStrategy,
    is_content_regeneration_required: bool,
}

impl View for PdfPage {
    type V = PdfPageView;

    closed spec fn view(&self) -> PdfPageView {
        PdfPageView {
            label: match self.label {
                Some(l) => Some(l@),
                None => None,
            },
            regeneration_strategy: self.regeneration_strategy,
            is_content_regeneration_required: self.is_content_regeneration_required,
        }
    }
}

/// The strategy a page starts out with.
pub open spec fn spec_default_strategy() -> PdfPageContentRegenerationStrategy {
    PdfPageContentRegenerationStrategy::AutomaticOnEveryChange
}

/// Whether the page's collections are told to regenerate the page's content after each change
/// they make: exactly when the page regenerates on every change.
pub open spec fn spec_regenerate_after_each_change(
    strategy: PdfPageContentRegenerationStrategy,
) -> bool {
    strategy == PdfPageContentRegenerationStrategy::AutomaticOnEveryChange
}

/// What happens before the text, annotations or objects of a page are handed out for reading:
/// pending changes are committed first when the page regenerates on every change.
pub open spec fn spec_read_action(page: PdfPageView) -> PdfPageContentAction {
    if page.regeneration_strategy == PdfPageContentRegenerationStrategy::AutomaticOnEveryChange
        && page.is_content_regeneration_required {
        PdfPageContentAction::RegenerateContent
    } else {
        PdfPageContentAction::Proceed
    }
}

/// The page after its annotations or objects have been handed out for changing: a change is
/// assumed, and it is left pending unless the collections commit each change themselves.
pub open spec fn spec_after_mutable_access(page: PdfPageView) -> PdfPageView {
    PdfPageView {
        is_content_regeneration_required: !spec_regenerate_after_each_change(
            page.regeneration_strategy,
        ),
        ..page
    }
}

/// Whether closing the page regenerates its content first.
pub open spec fn spec_regenerates_on_close(page: PdfPageView) -> bool {
    page.regeneration_strategy != PdfPageContentRegenerationStrategy::Manual
        && page.is_content_regeneration_required
}

/// The outcome of asking Pdfium to regenerate a page's content, given the boolean it returned
/// and what its last-error query returned.
pub open spec fn spec_regeneration_result(generated: i32, last_error: Option<PdfiumInternalError>) -> Result<(), PdfiumError> {
    spec_pdfium_bool_result(generated, last_error)
}

/// The distinct handles of a sequence, each in the place where it first occurs.
pub open spec fn spec_distinct_handles(handles: Seq<usize>) -> Seq<usize>
    decreases handles.len(),
{
    if handles.len() == 0 {
        Seq::empty()
    } else {
        let earlier = spec_distinct_handles(handles.drop_last());
        if earlier.contains(handles.last()) {
            earlier
        } else {
            earlier.push(handles.last())
        }
    }
}

/// The value Pdfium's page flattening returns when flattening failed.
pub const FLATTEN_FAIL: i32 = 0;

/// The value Pdfium's page flattening returns when annotations or form fields were flattened.
pub const FLATTEN_SUCCESS: i32 = 1;

/// The value Pdfium's page flattening returns when there was nothing to flatten.
pub const FLATTEN_NOTHINGTODO: i32 = 2;

/// The flag asking Pdfium to flatten a page as it would be printed.
pub const FLAT_PRINT: i32 = 1;

/// One call, or group of calls, into Pdfium made while rendering a page into a bitmap.
#[derive(Debug, Clone, Copy, PartialEq, Eq, Structural)]
pub enum PdfPageRenderStep {
    /// Fill the whole bitmap with the clear color.
    ClearBitmap,
    /// Render the page into the bitmap, ignoring any custom transformation matrix.
    RenderPageBitmap,
    /// Set the highlight color and alpha of one form field type: the entry at `index` of the
    /// form field highlight settings.
    SetFormFieldHighlight { index: usize },
    /// Draw the document's form fields over the rendered page.
    DrawFormFields,
    /// Render the page into the bitmap, applying the custom transformation matrix and clip.
    RenderPageBitmapWithMatrix,
}

/// Whether Pdfium's last-error query is consulted after a render step; a reported error ends
/// rendering with that error.
pub open spec fn spec_checks_last_error(step: PdfPageRenderStep) -> bool {
    !(step is SetFormFieldHighlight)
}

/// The outcome of one render step, given what Pdfium's last-error query reported after it:
/// an error reported after a step that checks for one ends rendering with that error.
pub open spec fn spec_render_step_outcome(
    step: PdfPageRenderStep,
    reported: Option<PdfiumInternalError>,
) -> Result<(), PdfiumError> {
    if spec_checks_last_error(step) {
        match reported {
            Some(e) => Err(PdfiumError::PdfiumLibraryInternalError(e)),
            None => Ok(()),
        }
    } else {
        Ok(())
    }
}

impl PdfPageRenderStep {
    /// Whether Pdfium's last-error query is consulted after this step; after the other steps
    /// no query is made.
    pub fn checks_last_error(&self) -> (result: bool)
        ensures
            result == spec_checks_last_error(*self),
    {
        match self {
            PdfPageRenderStep::SetFormFieldHighlight { .. } => false,
            _ => true,
        }
    }

    /// The outcome of this step, given what Pdfium's last-error query reported after it.
    pub fn outcome(&self, last_error: Option<PdfiumInternalError>) -> (result: Result<(), PdfiumError>)
        ensures
            result == spec_render_step_outcome(*self, last_error),
    {
        match self {
            PdfPageRenderStep::SetFormFieldHighlight { .. } => Ok(()),
            _ => PdfiumError::check_last_error(last_error),
        }
    }
}

/// What Pdfium reported after step `i`, where `reported` holds one report per step performed.
pub open spec fn spec_reported_at(reported: Seq<Option<PdfiumInternalError>>, i: int) -> Option<
    PdfiumInternalError,
> {
    if 0 <= i < reported.len() {
        reported[i]
    } else {
        None
    }
}

/// The outcome of step `i` of a render, given the reports after each step.
pub open spec fn spec_render_step_outcome_at(
    steps: Seq<PdfPageRenderStep>,
    reported: Seq<Option<PdfiumInternalError>>,
    i: int,
) -> Result<(), PdfiumError> {
    spec_render_step_outcome(steps[i], spec_reported_at(reported, i))
}

/// The outcome of performing the steps from `start` on, in order, stopping at the first step
/// whose outcome is an error.
pub open spec fn spec_render_outcome_from(
    steps: Seq<PdfPageRenderStep>,
    reported: Seq<Option<PdfiumInternalError>>,
    start: nat,
) -> Result<(), PdfiumError>
    decreases steps.len() - start,
{
    if start >= steps.len() {
        Ok(())
    } else {
        match spec_render_step_outcome_at(steps, reported, start as int) {
            Err(e) => Err(e),
            Ok(_) => spec_render_outcome_from(steps, reported, start + 1),
        }
    }
}

/// The outcome of a whole render: the steps performed in order, given what Pdfium reported
/// after each, stopping at the first error.
pub open spec fn spec_render_outcome(
    steps: Seq<PdfPageRenderStep>,
    reported: Seq<Option<PdfiumInternalError>>,
) -> Result<(), PdfiumError> {
    spec_render_outcome_from(steps, reported, 0)
}

proof fn lemma_render_outcome_from(
    steps: Seq<PdfPageRenderStep>,
    reported: Seq<Option<PdfiumInternalError>>,
    start: nat,
)
    ensures
        spec_render_outcome_from(steps, reported, start) is Ok <==> forall|j: int|
            start <= j < steps.len() ==> #[trigger] spec_render_step_outcome_at(
                steps,
                reported,
                j,
            ) is Ok,
        spec_render_outcome_from(steps, reported, start) matches Err(e) ==> exists|j: int|
            start <= j < steps.len() && #[trigger] spec_render_step_outcome_at(steps, reported, j)
                == Err::<(), PdfiumError>(e) && forall|k: int|
                start <= k < j ==> #[trigger] spec_render_step_outcome_at(steps, reported, k) is Ok,
    decreases steps.len() - start,
{
    if start < steps.len() {
        lemma_render_outcome_from(steps, reported, start + 1);
        if spec_render_step_outcome_at(steps, reported, start as int) is Ok {
            if spec_render_outcome_from(steps, reported, start + 1) is Err {
                let e = spec_render_outcome_from(steps, reported, start + 1)->Err_0;
                let j = choose|j: int|
                    start + 1 <= j < steps.len() && #[trigger] spec_render_step_outcome_at(
                        steps,
                        reported,
                        j,
                    ) == Err::<(), PdfiumError>(e) && forall|k: int|
                        start + 1 <= k < j ==> #[trigger] spec_render_step_outcome_at(
                            steps,
                            reported,
                            k,
                        ) is Ok;
                assert forall|k: int| start <= k < j implies #[trigger] spec_render_step_outcome_at(
                    steps,
                    reported,
                    k,
                ) is Ok by {
                    if k == start {
                    }
                }
            }
        }
    }
}

/// A render succeeds exactly when no step that checks for errors was followed by a reported
/// error; otherwise it fails with the error reported after the first such step, and no step
/// before it failed.
pub proof fn lemma_render_stops_at_first_error(
    steps: Seq<PdfPageRenderStep>,
    reported: Seq<Option<PdfiumInternalError>>,
)
    ensures
        spec_render_outcome(steps, reported) is Ok <==> forall|j: int|
            0 <= j < steps.len() ==> !(spec_checks_last_error(#[trigger] steps[j]) && spec_reported_at(
                reported,
                j,
            ) is Some),
        spec_render_outcome(steps, reported) matches Err(e) ==> exists|j: int|
            0 <= j < steps.len() && spec_checks_last_error(#[trigger] steps[j]) && spec_reported_at(
                reported,
                j,
            ) is Some && e == PdfiumError::PdfiumLibraryInternalError(
                spec_reported_at(reported, j)->Some_0,
            ) && forall|k: int|
                0 <= k < j ==> !(spec_checks_last_error(#[trigger] steps[k]) && spec_reported_at(
                    reported,
                    k,
                ) is Some),
{
    lemma_render_outcome_from(steps, reported, 0);
    assert forall|j: int| 0 <= j < steps.len() implies (spec_render_step_outcome_at(
        steps,
        reported,
        j,
    ) is Ok <==> !(spec_checks_last_error(#[trigger] steps[j]) && spec_reported_at(reported, j) is Some))
        by {
    }
    if spec_render_outcome(steps, reported) is Err {
        let e = spec_render_outcome(steps, reported)->Err_0;
        let j = choose|j: int|
            0 <= j < steps.len() && #[trigger] spec_render_step_outcome_at(steps, reported, j)
                == Err::<(), PdfiumError>(e) && forall|k: int|
                0 <= k < j ==> #[trigger] spec_render_step_outcome_at(steps, reported, k) is Ok;
        assert(spec_checks_last_error(steps[j]) && spec_reported_at(reported, j) is Some);
        assert forall|k: int| 0 <= k < j implies !(spec_checks_last_error(#[trigger] steps[k])
            && spec_reported_at(reported, k) is Some) by {
            assert(spec_render_step_outcome_at(steps, reported, k) is Ok);
        }
    }
}

/// The render settings that decide which calls rendering a page makes.
#[derive(Debug, Clone, Copy, PartialEq, Eq, Structural)]
pub struct PdfPageRenderSettings {
    /// Whether the bitmap is filled with the clear color before rendering.
    pub do_clear_bitmap_before_rendering: bool,
    /// Whether form data is rendered; a custom transformation matrix is then ignored.
    pub do_render_form_data: bool,
    /// Whether the document containing the page has a form.
    pub has_form: bool,
    /// The number of form field types given a highlight color (zero where none is given).
    pub form_field_highlight_count: usize,
}

/// The steps that render a page into a bitmap, in order: the optional clear, then either the
/// page with form data (followed, where the document has a form, by every form field
/// highlight and the form fields themselves) or the page with the custom matrix applied.
pub open spec fn spec_render_steps(settings: PdfPageRenderSettings) -> Seq<PdfPageRenderStep> {
    let clear = if settings.do_clear_bitmap_before_rendering {
        seq![PdfPageRenderStep::ClearBitmap]
    } else {
        Seq::<PdfPageRenderStep>::empty()
    };
    let render = if settings.do_render_form_data {
        seq![PdfPageRenderStep::RenderPageBitmap] + if settings.has_form {
            Seq::new(
                settings.form_field_highlight_count as nat,
                |i: int| PdfPageRenderStep::SetFormFieldHighlight { index: i as usize },
            ).push(PdfPageRenderStep::DrawFormFields)
        } else {
            Seq::<PdfPageRenderStep>::empty()
        }
    } else {
        seq![PdfPageRenderStep::RenderPageBitmapWithMatrix]
    };
    clear + render
}

/// Whether a step renders the page itself into the bitmap.
pub open spec fn spec_renders_page(step: PdfPageRenderStep) -> bool {
    step is RenderPageBitmap || step is RenderPageBitmapWithMatrix
}

/// Rendering clears the bitmap first exactly when asked to, and renders the page itself
/// exactly once, right after the optional clear: with form data or with the custom matrix.
pub proof fn lemma_render_steps_render_page_once(settings: PdfPageRenderSettings)
    ensures
        ({
            let steps = spec_render_steps(settings);
            let at: int = if settings.do_clear_bitmap_before_rendering { 1int } else { 0int };
            &&& settings.do_clear_bitmap_before_rendering <==> steps[0] == PdfPageRenderStep::ClearBitmap
            &&& 0 <= at < steps.len()
            &&& steps[at] == (if settings.do_render_form_data {
                PdfPageRenderStep::RenderPageBitmap
            } else {
                PdfPageRenderStep::RenderPageBitmapWithMatrix
            })
            &&& forall|j: int| 0 <= j < steps.len() && j != at ==> !spec_renders_page(#[trigger] steps[j])
        }),
{
    let steps = spec_render_steps(settings);
    let at: int = if settings.do_clear_bitmap_before_rendering { 1int } else { 0int };
    assert forall|j: int| 0 <= j < steps.len() && j != at implies !spec_renders_page(
        #[trigger] steps[j],
    ) by {
        if settings.do_clear_bitmap_before_rendering && j == 0 {
        } else if settings.do_render_form_data && settings.has_form {
            let hl = Seq::new(
                settings.form_field_highlight_count as nat,
                |i: int| PdfPageRenderStep::SetFormFieldHighlight { index: i as usize },
            );
            let tail = hl.push(PdfPageRenderStep::DrawFormFields);
            assert(steps[j] == tail[j - at - 1]);
            if j - at - 1 < hl.len() {
                assert(tail[j - at - 1] == hl[j - at - 1]);
            }
        }
    }
}

/// Form field highlights are set only where form data is rendered and the document has a
/// form, and then for every highlight entry, just before the form fields are drawn.
pub proof fn lemma_render_steps_form_fields(settings: PdfPageRenderSettings)
    ensures
        ({
            let steps = spec_render_steps(settings);
            let at: int = if settings.do_clear_bitmap_before_rendering { 1int } else { 0int };
            let drawn = settings.do_render_form_data && settings.has_form;
            &&& steps.len() == at + 1 + (if drawn {
                settings.form_field_highlight_count + 1
            } else {
                0
            })
            &&& drawn ==> steps.last() == PdfPageRenderStep::DrawFormFields
            &&& drawn ==> forall|i: int|
                0 <= i < settings.form_field_highlight_count ==> #[trigger] steps[at + 1 + i]
                    == (PdfPageRenderStep::SetFormFieldHighlight { index: i as usize })
            &&& !drawn ==> forall|j: int|
                0 <= j < steps.len() ==> !(#[trigger] steps[j] is SetFormFieldHighlight)
                    && !(steps[j] is DrawFormFields)
        }),
{
}

/// The orientation of a page whose width does, or does not, exceed its height.
pub open spec fn spec_orientation(width_exceeds_height: bool) -> PdfPageOrientation {
    if width_exceeds_height {
        PdfPageOrientation::Landscape
    } else {
        PdfPageOrientation::Portrait
    }
}

/// Every page is either portrait or landscape, never both: landscape exactly when its width
/// exceeds its height.
pub proof fn lemma_portrait_or_landscape(width_exceeds_height: bool)
    ensures
        (spec_orientation(width_exceeds_height) == PdfPageOrientation::Portrait) != (
        spec_orientation(width_exceeds_height) == PdfPageOrientation::Landscape),
        (spec_orientation(width_exceeds_height) == PdfPageOrientation::Landscape)
            == width_exceeds_height,
{
}

/// Handing out the annotations or objects for changing marks a change as pending exactly
/// when the strategy is not the default one, whatever was pending before; the strategy and
/// the label are kept. So under the on-drop and manual strategies every such access leaves a
/// change pending.
pub proof fn lemma_mutable_access_marks_pending(page: PdfPageView)
    ensures
        spec_after_mutable_access(page).is_content_regeneration_required == (
        page.regeneration_strategy != PdfPageContentRegenerationStrategy::AutomaticOnEveryChange),
        spec_after_mutable_access(page).regeneration_strategy == page.regeneration_strategy,
        spec_after_mutable_access(page).label == page.label,
        page.regeneration_strategy == PdfPageContentRegenerationStrategy::Manual
            ==> spec_after_mutable_access(page).is_content_regeneration_required,
        page.regeneration_strategy == PdfPageContentRegenerationStrategy::AutomaticOnDrop
            ==> spec_after_mutable_access(page).is_content_regeneration_required,
{
}

/// A pending change stays pending through any call except handing out a collection for
/// changing under the default strategy (whose collections commit each change themselves):
/// reads, regenerations, strategy changes, flattenings and further accesses under another
/// strategy never drop it.
pub proof fn lemma_pending_change_is_kept(page: PdfPageView, op: PdfPageOperation)
    requires
        page.is_content_regeneration_required,
        !(op is MutableAccess && page.regeneration_strategy
            == PdfPageContentRegenerationStrategy::AutomaticOnEveryChange),
    ensures
        spec_apply_operation(page, op).is_content_regeneration_required,
{
}

/// Changes staged under any strategy other than the default are still pending after any
/// number of further accesses under that strategy, and once the strategy is switched to the
/// default the next read commits them, and so does closing the page.
pub proof fn lemma_staged_changes_survive_switch(
    page: PdfPageView,
    accesses: nat,
)
    requires
        page.regeneration_strategy != PdfPageContentRegenerationStrategy::AutomaticOnEveryChange,
        accesses > 0,
    ensures
        ({
            let staged = spec_run_operations(
                page,
                Seq::new(accesses, |i: int| PdfPageOperation::MutableAccess),
            );
            let switched = spec_apply_operation(
                staged,
                PdfPageOperation::SetStrategy(
                    PdfPageContentRegenerationStrategy::AutomaticOnEveryChange,
                ),
            );
            &&& staged.is_content_regeneration_required
            &&& staged.regeneration_strategy == page.regeneration_strategy
            &&& spec_read_action(switched) == PdfPageContentAction::RegenerateContent
            &&& spec_regenerates_on_close(switched)
        }),
    decreases accesses,
{
    let ops = Seq::new(accesses, |i: int| PdfPageOperation::MutableAccess);
    let rest = Seq::new((accesses - 1) as nat, |i: int| PdfPageOperation::MutableAccess);
    assert(ops.drop_last() =~= rest);
    if accesses > 1 {
        lemma_staged_changes_survive_switch(page, (accesses - 1) as nat);
    }
    lemma_mutable_access_marks_pending(spec_run_operations(page, rest));
}

/// Committing staged changes succeeds exactly when Pdfium's content generation returned
/// true (non-zero), whatever its last-error query reported; when it returned false the
/// outcome is the reported error, or `Unknown` where none was reported.
pub proof fn lemma_regeneration_outcome(generated: i32, last_error: Option<PdfiumInternalError>)
    ensures
        spec_regeneration_result(generated, last_error) is Ok <==> generated != 0,
        generated == 0 ==> spec_regeneration_result(generated, last_error) == Err::<
            (),
            PdfiumError,
        >(
            PdfiumError::PdfiumLibraryInternalError(
                match last_error {
                    Some(e) => e,
                    None => PdfiumInternalError::Unknown,
                },
            ),
        ),
{
}

/// Setting form field highlights never consults Pdfium's last error and never ends
/// rendering, whatever the entry's index and whatever Pdfium reports; every other step
/// consults it, and ends rendering with exactly the reported error.
pub proof fn lemma_only_highlights_skip_error_checks(
    index: usize,
    reported: Option<PdfiumInternalError>,
)
    ensures
        !spec_checks_last_error(PdfPageRenderStep::SetFormFieldHighlight { index }),
        spec_render_step_outcome(PdfPageRenderStep::SetFormFieldHighlight { index }, reported)
            == Ok::<(), PdfiumError>(()),
        spec_checks_last_error(PdfPageRenderStep::ClearBitmap),
        spec_checks_last_error(PdfPageRenderStep::RenderPageBitmap),
        spec_checks_last_error(PdfPageRenderStep::DrawFormFields),
        spec_checks_last_error(PdfPageRenderStep::RenderPageBitmapWithMatrix),
        forall|step: PdfPageRenderStep|
            !(step is SetFormFieldHighlight) ==> #[trigger] spec_render_step_outcome(step, reported)
                == (match reported {
                Some(e) => Err(PdfiumError::PdfiumLibraryInternalError(e)),
                None => Ok(()),
            }),
{
}

/// Under the default strategy a change never stays pending: once the page's annotations or
/// objects have been handed out for changing, they are told to commit each change themselves,
/// no later read regenerates the content again, and closing the page does not either.
pub proof fn lemma_every_change_strategy_commits_each_change(page: PdfPageView)
    requires
        page.regeneration_strategy == PdfPageContentRegenerationStrategy::AutomaticOnEveryChange,
    ensures
        spec_regenerate_after_each_change(page.regeneration_strategy),
        !spec_after_mutable_access(page).is_content_regeneration_required,
        spec_read_action(spec_after_mutable_access(page)) == PdfPageContentAction::Proceed,
        !spec_regenerates_on_close(spec_after_mutable_access(page)),
{
}

/// Under the manual strategy the content is never regenerated automatically: not before a
/// read, not when the page is closed, not by its collections, whatever has been changed.
pub proof fn lemma_manual_strategy_never_regenerates(page: PdfPageView)
    requires
        page.regeneration_strategy == PdfPageContentRegenerationStrategy::Manual,
    ensures
        !spec_regenerate_after_each_change(page.regeneration_strategy),
        spec_read_action(page) == PdfPageContentAction::Proceed,
        !spec_regenerates_on_close(page),
        spec_read_action(spec_after_mutable_access(page)) == PdfPageContentAction::Proceed,
        !spec_regenerates_on_close(spec_after_mutable_access(page)),
{
}

/// Under the on-drop strategy the content is regenerated only when the page is closed: reads
/// never regenerate it, collections do not commit their changes, and once the annotations or
/// objects have been handed out for changing, closing the page regenerates the content.
pub proof fn lemma_on_drop_strategy_regenerates_on_close(page: PdfPageView)
    requires
        page.regeneration_strategy == PdfPageContentRegenerationStrategy::AutomaticOnDrop,
    ensures
        !spec_regenerate_after_each_change(page.regeneration_strategy),
        spec_read_action(page) == PdfPageContentAction::Proceed,
        spec_read_action(spec_after_mutable_access(page)) == PdfPageContentAction::Proceed,
        spec_regenerates_on_close(spec_after_mutable_access(page)),
{
}

/// Changes staged under another strategy are not lost by switching to the default strategy:
/// the next read commits them first.
pub proof fn lemma_switching_to_every_change_commits_on_next_read(
    page: PdfPageView,
)
    requires
        page.is_content_regeneration_required,
    ensures
        spec_read_action(
            PdfPageView {
                regeneration_strategy:
                    PdfPageContentRegenerationStrategy::AutomaticOnEveryChange,
                ..page
            },
        ) == PdfPageContentAction::RegenerateContent,
{
}

/// A page just loaded has nothing pending: reading it regenerates nothing and closing it
/// regenerates nothing.
pub proof fn lemma_fresh_page_has_nothing_pending(label: Option<Seq<char>>)
    ensures
        ({
            let page = PdfPageView {
                label,
                regeneration_strategy: spec_default_strategy(),
                is_content_regeneration_required: false,
            };
            &&& spec_read_action(page) == PdfPageContentAction::Proceed
            &&& !spec_regenerates_on_close(page)
        }),
{
}

/// A sequence without repeated handles is its own list of distinct handles.
proof fn lemma_distinct_handles_of_distinct(handles: Seq<usize>)
    requires
        handles.no_duplicates(),
    ensures
        spec_distinct_handles(handles) == handles,
    decreases handles.len(),
{
    if handles.len() > 0 {
        let rest = handles.drop_last();
        assert(rest.no_duplicates()) by {
            assert forall|i: int, j: int|
                0 <= i < rest.len() && 0 <= j < rest.len() && i != j implies rest[i] != rest[j] by {
                assert(rest[i] == handles[i] && rest[j] == handles[j]);
            }
        }
        lemma_distinct_handles_of_distinct(rest);
        if rest.contains(handles.last()) {
            let k: int = choose|k: int| 0 <= k < rest.len() && rest[k] == handles.last();
            assert(handles[k] == handles[handles.len() - 1]);
        }
        assert(rest.push(handles.last()) =~= handles);
    }
}

/// The fonts of a page are listed once each, every font used is listed, and nothing else is:
/// listing the distinct fonts of the list gives the list again.
pub proof fn lemma_distinct_handles(handles: Seq<usize>)
    ensures
        spec_distinct_handles(handles).no_duplicates(),
        forall|h: usize| #[trigger] spec_distinct_handles(handles).contains(h) <==> handles.contains(h),
        spec_distinct_handles(spec_distinct_handles(handles)) == spec_distinct_handles(handles),
    decreases handles.len(),
{
    let d = spec_distinct_handles(handles);
    if handles.len() > 0 {
        let rest = handles.drop_last();
        let x: usize = handles.last();
        lemma_distinct_handles(rest);
        let e = spec_distinct_handles(rest);
        assert forall|h: usize| #[trigger] d.contains(h) <==> handles.contains(h) by {
            if handles.contains(h) && h != x {
                let k: int = choose|k: int| 0 <= k < handles.len() && handles[k] == h;
                assert(rest[k] == h);
                assert(rest.contains(h));
            }
            if rest.contains(h) {
                let k: int = choose|k: int| 0 <= k < rest.len() && rest[k] == h;
                assert(handles[k] == h);
            }
            if handles.contains(h) && h == x {
                assert(handles[handles.len() - 1] == x);
            }
            if !e.contains(x) {
                assert(d == e.push(x));
                if d.contains(h) && h != x {
                    let k: int = choose|k: int| 0 <= k < d.len() && d[k] == h;
                    assert(e[k] == h);
                }
                if e.contains(h) {
                    let k: int = choose|k: int| 0 <= k < e.len() && e[k] == h;
                    assert(d[k] == h);
                }
                assert(d[d.len() - 1] == x);
            }
        }
        if !e.contains(x) {
            assert forall|i: int, j: int|
                0 <= i < d.len() && 0 <= j < d.len() && i != j implies d[i] != d[j] by {
                if i < e.len() && j < e.len() {
                    assert(d[i] == e[i] && d[j] == e[j]);
                } else if i < e.len() {
                    assert(d[i] == e[i]);
                } else {
                    assert(d[j] == e[j]);
                }
            }
        }
    }
    lemma_distinct_handles_of_distinct(d);
}

/// A call on a page that may change its state, as the laws over call sequences see it.
#[derive(Debug, Clone, Copy, PartialEq, Eq, Structural)]
pub enum PdfPageOperation {
    /// A call that only reads the page: its label, strategy, text, annotations, objects or
    /// fonts, whether it has transparency or a thumbnail, its rotation, or rendering it.
    Read,
    /// Handing out the annotations or the objects for changing.
    MutableAccess,
    /// Setting the content regeneration strategy.
    SetStrategy(PdfPageContentRegenerationStrategy),
    /// Committing staged changes.
    RegenerateContent,
    /// Flattening, with the value Pdfium's flattening returned.
    Flatten(i32),
}

/// The state of a page just loaded with the given label.
pub open spec fn spec_fresh_page(label: Option<Seq<char>>) -> PdfPageView {
    PdfPageView {
        label,
        regeneration_strategy: spec_default_strategy(),
        is_content_regeneration_required: false,
    }
}

/// The state of a page after one call.
pub open spec fn spec_apply_operation(page: PdfPageView, op: PdfPageOperation) -> PdfPageView {
    match op {
        PdfPageOperation::Read => page,
        PdfPageOperation::MutableAccess => spec_after_mutable_access(page),
        PdfPageOperation::SetStrategy(strategy) => PdfPageView {
            regeneration_strategy: strategy,
            ..page
        },
        PdfPageOperation::RegenerateContent => page,
        PdfPageOperation::Flatten(code) => if code == FLATTEN_SUCCESS {
            PdfPageView { is_content_regeneration_required: true, ..page }
        } else {
            page
        },
    }
}

/// The state of a page after a sequence of calls, in order.
pub open spec fn spec_run_operations(page: PdfPageView, ops: Seq<PdfPageOperation>) -> PdfPageView
    decreases ops.len(),
{
    if ops.len() == 0 {
        page
    } else {
        spec_apply_operation(spec_run_operations(page, ops.drop_last()), ops.last())
    }
}

/// Whether a call marks a change to the page as made: handing out a collection for changing,
/// or a successful flattening.
pub open spec fn spec_marks_change(op: PdfPageOperation) -> bool {
    op is MutableAccess || op == PdfPageOperation::Flatten(FLATTEN_SUCCESS)
}

/// The strategy set by the last strategy call of a sequence on a fresh page, or the default
/// where there is none.
pub open spec fn spec_last_strategy(ops: Seq<PdfPageOperation>) -> PdfPageContentRegenerationStrategy
    decreases ops.len(),
{
    if ops.len() == 0 {
        spec_default_strategy()
    } else {
        match ops.last() {
            PdfPageOperation::SetStrategy(strategy) => strategy,
            _ => spec_last_strategy(ops.drop_last()),
        }
    }
}

/// A page just loaded has nothing pending until a collection is handed out for changing or a
/// flattening succeeds: whatever other calls are made in between (reads, strategy changes,
/// regenerations, failed or empty flattenings), no read regenerates the content and closing
/// the page does not either.
pub proof fn lemma_nothing_pending_until_changed(label: Option<Seq<char>>, ops: Seq<PdfPageOperation>)
    requires
        forall|i: int| 0 <= i < ops.len() ==> !spec_marks_change(#[trigger] ops[i]),
    ensures
        !spec_run_operations(spec_fresh_page(label), ops).is_content_regeneration_required,
        spec_read_action(spec_run_operations(spec_fresh_page(label), ops))
            == PdfPageContentAction::Proceed,
        !spec_regenerates_on_close(spec_run_operations(spec_fresh_page(label), ops)),
    decreases ops.len(),
{
    if ops.len() > 0 {
        let rest = ops.drop_last();
        assert forall|i: int| 0 <= i < rest.len() implies !spec_marks_change(#[trigger] rest[i]) by {
            assert(rest[i] == ops[i]);
        }
        lemma_nothing_pending_until_changed(label, rest);
        assert(!spec_marks_change(ops[ops.len() - 1]));
    }
}

/// The strategy of a page is the one set last, or the default where none was set; and no
/// call changes the page's label.
pub proof fn lemma_strategy_is_last_set(label: Option<Seq<char>>, ops: Seq<PdfPageOperation>)
    ensures
        spec_run_operations(spec_fresh_page(label), ops).regeneration_strategy
            == spec_last_strategy(ops),
        spec_run_operations(spec_fresh_page(label), ops).label == label,
    decreases ops.len(),
{
    if ops.len() > 0 {
        lemma_strategy_is_last_set(label, ops.drop_last());
    }
}

/// Adding a handle already used leaves the list of distinct handles as it was; adding a new
/// handle appends it at the end.
pub proof fn lemma_distinct_handles_push(handles: Seq<usize>, handle: usize)
    ensures
        handles.contains(handle) ==> spec_distinct_handles(handles.push(handle))
            == spec_distinct_handles(handles),
        !handles.contains(handle) ==> spec_distinct_handles(handles.push(handle))
            == spec_distinct_handles(handles).push(handle),
{
    assert(handles.push(handle).drop_last() =~= handles);
    lemma_distinct_handles(handles);
}

/// The distinct handles come in the order of their first use: of any two listed handles, the
/// earlier one is used before every use of the later one.
pub proof fn lemma_distinct_handles_first_use_order(handles: Seq<usize>)
    ensures
        forall|i: int, j: int, q: int|
            #![trigger spec_distinct_handles(handles)[i], spec_distinct_handles(handles)[j], handles[q]]
            0 <= i < j < spec_distinct_handles(handles).len() && 0 <= q < handles.len()
                && handles[q] == spec_distinct_handles(handles)[j] ==> handles.take(q).contains(
                spec_distinct_handles(handles)[i],
            ),
{
    assert forall|i: int, j: int, q: int|
        #![trigger spec_distinct_handles(handles)[i], spec_distinct_handles(handles)[j], handles[q]]
        0 <= i < j < spec_distinct_handles(handles).len() && 0 <= q < handles.len()
            && handles[q] == spec_distinct_handles(handles)[j] implies handles.take(q).contains(
            spec_distinct_handles(handles)[i],
        ) by {
        let p = lemma_earlier_listed_used_earlier(handles, i, j, q);
        assert(handles.take(q)[p] == spec_distinct_handles(handles)[i]);
    }
}

/// A use of the `j`-th listed handle at position `q` comes after some use of the `i`-th
/// listed handle, for `i < j`; the result is such a position.
proof fn lemma_earlier_listed_used_earlier(handles: Seq<usize>, i: int, j: int, q: int) -> (p: int)
    requires
        0 <= i < j < spec_distinct_handles(handles).len(),
        0 <= q < handles.len(),
        handles[q] == spec_distinct_handles(handles)[j],
    ensures
        0 <= p < q,
        handles[p] == spec_distinct_handles(handles)[i],
    decreases handles.len(),
{
    let d = spec_distinct_handles(handles);
    let rest = handles.drop_last();
    let x: usize = handles.last();
    let e = spec_distinct_handles(rest);
    lemma_distinct_handles(rest);
    if e.contains(x) {
        assert(d == e);
        let qq: int = if q < rest.len() {
            q
        } else {
            assert(rest.contains(x));
            choose|k: int| 0 <= k < rest.len() && rest[k] == x
        };
        assert(rest[qq] == e[j]);
        let p = lemma_earlier_listed_used_earlier(rest, i, j, qq);
        assert(handles[p] == rest[p]);
        p
    } else {
        assert(d == e.push(x));
        assert(!rest.contains(x));
        if j < e.len() {
            assert(d[i] == e[i] && d[j] == e[j]);
            if q == rest.len() {
                assert(e[j] == x);
                assert(e.contains(x));
            }
            assert(rest[q] == e[j]);
            let p = lemma_earlier_listed_used_earlier(rest, i, j, q);
            assert(handles[p] == rest[p]);
            p
        } else {
            assert(d[j] == x);
            assert(d[i] == e[i]);
            assert(e.contains(e[i]));
            let p: int = choose|p: int| 0 <= p < rest.len() && rest[p] == e[i];
            if q < rest.len() {
                assert(rest[q] == x);
            }
            assert(handles[p] == rest[p]);
            p
        }
    }
}

impl PdfPage {
    /// Creates the page state for a page just loaded by Pdfium, with the given label.
    ///
    /// The page starts out with the default strategy, regenerating on every change, with no
    /// change pending. The second value is what the page's objects are told: whether to
    /// regenerate the page's content after each change.
    pub fn from_pdfium(label: Option<String>) -> (result: (PdfPage, bool))
        ensures
            result.0@.label == (match label {
                Some(l) => Some(l@),
                None => None::<Seq<char>>,
            }),
            result.0@ == spec_fresh_page(result.0@.label),
            result.1 == spec_regenerate_after_each_change(spec_default_strategy()),
    {
        let mut page = PdfPage {
            label,
            regeneration_strategy: PdfPageContentRegenerationStrategy::Manual,
            is_content_regeneration_required: false,
        };
        let objects_flag = page.set_content_regeneration_strategy(
            PdfPageContentRegenerationStrategy::AutomaticOnEveryChange,
        );
        (page, objects_flag)
    }

    /// The label assigned to this page, if any.
    pub fn label(&self) -> (result: Option<&str>)
        ensures
            result is Some <==> self@.label is Some,
            result matches Some(s) ==> self@.label == Some(s@),
    {
        match &self.label {
            Some(l) => Some(l.as_str()),
            None => None,
        }
    }

    /// The orientation of a page, given whether its width is greater than its height:
    /// landscape if so, portrait otherwise.
    pub fn orientation(width_exceeds_height: bool) -> (result: PdfPageOrientation)
        ensures
            result == spec_orientation(width_exceeds_height),
    {
        if width_exceeds_height {
            PdfPageOrientation::Landscape
        } else {
            PdfPageOrientation::Portrait
        }
    }

    /// Whether a page of the given orientation is in portrait orientation.
    pub fn is_portrait(orientation: PdfPageOrientation) -> (result: bool)
        ensures
            result == (orientation == PdfPageOrientation::Portrait),
    {
        orientation == PdfPageOrientation::Portrait
    }

    /// Whether a page of the given orientation is in landscape orientation.
    pub fn is_landscape(orientation: PdfPageOrientation) -> (result: bool)
        ensures
            result == (orientation == PdfPageOrientation::Landscape),
    {
        orientation == PdfPageOrientation::Landscape
    }

    /// The intrinsic rotation of a page, given the rotation code Pdfium reported for it.
    pub fn rotation(code: i32) -> (result: Result<PdfBitmapRotation, PdfiumError>)
        ensures
            result == spec_rotation_from_code(code),
    {
        PdfBitmapRotation::from_pdfium(code)
    }

    /// The rotation code to hand Pdfium when setting the intrinsic rotation of a page.
    pub fn set_rotation(rotation: PdfBitmapRotation) -> (code: i32)
        ensures
            code == spec_rotation_code(rotation),
    {
        rotation.as_pdfium()
    }

    /// Whether any object on a page contains transparency, given the boolean Pdfium returned.
    pub fn has_transparency(pdfium_result: i32) -> (result: bool)
        ensures
            result == (pdfium_result != 0),
    {
        pdfium_result != 0
    }

    /// Whether a page contains an embedded thumbnail, given the length of the raw thumbnail
    /// data Pdfium reported for it: a thumbnail exists exactly when that length is not zero.
    pub fn has_embedded_thumbnail(raw_thumbnail_data_length: u64) -> (result: bool)
        ensures
            result == (raw_thumbnail_data_length > 0),
    {
        raw_thumbnail_data_length > 0
    }

    /// The outcome of fetching a page's embedded thumbnail, given whether the bitmap handle
    /// Pdfium returned is null: a null handle means the page has no thumbnail.
    pub fn embedded_thumbnail(thumbnail_handle_is_null: bool) -> (result: Result<(), PdfiumError>)
        ensures
            thumbnail_handle_is_null ==> result == Err::<(), PdfiumError>(
                PdfiumError::PageMissingEmbeddedThumbnail,
            ),
            !thumbnail_handle_is_null ==> result is Ok,
    {
        if thumbnail_handle_is_null {
            Err(PdfiumError::PageMissingEmbeddedThumbnail)
        } else {
            Ok(())
        }
    }

    /// What must happen before the text of this page is loaded.
    pub fn text(&self) -> (action: PdfPageContentAction)
        ensures
            action == spec_read_action(self@),
    {
        self.read_action()
    }

    /// The outcome of loading the text of a page, given whether the text page handle Pdfium
    /// returned is null and what Pdfium's last-error query returned.
    pub fn text_page_loaded(
        text_handle_is_null: bool,
        last_error: Option<PdfiumInternalError>,
    ) -> (result: Result<(), PdfiumError>)
        ensures
            text_handle_is_null ==> result == Err::<(), PdfiumError>(
                spec_error_from_last_error(last_error),
            ),
            !text_handle_is_null ==> result is Ok,
    {
        if text_handle_is_null {
            Err(PdfiumError::from_last_error(last_error))
        } else {
            Ok(())
        }
    }

    /// What must happen before the annotations of this page are handed out for reading.
    pub fn annotations(&self) -> (action: PdfPageContentAction)
        ensures
            action == spec_read_action(self@),
    {
        self.read_action()
    }

    /// Hands out the annotations of this page for changing. The page assumes they will be
    /// changed; the result is what the annotations are told: whether to regenerate the page's
    /// content after each change.
    pub fn annotations_mut(&mut self) -> (regenerate_after_each_change: bool)
        ensures
            final(self)@ == spec_after_mutable_access(old(self)@),
            final(self)@ == spec_apply_operation(old(self)@, PdfPageOperation::MutableAccess),
            regenerate_after_each_change == spec_regenerate_after_each_change(
                old(self)@.regeneration_strategy,
            ),
    {
        self.mutable_access()
    }

    /// What must happen before the objects of this page are handed out for reading.
    pub fn objects(&self) -> (action: PdfPageContentAction)
        ensures
            action == spec_read_action(self@),
    {
        self.read_action()
    }

    /// Hands out the objects of this page for changing. The page assumes they will be
    /// changed; the result is what the objects are told: whether to regenerate the page's
    /// content after each change.
    pub fn objects_mut(&mut self) -> (regenerate_after_each_change: bool)
        ensures
            final(self)@ == spec_after_mutable_access(old(self)@),
            final(self)@ == spec_apply_operation(old(self)@, PdfPageOperation::MutableAccess),
            regenerate_after_each_change == spec_regenerate_after_each_change(
                old(self)@.regeneration_strategy,
            ),
    {
        self.mutable_access()
    }

    fn read_action(&self) -> (action: PdfPageContentAction)
        ensures
            action == spec_read_action(self@),
    {
        if self.regeneration_strategy == PdfPageContentRegenerationStrategy::AutomaticOnEveryChange
            && self.is_content_regeneration_required {
            PdfPageContentAction::RegenerateContent
        } else {
            PdfPageContentAction::Proceed
        }
    }

    fn mutable_access(&mut self) -> (regenerate_after_each_change: bool)
        ensures
            final(self)@ == spec_after_mutable_access(old(self)@),
            final(self)@ == spec_apply_operation(old(self)@, PdfPageOperation::MutableAccess),
            regenerate_after_each_change == spec_regenerate_after_each_change(
                old(self)@.regeneration_strategy,
            ),
    {
        self.is_content_regeneration_required = self.regeneration_strategy
            != PdfPageContentRegenerationStrategy::AutomaticOnEveryChange;
        self.regeneration_strategy == PdfPageContentRegenerationStrategy::AutomaticOnEveryChange
    }

    /// The distinct fonts used by the text objects of a page, given the font handle of each
    /// text object in the order the objects are stored: each font once, in the order of its
    /// first use.
    pub fn fonts(text_object_font_handles: &Vec<usize>) -> (result: Vec<usize>)
        ensures
            result@ == spec_distinct_handles(text_object_font_handles@),
    {
        broadcast use vstd::std_specs::hash::group_hash_axioms;

        let mut distinct_font_handles: HashMap<usize, bool> = HashMap::new();
        let mut result: Vec<usize> = Vec::new();
        let n: usize = text_object_font_handles.len();
        let mut i: usize = 0;
        while i < n
            invariant
                n == text_object_font_handles@.len(),
                i <= n,
                result@ == spec_distinct_handles(text_object_font_handles@.take(i as int)),
                forall|k: usize|
                    distinct_font_handles@.contains_key(k) <==> #[trigger] result@.contains(k),
            decreases n - i,
        {
            let handle: usize = text_object_font_handles[i];
            proof {
                assert(text_object_font_handles@.take(i + 1).drop_last()
                    =~= text_object_font_handles@.take(i as int));
                assert(text_object_font_handles@.take(i + 1).last() == handle);
            }
            if !distinct_font_handles.contains_key(&handle) {
                let ghost earlier = result@;
                distinct_font_handles.insert(handle, true);
                result.push(handle);
                proof {
                    assert forall|k: usize|
                        distinct_font_handles@.contains_key(k) <==> #[trigger] result@.contains(k) by {
                        if result@.contains(k) && k != handle {
                            let j: int = choose|j: int| 0 <= j < result@.len() && result@[j] == k;
                            assert(earlier[j] == k);
                        }
                        if earlier.contains(k) {
                            let j: int = choose|j: int| 0 <= j < earlier.len() && earlier[j] == k;
                            assert(result@[j] == k);
                        }
                        if k == handle {
                            assert(result@[result@.len() - 1] == handle);
                        }
                    }
                }
            }
            i = i + 1;
        }
        proof {
            assert(text_object_font_handles@.take(n as int) =~= text_object_font_handles@);
        }
        result
    }

    /// The strategy used to regenerate the content of this page.
    pub fn content_regeneration_strategy(&self) -> (strategy: PdfPageContentRegenerationStrategy)
        ensures
            strategy == self@.regeneration_strategy,
    {
        self.regeneration_strategy
    }

    /// Sets the strategy used to regenerate the content of this page. The result is what the
    /// page's objects are told: whether to regenerate the page's content after each change.
    pub fn set_content_regeneration_strategy(
        &mut self,
        strategy: PdfPageContentRegenerationStrategy,
    ) -> (regenerate_after_each_change: bool)
        ensures
            final(self)@ == (PdfPageView { regeneration_strategy: strategy, ..old(self)@ }),
            final(self)@ == spec_apply_operation(old(self)@, PdfPageOperation::SetStrategy(strategy)),
            regenerate_after_each_change == spec_regenerate_after_each_change(strategy),
    {
        self.regeneration_strategy = strategy;
        self.regeneration_strategy == PdfPageContentRegenerationStrategy::AutomaticOnEveryChange
    }

    /// The outcome of committing the staged changes of this page, given the boolean Pdfium's
    /// content generation returned and what its last-error query returned. The page's own
    /// state is left as it was.
    pub fn regenerate_content(
        &mut self,
        generated: i32,
        last_error: Option<PdfiumInternalError>,
    ) -> (result: Result<(), PdfiumError>)
        ensures
            final(self)@ == old(self)@,
            final(self)@ == spec_apply_operation(old(self)@, PdfPageOperation::RegenerateContent),
            result == spec_regeneration_result(generated, last_error),
    {
        Self::regenerate_content_immut_for_handle(generated, last_error)
    }

    /// The outcome of committing the staged changes of a page, given the boolean Pdfium's
    /// content generation returned and what its last-error query returned.
    pub fn regenerate_content_immut_for_handle(
        generated: i32,
        last_error: Option<PdfiumInternalError>,
    ) -> (result: Result<(), PdfiumError>)
        ensures
            result == spec_regeneration_result(generated, last_error),
    {
        if generated != 0 {
            Ok(())
        } else {
            Err(PdfiumError::from_last_error(last_error))
        }
    }

    /// The outcome of flattening the annotations and form fields of this page into its
    /// contents, given the value Pdfium's flattening returned: on success a change is pending
    /// and the content must be regenerated now (the outcome is then that of the
    /// regeneration); with nothing to flatten there is nothing more to do; anything else is a
    /// failure.
    pub fn flatten(&mut self, flatten_result: i32) -> (result: Result<
        PdfPageContentAction,
        PdfiumError,
    >)
        ensures
            flatten_result == FLATTEN_SUCCESS ==> result == Ok::<
                PdfPageContentAction,
                PdfiumError,
            >(PdfPageContentAction::RegenerateContent) && final(self)@ == (PdfPageView {
                is_content_regeneration_required: true,
                ..old(self)@
            }),
            flatten_result == FLATTEN_NOTHINGTODO ==> result == Ok::<
                PdfPageContentAction,
                PdfiumError,
            >(PdfPageContentAction::Proceed) && final(self)@ == old(self)@,
            flatten_result != FLATTEN_SUCCESS && flatten_result != FLATTEN_NOTHINGTODO ==> result
                == Err::<PdfPageContentAction, PdfiumError>(PdfiumError::PageFlattenFailure)
                && final(self)@ == old(self)@,
            final(self)@ == spec_apply_operation(old(self)@, PdfPageOperation::Flatten(flatten_result)),
    {
        if flatten_result == FLATTEN_SUCCESS {
            self.is_content_regeneration_required = true;
            Ok(PdfPageContentAction::RegenerateContent)
        } else if flatten_result == FLATTEN_NOTHINGTODO {
            Ok(PdfPageContentAction::Proceed)
        } else {
            Err(PdfiumError::PageFlattenFailure)
        }
    }

    /// The index to hand Pdfium when deleting a page from its document, given the index the
    /// page index cache holds for it; a page missing from the cache cannot be deleted.
    pub fn delete(cached_index: Option<usize>) -> (result: Result<i32, PdfiumError>)
        ensures
            cached_index is None ==> result == Err::<i32, PdfiumError>(
                PdfiumError::SourcePageIndexNotInCache,
            ),
            cached_index matches Some(index) ==> result == Ok::<i32, PdfiumError>(index as i32),
    {
        match cached_index {
            Some(index) => Ok(index as i32),
            None => Err(PdfiumError::SourcePageIndexNotInCache),
        }
    }

    /// The calls that render this page into a bitmap under the given settings, in order.
    /// Rendering stops with an error at the first step after which Pdfium's last-error query
    /// reports one (see `PdfPageRenderStep::checks_last_error` and `PdfPageRenderStep::outcome`).
    pub fn render_into_bitmap_with_settings(settings: PdfPageRenderSettings) -> (steps: Vec<
        PdfPageRenderStep,
    >)
        ensures
            steps@ == spec_render_steps(settings),
    {
        let mut steps: Vec<PdfPageRenderStep> = Vec::new();
        if settings.do_clear_bitmap_before_rendering {
            steps.push(PdfPageRenderStep::ClearBitmap);
        }
        let ghost clear = steps@;
        if settings.do_render_form_data {
            steps.push(PdfPageRenderStep::RenderPageBitmap);
            if settings.has_form {
                let ghost before = steps@;
                let count: usize = settings.form_field_highlight_count;
                let mut index: usize = 0;
                while index < count
                    invariant
                        index <= count,
                        count == settings.form_field_highlight_count,
                        steps@ == before + Seq::new(
                            index as nat,
                            |i: int| PdfPageRenderStep::SetFormFieldHighlight { index: i as usize },
                        ),
                    decreases count - index,
                {
                    steps.push(PdfPageRenderStep::SetFormFieldHighlight { index });
                    index = index + 1;
                }
                steps.push(PdfPageRenderStep::DrawFormFields);
            }
        } else {
            steps.push(PdfPageRenderStep::RenderPageBitmapWithMatrix);
        }
        steps
    }

    /// Whether the content of this page is regenerated before the page is closed.
    pub fn regenerates_content_on_close(&self) -> (result: bool)
        ensures
            result == spec_regenerates_on_close(self@),
    {
        self.regeneration_strategy != PdfPageContentRegenerationStrategy::Manual
            && self.is_content_regeneration_required
    }
}

} // verus!
