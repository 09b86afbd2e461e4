# pdfium_render page logic

The decisions that a PDF page makes around its calls into the Pdfium library, with their
contracts and laws proved:

- `src/page.rs`: the page state (label, content regeneration strategy, pending change), what
  must happen before the page's text, annotations or objects are handed out, flattening and
  deleting outcomes, the distinct fonts of a page, and the ordered calls that render a page
  into a bitmap; with the laws these obey.
- `src/bitmap.rs`: page rotations and their Pdfium codes.
- `src/error.rs`: the errors page operations return, and how Pdfium's error codes map to them.

`app/` holds what stays outside the verified library: measurements in floating-point points
(`PdfPoints`, `PdfRect`), the Pdfium calls themselves, and a page type that performs them and
hands their results to the library.
