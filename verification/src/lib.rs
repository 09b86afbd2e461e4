//! Page-level logic of a PDF page: content regeneration bookkeeping, page rotation codes,
//! the distinct fonts used on a page, and the plan of calls that renders a page into a bitmap.
//!
//! The calls into the Pdfium library itself are made by the caller; the functions here take
//! what those calls returned and decide what happens next.

pub mod error;
pub mod bitmap;
pub mod page;
