//! A native document, as the destination of copied page objects.
use vstd::prelude::*;

use crate::bindings::{PdfiumLibraryBindings, FPDF_DOCUMENT};

verus! {

/// An open native document. Objects copied into it live no longer than it does.
pub struct PdfDocument<'a> {
    handle: FPDF_DOCUMENT,
    bindings: &'a dyn PdfiumLibraryBindings,
}

impl<'a> PdfDocument<'a> {
    pub closed spec fn document_handle(&self) -> FPDF_DOCUMENT {
        self.handle
    }

    pub fn from_pdfium(handle: FPDF_DOCUMENT, bindings: &'a dyn PdfiumLibraryBindings) -> (r: Self)
        ensures
            r.document_handle() == handle,
    {
        PdfDocument { handle, bindings }
    }

    /// The native handle of this document.
    pub fn handle(&self) -> (r: FPDF_DOCUMENT)
        ensures
            r == self.document_handle(),
    {
        self.handle
    }

    /// The bindings through which this document issues its native calls.
    pub fn bindings(&self) -> &'a dyn PdfiumLibraryBindings {
        self.bindings
    }
}

} // verus!
