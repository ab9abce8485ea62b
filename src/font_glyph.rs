//! A single glyph of a font, and the path segments of its outline.
use vstd::prelude::*;

use crate::bindings::{
    get_pdfium_last_error, PdfiumLibraryBindings, FPDF_BOOL, FPDF_FONT, FPDF_GLYPHPATH,
    FPDF_PATHSEGMENT, NULL_HANDLE,
};
use crate::error::{null_result_error, PdfiumError, PdfiumInternalError};
use crate::points::PdfPoints;

verus! {

/// The position of a glyph within its font.
pub type PdfFontGlyphIndex = u16;

/// The position of a segment within a path.
pub type PdfPathSegmentIndex = u16;

/// The width that a native glyph-width query reports: the width it wrote when the call
/// succeeded, and zero otherwise.
pub open spec fn glyph_width_outcome(ok: FPDF_BOOL, width: PdfPoints) -> PdfPoints {
    if ok != 0 {
        width
    } else {
        PdfPoints { bits: 0 }
    }
}

/// The number of segments that a native segment count stands for: a count that does not fit
/// a segment index is read as no segments.
pub open spec fn segment_count_outcome(count: i32) -> PdfPathSegmentIndex {
    if 0 <= count <= 65535 {
        count as PdfPathSegmentIndex
    } else {
        0
    }
}

/// Converts the result of a native glyph-width query. A failed query gives a width of zero
/// rather than an error.
pub fn glyph_width_from_pdfium(ok: FPDF_BOOL, width: PdfPoints) -> (r: PdfPoints)
    ensures
        r == glyph_width_outcome(ok, width),
{
    if ok != 0 {
        width
    } else {
        PdfPoints::zero()
    }
}

/// Converts a native segment count.
pub fn segment_count_from_pdfium(count: i32) -> (r: PdfPathSegmentIndex)
    ensures
        r == segment_count_outcome(count),
{
    if 0 <= count && count <= 65535 {
        count as PdfPathSegmentIndex
    } else {
        0
    }
}

/// A single glyph in a font.
pub struct PdfFontGlyph<'a> {
    handle: FPDF_FONT,
    index: PdfFontGlyphIndex,
    bindings: &'a dyn PdfiumLibraryBindings,
}

impl<'a> PdfFontGlyph<'a> {
    /// The native font handle this glyph belongs to.
    pub closed spec fn font_handle(&self) -> FPDF_FONT {
        self.handle
    }

    /// The glyph's index within its font.
    pub closed spec fn glyph_index(&self) -> PdfFontGlyphIndex {
        self.index
    }

    pub fn from_pdfium(
        handle: FPDF_FONT,
        index: PdfFontGlyphIndex,
        bindings: &'a dyn PdfiumLibraryBindings,
    ) -> (r: Self)
        ensures
            r.font_handle() == handle,
            r.glyph_index() == index,
    {
        PdfFontGlyph { handle, index, bindings }
    }

    /// The bindings through which this glyph issues its native calls.
    pub fn bindings(&self) -> &'a dyn PdfiumLibraryBindings {
        self.bindings
    }

    /// The width of this glyph when rendered at the given font size; zero where the native
    /// library cannot compute it.
    pub fn width_at_font_size(&self, size: PdfPoints) -> (r: PdfPoints)
        ensures
            exists|ok: FPDF_BOOL, width: PdfPoints| r == glyph_width_outcome(ok, width),
    {
        let mut width = PdfPoints::zero();
        let ok = self.bindings.FPDFFont_GetGlyphWidth(self.handle, self.index as u32, size, &mut width);
        glyph_width_from_pdfium(ok, width)
    }

    /// The path segments of this glyph when rendered at the given font size.
    pub fn segments_at_font_size(&self, size: PdfPoints) -> (r: Result<PdfFontGlyphPath<'a>, PdfiumError>)
        ensures
            exists|handle: FPDF_GLYPHPATH, last_error: Option<PdfiumInternalError>|
                PdfFontGlyphPath::native_result_outcome(r, handle, last_error),
    {
        let handle = self.bindings.FPDFFont_GetGlyphPath(self.handle, self.index as u32, size);
        let last_error = if handle == NULL_HANDLE {
            get_pdfium_last_error(self.bindings)
        } else {
            None
        };
        PdfFontGlyphPath::from_native_result(handle, last_error, self.bindings)
    }
}

/// A single segment of a path, bound to its native handle.
pub struct PdfPathSegment<'a> {
    handle: FPDF_PATHSEGMENT,
    bindings: &'a dyn PdfiumLibraryBindings,
}

impl<'a> PdfPathSegment<'a> {
    pub closed spec fn segment_handle(&self) -> FPDF_PATHSEGMENT {
        self.handle
    }

    pub fn from_pdfium(handle: FPDF_PATHSEGMENT, bindings: &'a dyn PdfiumLibraryBindings) -> (r: Self)
        ensures
            r.segment_handle() == handle,
    {
        PdfPathSegment { handle, bindings }
    }

    /// The native handle of this segment.
    pub fn handle(&self) -> (r: FPDF_PATHSEGMENT)
        ensures
            r == self.segment_handle(),
    {
        self.handle
    }

    /// The bindings through which this segment issues its native calls.
    pub fn bindings(&self) -> &'a dyn PdfiumLibraryBindings {
        self.bindings
    }

    /// Whether `r` is what a native segment query gives for the returned `handle` and the
    /// last-error state: a segment on that handle unless it is null, the null-result error
    /// otherwise.
    pub open spec fn native_result_outcome(
        r: Result<PdfPathSegment<'a>, PdfiumError>,
        handle: FPDF_PATHSEGMENT,
        last_error: Option<PdfiumInternalError>,
    ) -> bool {
        if handle == NULL_HANDLE {
            r == Err::<PdfPathSegment<'a>, PdfiumError>(null_result_error(last_error))
        } else {
            r is Ok && r->Ok_0.segment_handle() == handle
        }
    }

    /// Wraps the result of a native segment query.
    pub fn from_native_result(
        handle: FPDF_PATHSEGMENT,
        last_error: Option<PdfiumInternalError>,
        bindings: &'a dyn PdfiumLibraryBindings,
    ) -> (r: Result<PdfPathSegment<'a>, PdfiumError>)
        ensures
            Self::native_result_outcome(r, handle, last_error),
    {
        if handle == NULL_HANDLE {
            Err(PdfiumError::for_null_result(last_error))
        } else {
            Ok(PdfPathSegment::from_pdfium(handle, bindings))
        }
    }
}

/// The collection of path segments inside a font glyph's outline. Its length and its
/// segments are asked of the native library on each call, never cached.
pub struct PdfFontGlyphPath<'a> {
    handle: FPDF_GLYPHPATH,
    bindings: &'a dyn PdfiumLibraryBindings,
}

impl<'a> PdfFontGlyphPath<'a> {
    pub closed spec fn path_handle(&self) -> FPDF_GLYPHPATH {
        self.handle
    }

    pub fn from_pdfium(handle: FPDF_GLYPHPATH, bindings: &'a dyn PdfiumLibraryBindings) -> (r: Self)
        ensures
            r.path_handle() == handle,
    {
        PdfFontGlyphPath { handle, bindings }
    }

    /// Whether `r` is what a native glyph-path query gives for the returned `handle` and the
    /// last-error state: a path on that handle unless it is null, the null-result error
    /// otherwise.
    pub open spec fn native_result_outcome(
        r: Result<PdfFontGlyphPath<'a>, PdfiumError>,
        handle: FPDF_GLYPHPATH,
        last_error: Option<PdfiumInternalError>,
    ) -> bool {
        if handle == NULL_HANDLE {
            r == Err::<PdfFontGlyphPath<'a>, PdfiumError>(null_result_error(last_error))
        } else {
            r is Ok && r->Ok_0.path_handle() == handle
        }
    }

    /// Wraps the result of a native glyph-path query.
    pub fn from_native_result(
        handle: FPDF_GLYPHPATH,
        last_error: Option<PdfiumInternalError>,
        bindings: &'a dyn PdfiumLibraryBindings,
    ) -> (r: Result<PdfFontGlyphPath<'a>, PdfiumError>)
        ensures
            Self::native_result_outcome(r, handle, last_error),
    {
        if handle == NULL_HANDLE {
            Err(PdfiumError::for_null_result(last_error))
        } else {
            Ok(PdfFontGlyphPath::from_pdfium(handle, bindings))
        }
    }

    /// The bindings through which this path issues its native calls.
    pub fn bindings(&self) -> &'a dyn PdfiumLibraryBindings {
        self.bindings
    }

    /// The number of segments in this path, as the native library reports it now.
    pub fn len(&self) -> (r: PdfPathSegmentIndex)
        ensures
            exists|count: i32| r == segment_count_outcome(count),
    {
        let count = self.bindings.FPDFGlyphPath_CountGlyphSegments(self.handle);
        segment_count_from_pdfium(count)
    }

    /// The segment at `index`, as the native library reports it now.
    pub fn get(&self, index: PdfPathSegmentIndex) -> (r: Result<PdfPathSegment<'a>, PdfiumError>)
        ensures
            exists|handle: FPDF_PATHSEGMENT, last_error: Option<PdfiumInternalError>|
                PdfPathSegment::native_result_outcome(r, handle, last_error),
    {
        let handle = self.bindings.FPDFGlyphPath_GetGlyphPathSegment(self.handle, index as i32);
        let last_error = if handle == NULL_HANDLE {
            get_pdfium_last_error(self.bindings)
        } else {
            None
        };
        PdfPathSegment::from_native_result(handle, last_error, self.bindings)
    }

    /// A one-shot forward iterator over the segments of this path.
    pub fn iter<'b>(&'b self) -> (r: PdfPathSegmentsIterator<'b, 'a>)
        ensures
            r.next_index() == 0,
    {
        PdfPathSegmentsIterator { path: self, next_index: 0 }
    }
}

/// Walks the segments of a glyph path by position, asking the native library for the length
/// and for each segment as it goes.
pub struct PdfPathSegmentsIterator<'b, 'a> {
    path: &'b PdfFontGlyphPath<'a>,
    next_index: PdfPathSegmentIndex,
}

impl<'b, 'a> PdfPathSegmentsIterator<'b, 'a> {
    /// The position of the segment that the next step will ask for.
    pub closed spec fn next_index(&self) -> PdfPathSegmentIndex {
        self.next_index
    }

    /// The path this iterator walks.
    pub closed spec fn path(&self) -> PdfFontGlyphPath<'a> {
        *self.path
    }

    /// Whether `r` and `after` are what one step from `self` gives when the path's length
    /// reads `len`. Below that length the position advances by one and `r` holds the segment
    /// read there exactly when the read succeeded; at or past it, the step gives `None` and
    /// stays put.
    pub open spec fn step_outcome(
        self,
        after: Self,
        len: PdfPathSegmentIndex,
        r: Option<PdfPathSegment<'a>>,
    ) -> bool {
        &&& after.path() == self.path()
        &&& if self.next_index() < len {
            &&& after.next_index() == self.next_index() + 1
            &&& exists|read: Result<PdfPathSegment<'a>, PdfiumError>, handle: FPDF_PATHSEGMENT, last_error: Option<PdfiumInternalError>|
                #![trigger PdfPathSegment::native_result_outcome(read, handle, last_error)]
                PdfPathSegment::native_result_outcome(read, handle, last_error)
                    && r == segment_of_read(read)
        } else {
            &&& r is None
            &&& after.next_index() == self.next_index()
        }
    }

    /// One step, given the length of the path as just read: below it, reads the segment at
    /// the current position and advances; at or past it, gives `None` and stays put.
    pub fn next_within(&mut self, len: PdfPathSegmentIndex) -> (r: Option<PdfPathSegment<'a>>)
        ensures
            old(self).step_outcome(*final(self), len, r),
    {
        if self.next_index < len {
            let read = self.path.get(self.next_index);
            self.next_index = self.next_index + 1;
            match read {
                Ok(s) => Some(s),
                Err(_) => None,
            }
        } else {
            None
        }
    }

    /// The next segment, or `None` once the position reaches the path's current length or a
    /// segment cannot be read. The length is asked of the native library on every step.
    pub fn next(&mut self) -> (r: Option<PdfPathSegment<'a>>)
        ensures
            exists|count: i32| old(self).step_outcome(*final(self), segment_count_outcome(count), r),
    {
        let len = self.path.len();
        self.next_within(len)
    }
}

/// The segment that a read gives, if it succeeded.
pub open spec fn segment_of_read<'a>(read: Result<PdfPathSegment<'a>, PdfiumError>) -> Option<PdfPathSegment<'a>> {
    match read {
        Ok(s) => Some(s),
        Err(_) => None,
    }
}

} // verus!
