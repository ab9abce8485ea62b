//! The seam through which every native call is issued.
//!
//! Handles are opaque native identifiers; zero is the null handle.
#![allow(non_camel_case_types, non_snake_case)]
use vstd::prelude::*;

use crate::error::{internal_error_of, PdfiumInternalError};
use crate::points::{PdfMatrix, PdfPoints};

verus! {

pub type FPDF_BOOL = i32;

pub type FPDF_DOCUMENT = u64;

pub type FPDF_PAGE = u64;

pub type FPDF_ANNOTATION = u64;

pub type FPDF_PAGEOBJECT = u64;

pub type FPDF_PATHSEGMENT = u64;

pub type FPDF_FONT = u64;

pub type FPDF_GLYPHPATH = u64;

pub type FPDF_BITMAP = u64;

/// The null value of every handle type.
pub const NULL_HANDLE: u64 = 0;

pub const FPDF_ERR_SUCCESS: u32 = 0;

pub const FPDF_ERR_UNKNOWN: u32 = 1;

pub const FPDF_ERR_FILE: u32 = 2;

pub const FPDF_ERR_FORMAT: u32 = 3;

pub const FPDF_ERR_PASSWORD: u32 = 4;

pub const FPDF_ERR_SECURITY: u32 = 5;

pub const FPDF_ERR_PAGE: u32 = 6;

pub const FPDF_PAGEOBJ_UNKNOWN: u32 = 0;

pub const FPDF_PAGEOBJ_TEXT: u32 = 1;

pub const FPDF_PAGEOBJ_PATH: u32 = 2;

pub const FPDF_PAGEOBJ_IMAGE: u32 = 3;

pub const FPDF_PAGEOBJ_SHADING: u32 = 4;

pub const FPDF_PAGEOBJ_FORM: u32 = 5;

pub const FPDF_LINEJOIN_MITER: u32 = 0;

pub const FPDF_LINEJOIN_ROUND: u32 = 1;

pub const FPDF_LINEJOIN_BEVEL: u32 = 2;

pub const FPDF_LINECAP_BUTT: u32 = 0;

pub const FPDF_LINECAP_ROUND: u32 = 1;

pub const FPDF_LINECAP_PROJECTING_SQUARE: u32 = 2;

pub const FPDF_SEGMENT_UNKNOWN: i32 = -1;

pub const FPDF_SEGMENT_LINETO: i32 = 0;

pub const FPDF_SEGMENT_BEZIERTO: i32 = 1;

pub const FPDF_SEGMENT_MOVETO: i32 = 2;

/// One method per native entry point. Implementations link the native library, or stand in
/// for it (a test double). Each method returns what the native function returns and writes
/// its out-parameters; nothing else is promised of it.
pub trait PdfiumLibraryBindings {
    fn FPDF_GetLastError(&self) -> u32;

    fn FPDFPageObj_GetType(&self, page_object: FPDF_PAGEOBJECT) -> i32;

    /// Releases a page object. It is called while the owning wrapper is dropped, so an
    /// implementation must return normally: it must not panic.
    fn FPDFPageObj_Destroy(&self, page_object: FPDF_PAGEOBJECT);

    fn FPDFPageObj_HasTransparency(&self, page_object: FPDF_PAGEOBJECT) -> FPDF_BOOL;

    fn FPDFPageObj_GetBounds(
        &self,
        page_object: FPDF_PAGEOBJECT,
        left: &mut PdfPoints,
        bottom: &mut PdfPoints,
        right: &mut PdfPoints,
        top: &mut PdfPoints,
    ) -> FPDF_BOOL;

    fn FPDFPageObj_GetMatrix(&self, page_object: FPDF_PAGEOBJECT, matrix: &mut PdfMatrix) -> FPDF_BOOL;

    fn FPDFPageObj_SetMatrix(&self, page_object: FPDF_PAGEOBJECT, matrix: &PdfMatrix) -> FPDF_BOOL;

    fn FPDFPageObj_SetBlendMode(&self, page_object: FPDF_PAGEOBJECT, blend_mode: &str);

    fn FPDFPageObj_GetFillColor(
        &self,
        page_object: FPDF_PAGEOBJECT,
        r: &mut u32,
        g: &mut u32,
        b: &mut u32,
        a: &mut u32,
    ) -> FPDF_BOOL;

    fn FPDFPageObj_SetFillColor(
        &self,
        page_object: FPDF_PAGEOBJECT,
        r: u32,
        g: u32,
        b: u32,
        a: u32,
    ) -> FPDF_BOOL;

    fn FPDFPageObj_GetStrokeColor(
        &self,
        page_object: FPDF_PAGEOBJECT,
        r: &mut u32,
        g: &mut u32,
        b: &mut u32,
        a: &mut u32,
    ) -> FPDF_BOOL;

    fn FPDFPageObj_SetStrokeColor(
        &self,
        page_object: FPDF_PAGEOBJECT,
        r: u32,
        g: u32,
        b: u32,
        a: u32,
    ) -> FPDF_BOOL;

    fn FPDFPageObj_GetStrokeWidth(&self, page_object: FPDF_PAGEOBJECT, width: &mut PdfPoints) -> FPDF_BOOL;

    fn FPDFPageObj_SetStrokeWidth(&self, page_object: FPDF_PAGEOBJECT, width: PdfPoints) -> FPDF_BOOL;

    fn FPDFPageObj_GetLineJoin(&self, page_object: FPDF_PAGEOBJECT) -> i32;

    fn FPDFPageObj_SetLineJoin(&self, page_object: FPDF_PAGEOBJECT, line_join: i32) -> FPDF_BOOL;

    fn FPDFPageObj_GetLineCap(&self, page_object: FPDF_PAGEOBJECT) -> i32;

    fn FPDFPageObj_SetLineCap(&self, page_object: FPDF_PAGEOBJECT, line_cap: i32) -> FPDF_BOOL;

    fn FPDFPage_InsertObject(&self, page: FPDF_PAGE, page_object: FPDF_PAGEOBJECT);

    fn FPDFPage_RemoveObject(&self, page: FPDF_PAGE, page_object: FPDF_PAGEOBJECT) -> FPDF_BOOL;

    fn FPDFAnnot_AppendObject(&self, annotation: FPDF_ANNOTATION, page_object: FPDF_PAGEOBJECT) -> FPDF_BOOL;

    fn FPDFAnnot_GetObjectCount(&self, annotation: FPDF_ANNOTATION) -> i32;

    fn FPDFAnnot_GetObject(&self, annotation: FPDF_ANNOTATION, index: i32) -> FPDF_PAGEOBJECT;

    fn FPDFAnnot_RemoveObject(&self, annotation: FPDF_ANNOTATION, index: i32) -> FPDF_BOOL;

    fn FPDFPath_CountSegments(&self, path: FPDF_PAGEOBJECT) -> i32;

    fn FPDFPath_GetPathSegment(&self, path: FPDF_PAGEOBJECT, index: i32) -> FPDF_PATHSEGMENT;

    fn FPDFPathSegment_GetType(&self, segment: FPDF_PATHSEGMENT) -> i32;

    fn FPDFPathSegment_GetPoint(&self, segment: FPDF_PATHSEGMENT, x: &mut PdfPoints, y: &mut PdfPoints) -> FPDF_BOOL;

    fn FPDFPathSegment_GetClose(&self, segment: FPDF_PATHSEGMENT) -> FPDF_BOOL;

    fn FPDFPageObj_CreateNewPath(&self, x: PdfPoints, y: PdfPoints) -> FPDF_PAGEOBJECT;

    fn FPDFPath_MoveTo(&self, path: FPDF_PAGEOBJECT, x: PdfPoints, y: PdfPoints) -> FPDF_BOOL;

    fn FPDFPath_LineTo(&self, path: FPDF_PAGEOBJECT, x: PdfPoints, y: PdfPoints) -> FPDF_BOOL;

    fn FPDFPath_Close(&self, path: FPDF_PAGEOBJECT) -> FPDF_BOOL;

    fn FPDFImageObj_GetImageFilterCount(&self, image_object: FPDF_PAGEOBJECT) -> i32;

    fn FPDFPageObj_NewImageObj(&self, document: FPDF_DOCUMENT) -> FPDF_PAGEOBJECT;

    fn FPDFImageObj_GetBitmap(&self, image_object: FPDF_PAGEOBJECT) -> FPDF_BITMAP;

    fn FPDFImageObj_SetBitmap(&self, image_object: FPDF_PAGEOBJECT, bitmap: FPDF_BITMAP) -> FPDF_BOOL;

    fn FPDFBitmap_Destroy(&self, bitmap: FPDF_BITMAP);

    fn FPDFFont_GetGlyphWidth(
        &self,
        font: FPDF_FONT,
        glyph: u32,
        font_size: PdfPoints,
        width: &mut PdfPoints,
    ) -> FPDF_BOOL;

    fn FPDFFont_GetGlyphPath(&self, font: FPDF_FONT, glyph: u32, font_size: PdfPoints) -> FPDF_GLYPHPATH;

    fn FPDFGlyphPath_CountGlyphSegments(&self, glyph_path: FPDF_GLYPHPATH) -> i32;

    fn FPDFGlyphPath_GetGlyphPathSegment(&self, glyph_path: FPDF_GLYPHPATH, index: i32) -> FPDF_PATHSEGMENT;
}

/// Whether a native boolean reports success.
pub fn is_true(value: FPDF_BOOL) -> (r: bool)
    ensures
        r == (value != 0),
{
    value != 0
}

/// The internal error, if any, that the native library reports for its last operation.
pub fn get_pdfium_last_error(bindings: &dyn PdfiumLibraryBindings) -> (r: Option<PdfiumInternalError>)
    ensures
        exists|code: u32| r == internal_error_of(code),
{
    let code = bindings.FPDF_GetLastError();
    PdfiumInternalError::from_pdfium(code)
}

} // verus!
