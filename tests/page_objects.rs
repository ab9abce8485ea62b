#![allow(non_snake_case)]

use std::cell::{Cell, RefCell};

use pdfium_render::bindings::{
    PdfiumLibraryBindings, FPDF_ANNOTATION, FPDF_BITMAP, FPDF_BOOL, FPDF_DOCUMENT, FPDF_FONT,
    FPDF_GLYPHPATH, FPDF_PAGE, FPDF_PAGEOBJECT, FPDF_PATHSEGMENT, FPDF_SEGMENT_BEZIERTO,
    FPDF_SEGMENT_LINETO, FPDF_SEGMENT_MOVETO,
};
use pdfium_render::color::PdfColor;
use pdfium_render::document::PdfDocument;
use pdfium_render::error::{PdfiumError, PdfiumInternalError};
use pdfium_render::font_glyph::{PdfFontGlyph, PdfFontGlyphPath};
use pdfium_render::page_object::{
    annotation_object_index, find_object_index, path_copy_ops, PathOp, image_is_copyable, path_is_copyable, PathSegmentRecord, PdfPageObject,
    PdfPageObjectBlendMode, PdfPageObjectCommon, PdfPageObjectLineCap, PdfPageObjectLineJoin,
    PdfPageObjectType,
};
use pdfium_render::points::{PdfMatrix, PdfPoints};

/// A stand-in for the native library that records what it is asked and answers from its fields.
struct FakePdfium {
    object_type: Cell<i32>,
    last_error: Cell<u32>,
    destroyed: RefCell<Vec<u64>>,
    fill: Cell<(u32, u32, u32, u32)>,
    stroke: Cell<(u32, u32, u32, u32)>,
    color_calls_fail: Cell<bool>,
    stroke_width: Cell<u32>,
    matrix: Cell<PdfMatrix>,
    set_matrix_calls: RefCell<Vec<(u64, PdfMatrix)>>,
    line_join: Cell<i32>,
    line_cap: Cell<i32>,
    blend_mode: RefCell<String>,
    insert_error: Cell<u32>,
    inserted: RefCell<Vec<(u64, u64)>>,
    remove_ok: Cell<i32>,
    annotation_objects: RefCell<Vec<u64>>,
    removed_annotation_indices: RefCell<Vec<i32>>,
    segment_types: RefCell<Vec<i32>>,
    path_ops: RefCell<Vec<String>>,
    filter_count: Cell<i32>,
    created_handle: Cell<u64>,
    glyph_width: Cell<Option<u32>>,
    glyph_path: Cell<u64>,
    glyph_segment_count: Cell<i32>,
}

impl FakePdfium {
    fn new() -> FakePdfium {
        FakePdfium {
            object_type: Cell::new(2),
            last_error: Cell::new(0),
            destroyed: RefCell::new(Vec::new()),
            fill: Cell::new((0, 0, 0, 255)),
            stroke: Cell::new((0, 0, 0, 255)),
            color_calls_fail: Cell::new(false),
            stroke_width: Cell::new(0),
            matrix: Cell::new(PdfMatrix::new(1, 2, 3, 4, 5, 6)),
            set_matrix_calls: RefCell::new(Vec::new()),
            line_join: Cell::new(0),
            line_cap: Cell::new(0),
            blend_mode: RefCell::new(String::new()),
            insert_error: Cell::new(0),
            inserted: RefCell::new(Vec::new()),
            remove_ok: Cell::new(1),
            annotation_objects: RefCell::new(Vec::new()),
            removed_annotation_indices: RefCell::new(Vec::new()),
            segment_types: RefCell::new(Vec::new()),
            path_ops: RefCell::new(Vec::new()),
            filter_count: Cell::new(0),
            created_handle: Cell::new(900),
            glyph_width: Cell::new(None),
            glyph_path: Cell::new(0),
            glyph_segment_count: Cell::new(0),
        }
    }

    fn destroy_count(&self, handle: u64) -> usize {
        self.destroyed.borrow().iter().filter(|h| **h == handle).count()
    }
}

fn ok_flag(ok: bool) -> FPDF_BOOL {
    if ok {
        1
    } else {
        0
    }
}

impl PdfiumLibraryBindings for FakePdfium {
    fn FPDF_GetLastError(&self) -> u32 {
        self.last_error.get()
    }

    fn FPDFPageObj_GetType(&self, _page_object: FPDF_PAGEOBJECT) -> i32 {
        self.object_type.get()
    }

    fn FPDFPageObj_Destroy(&self, page_object: FPDF_PAGEOBJECT) {
        self.destroyed.borrow_mut().push(page_object);
    }

    fn FPDFPageObj_HasTransparency(&self, _page_object: FPDF_PAGEOBJECT) -> FPDF_BOOL {
        1
    }

    fn FPDFPageObj_GetBounds(
        &self,
        _page_object: FPDF_PAGEOBJECT,
        left: &mut PdfPoints,
        bottom: &mut PdfPoints,
        right: &mut PdfPoints,
        top: &mut PdfPoints,
    ) -> FPDF_BOOL {
        *left = PdfPoints::from_bits(1.0f32.to_bits());
        *bottom = PdfPoints::from_bits(2.0f32.to_bits());
        *right = PdfPoints::from_bits(3.0f32.to_bits());
        *top = PdfPoints::from_bits(4.0f32.to_bits());
        1
    }

    fn FPDFPageObj_GetMatrix(&self, _page_object: FPDF_PAGEOBJECT, matrix: &mut PdfMatrix) -> FPDF_BOOL {
        *matrix = self.matrix.get();
        1
    }

    fn FPDFPageObj_SetMatrix(&self, page_object: FPDF_PAGEOBJECT, matrix: &PdfMatrix) -> FPDF_BOOL {
        self.set_matrix_calls.borrow_mut().push((page_object, *matrix));
        1
    }

    fn FPDFPageObj_SetBlendMode(&self, _page_object: FPDF_PAGEOBJECT, blend_mode: &str) {
        *self.blend_mode.borrow_mut() = blend_mode.to_string();
    }

    fn FPDFPageObj_GetFillColor(
        &self,
        _page_object: FPDF_PAGEOBJECT,
        r: &mut u32,
        g: &mut u32,
        b: &mut u32,
        a: &mut u32,
    ) -> FPDF_BOOL {
        let (fr, fg, fb, fa) = self.fill.get();
        *r = fr;
        *g = fg;
        *b = fb;
        *a = fa;
        ok_flag(!self.color_calls_fail.get())
    }

    fn FPDFPageObj_SetFillColor(&self, _page_object: FPDF_PAGEOBJECT, r: u32, g: u32, b: u32, a: u32) -> FPDF_BOOL {
        if self.color_calls_fail.get() {
            return 0;
        }
        self.fill.set((r, g, b, a));
        1
    }

    fn FPDFPageObj_GetStrokeColor(
        &self,
        _page_object: FPDF_PAGEOBJECT,
        r: &mut u32,
        g: &mut u32,
        b: &mut u32,
        a: &mut u32,
    ) -> FPDF_BOOL {
        let (sr, sg, sb, sa) = self.stroke.get();
        *r = sr;
        *g = sg;
        *b = sb;
        *a = sa;
        ok_flag(!self.color_calls_fail.get())
    }

    fn FPDFPageObj_SetStrokeColor(&self, _page_object: FPDF_PAGEOBJECT, r: u32, g: u32, b: u32, a: u32) -> FPDF_BOOL {
        if self.color_calls_fail.get() {
            return 0;
        }
        self.stroke.set((r, g, b, a));
        1
    }

    fn FPDFPageObj_GetStrokeWidth(&self, _page_object: FPDF_PAGEOBJECT, width: &mut PdfPoints) -> FPDF_BOOL {
        *width = PdfPoints::from_bits(self.stroke_width.get());
        1
    }

    fn FPDFPageObj_SetStrokeWidth(&self, _page_object: FPDF_PAGEOBJECT, width: PdfPoints) -> FPDF_BOOL {
        self.stroke_width.set(width.to_bits());
        1
    }

    fn FPDFPageObj_GetLineJoin(&self, _page_object: FPDF_PAGEOBJECT) -> i32 {
        self.line_join.get()
    }

    fn FPDFPageObj_SetLineJoin(&self, _page_object: FPDF_PAGEOBJECT, line_join: i32) -> FPDF_BOOL {
        self.line_join.set(line_join);
        1
    }

    fn FPDFPageObj_GetLineCap(&self, _page_object: FPDF_PAGEOBJECT) -> i32 {
        self.line_cap.get()
    }

    fn FPDFPageObj_SetLineCap(&self, _page_object: FPDF_PAGEOBJECT, line_cap: i32) -> FPDF_BOOL {
        self.line_cap.set(line_cap);
        1
    }

    fn FPDFPage_InsertObject(&self, page: FPDF_PAGE, page_object: FPDF_PAGEOBJECT) {
        self.last_error.set(self.insert_error.get());
        self.inserted.borrow_mut().push((page, page_object));
    }

    fn FPDFPage_RemoveObject(&self, _page: FPDF_PAGE, _page_object: FPDF_PAGEOBJECT) -> FPDF_BOOL {
        self.remove_ok.get()
    }

    fn FPDFAnnot_AppendObject(&self, _annotation: FPDF_ANNOTATION, page_object: FPDF_PAGEOBJECT) -> FPDF_BOOL {
        self.annotation_objects.borrow_mut().push(page_object);
        1
    }

    fn FPDFAnnot_GetObjectCount(&self, _annotation: FPDF_ANNOTATION) -> i32 {
        self.annotation_objects.borrow().len() as i32
    }

    fn FPDFAnnot_GetObject(&self, _annotation: FPDF_ANNOTATION, index: i32) -> FPDF_PAGEOBJECT {
        self.annotation_objects.borrow()[index as usize]
    }

    fn FPDFAnnot_RemoveObject(&self, _annotation: FPDF_ANNOTATION, index: i32) -> FPDF_BOOL {
        self.removed_annotation_indices.borrow_mut().push(index);
        self.annotation_objects.borrow_mut().remove(index as usize);
        1
    }

    fn FPDFPath_CountSegments(&self, _path: FPDF_PAGEOBJECT) -> i32 {
        self.segment_types.borrow().len() as i32
    }

    fn FPDFPath_GetPathSegment(&self, _path: FPDF_PAGEOBJECT, index: i32) -> FPDF_PATHSEGMENT {
        index as u64 + 1
    }

    fn FPDFPathSegment_GetType(&self, segment: FPDF_PATHSEGMENT) -> i32 {
        self.segment_types.borrow()[(segment - 1) as usize]
    }

    fn FPDFPathSegment_GetPoint(&self, segment: FPDF_PATHSEGMENT, x: &mut PdfPoints, y: &mut PdfPoints) -> FPDF_BOOL {
        *x = PdfPoints::from_bits(segment as u32);
        *y = PdfPoints::from_bits(segment as u32 * 10);
        1
    }

    fn FPDFPathSegment_GetClose(&self, _segment: FPDF_PATHSEGMENT) -> FPDF_BOOL {
        0
    }

    fn FPDFPageObj_CreateNewPath(&self, _x: PdfPoints, _y: PdfPoints) -> FPDF_PAGEOBJECT {
        self.created_handle.get()
    }

    fn FPDFPath_MoveTo(&self, path: FPDF_PAGEOBJECT, x: PdfPoints, y: PdfPoints) -> FPDF_BOOL {
        self.path_ops.borrow_mut().push(format!("move {} {} {}", path, x.to_bits(), y.to_bits()));
        1
    }

    fn FPDFPath_LineTo(&self, path: FPDF_PAGEOBJECT, x: PdfPoints, y: PdfPoints) -> FPDF_BOOL {
        self.path_ops.borrow_mut().push(format!("line {} {} {}", path, x.to_bits(), y.to_bits()));
        1
    }

    fn FPDFPath_Close(&self, path: FPDF_PAGEOBJECT) -> FPDF_BOOL {
        self.path_ops.borrow_mut().push(format!("close {}", path));
        1
    }

    fn FPDFImageObj_GetImageFilterCount(&self, _image_object: FPDF_PAGEOBJECT) -> i32 {
        self.filter_count.get()
    }

    fn FPDFPageObj_NewImageObj(&self, _document: FPDF_DOCUMENT) -> FPDF_PAGEOBJECT {
        self.created_handle.get()
    }

    fn FPDFImageObj_GetBitmap(&self, _image_object: FPDF_PAGEOBJECT) -> FPDF_BITMAP {
        77
    }

    fn FPDFImageObj_SetBitmap(&self, _image_object: FPDF_PAGEOBJECT, bitmap: FPDF_BITMAP) -> FPDF_BOOL {
        ok_flag(bitmap == 77)
    }

    fn FPDFBitmap_Destroy(&self, _bitmap: FPDF_BITMAP) {}

    fn FPDFFont_GetGlyphWidth(&self, _font: FPDF_FONT, _glyph: u32, _font_size: PdfPoints, width: &mut PdfPoints) -> FPDF_BOOL {
        match self.glyph_width.get() {
            Some(bits) => {
                *width = PdfPoints::from_bits(bits);
                1
            }
            None => {
                *width = PdfPoints::from_bits(12345);
                0
            }
        }
    }

    fn FPDFFont_GetGlyphPath(&self, _font: FPDF_FONT, _glyph: u32, _font_size: PdfPoints) -> FPDF_GLYPHPATH {
        self.glyph_path.get()
    }

    fn FPDFGlyphPath_CountGlyphSegments(&self, _glyph_path: FPDF_GLYPHPATH) -> i32 {
        self.glyph_segment_count.get()
    }

    fn FPDFGlyphPath_GetGlyphPathSegment(&self, _glyph_path: FPDF_GLYPHPATH, index: i32) -> FPDF_PATHSEGMENT {
        if index >= 0 && index < self.glyph_segment_count.get() {
            100 + index as u64
        } else {
            0
        }
    }
}

fn object_of_type(fake: &FakePdfium, code: i32, handle: u64) -> PdfPageObject<'_> {
    fake.object_type.set(code);
    PdfPageObject::from_pdfium(handle, None, None, fake)
}

fn narrowing_count(object: &PdfPageObject) -> usize {
    [
        object.as_text_object().is_some(),
        object.as_path_object().is_some(),
        object.as_image_object().is_some(),
        object.as_shading_object().is_some(),
        object.as_form_fragment_object().is_some(),
        object.as_unsupported_object().is_some(),
    ]
    .iter()
    .filter(|b| **b)
    .count()
}

#[test]
fn object_type_follows_native_code() {
    let fake = FakePdfium::new();
    let expected = [
        (0, PdfPageObjectType::Unsupported),
        (1, PdfPageObjectType::Text),
        (2, PdfPageObjectType::Path),
        (3, PdfPageObjectType::Image),
        (4, PdfPageObjectType::Shading),
        (5, PdfPageObjectType::FormFragment),
        (6, PdfPageObjectType::Unsupported),
        (-1, PdfPageObjectType::Unsupported),
    ];
    for (code, kind) in expected {
        let object = object_of_type(&fake, code, 10);
        assert_eq!(object.object_type(), kind);
        assert_eq!(object.is_unsupported(), kind == PdfPageObjectType::Unsupported);
        assert_eq!(object.is_supported(), kind != PdfPageObjectType::Unsupported);
    }
}

#[test]
fn object_type_from_code_rejects_unknown_code() {
    assert_eq!(PdfPageObjectType::from_pdfium(3), Ok(PdfPageObjectType::Image));
    assert_eq!(PdfPageObjectType::from_pdfium(0), Ok(PdfPageObjectType::Unsupported));
    assert_eq!(PdfPageObjectType::from_pdfium(17), Err(PdfiumError::UnknownPdfPageObjectType));
}

#[test]
fn exactly_one_narrowing_accessor_answers() {
    let fake = FakePdfium::new();
    for code in 0..6 {
        let object = object_of_type(&fake, code, 10);
        assert_eq!(narrowing_count(&object), 1);
    }
    let path = object_of_type(&fake, 2, 10);
    assert!(path.as_path_object().is_some());
    assert!(path.as_text_object().is_none());
    assert!(path.as_image_object().is_none());
}

#[test]
fn mutable_narrowing_matches_kind() {
    let fake = FakePdfium::new();
    let mut image = object_of_type(&fake, 3, 10);
    assert!(image.as_image_object_mut().is_some());
    assert!(image.as_text_object_mut().is_none());
    assert!(image.as_path_object_mut().is_none());
    assert!(image.as_shading_object_mut().is_none());
    assert!(image.as_form_fragment_object_mut().is_none());
    assert_eq!(image.object_type(), PdfPageObjectType::Image);
}

#[test]
fn attach_then_detach_page_restores_independence() {
    let fake = FakePdfium::new();
    let mut object = object_of_type(&fake, 2, 10);
    assert!(!object.is_object_memory_owned_by_container());
    assert_eq!(object.add_object_to_page(55), Ok(()));
    assert!(object.is_object_memory_owned_by_container());
    assert_eq!(object.get_page_handle(), Some(55));
    assert_eq!(fake.inserted.borrow().clone(), vec![(55, 10)]);
    assert_eq!(object.remove_object_from_page(), Ok(()));
    assert!(!object.is_object_memory_owned_by_container());
    assert_eq!(object.get_page_handle(), None);
    assert_eq!(object.get_annotation_handle(), None);
    assert_eq!(object.get_object_handle(), 10);
}

#[test]
fn failed_insert_reports_last_error_and_stays_independent() {
    let fake = FakePdfium::new();
    fake.insert_error.set(6);
    let mut object = object_of_type(&fake, 2, 10);
    assert_eq!(
        object.add_object_to_page(55),
        Err(PdfiumError::PdfiumLibraryInternalError(PdfiumInternalError::PageError))
    );
    assert!(!object.is_object_memory_owned_by_container());
}

#[test]
fn failed_page_removal_keeps_attachment() {
    let fake = FakePdfium::new();
    let mut object = object_of_type(&fake, 2, 10);
    assert_eq!(object.add_object_to_page(55), Ok(()));
    fake.remove_ok.set(0);
    assert_eq!(
        object.remove_object_from_page(),
        Err(PdfiumError::PdfiumLibraryInternalError(PdfiumInternalError::Unknown))
    );
    assert_eq!(object.get_page_handle(), Some(55));
}

#[test]
fn removing_unattached_object_is_an_error() {
    let fake = FakePdfium::new();
    let mut object = object_of_type(&fake, 1, 10);
    assert_eq!(object.remove_object_from_page(), Err(PdfiumError::OwnershipNotAttachedToPage));
    assert_eq!(
        object.remove_object_from_annotation(),
        Err(PdfiumError::OwnershipNotAttachedToAnnotation)
    );
}

#[test]
fn attach_then_detach_annotation_finds_object_position() {
    let fake = FakePdfium::new();
    fake.annotation_objects.borrow_mut().extend([4, 5]);
    let mut object = object_of_type(&fake, 2, 10);
    assert_eq!(object.add_object_to_annotation(8), Ok(()));
    assert_eq!(object.get_annotation_handle(), Some(8));
    assert!(object.is_object_memory_owned_by_container());
    assert_eq!(object.remove_object_from_annotation(), Ok(()));
    assert_eq!(fake.removed_annotation_indices.borrow().clone(), vec![2]);
    assert_eq!(object.get_annotation_handle(), None);
    assert!(!object.is_object_memory_owned_by_container());
}

#[test]
fn dropping_container_owned_object_does_not_release_it() {
    let fake = FakePdfium::new();
    {
        let _on_page = PdfPageObject::from_pdfium(20, Some(1), None, &fake);
        let _in_annotation = PdfPageObject::from_pdfium(21, None, Some(2), &fake);
    }
    assert_eq!(fake.destroy_count(20), 0);
    assert_eq!(fake.destroy_count(21), 0);
}

#[test]
fn dropping_independent_object_releases_it_once() {
    let fake = FakePdfium::new();
    {
        let _object = PdfPageObject::from_pdfium(30, None, None, &fake);
    }
    assert_eq!(fake.destroy_count(30), 1);
    assert_eq!(fake.destroyed.borrow().len(), 1);
}

#[test]
fn dropping_after_detach_releases_once() {
    let fake = FakePdfium::new();
    {
        let mut object = PdfPageObject::from_pdfium(31, Some(3), None, &fake);
        assert_eq!(object.remove_object_from_page(), Ok(()));
    }
    assert_eq!(fake.destroy_count(31), 1);
}

#[test]
fn fill_color_round_trips() {
    let fake = FakePdfium::new();
    let mut object = object_of_type(&fake, 2, 10);
    for color in [
        PdfColor::new(10, 20, 30, 255),
        PdfColor::new(0, 0, 0, 0),
        PdfColor::new(255, 255, 255, 255),
    ] {
        assert_eq!(object.set_fill_color(color), Ok(()));
        assert_eq!(object.fill_color(), Ok(color));
    }
    let c = object.fill_color().unwrap();
    assert_eq!((c.red(), c.green(), c.blue(), c.alpha()), (255, 255, 255, 255));
}

#[test]
fn stroke_color_round_trips() {
    let fake = FakePdfium::new();
    let mut object = object_of_type(&fake, 1, 10);
    let color = PdfColor::new(10, 20, 30, 255);
    assert_eq!(object.set_stroke_color(color), Ok(()));
    assert_eq!(object.stroke_color(), Ok(color));
}

#[test]
fn color_channel_out_of_range_is_reported() {
    let fake = FakePdfium::new();
    fake.fill.set((1, 300, 2, 3));
    let object = object_of_type(&fake, 2, 10);
    assert_eq!(
        object.fill_color(),
        Err(PdfiumError::UnableToConvertPdfiumColorValueToRustu8(300))
    );
}

#[test]
fn failed_color_calls_are_reported() {
    let fake = FakePdfium::new();
    fake.color_calls_fail.set(true);
    let mut object = object_of_type(&fake, 2, 10);
    assert_eq!(object.fill_color(), Err(PdfiumError::PdfiumFunctionReturnValueIndicatedFailure));
    assert_eq!(
        object.set_stroke_color(PdfColor::new(1, 2, 3, 4)),
        Err(PdfiumError::PdfiumFunctionReturnValueIndicatedFailure)
    );
}

#[test]
fn stroke_width_round_trips() {
    let fake = FakePdfium::new();
    let mut object = object_of_type(&fake, 2, 10);
    let width = PdfPoints::from_bits(2.5f32.to_bits());
    assert_eq!(object.set_stroke_width(width), Ok(()));
    assert_eq!(object.stroke_width(), Ok(width));
    assert_eq!(f32::from_bits(object.stroke_width().unwrap().to_bits()), 2.5);
}

#[test]
fn line_join_and_cap_round_trip() {
    let fake = FakePdfium::new();
    let mut object = object_of_type(&fake, 2, 10);
    for join in [PdfPageObjectLineJoin::Miter, PdfPageObjectLineJoin::Round, PdfPageObjectLineJoin::Bevel] {
        assert_eq!(object.set_line_join(join), Ok(()));
        assert_eq!(object.line_join(), Ok(join));
    }
    for cap in [PdfPageObjectLineCap::Butt, PdfPageObjectLineCap::Round, PdfPageObjectLineCap::Square] {
        assert_eq!(object.set_line_cap(cap), Ok(()));
        assert_eq!(object.line_cap(), Ok(cap));
    }
    assert_eq!(fake.line_cap.get(), 2);
}

#[test]
fn unknown_line_style_codes_fail() {
    let fake = FakePdfium::new();
    fake.line_join.set(7);
    fake.line_cap.set(-1);
    let object = object_of_type(&fake, 2, 10);
    assert_eq!(object.line_join(), Err(PdfiumError::UnknownPdfPageObjectLineJoin(7)));
    assert_eq!(object.line_cap(), Err(PdfiumError::UnknownPdfPageObjectLineCap(-1)));
    assert_eq!(PdfPageObjectLineJoin::from_pdfium(3), None);
    assert_eq!(PdfPageObjectLineCap::from_pdfium(1), Some(PdfPageObjectLineCap::Round));
    assert_eq!(PdfPageObjectLineJoin::Bevel.as_pdfium(), 2);
    assert_eq!(PdfPageObjectLineCap::Square.as_pdfium(), 2);
}

#[test]
fn blend_mode_is_sent_by_native_name() {
    let fake = FakePdfium::new();
    let mut object = object_of_type(&fake, 2, 10);
    assert_eq!(object.set_blend_mode(PdfPageObjectBlendMode::HSLColor), Ok(()));
    assert_eq!(fake.blend_mode.borrow().as_str(), "Color");
    assert_eq!(object.set_blend_mode(PdfPageObjectBlendMode::SoftLight), Ok(()));
    assert_eq!(fake.blend_mode.borrow().as_str(), "SoftLight");
    assert_eq!(PdfPageObjectBlendMode::HSLLuminosity.as_pdfium(), "Luminosity");
    fake.last_error.set(3);
    assert_eq!(
        object.set_blend_mode(PdfPageObjectBlendMode::Normal),
        Err(PdfiumError::PdfiumLibraryInternalError(PdfiumInternalError::FormatError))
    );
}

#[test]
fn bounds_and_transparency_come_from_native_library() {
    let fake = FakePdfium::new();
    let object = object_of_type(&fake, 2, 10);
    let bounds = object.bounds().unwrap();
    assert_eq!(f32::from_bits(bounds.left.to_bits()), 1.0);
    assert_eq!(f32::from_bits(bounds.bottom.to_bits()), 2.0);
    assert_eq!(f32::from_bits(bounds.right.to_bits()), 3.0);
    assert_eq!(f32::from_bits(bounds.top.to_bits()), 4.0);
    assert!(object.has_transparency());
}

#[test]
fn transform_from_replaces_matrix() {
    let fake = FakePdfium::new();
    let source = object_of_type(&fake, 2, 10);
    let mut target = object_of_type(&fake, 1, 11);
    assert_eq!(target.transform_from(&source), Ok(()));
    assert_eq!(
        fake.set_matrix_calls.borrow().clone(),
        vec![(11, PdfMatrix::new(1, 2, 3, 4, 5, 6))]
    );
}

#[test]
fn curved_path_is_not_copyable() {
    let fake = FakePdfium::new();
    fake.segment_types
        .borrow_mut()
        .extend([FPDF_SEGMENT_MOVETO, FPDF_SEGMENT_BEZIERTO, FPDF_SEGMENT_LINETO]);
    let object = object_of_type(&fake, 2, 10);
    let document = PdfDocument::from_pdfium(1, &fake);
    assert!(!object.is_copyable());
    assert_eq!(
        object.try_copy(&document).err(),
        Some(PdfiumError::PathObjectBezierControlPointsNotCopyable)
    );
}

#[test]
fn straight_path_is_copied() {
    let fake = FakePdfium::new();
    fake.segment_types
        .borrow_mut()
        .extend([FPDF_SEGMENT_MOVETO, FPDF_SEGMENT_LINETO, FPDF_SEGMENT_LINETO]);
    fake.fill.set((10, 20, 30, 255));
    let object = object_of_type(&fake, 2, 10);
    let document = PdfDocument::from_pdfium(1, &fake);
    assert!(object.is_copyable());
    let copy = object.try_copy(&document).unwrap();
    assert_eq!(copy.object_type(), PdfPageObjectType::Path);
    assert_eq!(copy.get_object_handle(), 900);
    assert!(!copy.is_object_memory_owned_by_container());
    assert_eq!(
        fake.path_ops.borrow().clone(),
        vec!["move 900 1 10".to_string(), "line 900 2 20".to_string(), "line 900 3 30".to_string()]
    );
    assert_eq!(copy.fill_color(), Ok(PdfColor::new(10, 20, 30, 255)));
    assert_eq!(fake.set_matrix_calls.borrow().last().map(|c| c.0), Some(900));
}

#[test]
fn filtered_image_is_not_copyable() {
    let fake = FakePdfium::new();
    fake.filter_count.set(2);
    let object = object_of_type(&fake, 3, 10);
    let document = PdfDocument::from_pdfium(1, &fake);
    assert!(!object.is_copyable());
    assert_eq!(object.try_copy(&document).err(), Some(PdfiumError::ImageObjectFiltersNotCopyable));
    fake.filter_count.set(0);
    assert!(object.is_copyable());
    let copy = object.try_copy(&document).unwrap();
    assert_eq!(copy.object_type(), PdfPageObjectType::Image);
}

#[test]
fn other_kinds_are_not_copyable() {
    let fake = FakePdfium::new();
    let document = PdfDocument::from_pdfium(1, &fake);
    for code in [0, 1, 4, 5] {
        let object = object_of_type(&fake, code, 10);
        assert!(!object.is_copyable());
        assert_eq!(object.try_copy(&document).err(), Some(PdfiumError::UnsupportedPdfPageObjectType));
    }
}

#[test]
fn glyph_width_failure_gives_zero() {
    let fake = FakePdfium::new();
    let glyph = PdfFontGlyph::from_pdfium(5, 65, &fake);
    let size = PdfPoints::from_bits(12.0f32.to_bits());
    assert_eq!(glyph.width_at_font_size(size), PdfPoints::zero());
    assert_eq!(glyph.width_at_font_size(size).to_bits(), 0);
    fake.glyph_width.set(Some(7.5f32.to_bits()));
    assert_eq!(f32::from_bits(glyph.width_at_font_size(size).to_bits()), 7.5);
}

#[test]
fn glyph_path_null_without_error_is_unknown() {
    let fake = FakePdfium::new();
    let glyph = PdfFontGlyph::from_pdfium(5, 65, &fake);
    let size = PdfPoints::from_bits(12.0f32.to_bits());
    assert_eq!(
        glyph.segments_at_font_size(size).err(),
        Some(PdfiumError::PdfiumLibraryInternalError(PdfiumInternalError::Unknown))
    );
    fake.last_error.set(2);
    assert_eq!(
        glyph.segments_at_font_size(size).err(),
        Some(PdfiumError::PdfiumLibraryInternalError(PdfiumInternalError::FileError))
    );
}

#[test]
fn glyph_path_segments_are_read_by_position() {
    let fake = FakePdfium::new();
    fake.glyph_path.set(40);
    fake.glyph_segment_count.set(3);
    let glyph = PdfFontGlyph::from_pdfium(5, 65, &fake);
    let path = glyph.segments_at_font_size(PdfPoints::zero()).unwrap();
    assert_eq!(path.len(), 3);
    assert_eq!(path.get(1).unwrap().handle(), 101);
    assert_eq!(
        path.get(3).err(),
        Some(PdfiumError::PdfiumLibraryInternalError(PdfiumInternalError::Unknown))
    );
    let mut iter = path.iter();
    let mut handles = Vec::new();
    while let Some(segment) = iter.next() {
        handles.push(segment.handle());
    }
    assert_eq!(handles, vec![100, 101, 102]);
}

#[test]
fn negative_glyph_segment_count_is_empty() {
    let fake = FakePdfium::new();
    fake.glyph_segment_count.set(-1);
    let path = PdfFontGlyphPath::from_pdfium(40, &fake);
    assert_eq!(path.len(), 0);
    assert!(path.iter().next().is_none());
}

#[test]
fn internal_error_codes_translate() {
    assert_eq!(PdfiumInternalError::from_pdfium(0), None);
    assert_eq!(PdfiumInternalError::from_pdfium(1), Some(PdfiumInternalError::Unknown));
    assert_eq!(PdfiumInternalError::from_pdfium(4), Some(PdfiumInternalError::PasswordError));
    assert_eq!(PdfiumInternalError::from_pdfium(5), Some(PdfiumInternalError::SecurityError));
    assert_eq!(PdfiumInternalError::from_pdfium(99), Some(PdfiumInternalError::Unknown));
    assert_eq!(
        PdfiumError::for_null_result(None),
        PdfiumError::PdfiumLibraryInternalError(PdfiumInternalError::Unknown)
    );
    assert_eq!(PdfiumError::from_last_error(None), Ok(()));
}

#[test]
fn segment_helpers_decide_copyability() {
    let line = PathSegmentRecord { kind: FPDF_SEGMENT_LINETO, x: PdfPoints::zero(), y: PdfPoints::zero(), close: false };
    let curve = PathSegmentRecord { kind: FPDF_SEGMENT_BEZIERTO, ..line };
    assert!(path_is_copyable(&vec![]));
    assert!(path_is_copyable(&vec![line, line]));
    assert!(!path_is_copyable(&vec![line, curve]));
    assert!(image_is_copyable(0));
    assert!(image_is_copyable(-1));
    assert!(!image_is_copyable(1));
    assert_eq!(find_object_index(&vec![3, 4, 4], 4), Some(1));
    assert_eq!(find_object_index(&vec![3, 4], 9), None);
}

#[test]
fn annotation_index_refuses_missing_object() {
    assert_eq!(annotation_object_index(&vec![3, 4, 4], 4), Ok(1));
    assert_eq!(
        annotation_object_index(&vec![3, 4], 9),
        Err(PdfiumError::OwnershipNotAttachedToAnnotation)
    );
    assert_eq!(
        annotation_object_index(&vec![], 9),
        Err(PdfiumError::OwnershipNotAttachedToAnnotation)
    );
}

#[test]
fn removal_from_annotation_that_no_longer_lists_object_fails() {
    let fake = FakePdfium::new();
    let mut object = object_of_type(&fake, 2, 10);
    assert_eq!(object.add_object_to_annotation(8), Ok(()));
    fake.annotation_objects.borrow_mut().clear();
    assert_eq!(
        object.remove_object_from_annotation(),
        Err(PdfiumError::OwnershipNotAttachedToAnnotation)
    );
    assert_eq!(object.get_annotation_handle(), Some(8));
    fake.annotation_objects.borrow_mut().push(10);
    assert_eq!(object.remove_object_from_annotation(), Ok(()));
}

#[test]
fn iterator_step_follows_given_length() {
    let fake = FakePdfium::new();
    fake.glyph_segment_count.set(2);
    let path = PdfFontGlyphPath::from_pdfium(40, &fake);
    let mut iter = path.iter();
    assert!(iter.next_within(0).is_none());
    assert_eq!(iter.next_within(5).map(|s| s.handle()), Some(100));
    assert_eq!(iter.next_within(5).map(|s| s.handle()), Some(101));
    assert!(iter.next_within(5).is_none());
    assert!(iter.next_within(3).is_none());
}

#[test]
fn path_ops_follow_segments_in_order() {
    let p = |bits: u32| PdfPoints::from_bits(bits);
    let segments = vec![
        PathSegmentRecord { kind: FPDF_SEGMENT_MOVETO, x: p(1), y: p(2), close: false },
        PathSegmentRecord { kind: FPDF_SEGMENT_LINETO, x: p(3), y: p(4), close: true },
        PathSegmentRecord { kind: -1, x: p(5), y: p(6), close: true },
        PathSegmentRecord { kind: FPDF_SEGMENT_LINETO, x: p(7), y: p(8), close: false },
    ];
    assert_eq!(
        path_copy_ops(&segments),
        vec![
            PathOp::MoveTo(p(1), p(2)),
            PathOp::LineTo(p(3), p(4)),
            PathOp::Close,
            PathOp::Close,
            PathOp::LineTo(p(7), p(8)),
        ]
    );
    assert_eq!(path_copy_ops(&vec![]), vec![]);
}

#[test]
fn failed_matrix_read_is_returned_unchanged() {
    let fake = FakePdfium::new();
    let mut object = object_of_type(&fake, 2, 10);
    assert_eq!(
        object.set_matrix_from(Err(PdfiumError::PdfiumFunctionReturnValueIndicatedFailure)),
        Err(PdfiumError::PdfiumFunctionReturnValueIndicatedFailure)
    );
    assert!(fake.set_matrix_calls.borrow().is_empty());
    let m = PdfMatrix::new(9, 8, 7, 6, 5, 4);
    assert_eq!(object.set_matrix_from(Ok(m)), Ok(()));
    assert_eq!(fake.set_matrix_calls.borrow().clone(), vec![(10, m)]);
}
