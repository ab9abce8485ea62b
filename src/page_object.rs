//! A single object on a page: its kind, its attachment to a page or an annotation, and the
//! attributes that every kind shares.
use vstd::prelude::*;

use crate::bindings::{
    FPDF_LINECAP_BUTT, FPDF_LINECAP_PROJECTING_SQUARE, FPDF_LINECAP_ROUND, FPDF_LINEJOIN_BEVEL,
    FPDF_LINEJOIN_MITER, FPDF_LINEJOIN_ROUND, FPDF_PAGEOBJ_FORM, FPDF_PAGEOBJ_IMAGE,
    FPDF_PAGEOBJ_PATH, FPDF_PAGEOBJ_SHADING, FPDF_PAGEOBJ_TEXT, FPDF_PAGEOBJ_UNKNOWN,
};
use crate::bindings::{
    get_pdfium_last_error, is_true, PdfiumLibraryBindings, FPDF_ANNOTATION, FPDF_BOOL, FPDF_PAGE,
    FPDF_PAGEOBJECT, FPDF_SEGMENT_BEZIERTO, FPDF_SEGMENT_LINETO, FPDF_SEGMENT_MOVETO, NULL_HANDLE,
};
use crate::color::{color_from_pdfium, color_outcome, PdfColor};
use crate::document::PdfDocument;
use crate::error::{
    last_error_outcome, null_result_error, value_from_pdfium, value_outcome, PdfiumError,
    PdfiumInternalError,
};
use crate::points::{PdfMatrix, PdfPoints, PdfRect};

verus! {

/// The kind of a single page object. Kinds that the native library does not recognize are
/// `Unsupported`.
#[derive(Debug, Copy, Clone, PartialEq, Eq, Structural, Hash)]
pub enum PdfPageObjectType {
    Unsupported,
    Text,
    Path,
    Image,
    Shading,
    FormFragment,
}

/// The kind that a native type code stands for.
pub open spec fn object_type_of_code(value: u32) -> Result<PdfPageObjectType, PdfiumError> {
    if value == FPDF_PAGEOBJ_UNKNOWN {
        Ok(PdfPageObjectType::Unsupported)
    } else if value == FPDF_PAGEOBJ_TEXT {
        Ok(PdfPageObjectType::Text)
    } else if value == FPDF_PAGEOBJ_PATH {
        Ok(PdfPageObjectType::Path)
    } else if value == FPDF_PAGEOBJ_IMAGE {
        Ok(PdfPageObjectType::Image)
    } else if value == FPDF_PAGEOBJ_SHADING {
        Ok(PdfPageObjectType::Shading)
    } else if value == FPDF_PAGEOBJ_FORM {
        Ok(PdfPageObjectType::FormFragment)
    } else {
        Err(PdfiumError::UnknownPdfPageObjectType)
    }
}

/// The kind that a page object reporting the native type code `value` is given: codes that
/// name no known kind fall back to `Unsupported`.
pub open spec fn object_type_or_unsupported(value: u32) -> PdfPageObjectType {
    match object_type_of_code(value) {
        Ok(t) => t,
        Err(_) => PdfPageObjectType::Unsupported,
    }
}

/// The native type code of a kind.
pub open spec fn object_type_code(kind: PdfPageObjectType) -> u32 {
    match kind {
        PdfPageObjectType::Unsupported => FPDF_PAGEOBJ_UNKNOWN,
        PdfPageObjectType::Text => FPDF_PAGEOBJ_TEXT,
        PdfPageObjectType::Path => FPDF_PAGEOBJ_PATH,
        PdfPageObjectType::Image => FPDF_PAGEOBJ_IMAGE,
        PdfPageObjectType::Shading => FPDF_PAGEOBJ_SHADING,
        PdfPageObjectType::FormFragment => FPDF_PAGEOBJ_FORM,
    }
}

/// An object built from a kind's own native type code is of that kind, and a code that
/// names no kind gives an `Unsupported` object rather than a failure.
pub proof fn lemma_object_type_from_code(kind: PdfPageObjectType, code: u32)
    ensures
        object_type_of_code(object_type_code(kind)) == Ok::<PdfPageObjectType, PdfiumError>(kind),
        object_type_or_unsupported(object_type_code(kind)) == kind,
        code > FPDF_PAGEOBJ_FORM ==> object_type_of_code(code) == Err::<PdfPageObjectType, PdfiumError>(PdfiumError::UnknownPdfPageObjectType),
        code > FPDF_PAGEOBJ_FORM ==> object_type_or_unsupported(code) == PdfPageObjectType::Unsupported,
{
}

impl PdfPageObjectType {
    /// The kind that a native type code stands for.
    pub fn from_pdfium(value: u32) -> (r: Result<PdfPageObjectType, PdfiumError>)
        ensures
            r == object_type_of_code(value),
    {
        if value == FPDF_PAGEOBJ_UNKNOWN {
            Ok(PdfPageObjectType::Unsupported)
        } else if value == FPDF_PAGEOBJ_TEXT {
            Ok(PdfPageObjectType::Text)
        } else if value == FPDF_PAGEOBJ_PATH {
            Ok(PdfPageObjectType::Path)
        } else if value == FPDF_PAGEOBJ_IMAGE {
            Ok(PdfPageObjectType::Image)
        } else if value == FPDF_PAGEOBJ_SHADING {
            Ok(PdfPageObjectType::Shading)
        } else if value == FPDF_PAGEOBJ_FORM {
            Ok(PdfPageObjectType::FormFragment)
        } else {
            Err(PdfiumError::UnknownPdfPageObjectType)
        }
    }
}

/// The method used to combine overlapping colors when painting one page object on top of
/// another. The native library can set it but not read it back.
#[derive(Debug, Copy, Clone, PartialEq, Eq, Structural)]
pub enum PdfPageObjectBlendMode {
    Normal,
    Multiply,
    Screen,
    Overlay,
    Darken,
    Lighten,
    ColorDodge,
    ColorBurn,
    HardLight,
    SoftLight,
    Difference,
    Exclusion,
    HSLColor,
    HSLHue,
    HSLLuminosity,
    HSLSaturation,
}

/// The name by which the native library knows a blend mode.
pub open spec fn blend_mode_name(mode: PdfPageObjectBlendMode) -> Seq<char> {
    match mode {
        PdfPageObjectBlendMode::HSLColor => "Color"@,
        PdfPageObjectBlendMode::ColorBurn => "ColorBurn"@,
        PdfPageObjectBlendMode::ColorDodge => "ColorDodge"@,
        PdfPageObjectBlendMode::Darken => "Darken"@,
        PdfPageObjectBlendMode::Difference => "Difference"@,
        PdfPageObjectBlendMode::Exclusion => "Exclusion"@,
        PdfPageObjectBlendMode::HardLight => "HardLight"@,
        PdfPageObjectBlendMode::HSLHue => "Hue"@,
        PdfPageObjectBlendMode::Lighten => "Lighten"@,
        PdfPageObjectBlendMode::HSLLuminosity => "Luminosity"@,
        PdfPageObjectBlendMode::Multiply => "Multiply"@,
        PdfPageObjectBlendMode::Normal => "Normal"@,
        PdfPageObjectBlendMode::Overlay => "Overlay"@,
        PdfPageObjectBlendMode::HSLSaturation => "Saturation"@,
        PdfPageObjectBlendMode::Screen => "Screen"@,
        PdfPageObjectBlendMode::SoftLight => "SoftLight"@,
    }
}

impl PdfPageObjectBlendMode {
    /// The name by which the native library knows this blend mode.
    pub fn as_pdfium(&self) -> (r: &'static str)
        ensures
            r@ == blend_mode_name(*self),
    {
        match self {
            PdfPageObjectBlendMode::HSLColor => "Color",
            PdfPageObjectBlendMode::ColorBurn => "ColorBurn",
            PdfPageObjectBlendMode::ColorDodge => "ColorDodge",
            PdfPageObjectBlendMode::Darken => "Darken",
            PdfPageObjectBlendMode::Difference => "Difference",
            PdfPageObjectBlendMode::Exclusion => "Exclusion",
            PdfPageObjectBlendMode::HardLight => "HardLight",
            PdfPageObjectBlendMode::HSLHue => "Hue",
            PdfPageObjectBlendMode::Lighten => "Lighten",
            PdfPageObjectBlendMode::HSLLuminosity => "Luminosity",
            PdfPageObjectBlendMode::Multiply => "Multiply",
            PdfPageObjectBlendMode::Normal => "Normal",
            PdfPageObjectBlendMode::Overlay => "Overlay",
            PdfPageObjectBlendMode::HSLSaturation => "Saturation",
            PdfPageObjectBlendMode::Screen => "Screen",
            PdfPageObjectBlendMode::SoftLight => "SoftLight",
        }
    }
}

/// The shape used at the corners of stroked paths.
#[derive(Debug, Copy, Clone, PartialEq, Eq, Structural)]
pub enum PdfPageObjectLineJoin {
    Miter,
    Round,
    Bevel,
}

/// The native code of a line join.
pub open spec fn line_join_code(join: PdfPageObjectLineJoin) -> u32 {
    match join {
        PdfPageObjectLineJoin::Miter => FPDF_LINEJOIN_MITER,
        PdfPageObjectLineJoin::Round => FPDF_LINEJOIN_ROUND,
        PdfPageObjectLineJoin::Bevel => FPDF_LINEJOIN_BEVEL,
    }
}

/// The line join that a native code stands for, if any.
pub open spec fn line_join_of_code(value: i32) -> Option<PdfPageObjectLineJoin> {
    if value == FPDF_LINEJOIN_MITER as i32 {
        Some(PdfPageObjectLineJoin::Miter)
    } else if value == FPDF_LINEJOIN_ROUND as i32 {
        Some(PdfPageObjectLineJoin::Round)
    } else if value == FPDF_LINEJOIN_BEVEL as i32 {
        Some(PdfPageObjectLineJoin::Bevel)
    } else {
        None
    }
}

impl PdfPageObjectLineJoin {
    /// The line join that a native code stands for, if any.
    pub fn from_pdfium(value: i32) -> (r: Option<Self>)
        ensures
            r == line_join_of_code(value),
    {
        if value == FPDF_LINEJOIN_MITER as i32 {
            Some(PdfPageObjectLineJoin::Miter)
        } else if value == FPDF_LINEJOIN_ROUND as i32 {
            Some(PdfPageObjectLineJoin::Round)
        } else if value == FPDF_LINEJOIN_BEVEL as i32 {
            Some(PdfPageObjectLineJoin::Bevel)
        } else {
            None
        }
    }

    /// The native code of this line join.
    pub fn as_pdfium(&self) -> (r: u32)
        ensures
            r == line_join_code(*self),
    {
        match self {
            PdfPageObjectLineJoin::Miter => FPDF_LINEJOIN_MITER,
            PdfPageObjectLineJoin::Round => FPDF_LINEJOIN_ROUND,
            PdfPageObjectLineJoin::Bevel => FPDF_LINEJOIN_BEVEL,
        }
    }
}

/// The shape used at the ends of open stroked paths.
#[derive(Debug, Copy, Clone, PartialEq, Eq, Structural)]
pub enum PdfPageObjectLineCap {
    Butt,
    Round,
    Square,
}

/// The native code of a line cap.
pub open spec fn line_cap_code(cap: PdfPageObjectLineCap) -> u32 {
    match cap {
        PdfPageObjectLineCap::Butt => FPDF_LINECAP_BUTT,
        PdfPageObjectLineCap::Round => FPDF_LINECAP_ROUND,
        PdfPageObjectLineCap::Square => FPDF_LINECAP_PROJECTING_SQUARE,
    }
}

/// The line cap that a native code stands for, if any.
pub open spec fn line_cap_of_code(value: i32) -> Option<PdfPageObjectLineCap> {
    if value == FPDF_LINECAP_BUTT as i32 {
        Some(PdfPageObjectLineCap::Butt)
    } else if value == FPDF_LINECAP_ROUND as i32 {
        Some(PdfPageObjectLineCap::Round)
    } else if value == FPDF_LINECAP_PROJECTING_SQUARE as i32 {
        Some(PdfPageObjectLineCap::Square)
    } else {
        None
    }
}

impl PdfPageObjectLineCap {
    /// The line cap that a native code stands for, if any.
    pub fn from_pdfium(value: i32) -> (r: Option<Self>)
        ensures
            r == line_cap_of_code(value),
    {
        if value == FPDF_LINECAP_BUTT as i32 {
            Some(PdfPageObjectLineCap::Butt)
        } else if value == FPDF_LINECAP_ROUND as i32 {
            Some(PdfPageObjectLineCap::Round)
        } else if value == FPDF_LINECAP_PROJECTING_SQUARE as i32 {
            Some(PdfPageObjectLineCap::Square)
        } else {
            None
        }
    }

    /// The native code of this line cap.
    pub fn as_pdfium(&self) -> (r: u32)
        ensures
            r == line_cap_code(*self),
    {
        match self {
            PdfPageObjectLineCap::Butt => FPDF_LINECAP_BUTT,
            PdfPageObjectLineCap::Round => FPDF_LINECAP_ROUND,
            PdfPageObjectLineCap::Square => FPDF_LINECAP_PROJECTING_SQUARE,
        }
    }
}

/// A line join written to the native library and read back is the same line join.
pub proof fn lemma_line_join_round_trip(join: PdfPageObjectLineJoin)
    ensures
        line_join_of_code(line_join_code(join) as i32) == Some(join),
{
}

/// A line cap written to the native library and read back is the same line cap.
pub proof fn lemma_line_cap_round_trip(cap: PdfPageObjectLineCap)
    ensures
        line_cap_of_code(line_cap_code(cap) as i32) == Some(cap),
{
}

/// What every kind of page object holds: its native handle, the page or annotation that
/// holds it, if any, and the bindings for its native calls.
pub struct PdfPageObjectBase<'a> {
    object_handle: FPDF_PAGEOBJECT,
    page_handle: Option<FPDF_PAGE>,
    annotation_handle: Option<FPDF_ANNOTATION>,
    bindings: &'a dyn PdfiumLibraryBindings,
}

impl<'a> PdfPageObjectBase<'a> {
    pub closed spec fn object(&self) -> FPDF_PAGEOBJECT {
        self.object_handle
    }

    pub closed spec fn page(&self) -> Option<FPDF_PAGE> {
        self.page_handle
    }

    pub closed spec fn annotation(&self) -> Option<FPDF_ANNOTATION> {
        self.annotation_handle
    }

    fn new(
        object_handle: FPDF_PAGEOBJECT,
        page_handle: Option<FPDF_PAGE>,
        annotation_handle: Option<FPDF_ANNOTATION>,
        bindings: &'a dyn PdfiumLibraryBindings,
    ) -> (r: Self)
        ensures
            r.object() == object_handle,
            r.page() == page_handle,
            r.annotation() == annotation_handle,
    {
        PdfPageObjectBase { object_handle, page_handle, annotation_handle, bindings }
    }
}

/// A text object.
pub struct PdfPageTextObject<'a> {
    base: PdfPageObjectBase<'a>,
}

/// A vector path object.
pub struct PdfPagePathObject<'a> {
    base: PdfPageObjectBase<'a>,
}

/// An image object.
pub struct PdfPageImageObject<'a> {
    base: PdfPageObjectBase<'a>,
}

/// A shading object.
pub struct PdfPageShadingObject<'a> {
    base: PdfPageObjectBase<'a>,
}

/// A form fragment (embedded form XObject).
pub struct PdfPageFormFragmentObject<'a> {
    base: PdfPageObjectBase<'a>,
}

/// An object of a kind that the native library does not recognize. The attributes that all
/// kinds share can still be read and set.
pub struct PdfPageUnsupportedObject<'a> {
    base: PdfPageObjectBase<'a>,
}

/// A single object on a page.
pub enum PdfPageObject<'a> {
    Text(PdfPageTextObject<'a>),
    Path(PdfPagePathObject<'a>),
    Image(PdfPageImageObject<'a>),
    Shading(PdfPageShadingObject<'a>),
    FormFragment(PdfPageFormFragmentObject<'a>),
    Unsupported(PdfPageUnsupportedObject<'a>),
}

impl<'a> PdfPageObject<'a> {
    /// The kind of this object.
    pub open spec fn kind(&self) -> PdfPageObjectType {
        match self {
            PdfPageObject::Text(_) => PdfPageObjectType::Text,
            PdfPageObject::Path(_) => PdfPageObjectType::Path,
            PdfPageObject::Image(_) => PdfPageObjectType::Image,
            PdfPageObject::Shading(_) => PdfPageObjectType::Shading,
            PdfPageObject::FormFragment(_) => PdfPageObjectType::FormFragment,
            PdfPageObject::Unsupported(_) => PdfPageObjectType::Unsupported,
        }
    }

    /// The state that this object shares with every other kind.
    pub closed spec fn base(&self) -> PdfPageObjectBase<'a> {
        match self {
            PdfPageObject::Text(o) => o.base,
            PdfPageObject::Path(o) => o.base,
            PdfPageObject::Image(o) => o.base,
            PdfPageObject::Shading(o) => o.base,
            PdfPageObject::FormFragment(o) => o.base,
            PdfPageObject::Unsupported(o) => o.base,
        }
    }

    /// The native handle of this object.
    pub open spec fn object_handle(&self) -> FPDF_PAGEOBJECT {
        self.base().object()
    }

    /// The page that holds this object, if any.
    pub open spec fn page_handle(&self) -> Option<FPDF_PAGE> {
        self.base().page()
    }

    /// The annotation that holds this object, if any.
    pub open spec fn annotation_handle(&self) -> Option<FPDF_ANNOTATION> {
        self.base().annotation()
    }

    /// Whether a page or an annotation manages the native memory of this object; when not,
    /// this wrapper releases it.
    pub open spec fn is_owned_by_container(&self) -> bool {
        self.page_handle() is Some || self.annotation_handle() is Some
    }

    /// At most one container holds this object: never a page and an annotation at once.
    pub open spec fn wf(&self) -> bool {
        !(self.page_handle() is Some && self.annotation_handle() is Some)
    }

    /// This object of the given kind, built on the given shared state.
    pub closed spec fn of_kind(kind: PdfPageObjectType, base: PdfPageObjectBase<'a>) -> Self {
        match kind {
            PdfPageObjectType::Text => PdfPageObject::Text(PdfPageTextObject { base }),
            PdfPageObjectType::Path => PdfPageObject::Path(PdfPagePathObject { base }),
            PdfPageObjectType::Image => PdfPageObject::Image(PdfPageImageObject { base }),
            PdfPageObjectType::Shading => PdfPageObject::Shading(PdfPageShadingObject { base }),
            PdfPageObjectType::FormFragment => PdfPageObject::FormFragment(
                PdfPageFormFragmentObject { base },
            ),
            PdfPageObjectType::Unsupported => PdfPageObject::Unsupported(
                PdfPageUnsupportedObject { base },
            ),
        }
    }

    /// This object with its page back-reference replaced by `page`.
    pub closed spec fn with_page(self, page: Option<FPDF_PAGE>) -> Self {
        Self::of_kind(self.kind(), PdfPageObjectBase { page_handle: page, ..self.base() })
    }

    /// This object with its annotation back-reference replaced by `annotation`.
    pub closed spec fn with_annotation(self, annotation: Option<FPDF_ANNOTATION>) -> Self {
        Self::of_kind(
            self.kind(),
            PdfPageObjectBase { annotation_handle: annotation, ..self.base() },
        )
    }

    /// Replacing a back-reference changes neither the kind nor the native handle, and only
    /// the back-reference replaced.
    pub proof fn lemma_with_page(self, page: Option<FPDF_PAGE>)
        ensures
            self.with_page(page).kind() == self.kind(),
            self.with_page(page).object_handle() == self.object_handle(),
            self.with_page(page).page_handle() == page,
            self.with_page(page).annotation_handle() == self.annotation_handle(),
    {
    }

    /// Replacing a back-reference changes neither the kind nor the native handle, and only
    /// the back-reference replaced.
    pub proof fn lemma_with_annotation(self, annotation: Option<FPDF_ANNOTATION>)
        ensures
            self.with_annotation(annotation).kind() == self.kind(),
            self.with_annotation(annotation).object_handle() == self.object_handle(),
            self.with_annotation(annotation).page_handle() == self.page_handle(),
            self.with_annotation(annotation).annotation_handle() == annotation,
    {
    }

    /// Wraps a native page object whose native type code is already known. Codes that name
    /// no known kind give an `Unsupported` object.
    pub fn from_type_code(
        type_code: u32,
        object_handle: FPDF_PAGEOBJECT,
        page_handle: Option<FPDF_PAGE>,
        annotation_handle: Option<FPDF_ANNOTATION>,
        bindings: &'a dyn PdfiumLibraryBindings,
    ) -> (r: Self)
        requires
            page_handle is None || annotation_handle is None,
        ensures
            r.kind() == object_type_or_unsupported(type_code),
            r.wf(),
            r.object_handle() == object_handle,
            r.page_handle() == page_handle,
            r.annotation_handle() == annotation_handle,
    {
        let kind = match PdfPageObjectType::from_pdfium(type_code) {
            Ok(t) => t,
            Err(_) => PdfPageObjectType::Unsupported,
        };
        let base = PdfPageObjectBase::new(object_handle, page_handle, annotation_handle, bindings);
        match kind {
            PdfPageObjectType::Text => PdfPageObject::Text(PdfPageTextObject { base }),
            PdfPageObjectType::Path => PdfPageObject::Path(PdfPagePathObject { base }),
            PdfPageObjectType::Image => PdfPageObject::Image(PdfPageImageObject { base }),
            PdfPageObjectType::Shading => PdfPageObject::Shading(PdfPageShadingObject { base }),
            PdfPageObjectType::FormFragment => PdfPageObject::FormFragment(
                PdfPageFormFragmentObject { base },
            ),
            PdfPageObjectType::Unsupported => PdfPageObject::Unsupported(
                PdfPageUnsupportedObject { base },
            ),
        }
    }

    /// Wraps a native page object, asking the native library for its kind. An object is held
    /// by a page, by an annotation, or by neither; never by both.
    pub fn from_pdfium(
        object_handle: FPDF_PAGEOBJECT,
        page_handle: Option<FPDF_PAGE>,
        annotation_handle: Option<FPDF_ANNOTATION>,
        bindings: &'a dyn PdfiumLibraryBindings,
    ) -> (r: Self)
        requires
            page_handle is None || annotation_handle is None,
        ensures
            exists|code: u32| r.kind() == object_type_or_unsupported(code),
            r.wf(),
            r.object_handle() == object_handle,
            r.page_handle() == page_handle,
            r.annotation_handle() == annotation_handle,
    {
        let type_code = bindings.FPDFPageObj_GetType(object_handle);
        Self::from_type_code(type_code as u32, object_handle, page_handle, annotation_handle, bindings)
    }

    /// The shared state of this object, whatever its kind.
    fn common(&self) -> (r: &PdfPageObjectBase<'a>)
        ensures
            *r == self.base(),
        opens_invariants none
        no_unwind
    {
        match self {
            PdfPageObject::Text(o) => &o.base,
            PdfPageObject::Path(o) => &o.base,
            PdfPageObject::Image(o) => &o.base,
            PdfPageObject::Shading(o) => &o.base,
            PdfPageObject::FormFragment(o) => &o.base,
            PdfPageObject::Unsupported(o) => &o.base,
        }
    }

    /// The object type of this object.
    pub fn object_type(&self) -> (r: PdfPageObjectType)
        ensures
            r == self.kind(),
    {
        match self {
            PdfPageObject::Text(_) => PdfPageObjectType::Text,
            PdfPageObject::Path(_) => PdfPageObjectType::Path,
            PdfPageObject::Image(_) => PdfPageObjectType::Image,
            PdfPageObject::Shading(_) => PdfPageObjectType::Shading,
            PdfPageObject::FormFragment(_) => PdfPageObjectType::FormFragment,
            PdfPageObject::Unsupported(_) => PdfPageObjectType::Unsupported,
        }
    }

    /// Whether this object is of a kind other than `Unsupported`.
    pub fn is_supported(&self) -> (r: bool)
        ensures
            r == !(self.kind() is Unsupported),
    {
        !self.is_unsupported()
    }

    /// Whether this object is of the `Unsupported` kind.
    pub fn is_unsupported(&self) -> (r: bool)
        ensures
            r == (self.kind() is Unsupported),
    {
        self.object_type() == PdfPageObjectType::Unsupported
    }

    /// The native handle of this object.
    pub fn get_object_handle(&self) -> (r: FPDF_PAGEOBJECT)
        ensures
            r == self.object_handle(),
    {
        self.common().object_handle
    }

    /// The page that holds this object, if any.
    pub fn get_page_handle(&self) -> (r: Option<FPDF_PAGE>)
        ensures
            r == self.page_handle(),
    {
        self.common().page_handle
    }

    /// The annotation that holds this object, if any.
    pub fn get_annotation_handle(&self) -> (r: Option<FPDF_ANNOTATION>)
        ensures
            r == self.annotation_handle(),
    {
        self.common().annotation_handle
    }

    /// The bindings through which this object issues its native calls.
    pub fn bindings(&self) -> &'a dyn PdfiumLibraryBindings {
        self.common().bindings
    }

    /// Whether a page or an annotation manages the native memory of this object.
    pub fn is_object_memory_owned_by_container(&self) -> (r: bool)
        ensures
            r == self.is_owned_by_container(),
    {
        let base = self.common();
        base.page_handle.is_some() || base.annotation_handle.is_some()
    }

    /// The underlying Text object, if this object is of that kind.
    pub fn as_text_object(&self) -> (r: Option<&PdfPageTextObject<'a>>)
        ensures
            r is Some <==> (*self) is Text,
            r is Some ==> *r->Some_0 == (*self)->Text_0,
    {
        match self {
            PdfPageObject::Text(object) => Some(object),
            _ => None,
        }
    }

    /// The underlying Text object, mutably, if this object is of that kind.
    pub fn as_text_object_mut(&mut self) -> (r: Option<&mut PdfPageTextObject<'a>>)
        ensures
            r is Some <==> (*old(self)) is Text,
            r is None ==> *final(self) == *old(self),
            r matches Some(o) ==> *o == (*old(self))->Text_0 && *final(self) == PdfPageObject::Text(*final(o)),
    {
        match self {
            PdfPageObject::Text(object) => Some(object),
            _ => None,
        }
    }

    /// The underlying Path object, if this object is of that kind.
    pub fn as_path_object(&self) -> (r: Option<&PdfPagePathObject<'a>>)
        ensures
            r is Some <==> (*self) is Path,
            r is Some ==> *r->Some_0 == (*self)->Path_0,
    {
        match self {
            PdfPageObject::Path(object) => Some(object),
            _ => None,
        }
    }

    /// The underlying Path object, mutably, if this object is of that kind.
    pub fn as_path_object_mut(&mut self) -> (r: Option<&mut PdfPagePathObject<'a>>)
        ensures
            r is Some <==> (*old(self)) is Path,
            r is None ==> *final(self) == *old(self),
            r matches Some(o) ==> *o == (*old(self))->Path_0 && *final(self) == PdfPageObject::Path(*final(o)),
    {
        match self {
            PdfPageObject::Path(object) => Some(object),
            _ => None,
        }
    }

    /// The underlying Image object, if this object is of that kind.
    pub fn as_image_object(&self) -> (r: Option<&PdfPageImageObject<'a>>)
        ensures
            r is Some <==> (*self) is Image,
            r is Some ==> *r->Some_0 == (*self)->Image_0,
    {
        match self {
            PdfPageObject::Image(object) => Some(object),
            _ => None,
        }
    }

    /// The underlying Image object, mutably, if this object is of that kind.
    pub fn as_image_object_mut(&mut self) -> (r: Option<&mut PdfPageImageObject<'a>>)
        ensures
            r is Some <==> (*old(self)) is Image,
            r is None ==> *final(self) == *old(self),
            r matches Some(o) ==> *o == (*old(self))->Image_0 && *final(self) == PdfPageObject::Image(*final(o)),
    {
        match self {
            PdfPageObject::Image(object) => Some(object),
            _ => None,
        }
    }

    /// The underlying Shading object, if this object is of that kind.
    pub fn as_shading_object(&self) -> (r: Option<&PdfPageShadingObject<'a>>)
        ensures
            r is Some <==> (*self) is Shading,
            r is Some ==> *r->Some_0 == (*self)->Shading_0,
    {
        match self {
            PdfPageObject::Shading(object) => Some(object),
            _ => None,
        }
    }

    /// The underlying Shading object, mutably, if this object is of that kind.
    pub fn as_shading_object_mut(&mut self) -> (r: Option<&mut PdfPageShadingObject<'a>>)
        ensures
            r is Some <==> (*old(self)) is Shading,
            r is None ==> *final(self) == *old(self),
            r matches Some(o) ==> *o == (*old(self))->Shading_0 && *final(self) == PdfPageObject::Shading(*final(o)),
    {
        match self {
            PdfPageObject::Shading(object) => Some(object),
            _ => None,
        }
    }

    /// The underlying FormFragment object, if this object is of that kind.
    pub fn as_form_fragment_object(&self) -> (r: Option<&PdfPageFormFragmentObject<'a>>)
        ensures
            r is Some <==> (*self) is FormFragment,
            r is Some ==> *r->Some_0 == (*self)->FormFragment_0,
    {
        match self {
            PdfPageObject::FormFragment(object) => Some(object),
            _ => None,
        }
    }

    /// The underlying FormFragment object, mutably, if this object is of that kind.
    pub fn as_form_fragment_object_mut(&mut self) -> (r: Option<&mut PdfPageFormFragmentObject<'a>>)
        ensures
            r is Some <==> (*old(self)) is FormFragment,
            r is None ==> *final(self) == *old(self),
            r matches Some(o) ==> *o == (*old(self))->FormFragment_0 && *final(self) == PdfPageObject::FormFragment(*final(o)),
    {
        match self {
            PdfPageObject::FormFragment(object) => Some(object),
            _ => None,
        }
    }

    /// The underlying object of an unrecognized kind, if this object is one.
    pub fn as_unsupported_object(&self) -> (r: Option<&PdfPageUnsupportedObject<'a>>)
        ensures
            r is Some <==> (*self) is Unsupported,
            r is Some ==> *r->Some_0 == (*self)->Unsupported_0,
    {
        match self {
            PdfPageObject::Unsupported(object) => Some(object),
            _ => None,
        }
    }

    /// The shared state of this object, mutably, whatever its kind.
    fn common_mut(&mut self) -> (r: &mut PdfPageObjectBase<'a>)
        ensures
            *r == old(self).base(),
            *final(self) == Self::of_kind(old(self).kind(), *final(r)),
    {
        match self {
            PdfPageObject::Text(o) => &mut o.base,
            PdfPageObject::Path(o) => &mut o.base,
            PdfPageObject::Image(o) => &mut o.base,
            PdfPageObject::Shading(o) => &mut o.base,
            PdfPageObject::FormFragment(o) => &mut o.base,
            PdfPageObject::Unsupported(o) => &mut o.base,
        }
    }

    fn set_page_handle(&mut self, page: FPDF_PAGE)
        ensures
            *final(self) == old(self).with_page(Some(page)),
    {
        self.common_mut().page_handle = Some(page);
    }

    fn clear_page_handle(&mut self)
        ensures
            *final(self) == old(self).with_page(None),
    {
        self.common_mut().page_handle = None;
    }

    fn set_annotation_handle(&mut self, annotation: FPDF_ANNOTATION)
        ensures
            *final(self) == old(self).with_annotation(Some(annotation)),
    {
        self.common_mut().annotation_handle = Some(annotation);
    }

    fn clear_annotation_handle(&mut self)
        ensures
            *final(self) == old(self).with_annotation(None),
    {
        self.common_mut().annotation_handle = None;
    }

    /// Records the outcome of inserting this object into `page`, given the native last-error
    /// state after the insertion.
    fn complete_add_to_page(&mut self, page: FPDF_PAGE, last_error: Option<PdfiumInternalError>) -> (r: Result<(), PdfiumError>)
        ensures
            r == last_error_outcome(last_error),
            r is Ok ==> *final(self) == old(self).with_page(Some(page)),
            r is Err ==> *final(self) == *old(self),
    {
        match last_error {
            Some(e) => Err(PdfiumError::PdfiumLibraryInternalError(e)),
            None => {
                self.set_page_handle(page);
                Ok(())
            },
        }
    }

    /// Records the outcome of a native removal of this object from its container: `ok` is
    /// what the removal returned, `last_error` the native last-error state after it.
    fn complete_removal(&mut self, from_page: bool, ok: FPDF_BOOL, last_error: Option<PdfiumInternalError>) -> (r: Result<(), PdfiumError>)
        ensures
            ok != 0 ==> r is Ok,
            ok == 0 ==> r == Err::<(), PdfiumError>(null_result_error(last_error)),
            r is Ok && from_page ==> *final(self) == old(self).with_page(None),
            r is Ok && !from_page ==> *final(self) == old(self).with_annotation(None),
            r is Err ==> *final(self) == *old(self),
    {
        if is_true(ok) {
            if from_page {
                self.clear_page_handle();
            } else {
                self.clear_annotation_handle();
            }
            Ok(())
        } else {
            Err(PdfiumError::for_null_result(last_error))
        }
    }

    /// Records the outcome of appending this object to `annotation`: `ok` is what the native
    /// call returned, `last_error` the native last-error state after it.
    fn complete_add_to_annotation(&mut self, annotation: FPDF_ANNOTATION, ok: FPDF_BOOL, last_error: Option<PdfiumInternalError>) -> (r: Result<(), PdfiumError>)
        ensures
            ok != 0 ==> r is Ok,
            ok == 0 ==> r == Err::<(), PdfiumError>(null_result_error(last_error)),
            r is Ok ==> *final(self) == old(self).with_annotation(Some(annotation)),
            r is Err ==> *final(self) == *old(self),
    {
        if is_true(ok) {
            self.set_annotation_handle(annotation);
            Ok(())
        } else {
            Err(PdfiumError::for_null_result(last_error))
        }
    }

    /// Inserts this object into the given page, which then manages its native memory.
    pub fn add_object_to_page(&mut self, page: FPDF_PAGE) -> (r: Result<(), PdfiumError>)
        requires
            !old(self).is_owned_by_container(),
        ensures
            final(self).wf(),
            r is Ok ==> *final(self) == old(self).with_page(Some(page)),
            r is Err ==> *final(self) == *old(self),
            r is Err ==> r->Err_0 is PdfiumLibraryInternalError,
    {
        let bindings = self.bindings();
        let object = self.get_object_handle();
        bindings.FPDFPage_InsertObject(page, object);
        let last_error = get_pdfium_last_error(bindings);
        self.complete_add_to_page(page, last_error)
    }

    /// Removes this object from the page that holds it; this wrapper then manages its native
    /// memory again.
    pub fn remove_object_from_page(&mut self) -> (r: Result<(), PdfiumError>)
        ensures
            old(self).wf() ==> final(self).wf(),
            old(self).page_handle() is None ==> r == Err::<(), PdfiumError>(PdfiumError::OwnershipNotAttachedToPage),
            old(self).page_handle() is Some ==> (r is Ok || r->Err_0 is PdfiumLibraryInternalError),
            r is Ok ==> *final(self) == old(self).with_page(None),
            r is Err ==> *final(self) == *old(self),
    {
        match self.get_page_handle() {
            Some(page) => {
                let bindings = self.bindings();
                let ok = bindings.FPDFPage_RemoveObject(page, self.get_object_handle());
                let last_error = if is_true(ok) {
                    None
                } else {
                    get_pdfium_last_error(bindings)
                };
                self.complete_removal(true, ok, last_error)
            },
            None => Err(PdfiumError::OwnershipNotAttachedToPage),
        }
    }

    /// Appends this object to the given annotation, which then manages its native memory.
    pub fn add_object_to_annotation(&mut self, annotation: FPDF_ANNOTATION) -> (r: Result<(), PdfiumError>)
        requires
            !old(self).is_owned_by_container(),
        ensures
            final(self).wf(),
            r is Ok ==> *final(self) == old(self).with_annotation(Some(annotation)),
            r is Err ==> *final(self) == *old(self),
            r is Err ==> r->Err_0 is PdfiumLibraryInternalError,
    {
        let bindings = self.bindings();
        let ok = bindings.FPDFAnnot_AppendObject(annotation, self.get_object_handle());
        let last_error = if is_true(ok) {
            None
        } else {
            get_pdfium_last_error(bindings)
        };
        self.complete_add_to_annotation(annotation, ok, last_error)
    }

    /// Removes this object from the annotation that holds it; this wrapper then manages its
    /// native memory again. The annotation is searched for the object's position first.
    pub fn remove_object_from_annotation(&mut self) -> (r: Result<(), PdfiumError>)
        ensures
            old(self).wf() ==> final(self).wf(),
            old(self).annotation_handle() is None ==> r == Err::<(), PdfiumError>(PdfiumError::OwnershipNotAttachedToAnnotation),
            old(self).annotation_handle() is Some ==> (r is Ok
                || r == Err::<(), PdfiumError>(PdfiumError::OwnershipNotAttachedToAnnotation)
                || r->Err_0 is PdfiumLibraryInternalError),
            r is Ok ==> *final(self) == old(self).with_annotation(None),
            r is Err ==> *final(self) == *old(self),
    {
        match self.get_annotation_handle() {
            Some(annotation) => {
                let bindings = self.bindings();
                let count = bindings.FPDFAnnot_GetObjectCount(annotation);
                let mut objects: Vec<FPDF_PAGEOBJECT> = Vec::new();
                let mut i: i32 = 0;
                while i < count
                    invariant
                        0 <= i,
                        objects@.len() == i as int,
                    decreases count - i,
                {
                    objects.push(bindings.FPDFAnnot_GetObject(annotation, i));
                    i = i + 1;
                }
                match annotation_object_index(&objects, self.get_object_handle()) {
                    Ok(index) => {
                        let ok = bindings.FPDFAnnot_RemoveObject(annotation, index as i32);
                        let last_error = if is_true(ok) {
                            None
                        } else {
                            get_pdfium_last_error(bindings)
                        };
                        self.complete_removal(false, ok, last_error)
                    },
                    Err(e) => Err(e),
                }
            },
            None => Err(PdfiumError::OwnershipNotAttachedToAnnotation),
        }
    }

    /// Releases the native object unless a container manages its memory; returns whether it
    /// released it. Releasing a container-managed object is undefined behavior in the
    /// native library, and never releasing an independent one leaks it.
    fn release_native_handle(&self) -> (released: bool)
        ensures
            released == !self.is_owned_by_container(),
        opens_invariants none
        no_unwind
    {
        let base = self.common();
        let owned = match (base.page_handle, base.annotation_handle) {
            (None, None) => false,
            _ => true,
        };
        if !owned {
            destroy_native(base.bindings, base.object_handle);
            true
        } else {
            false
        }
    }
}

/// Relies on `PdfiumLibraryBindings::FPDFPageObj_Destroy` returning normally, as the
/// trait's documentation requires of every implementation; it runs while a wrapper is
/// dropped.
#[verifier::external_body]
fn destroy_native(bindings: &dyn PdfiumLibraryBindings, handle: FPDF_PAGEOBJECT)
    opens_invariants none
    no_unwind
{
    bindings.FPDFPageObj_Destroy(handle)
}

/// The first position at which `target` stands in `objects`, if any.
pub fn find_object_index(objects: &Vec<FPDF_PAGEOBJECT>, target: FPDF_PAGEOBJECT) -> (r: Option<usize>)
    ensures
        r matches Some(i) ==> i < objects@.len() && objects@[i as int] == target
            && forall|j: int| 0 <= j < i ==> objects@[j] != target,
        r is None ==> !objects@.contains(target),
{
    let mut i: usize = 0;
    while i < objects.len()
        invariant
            i <= objects@.len(),
            forall|j: int| 0 <= j < i ==> objects@[j] != target,
        decreases objects@.len() - i,
    {
        if objects[i] == target {
            return Some(i);
        }
        i = i + 1;
    }
    None
}

/// The position of `target` among the objects that an annotation lists, for its removal:
/// the first one that holds it, or `OwnershipNotAttachedToAnnotation` when none does.
pub fn annotation_object_index(objects: &Vec<FPDF_PAGEOBJECT>, target: FPDF_PAGEOBJECT) -> (r: Result<usize, PdfiumError>)
    ensures
        r == Err::<usize, PdfiumError>(PdfiumError::OwnershipNotAttachedToAnnotation) <==> !objects@.contains(target),
        r is Ok || r == Err::<usize, PdfiumError>(PdfiumError::OwnershipNotAttachedToAnnotation),
        r matches Ok(i) ==> i < objects@.len() && objects@[i as int] == target
            && forall|j: int| 0 <= j < i ==> objects@[j] != target,
{
    match find_object_index(objects, target) {
        Some(i) => Ok(i),
        None => Err(PdfiumError::OwnershipNotAttachedToAnnotation),
    }
}

/// Attaching an independent object to a page and detaching it again gives back the same
/// independent object, with no page reference left.
pub proof fn lemma_attach_detach_page(object: PdfPageObject, page: FPDF_PAGE)
    requires
        !object.is_owned_by_container(),
    ensures
        object.with_page(Some(page)).is_owned_by_container(),
        object.with_page(Some(page)).page_handle() == Some(page),
        object.with_page(Some(page)).with_page(None) == object,
        !object.with_page(Some(page)).with_page(None).is_owned_by_container(),
        object.with_page(Some(page)).with_page(None).page_handle() is None,
{
    assert(object.with_page(Some(page)).with_page(None) == object);
}

/// Attaching an independent object to an annotation and detaching it again gives back the
/// same independent object, with no annotation reference left.
pub proof fn lemma_attach_detach_annotation(object: PdfPageObject, annotation: FPDF_ANNOTATION)
    requires
        !object.is_owned_by_container(),
    ensures
        object.with_annotation(Some(annotation)).is_owned_by_container(),
        object.with_annotation(Some(annotation)).with_annotation(None) == object,
        !object.with_annotation(Some(annotation)).with_annotation(None).is_owned_by_container(),
{
    assert(object.with_annotation(Some(annotation)).with_annotation(None) == object);
}

/// Exactly one of the six narrowing views of an object exists: the one of its own kind.
pub proof fn lemma_exactly_one_narrowing(object: PdfPageObject)
    ensures
        (if object is Text { 1int } else { 0int }) + (if object is Path { 1int } else { 0int })
            + (if object is Image { 1int } else { 0int }) + (if object is Shading { 1int } else { 0int })
            + (if object is FormFragment { 1int } else { 0int }) + (if object is Unsupported { 1int } else { 0int }) == 1,
{
}

/// What a native line-join query reports for the code it returned.
pub open spec fn line_join_outcome(code: i32) -> Result<PdfPageObjectLineJoin, PdfiumError> {
    match line_join_of_code(code) {
        Some(join) => Ok(join),
        None => Err(PdfiumError::UnknownPdfPageObjectLineJoin(code)),
    }
}

/// What a native line-cap query reports for the code it returned.
pub open spec fn line_cap_outcome(code: i32) -> Result<PdfPageObjectLineCap, PdfiumError> {
    match line_cap_of_code(code) {
        Some(cap) => Ok(cap),
        None => Err(PdfiumError::UnknownPdfPageObjectLineCap(code)),
    }
}

/// One segment of a path object as read from the native library.
#[derive(Debug, Copy, Clone, PartialEq, Eq, Structural)]
pub struct PathSegmentRecord {
    /// The native segment type code.
    pub kind: i32,
    pub x: PdfPoints,
    pub y: PdfPoints,
    /// Whether the segment closes its subpath.
    pub close: bool,
}

/// Whether a path with these segments can be recreated: it holds no Bezier segment, whose
/// control points the native library does not give back.
pub open spec fn path_segments_copyable(segments: Seq<PathSegmentRecord>) -> bool {
    forall|i: int| 0 <= i < segments.len() ==> segments[i].kind != FPDF_SEGMENT_BEZIERTO
}

/// One operation that builds a path anew.
#[derive(Debug, Copy, Clone, PartialEq, Eq, Structural)]
pub enum PathOp {
    MoveTo(PdfPoints, PdfPoints),
    LineTo(PdfPoints, PdfPoints),
    Close,
}

/// The operations that recreate one segment read from a path: a move or a line to its
/// point, then a close where the segment closes its subpath. Other segment types add only
/// the close.
pub open spec fn segment_ops(segment: PathSegmentRecord) -> Seq<PathOp> {
    let draw = if segment.kind == FPDF_SEGMENT_MOVETO {
        seq![PathOp::MoveTo(segment.x, segment.y)]
    } else if segment.kind == FPDF_SEGMENT_LINETO {
        seq![PathOp::LineTo(segment.x, segment.y)]
    } else {
        Seq::<PathOp>::empty()
    };
    if segment.close {
        draw.push(PathOp::Close)
    } else {
        draw
    }
}

/// The operations that recreate a path with these segments, in segment order.
pub open spec fn path_ops_of(segments: Seq<PathSegmentRecord>) -> Seq<PathOp>
    decreases segments.len(),
{
    if segments.len() == 0 {
        Seq::<PathOp>::empty()
    } else {
        path_ops_of(segments.drop_last()) + segment_ops(segments.last())
    }
}

/// The operations that recreate a path with these segments.
pub fn path_copy_ops(segments: &Vec<PathSegmentRecord>) -> (ops: Vec<PathOp>)
    ensures
        ops@ == path_ops_of(segments@),
{
    let mut ops: Vec<PathOp> = Vec::new();
    let mut i: usize = 0;
    while i < segments.len()
        invariant
            i <= segments@.len(),
            ops@ == path_ops_of(segments@.subrange(0, i as int)),
        decreases segments@.len() - i,
    {
        let segment = segments[i];
        proof {
            assert(segments@.subrange(0, i + 1).drop_last() =~= segments@.subrange(0, i as int));
        }
        if segment.kind == FPDF_SEGMENT_MOVETO {
            ops.push(PathOp::MoveTo(segment.x, segment.y));
        } else if segment.kind == FPDF_SEGMENT_LINETO {
            ops.push(PathOp::LineTo(segment.x, segment.y));
        }
        if segment.close {
            ops.push(PathOp::Close);
        }
        assert(ops@ =~= path_ops_of(segments@.subrange(0, i + 1)));
        i = i + 1;
    }
    assert(segments@.subrange(0, segments@.len() as int) =~= segments@);
    ops
}

/// Issues `ops`, in order, on the path `handle`, stopping at the first one that fails.
fn replay_path_ops(bindings: &dyn PdfiumLibraryBindings, handle: FPDF_PAGEOBJECT, ops: &Vec<PathOp>) -> (r: Result<(), PdfiumError>)
    ensures
        r is Ok || r == Err::<(), PdfiumError>(PdfiumError::PdfiumFunctionReturnValueIndicatedFailure),
{
    let mut i: usize = 0;
    while i < ops.len()
        invariant
            i <= ops@.len(),
        decreases ops@.len() - i,
    {
        let ok = match ops[i] {
            PathOp::MoveTo(x, y) => bindings.FPDFPath_MoveTo(handle, x, y),
            PathOp::LineTo(x, y) => bindings.FPDFPath_LineTo(handle, x, y),
            PathOp::Close => bindings.FPDFPath_Close(handle),
        };
        if !is_true(ok) {
            return Err(PdfiumError::PdfiumFunctionReturnValueIndicatedFailure);
        }
        i = i + 1;
    }
    Ok(())
}

/// Decides whether a path with these segments can be recreated.
pub fn path_is_copyable(segments: &Vec<PathSegmentRecord>) -> (r: bool)
    ensures
        r == path_segments_copyable(segments@),
{
    let mut i: usize = 0;
    while i < segments.len()
        invariant
            i <= segments@.len(),
            forall|j: int| 0 <= j < i ==> segments@[j].kind != FPDF_SEGMENT_BEZIERTO,
        decreases segments@.len() - i,
    {
        if segments[i].kind == FPDF_SEGMENT_BEZIERTO {
            return false;
        }
        i = i + 1;
    }
    true
}

/// Whether an image with the given native filter count can be recreated: only one without
/// filters can, and a negative count, the native failure value, is read as none.
pub open spec fn image_filters_copyable(filter_count: i32) -> bool {
    filter_count <= 0
}

/// Decides whether an image with the given native filter count can be recreated: filters
/// cannot be set on a new image object, so only an image without any can. A negative
/// count, the native failure value, is read as no filters.
pub fn image_is_copyable(filter_count: i32) -> (r: bool)
    ensures
        r == image_filters_copyable(filter_count),
{
    filter_count <= 0
}

/// Whether `r` is what applying the matrix read `read` can give: the read's own error when it
/// failed, and otherwise success or the setter's failure.
pub open spec fn matrix_transfer_outcome(read: Result<PdfMatrix, PdfiumError>, r: Result<(), PdfiumError>) -> bool {
    match read {
        Err(e) => r == Err::<(), PdfiumError>(e),
        Ok(_) => r is Ok || r == Err::<(), PdfiumError>(PdfiumError::PdfiumFunctionReturnValueIndicatedFailure),
    }
}

/// Whether `e` is a failure reported by the native library rather than a refusal of this
/// library's own.
pub open spec fn is_native_failure(e: PdfiumError) -> bool {
    ||| e is PdfiumLibraryInternalError
    ||| e is PdfiumFunctionReturnValueIndicatedFailure
    ||| e is UnableToConvertPdfiumColorValueToRustu8
}

/// Whether `r` can be the copy of a path object whose segments read `segments`: refused
/// for a Bezier segment exactly when one is there, otherwise a detached path or a native
/// failure.
pub open spec fn path_copy_outcome<'b>(r: Result<PdfPageObject<'b>, PdfiumError>, segments: Seq<PathSegmentRecord>) -> bool {
    &&& (r == Err::<PdfPageObject<'b>, PdfiumError>(PdfiumError::PathObjectBezierControlPointsNotCopyable))
        <==> !path_segments_copyable(segments)
    &&& (r matches Err(e) ==> (e != PdfiumError::PathObjectBezierControlPointsNotCopyable ==> is_native_failure(e)))
    &&& (r matches Ok(copy) ==> copy.kind() is Path && !copy.is_owned_by_container())
}

/// Whether `r` can be the copy of an image object with `filter_count` filters: refused for
/// its filters exactly when it has any, otherwise a detached image or a native failure.
pub open spec fn image_copy_outcome<'b>(r: Result<PdfPageObject<'b>, PdfiumError>, filter_count: i32) -> bool {
    &&& (r == Err::<PdfPageObject<'b>, PdfiumError>(PdfiumError::ImageObjectFiltersNotCopyable))
        <==> !image_filters_copyable(filter_count)
    &&& (r matches Err(e) ==> (e != PdfiumError::ImageObjectFiltersNotCopyable ==> is_native_failure(e)))
    &&& (r matches Ok(copy) ==> copy.kind() is Image && !copy.is_owned_by_container())
}

/// A copy of a path whose segments hold a Bezier segment is refused; a copy of a path
/// whose segments hold none is never refused for them, and when it succeeds it is a path
/// held by no container.
pub proof fn lemma_path_copy_refusal<'b>(r: Result<PdfPageObject<'b>, PdfiumError>, segments: Seq<PathSegmentRecord>)
    requires
        path_copy_outcome(r, segments),
    ensures
        !path_segments_copyable(segments) ==> r == Err::<PdfPageObject<'b>, PdfiumError>(PdfiumError::PathObjectBezierControlPointsNotCopyable),
        path_segments_copyable(segments) ==> r != Err::<PdfPageObject<'b>, PdfiumError>(PdfiumError::PathObjectBezierControlPointsNotCopyable),
        r matches Ok(copy) ==> copy.kind() is Path && !copy.is_owned_by_container() && copy.wf(),
{
}

impl<'a> PdfPageObject<'a> {
    /// The transformation matrix currently applied to this object.
    pub fn matrix(&self) -> (r: Result<PdfMatrix, PdfiumError>)
        ensures
            r is Ok || r == Err::<PdfMatrix, PdfiumError>(PdfiumError::PdfiumFunctionReturnValueIndicatedFailure),
    {
        let mut matrix = PdfMatrix::zero();
        let ok = self.bindings().FPDFPageObj_GetMatrix(self.get_object_handle(), &mut matrix);
        value_from_pdfium(ok, matrix)
    }

    /// Replaces the transformation matrix of this object with `matrix`.
    pub fn set_matrix(&mut self, matrix: PdfMatrix) -> (r: Result<(), PdfiumError>)
        ensures
            *final(self) == *old(self),
            r is Ok || r == Err::<(), PdfiumError>(PdfiumError::PdfiumFunctionReturnValueIndicatedFailure),
    {
        let ok = self.bindings().FPDFPageObj_SetMatrix(self.get_object_handle(), &matrix);
        value_from_pdfium(ok, ())
    }

    /// Applies a matrix just read from another object: a failed read is returned as it is and
    /// nothing is set; otherwise the matrix read replaces this object's own.
    pub fn set_matrix_from(&mut self, read: Result<PdfMatrix, PdfiumError>) -> (r: Result<(), PdfiumError>)
        ensures
            *final(self) == *old(self),
            matrix_transfer_outcome(read, r),
    {
        match read {
            Ok(m) => self.set_matrix(m),
            Err(e) => Err(e),
        }
    }

    /// Reads every segment of this path object from the native library.
    fn read_path_segments(&self) -> (r: Vec<PathSegmentRecord>) {
        let count = self.bindings().FPDFPath_CountSegments(self.get_object_handle());
        self.read_path_segments_up_to(count)
    }

    /// Reads the first `count` segments of this path object from the native library; a
    /// count below one reads none.
    fn read_path_segments_up_to(&self, count: i32) -> (r: Vec<PathSegmentRecord>)
        ensures
            r@.len() == if count > 0 { count as int } else { 0 },
    {
        let bindings = self.bindings();
        let object = self.get_object_handle();
        let mut segments: Vec<PathSegmentRecord> = Vec::new();
        let mut i: i32 = 0;
        while i < count
            invariant
                0 <= i,
                count > 0 ==> i <= count,
                count <= 0 ==> i == 0,
                segments@.len() == i as int,
            decreases count - i,
        {
            let segment = bindings.FPDFPath_GetPathSegment(object, i);
            let kind = bindings.FPDFPathSegment_GetType(segment);
            let mut x = PdfPoints::zero();
            let mut y = PdfPoints::zero();
            bindings.FPDFPathSegment_GetPoint(segment, &mut x, &mut y);
            let close = is_true(bindings.FPDFPathSegment_GetClose(segment));
            segments.push(PathSegmentRecord { kind, x, y, close });
            i = i + 1;
        }
        segments
    }

    /// Copies the fill and stroke colors, the stroke width and the matrix of this object onto
    /// `copy`.
    fn copy_shared_attributes<'b>(&self, copy: &mut PdfPageObject<'b>) -> (r: Result<(), PdfiumError>)
        ensures
            *final(copy) == *old(copy),
            r is Err ==> is_native_failure(r->Err_0),
    {
        match self.fill_color() {
            Ok(c) => match copy.set_fill_color(c) {
                Ok(()) => {},
                Err(e) => return Err(e),
            },
            Err(e) => return Err(e),
        }
        match self.stroke_color() {
            Ok(c) => match copy.set_stroke_color(c) {
                Ok(()) => {},
                Err(e) => return Err(e),
            },
            Err(e) => return Err(e),
        }
        match self.stroke_width() {
            Ok(w) => match copy.set_stroke_width(w) {
                Ok(()) => {},
                Err(e) => return Err(e),
            },
            Err(e) => return Err(e),
        }
        match self.matrix() {
            Ok(m) => copy.set_matrix(m),
            Err(e) => Err(e),
        }
    }

    /// Recreates this path object in `document`, segment by segment, from its segments as
    /// read from the native library.
    fn try_copy_path<'b>(&self, document: &PdfDocument<'b>) -> (r: Result<PdfPageObject<'b>, PdfiumError>)
        ensures
            exists|segments: Seq<PathSegmentRecord>| path_copy_outcome(r, segments),
    {
        let segments = self.read_path_segments();
        self.copy_path_with_segments(&segments, document)
    }

    /// Recreates this path object in `document` from the given segments, read from it: a
    /// path holding a Bezier segment is refused before anything is created.
    fn copy_path_with_segments<'b>(&self, segments: &Vec<PathSegmentRecord>, document: &PdfDocument<'b>) -> (r: Result<PdfPageObject<'b>, PdfiumError>)
        ensures
            path_copy_outcome(r, segments@),
    {
        if !path_is_copyable(segments) {
            return Err(PdfiumError::PathObjectBezierControlPointsNotCopyable);
        }
        let bindings = document.bindings();
        let handle = bindings.FPDFPageObj_CreateNewPath(PdfPoints::zero(), PdfPoints::zero());
        if handle == NULL_HANDLE {
            return Err(PdfiumError::for_null_result(get_pdfium_last_error(bindings)));
        }
        let mut copy = PdfPageObject::from_type_code(
            crate::bindings::FPDF_PAGEOBJ_PATH,
            handle,
            None,
            None,
            bindings,
        );
        let ops = path_copy_ops(segments);
        match replay_path_ops(bindings, handle, &ops) {
            Ok(()) => {},
            Err(e) => return Err(e),
        }
        match self.copy_shared_attributes(&mut copy) {
            Ok(()) => Ok(copy),
            Err(e) => Err(e),
        }
    }

    /// Recreates this image object in `document` from its bitmap, given its filter count as
    /// read from the native library.
    fn try_copy_image<'b>(&self, document: &PdfDocument<'b>) -> (r: Result<PdfPageObject<'b>, PdfiumError>)
        ensures
            exists|filter_count: i32| image_copy_outcome(r, filter_count),
    {
        let filter_count = self.bindings().FPDFImageObj_GetImageFilterCount(self.get_object_handle());
        self.copy_image_with_filter_count(filter_count, document)
    }

    /// Recreates this image object in `document` from its bitmap, given the number of image
    /// filters read from it: an image with filters is refused before anything is created.
    fn copy_image_with_filter_count<'b>(&self, filter_count: i32, document: &PdfDocument<'b>) -> (r: Result<PdfPageObject<'b>, PdfiumError>)
        ensures
            image_copy_outcome(r, filter_count),
    {
        let source = self.bindings();
        let object = self.get_object_handle();
        if !image_is_copyable(filter_count) {
            return Err(PdfiumError::ImageObjectFiltersNotCopyable);
        }
        let bindings = document.bindings();
        let handle = bindings.FPDFPageObj_NewImageObj(document.handle());
        if handle == NULL_HANDLE {
            return Err(PdfiumError::for_null_result(get_pdfium_last_error(bindings)));
        }
        let mut copy = PdfPageObject::from_type_code(
            crate::bindings::FPDF_PAGEOBJ_IMAGE,
            handle,
            None,
            None,
            bindings,
        );
        let bitmap = source.FPDFImageObj_GetBitmap(object);
        if bitmap == NULL_HANDLE {
            return Err(PdfiumError::for_null_result(get_pdfium_last_error(source)));
        }
        let ok = bindings.FPDFImageObj_SetBitmap(handle, bitmap);
        source.FPDFBitmap_Destroy(bitmap);
        if !is_true(ok) {
            return Err(PdfiumError::PdfiumFunctionReturnValueIndicatedFailure);
        }
        match self.matrix() {
            Ok(m) => match copy.set_matrix(m) {
                Ok(()) => Ok(copy),
                Err(e) => Err(e),
            },
            Err(e) => Err(e),
        }
    }
}

/// Attributes and operations that every page object shares, whatever its kind.
pub trait PdfPageObjectCommon<'a>: Sized {
    /// The kind of this object.
    spec fn common_kind(&self) -> PdfPageObjectType;

    /// Whether this object contains transparency.
    fn has_transparency(&self) -> bool;

    /// The bounding box of this object. For text objects, the bottom of the box is the font
    /// baseline: descenders extend below it.
    fn bounds(&self) -> (r: Result<PdfRect, PdfiumError>)
        ensures
            r is Ok || r == Err::<PdfRect, PdfiumError>(PdfiumError::PdfiumFunctionReturnValueIndicatedFailure),
    ;

    /// Replaces the transformation matrix of this object with the one of `other`.
    fn transform_from(&mut self, other: &PdfPageObject) -> (r: Result<(), PdfiumError>)
        ensures
            *final(self) == *old(self),
            exists|read: Result<PdfMatrix, PdfiumError>| matrix_transfer_outcome(read, r),
    ;

    /// Sets the blend mode used when painting this object. It cannot be read back.
    fn set_blend_mode(&mut self, blend_mode: PdfPageObjectBlendMode) -> (r: Result<(), PdfiumError>)
        ensures
            *final(self) == *old(self),
            exists|last_error: Option<PdfiumInternalError>| r == last_error_outcome(last_error),
    ;

    /// The color of any filled paths in this object.
    fn fill_color(&self) -> (r: Result<PdfColor, PdfiumError>)
        ensures
            exists|ok: FPDF_BOOL, red: u32, green: u32, blue: u32, alpha: u32|
                r == color_outcome(ok, red, green, blue, alpha),
    ;

    /// Sets the color of any filled paths in this object.
    fn set_fill_color(&mut self, fill_color: PdfColor) -> (r: Result<(), PdfiumError>)
        ensures
            *final(self) == *old(self),
            exists|ok: FPDF_BOOL| r == value_outcome(ok, ()),
    ;

    /// The color of any stroked lines in this object.
    fn stroke_color(&self) -> (r: Result<PdfColor, PdfiumError>)
        ensures
            exists|ok: FPDF_BOOL, red: u32, green: u32, blue: u32, alpha: u32|
                r == color_outcome(ok, red, green, blue, alpha),
    ;

    /// Sets the color of any stroked lines in this object.
    fn set_stroke_color(&mut self, stroke_color: PdfColor) -> (r: Result<(), PdfiumError>)
        ensures
            *final(self) == *old(self),
            exists|ok: FPDF_BOOL| r == value_outcome(ok, ()),
    ;

    /// The width of any stroked lines in this object.
    fn stroke_width(&self) -> (r: Result<PdfPoints, PdfiumError>)
        ensures
            exists|ok: FPDF_BOOL, width: PdfPoints| r == value_outcome(ok, width),
    ;

    /// Sets the width of any stroked lines in this object.
    fn set_stroke_width(&mut self, stroke_width: PdfPoints) -> (r: Result<(), PdfiumError>)
        ensures
            *final(self) == *old(self),
            exists|ok: FPDF_BOOL| r == value_outcome(ok, ()),
    ;

    /// The line join style used for stroked path segments in this object.
    fn line_join(&self) -> (r: Result<PdfPageObjectLineJoin, PdfiumError>)
        ensures
            exists|code: i32| r == line_join_outcome(code),
    ;

    /// Sets the line join style used for stroked path segments in this object.
    fn set_line_join(&mut self, line_join: PdfPageObjectLineJoin) -> (r: Result<(), PdfiumError>)
        ensures
            *final(self) == *old(self),
            exists|ok: FPDF_BOOL| r == value_outcome(ok, ()),
    ;

    /// The line cap style used for stroked path segments in this object.
    fn line_cap(&self) -> (r: Result<PdfPageObjectLineCap, PdfiumError>)
        ensures
            exists|code: i32| r == line_cap_outcome(code),
    ;

    /// Sets the line cap style used for stroked path segments in this object.
    fn set_line_cap(&mut self, line_cap: PdfPageObjectLineCap) -> (r: Result<(), PdfiumError>)
        ensures
            *final(self) == *old(self),
            exists|ok: FPDF_BOOL| r == value_outcome(ok, ()),
    ;

    /// Whether `try_copy` can succeed on this object, decided as `try_copy` decides its
    /// refusals. Path objects holding a Bezier segment and image objects with filters applied
    /// cannot be copied; neither can text objects,
    /// whose content cannot be read back without their page, nor shadings, form fragments
    /// and unsupported objects, which cannot be created anew. The blend mode is never
    /// carried over to a copy.
    fn is_copyable(&self) -> (r: bool)
        ensures
            self.common_kind() is Path ==> exists|segments: Seq<PathSegmentRecord>|
                r == path_segments_copyable(segments),
            self.common_kind() is Image ==> exists|filter_count: i32| r == image_filters_copyable(filter_count),
            r ==> (self.common_kind() is Path || self.common_kind() is Image),
    ;

    /// Creates a new object of the same kind in `document` and copies this object's
    /// properties across. The copy is held by no page or annotation.
    fn try_copy<'b>(&self, document: &PdfDocument<'b>) -> (r: Result<PdfPageObject<'b>, PdfiumError>)
        ensures
            r matches Ok(copy) ==> copy.kind() == self.common_kind() && !copy.is_owned_by_container(),
            self.common_kind() is Path ==> exists|segments: Seq<PathSegmentRecord>|
                path_copy_outcome(r, segments),
            self.common_kind() is Image ==> exists|filter_count: i32|
                image_copy_outcome(r, filter_count),
            (self.common_kind() is Path || self.common_kind() is Image)
                ==> r != Err::<PdfPageObject<'b>, PdfiumError>(PdfiumError::UnsupportedPdfPageObjectType),
            !(self.common_kind() is Path || self.common_kind() is Image)
                ==> r == Err::<PdfPageObject<'b>, PdfiumError>(PdfiumError::UnsupportedPdfPageObjectType),
    ;
}

impl<'a> PdfPageObjectCommon<'a> for PdfPageObject<'a> {
    open spec fn common_kind(&self) -> PdfPageObjectType {
        self.kind()
    }

    fn has_transparency(&self) -> bool {
        is_true(self.bindings().FPDFPageObj_HasTransparency(self.get_object_handle()))
    }

    fn bounds(&self) -> (r: Result<PdfRect, PdfiumError>) {
        let mut left = PdfPoints::zero();
        let mut bottom = PdfPoints::zero();
        let mut right = PdfPoints::zero();
        let mut top = PdfPoints::zero();
        let ok = self.bindings().FPDFPageObj_GetBounds(
            self.get_object_handle(),
            &mut left,
            &mut bottom,
            &mut right,
            &mut top,
        );
        value_from_pdfium(ok, PdfRect { bottom, left, top, right })
    }

    fn transform_from(&mut self, other: &PdfPageObject) -> (r: Result<(), PdfiumError>) {
        let read = other.matrix();
        self.set_matrix_from(read)
    }

    fn set_blend_mode(&mut self, blend_mode: PdfPageObjectBlendMode) -> (r: Result<(), PdfiumError>) {
        let bindings = self.bindings();
        bindings.FPDFPageObj_SetBlendMode(self.get_object_handle(), blend_mode.as_pdfium());
        PdfiumError::from_last_error(get_pdfium_last_error(bindings))
    }

    fn fill_color(&self) -> (r: Result<PdfColor, PdfiumError>) {
        let mut red: u32 = 0;
        let mut green: u32 = 0;
        let mut blue: u32 = 0;
        let mut alpha: u32 = 0;
        let ok = self.bindings().FPDFPageObj_GetFillColor(
            self.get_object_handle(),
            &mut red,
            &mut green,
            &mut blue,
            &mut alpha,
        );
        color_from_pdfium(ok, red, green, blue, alpha)
    }

    fn set_fill_color(&mut self, fill_color: PdfColor) -> (r: Result<(), PdfiumError>) {
        let ok = self.bindings().FPDFPageObj_SetFillColor(
            self.get_object_handle(),
            fill_color.red() as u32,
            fill_color.green() as u32,
            fill_color.blue() as u32,
            fill_color.alpha() as u32,
        );
        value_from_pdfium(ok, ())
    }

    fn stroke_color(&self) -> (r: Result<PdfColor, PdfiumError>) {
        let mut red: u32 = 0;
        let mut green: u32 = 0;
        let mut blue: u32 = 0;
        let mut alpha: u32 = 0;
        let ok = self.bindings().FPDFPageObj_GetStrokeColor(
            self.get_object_handle(),
            &mut red,
            &mut green,
            &mut blue,
            &mut alpha,
        );
        color_from_pdfium(ok, red, green, blue, alpha)
    }

    fn set_stroke_color(&mut self, stroke_color: PdfColor) -> (r: Result<(), PdfiumError>) {
        let ok = self.bindings().FPDFPageObj_SetStrokeColor(
            self.get_object_handle(),
            stroke_color.red() as u32,
            stroke_color.green() as u32,
            stroke_color.blue() as u32,
            stroke_color.alpha() as u32,
        );
        value_from_pdfium(ok, ())
    }

    fn stroke_width(&self) -> (r: Result<PdfPoints, PdfiumError>) {
        let mut width = PdfPoints::zero();
        let ok = self.bindings().FPDFPageObj_GetStrokeWidth(self.get_object_handle(), &mut width);
        value_from_pdfium(ok, width)
    }

    fn set_stroke_width(&mut self, stroke_width: PdfPoints) -> (r: Result<(), PdfiumError>) {
        let ok = self.bindings().FPDFPageObj_SetStrokeWidth(self.get_object_handle(), stroke_width);
        value_from_pdfium(ok, ())
    }

    fn line_join(&self) -> (r: Result<PdfPageObjectLineJoin, PdfiumError>) {
        let code = self.bindings().FPDFPageObj_GetLineJoin(self.get_object_handle());
        let r = match PdfPageObjectLineJoin::from_pdfium(code) {
            Some(join) => Ok(join),
            None => Err(PdfiumError::UnknownPdfPageObjectLineJoin(code)),
        };
        assert(r == line_join_outcome(code));
        r
    }

    fn set_line_join(&mut self, line_join: PdfPageObjectLineJoin) -> (r: Result<(), PdfiumError>) {
        let ok = self.bindings().FPDFPageObj_SetLineJoin(
            self.get_object_handle(),
            line_join.as_pdfium() as i32,
        );
        value_from_pdfium(ok, ())
    }

    fn line_cap(&self) -> (r: Result<PdfPageObjectLineCap, PdfiumError>) {
        let code = self.bindings().FPDFPageObj_GetLineCap(self.get_object_handle());
        let r = match PdfPageObjectLineCap::from_pdfium(code) {
            Some(cap) => Ok(cap),
            None => Err(PdfiumError::UnknownPdfPageObjectLineCap(code)),
        };
        assert(r == line_cap_outcome(code));
        r
    }

    fn set_line_cap(&mut self, line_cap: PdfPageObjectLineCap) -> (r: Result<(), PdfiumError>) {
        let ok = self.bindings().FPDFPageObj_SetLineCap(
            self.get_object_handle(),
            line_cap.as_pdfium() as i32,
        );
        value_from_pdfium(ok, ())
    }

    fn is_copyable(&self) -> (r: bool) {
        match self {
            PdfPageObject::Path(_) => path_is_copyable(&self.read_path_segments()),
            PdfPageObject::Image(_) => image_is_copyable(
                self.bindings().FPDFImageObj_GetImageFilterCount(self.get_object_handle()),
            ),
            _ => false,
        }
    }

    fn try_copy<'b>(&self, document: &PdfDocument<'b>) -> (r: Result<PdfPageObject<'b>, PdfiumError>) {
        match self {
            PdfPageObject::Path(_) => self.try_copy_path(document),
            PdfPageObject::Image(_) => self.try_copy_image(document),
            _ => Err(PdfiumError::UnsupportedPdfPageObjectType),
        }
    }
}

impl<'a> From<PdfPageTextObject<'a>> for PdfPageObject<'a> {
    fn from(object: PdfPageTextObject<'a>) -> (r: Self) {
        PdfPageObject::Text(object)
    }
}

impl<'a> vstd::std_specs::convert::FromSpecImpl<PdfPageTextObject<'a>> for PdfPageObject<'a> {
    open spec fn obeys_from_spec() -> bool {
        true
    }

    open spec fn from_spec(object: PdfPageTextObject<'a>) -> Self {
        PdfPageObject::Text(object)
    }
}

impl<'a> From<PdfPagePathObject<'a>> for PdfPageObject<'a> {
    fn from(object: PdfPagePathObject<'a>) -> (r: Self) {
        PdfPageObject::Path(object)
    }
}

impl<'a> vstd::std_specs::convert::FromSpecImpl<PdfPagePathObject<'a>> for PdfPageObject<'a> {
    open spec fn obeys_from_spec() -> bool {
        true
    }

    open spec fn from_spec(object: PdfPagePathObject<'a>) -> Self {
        PdfPageObject::Path(object)
    }
}

impl<'a> From<PdfPageImageObject<'a>> for PdfPageObject<'a> {
    fn from(object: PdfPageImageObject<'a>) -> (r: Self) {
        PdfPageObject::Image(object)
    }
}

impl<'a> vstd::std_specs::convert::FromSpecImpl<PdfPageImageObject<'a>> for PdfPageObject<'a> {
    open spec fn obeys_from_spec() -> bool {
        true
    }

    open spec fn from_spec(object: PdfPageImageObject<'a>) -> Self {
        PdfPageObject::Image(object)
    }
}

impl<'a> From<PdfPageShadingObject<'a>> for PdfPageObject<'a> {
    fn from(object: PdfPageShadingObject<'a>) -> (r: Self) {
        PdfPageObject::Shading(object)
    }
}

impl<'a> vstd::std_specs::convert::FromSpecImpl<PdfPageShadingObject<'a>> for PdfPageObject<'a> {
    open spec fn obeys_from_spec() -> bool {
        true
    }

    open spec fn from_spec(object: PdfPageShadingObject<'a>) -> Self {
        PdfPageObject::Shading(object)
    }
}

impl<'a> From<PdfPageFormFragmentObject<'a>> for PdfPageObject<'a> {
    fn from(object: PdfPageFormFragmentObject<'a>) -> (r: Self) {
        PdfPageObject::FormFragment(object)
    }
}

impl<'a> vstd::std_specs::convert::FromSpecImpl<PdfPageFormFragmentObject<'a>> for PdfPageObject<'a> {
    open spec fn obeys_from_spec() -> bool {
        true
    }

    open spec fn from_spec(object: PdfPageFormFragmentObject<'a>) -> Self {
        PdfPageObject::FormFragment(object)
    }
}

impl<'a> From<PdfPageUnsupportedObject<'a>> for PdfPageObject<'a> {
    fn from(object: PdfPageUnsupportedObject<'a>) -> (r: Self) {
        PdfPageObject::Unsupported(object)
    }
}

impl<'a> vstd::std_specs::convert::FromSpecImpl<PdfPageUnsupportedObject<'a>> for PdfPageObject<'a> {
    open spec fn obeys_from_spec() -> bool {
        true
    }

    open spec fn from_spec(object: PdfPageUnsupportedObject<'a>) -> Self {
        PdfPageObject::Unsupported(object)
    }
}

impl<'a> Drop for PdfPageObject<'a> {
    /// Releases the native object exactly when no container manages its memory.
    fn drop(&mut self)
        opens_invariants none
        no_unwind
    {
        self.release_native_handle();
    }
}

} // verus!
