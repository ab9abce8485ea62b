//! Colors as four independent eight-bit channels.
use vstd::prelude::*;

use crate::bindings::FPDF_BOOL;
use crate::error::PdfiumError;

verus! {

/// A color with red, green, blue and alpha channels.
#[derive(Debug, Copy, Clone, PartialEq, Eq, Structural)]
pub struct PdfColor {
    pub r: u8,
    pub g: u8,
    pub b: u8,
    pub a: u8,
}

impl PdfColor {
    pub fn new(r: u8, g: u8, b: u8, a: u8) -> (c: PdfColor)
        ensures
            c == (PdfColor { r, g, b, a }),
    {
        PdfColor { r, g, b, a }
    }

    pub fn red(&self) -> (v: u8)
        ensures
            v == self.r,
    {
        self.r
    }

    pub fn green(&self) -> (v: u8)
        ensures
            v == self.g,
    {
        self.g
    }

    pub fn blue(&self) -> (v: u8)
        ensures
            v == self.b,
    {
        self.b
    }

    pub fn alpha(&self) -> (v: u8)
        ensures
            v == self.a,
    {
        self.a
    }
}

/// The color that a native color query reports: the call's success flag and the four channel
/// values it wrote, checked in the order red, green, blue, alpha.
pub open spec fn color_outcome(ok: FPDF_BOOL, r: u32, g: u32, b: u32, a: u32) -> Result<PdfColor, PdfiumError> {
    if ok == 0 {
        Err(PdfiumError::PdfiumFunctionReturnValueIndicatedFailure)
    } else if r > 255 {
        Err(PdfiumError::UnableToConvertPdfiumColorValueToRustu8(r))
    } else if g > 255 {
        Err(PdfiumError::UnableToConvertPdfiumColorValueToRustu8(g))
    } else if b > 255 {
        Err(PdfiumError::UnableToConvertPdfiumColorValueToRustu8(b))
    } else if a > 255 {
        Err(PdfiumError::UnableToConvertPdfiumColorValueToRustu8(a))
    } else {
        Ok(PdfColor { r: r as u8, g: g as u8, b: b as u8, a: a as u8 })
    }
}

/// Converts the result of a native color query.
pub fn color_from_pdfium(ok: FPDF_BOOL, r: u32, g: u32, b: u32, a: u32) -> (c: Result<PdfColor, PdfiumError>)
    ensures
        c == color_outcome(ok, r, g, b, a),
{
    if ok == 0 {
        Err(PdfiumError::PdfiumFunctionReturnValueIndicatedFailure)
    } else if r > 255 {
        Err(PdfiumError::UnableToConvertPdfiumColorValueToRustu8(r))
    } else if g > 255 {
        Err(PdfiumError::UnableToConvertPdfiumColorValueToRustu8(g))
    } else if b > 255 {
        Err(PdfiumError::UnableToConvertPdfiumColorValueToRustu8(b))
    } else if a > 255 {
        Err(PdfiumError::UnableToConvertPdfiumColorValueToRustu8(a))
    } else {
        Ok(PdfColor::new(r as u8, g as u8, b as u8, a as u8))
    }
}

/// Setting a color hands the native library each channel widened to 32 bits; reading those
/// four values back, from a call that reports success, gives the same color.
pub proof fn lemma_color_round_trip(c: PdfColor)
    ensures
        color_outcome(1, c.r as u32, c.g as u32, c.b as u32, c.a as u32) == Ok::<PdfColor, PdfiumError>(c),
{
}

} // verus!
