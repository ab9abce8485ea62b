//! Errors surfaced by the page-object and glyph wrappers.
use vstd::prelude::*;

use crate::bindings::{
    FPDF_BOOL, FPDF_ERR_FILE, FPDF_ERR_FORMAT, FPDF_ERR_PAGE, FPDF_ERR_PASSWORD, FPDF_ERR_SECURITY,
    FPDF_ERR_SUCCESS,
};

verus! {

/// A diagnosable failure code reported by the native library for its last operation.
#[derive(Debug, Copy, Clone, PartialEq, Eq, Structural)]
pub enum PdfiumInternalError {
    Unknown,
    FileError,
    FormatError,
    PasswordError,
    SecurityError,
    PageError,
}

/// The failures that operations of this crate report to their callers.
#[derive(Debug, Copy, Clone, PartialEq, Eq, Structural)]
pub enum PdfiumError {
    /// The native library reported a specific internal error for the last operation.
    PdfiumLibraryInternalError(PdfiumInternalError),
    /// A native call returned its failure indicator.
    PdfiumFunctionReturnValueIndicatedFailure,
    /// A color channel returned by the native library does not fit in eight bits.
    UnableToConvertPdfiumColorValueToRustu8(u32),
    /// A native page object type code is not one of the known kinds.
    UnknownPdfPageObjectType,
    /// A native line join code is not one of the known line joins.
    UnknownPdfPageObjectLineJoin(i32),
    /// A native line cap code is not one of the known line caps.
    UnknownPdfPageObjectLineCap(i32),
    /// A path object holds a Bezier segment, whose control points cannot be read back.
    PathObjectBezierControlPointsNotCopyable,
    /// An image object has image filters applied, which cannot be set on a new object.
    ImageObjectFiltersNotCopyable,
    /// Objects of this kind cannot be created anew, so they cannot be copied.
    UnsupportedPdfPageObjectType,
    /// The object is not held by a page.
    OwnershipNotAttachedToPage,
    /// The object is not held by an annotation.
    OwnershipNotAttachedToAnnotation,
}

/// The internal error that a native last-error code stands for; `None` for success.
pub open spec fn internal_error_of(code: u32) -> Option<PdfiumInternalError> {
    if code == FPDF_ERR_SUCCESS {
        None
    } else if code == FPDF_ERR_FILE {
        Some(PdfiumInternalError::FileError)
    } else if code == FPDF_ERR_FORMAT {
        Some(PdfiumInternalError::FormatError)
    } else if code == FPDF_ERR_PASSWORD {
        Some(PdfiumInternalError::PasswordError)
    } else if code == FPDF_ERR_SECURITY {
        Some(PdfiumInternalError::SecurityError)
    } else if code == FPDF_ERR_PAGE {
        Some(PdfiumInternalError::PageError)
    } else {
        Some(PdfiumInternalError::Unknown)
    }
}

/// The error for a native call that returned a null handle, given the last-error state.
pub open spec fn null_result_error(last_error: Option<PdfiumInternalError>) -> PdfiumError {
    match last_error {
        Some(e) => PdfiumError::PdfiumLibraryInternalError(e),
        None => PdfiumError::PdfiumLibraryInternalError(PdfiumInternalError::Unknown),
    }
}

/// The outcome of a call that signals failure only through the last-error state.
pub open spec fn last_error_outcome(last_error: Option<PdfiumInternalError>) -> Result<(), PdfiumError> {
    match last_error {
        Some(e) => Err(PdfiumError::PdfiumLibraryInternalError(e)),
        None => Ok(()),
    }
}

/// The outcome of a native call that reports success through its return value and, on
/// success, has written `value`.
pub open spec fn value_outcome<T>(ok: FPDF_BOOL, value: T) -> Result<T, PdfiumError> {
    if ok != 0 {
        Ok(value)
    } else {
        Err(PdfiumError::PdfiumFunctionReturnValueIndicatedFailure)
    }
}

/// Converts the result of a native call that reports success through its return value and,
/// on success, has written `value`.
pub fn value_from_pdfium<T>(ok: FPDF_BOOL, value: T) -> (r: Result<T, PdfiumError>)
    ensures
        r == value_outcome(ok, value),
{
    if ok != 0 {
        Ok(value)
    } else {
        Err(PdfiumError::PdfiumFunctionReturnValueIndicatedFailure)
    }
}

impl PdfiumInternalError {
    /// Translates a native last-error code.
    pub fn from_pdfium(code: u32) -> (r: Option<PdfiumInternalError>)
        ensures
            r == internal_error_of(code),
    {
        if code == FPDF_ERR_SUCCESS {
            None
        } else if code == FPDF_ERR_FILE {
            Some(PdfiumInternalError::FileError)
        } else if code == FPDF_ERR_FORMAT {
            Some(PdfiumInternalError::FormatError)
        } else if code == FPDF_ERR_PASSWORD {
            Some(PdfiumInternalError::PasswordError)
        } else if code == FPDF_ERR_SECURITY {
            Some(PdfiumInternalError::SecurityError)
        } else if code == FPDF_ERR_PAGE {
            Some(PdfiumInternalError::PageError)
        } else {
            Some(PdfiumInternalError::Unknown)
        }
    }
}

impl PdfiumError {
    /// The error for a native call that returned a null handle. Without a last error the
    /// situation is inconsistent, and it is reported as an unknown internal error.
    pub fn for_null_result(last_error: Option<PdfiumInternalError>) -> (r: PdfiumError)
        ensures
            r == null_result_error(last_error),
    {
        match last_error {
            Some(e) => PdfiumError::PdfiumLibraryInternalError(e),
            None => PdfiumError::PdfiumLibraryInternalError(PdfiumInternalError::Unknown),
        }
    }

    /// The outcome of a call whose only failure signal is the last-error state.
    pub fn from_last_error(last_error: Option<PdfiumInternalError>) -> (r: Result<(), PdfiumError>)
        ensures
            r == last_error_outcome(last_error),
    {
        match last_error {
            Some(e) => Err(PdfiumError::PdfiumLibraryInternalError(e)),
            None => Ok(()),
        }
    }
}

} // verus!
