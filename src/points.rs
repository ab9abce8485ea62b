//! Lengths, rectangles and affine matrices as the native library exchanges them.
//!
//! The native library works in single-precision floating point. This crate never computes
//! with those values: it carries each one as its IEEE-754 bit pattern, unchanged.
use vstd::prelude::*;

verus! {

/// A length in points (1/72 inch), held as the bit pattern of a single-precision float.
#[derive(Debug, Copy, Clone, PartialEq, Eq, Structural)]
pub struct PdfPoints {
    pub bits: u32,
}

impl PdfPoints {
    /// The length whose single-precision bit pattern is `bits`.
    pub fn from_bits(bits: u32) -> (r: PdfPoints)
        ensures
            r.bits == bits,
    {
        PdfPoints { bits }
    }

    /// The single-precision bit pattern of this length.
    pub fn to_bits(&self) -> (r: u32)
        ensures
            r == self.bits,
    {
        self.bits
    }

    /// A length of zero points (positive zero).
    pub fn zero() -> (r: PdfPoints)
        ensures
            r.bits == 0,
    {
        PdfPoints { bits: 0 }
    }
}

/// An axis-aligned rectangle in page coordinates.
#[derive(Debug, Copy, Clone, PartialEq, Eq, Structural)]
pub struct PdfRect {
    pub bottom: PdfPoints,
    pub left: PdfPoints,
    pub top: PdfPoints,
    pub right: PdfPoints,
}

/// A 2D affine transformation `[a b c d e f]`, each coefficient held as the bit pattern of a
/// single-precision float.
#[derive(Debug, Copy, Clone, PartialEq, Eq, Structural)]
pub struct PdfMatrix {
    pub a: u32,
    pub b: u32,
    pub c: u32,
    pub d: u32,
    pub e: u32,
    pub f: u32,
}

impl PdfMatrix {
    /// The matrix with the six given coefficient bit patterns.
    pub fn new(a: u32, b: u32, c: u32, d: u32, e: u32, f: u32) -> (r: PdfMatrix)
        ensures
            r == (PdfMatrix { a, b, c, d, e, f }),
    {
        PdfMatrix { a, b, c, d, e, f }
    }

    /// The matrix whose six coefficients are all positive zero.
    pub fn zero() -> (r: PdfMatrix)
        ensures
            r == (PdfMatrix { a: 0, b: 0, c: 0, d: 0, e: 0, f: 0 }),
    {
        PdfMatrix { a: 0, b: 0, c: 0, d: 0, e: 0, f: 0 }
    }
}

} // verus!
