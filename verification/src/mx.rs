//! What the dispatcher reads of a MATLAB array argument.
//!
//! The MATLAB C API hands the entry point opaque `mxArray` pointers.  The
//! caller of this library reads each argument once through that API and
//! records the handful of plain facts that the argument checks look at in an
//! [`MxArg`]; everything the checks decide is then decided here, on values.

use vstd::prelude::*;

verus! {

/// The opaque array type of the MATLAB C API; only ever handled by pointer.
#[derive(Debug, Copy, Clone)]
pub struct mxArray_tag {
    _unused: [u8; 0],
}

/// `mxLOGICAL_CLASS` of the MATLAB C API.
pub const LOGICAL_CLASS: i32 = 3;

/// `mxCHAR_CLASS` of the MATLAB C API.
pub const CHAR_CLASS: i32 = 4;

/// `mxDOUBLE_CLASS` of the MATLAB C API.
pub const DOUBLE_CLASS: i32 = 6;

/// `mxSINGLE_CLASS` of the MATLAB C API.
pub const SINGLE_CLASS: i32 = 7;

/// `mxINT8_CLASS` of the MATLAB C API.
pub const INT8_CLASS: i32 = 8;

/// `mxUINT8_CLASS` of the MATLAB C API.
pub const UINT8_CLASS: i32 = 9;

/// `mxINT16_CLASS` of the MATLAB C API.
pub const INT16_CLASS: i32 = 10;

/// `mxUINT16_CLASS` of the MATLAB C API.
pub const UINT16_CLASS: i32 = 11;

/// `mxINT32_CLASS` of the MATLAB C API.
pub const INT32_CLASS: i32 = 12;

/// `mxUINT32_CLASS` of the MATLAB C API.
pub const UINT32_CLASS: i32 = 13;

/// `mxINT64_CLASS` of the MATLAB C API.
pub const INT64_CLASS: i32 = 14;

/// `mxUINT64_CLASS` of the MATLAB C API.
pub const UINT64_CLASS: i32 = 15;

/// The facts about one input argument that the argument checks read.
///
/// * `class_id`: what `mxGetClassID` reports;
/// * `complex`: what `mxIsComplex` reports;
/// * `elements`: what `mxGetNumberOfElements` reports;
/// * `address`, `tag`: the two words of a Strobe object handle (a 1x2
///   `uint64` array holding the object's address and its kind); zero unless
///   the argument is a `uint64` array of two elements;
/// * `truncated`: for a double array, its first element converted to `i32`
///   with Rust's `as` (towards zero, saturating); zero for other arguments;
/// * `negative_single`: for a double array, whether its first element,
///   converted to `f32`, is below zero; `false` for other arguments.
#[derive(Debug, Copy, Clone)]
pub struct MxArg {
    pub class_id: i32,
    pub complex: bool,
    pub elements: usize,
    pub address: u64,
    pub tag: u64,
    pub truncated: i32,
    pub negative_single: bool,
}

impl MxArg {
    /// A real double scalar: what the original checks with `mxIsDouble`,
    /// `!mxIsComplex` and one element.
    pub open spec fn real_scalar(self) -> bool {
        self.class_id == DOUBLE_CLASS && !self.complex && self.elements == 1
    }

    /// A real `uint32` scalar (a key or mouse button code).
    pub open spec fn key_code(self) -> bool {
        self.class_id == UINT32_CLASS && !self.complex && self.elements == 1
    }

    /// A real `uint64` array of two elements: the shape of an object handle.
    pub open spec fn handle_array(self) -> bool {
        self.class_id == UINT64_CLASS && !self.complex && self.elements == 2
    }

    /// A logical scalar (`mxIsLogicalScalar`).
    pub open spec fn logical_scalar(self) -> bool {
        self.class_id == LOGICAL_CLASS && self.elements == 1
    }

    /// A character array (`mxIsChar`).
    pub open spec fn text(self) -> bool {
        self.class_id == CHAR_CLASS
    }

    pub fn is_real_scalar(&self) -> (r: bool)
        ensures
            r == self.real_scalar(),
    {
        self.class_id == DOUBLE_CLASS && !self.complex && self.elements == 1
    }

    pub fn is_key_code(&self) -> (r: bool)
        ensures
            r == self.key_code(),
    {
        self.class_id == UINT32_CLASS && !self.complex && self.elements == 1
    }

    pub fn is_handle_array(&self) -> (r: bool)
        ensures
            r == self.handle_array(),
    {
        self.class_id == UINT64_CLASS && !self.complex && self.elements == 2
    }

    pub fn is_logical_scalar(&self) -> (r: bool)
        ensures
            r == self.logical_scalar(),
    {
        self.class_id == LOGICAL_CLASS && self.elements == 1
    }

    pub fn is_text(&self) -> (r: bool)
        ensures
            r == self.text(),
    {
        self.class_id == CHAR_CLASS
    }
}

} // verus!
