//! The shape-only payloads frame validation errors carry: the offending number and the reference
//! number, each with a constructor, one getter per field, and a rendering that names them.
use vstd::prelude::*;
use crate::text::{decimal, push_decimal};

verus! {

/// `width × height` carried by zero-dimension errors.
#[derive(Debug, Clone, Copy, PartialEq, Eq, Hash, Structural)]
pub struct ZeroDimension {
    width: u32,
    height: u32,
}

impl ZeroDimension {
    /// Two values are equal exactly when their fields are.
    pub proof fn lemma_fields_decide(a: Self, b: Self)
        ensures
            (a == b) <==> (a.spec_width() == b.spec_width() && a.spec_height() == b.spec_height()),
    {
    }

    /// The payload's `width`.
    pub closed spec fn spec_width(self) -> u32 {
        self.width
    }

    /// The payload's `height`.
    pub closed spec fn spec_height(self) -> u32 {
        self.height
    }

    /// Constructs a `ZeroDimension` payload.
    pub fn new(width: u32, height: u32) -> (r: Self)
        ensures
            r.spec_width() == width,
            r.spec_height() == height,
    {
        ZeroDimension { width, height }
    }

    /// Returns the supplied width.
    pub fn width(&self) -> (r: u32)
        ensures
            r == self.spec_width(),
    {
        self.width
    }

    /// Returns the supplied height.
    pub fn height(&self) -> (r: u32)
        ensures
            r == self.spec_height(),
    {
        self.height
    }

    /// The rendering: `width ({width}) or height ({height}) is zero`.
    pub open spec fn spec_text(self) -> Seq<char> {
        "width ("@ + decimal(self.spec_width() as nat) + ") or height ("@ + decimal(self.spec_height() as nat) + ") is zero"@
    }

    /// The rendering: `width ({width}) or height ({height}) is zero`.
    pub fn to_string(&self) -> (r: String)
        ensures
            r@ == self.spec_text(),
    {
        let mut out = String::new();
        out.append("width (");
        push_decimal(&mut out, self.width as u64);
        out.append(") or height (");
        push_decimal(&mut out, self.height as u64);
        out.append(") is zero");
        assert(out@ =~= self.spec_text());
        out
    }
}

/// `width × height` carried by dimension-overflow errors.
#[derive(Debug, Clone, Copy, PartialEq, Eq, Hash, Structural)]
pub struct DimensionOverflow {
    width: u32,
    height: u32,
}

impl DimensionOverflow {
    /// Two values are equal exactly when their fields are.
    pub proof fn lemma_fields_decide(a: Self, b: Self)
        ensures
            (a == b) <==> (a.spec_width() == b.spec_width() && a.spec_height() == b.spec_height()),
    {
    }

    /// The payload's `width`.
    pub closed spec fn spec_width(self) -> u32 {
        self.width
    }

    /// The payload's `height`.
    pub closed spec fn spec_height(self) -> u32 {
        self.height
    }

    /// Constructs a `DimensionOverflow` payload.
    pub fn new(width: u32, height: u32) -> (r: Self)
        ensures
            r.spec_width() == width,
            r.spec_height() == height,
    {
        DimensionOverflow { width, height }
    }

    /// Returns the supplied width.
    pub fn width(&self) -> (r: u32)
        ensures
            r == self.spec_width(),
    {
        self.width
    }

    /// Returns the supplied height.
    pub fn height(&self) -> (r: u32)
        ensures
            r == self.spec_height(),
    {
        self.height
    }

    /// The rendering: `dimensions {width} × {height} overflow`.
    pub open spec fn spec_text(self) -> Seq<char> {
        "dimensions "@ + decimal(self.spec_width() as nat) + " × "@ + decimal(self.spec_height() as nat) + " overflow"@
    }

    /// The rendering: `dimensions {width} × {height} overflow`.
    pub fn to_string(&self) -> (r: String)
        ensures
            r@ == self.spec_text(),
    {
        let mut out = String::new();
        out.append("dimensions ");
        push_decimal(&mut out, self.width as u64);
        out.append(" × ");
        push_decimal(&mut out, self.height as u64);
        out.append(" overflow");
        assert(out@ =~= self.spec_text());
        out
    }
}

/// A plane stride smaller than the declared geometry requires.
#[derive(Debug, Clone, Copy, PartialEq, Eq, Hash, Structural)]
pub struct InsufficientStride {
    stride: u32,
    min: u32,
}

impl InsufficientStride {
    /// Two values are equal exactly when their fields are.
    pub proof fn lemma_fields_decide(a: Self, b: Self)
        ensures
            (a == b) <==> (a.spec_stride() == b.spec_stride() && a.spec_min() == b.spec_min()),
    {
    }

    /// The payload's `stride`.
    pub closed spec fn spec_stride(self) -> u32 {
        self.stride
    }

    /// The payload's `min`.
    pub closed spec fn spec_min(self) -> u32 {
        self.min
    }

    /// Constructs a `InsufficientStride` payload.
    pub fn new(stride: u32, min: u32) -> (r: Self)
        ensures
            r.spec_stride() == stride,
            r.spec_min() == min,
    {
        InsufficientStride { stride, min }
    }

    /// Returns the caller-supplied stride.
    pub fn stride(&self) -> (r: u32)
        ensures
            r == self.spec_stride(),
    {
        self.stride
    }

    /// Returns the required minimum.
    pub fn min(&self) -> (r: u32)
        ensures
            r == self.spec_min(),
    {
        self.min
    }

    /// The rendering: `stride ({stride}) is smaller than minimum ({min})`.
    pub open spec fn spec_text(self) -> Seq<char> {
        "stride ("@ + decimal(self.spec_stride() as nat) + ") is smaller than minimum ("@ + decimal(self.spec_min() as nat) + ")"@
    }

    /// The rendering: `stride ({stride}) is smaller than minimum ({min})`.
    pub fn to_string(&self) -> (r: String)
        ensures
            r@ == self.spec_text(),
    {
        let mut out = String::new();
        out.append("stride (");
        push_decimal(&mut out, self.stride as u64);
        out.append(") is smaller than minimum (");
        push_decimal(&mut out, self.min as u64);
        out.append(")");
        assert(out@ =~= self.spec_text());
        out
    }
}

/// A plane buffer shorter than the declared geometry requires.
#[derive(Debug, Clone, Copy, PartialEq, Eq, Hash, Structural)]
pub struct InsufficientPlane {
    expected: usize,
    actual: usize,
}

impl InsufficientPlane {
    /// Two values are equal exactly when their fields are.
    pub proof fn lemma_fields_decide(a: Self, b: Self)
        ensures
            (a == b) <==> (a.spec_expected() == b.spec_expected() && a.spec_actual() == b.spec_actual()),
    {
    }

    /// The payload's `expected`.
    pub closed spec fn spec_expected(self) -> usize {
        self.expected
    }

    /// The payload's `actual`.
    pub closed spec fn spec_actual(self) -> usize {
        self.actual
    }

    /// Constructs a `InsufficientPlane` payload.
    pub fn new(expected: usize, actual: usize) -> (r: Self)
        ensures
            r.spec_expected() == expected,
            r.spec_actual() == actual,
    {
        InsufficientPlane { expected, actual }
    }

    /// Returns the minimum required length.
    pub fn expected(&self) -> (r: usize)
        ensures
            r == self.spec_expected(),
    {
        self.expected
    }

    /// Returns the actual length supplied.
    pub fn actual(&self) -> (r: usize)
        ensures
            r == self.spec_actual(),
    {
        self.actual
    }

    /// The rendering: `plane has {actual} bytes/samples but at least {expected} are required`.
    pub open spec fn spec_text(self) -> Seq<char> {
        "plane has "@ + decimal(self.spec_actual() as nat) + " bytes/samples but at least "@ + decimal(self.spec_expected() as nat) + " are required"@
    }

    /// The rendering: `plane has {actual} bytes/samples but at least {expected} are required`.
    pub fn to_string(&self) -> (r: String)
        ensures
            r@ == self.spec_text(),
    {
        let mut out = String::new();
        out.append("plane has ");
        push_decimal(&mut out, self.actual as u64);
        out.append(" bytes/samples but at least ");
        push_decimal(&mut out, self.expected as u64);
        out.append(" are required");
        assert(out@ =~= self.spec_text());
        out
    }
}

/// Declared geometry (`stride × rows`) that does not fit in `usize`.
#[derive(Debug, Clone, Copy, PartialEq, Eq, Hash, Structural)]
pub struct GeometryOverflow {
    stride: u32,
    rows: u32,
}

impl GeometryOverflow {
    /// Two values are equal exactly when their fields are.
    pub proof fn lemma_fields_decide(a: Self, b: Self)
        ensures
            (a == b) <==> (a.spec_stride() == b.spec_stride() && a.spec_rows() == b.spec_rows()),
    {
    }

    /// The payload's `stride`.
    pub closed spec fn spec_stride(self) -> u32 {
        self.stride
    }

    /// The payload's `rows`.
    pub closed spec fn spec_rows(self) -> u32 {
        self.rows
    }

    /// Constructs a `GeometryOverflow` payload.
    pub fn new(stride: u32, rows: u32) -> (r: Self)
        ensures
            r.spec_stride() == stride,
            r.spec_rows() == rows,
    {
        GeometryOverflow { stride, rows }
    }

    /// Returns the stride that overflowed.
    pub fn stride(&self) -> (r: u32)
        ensures
            r == self.spec_stride(),
    {
        self.stride
    }

    /// Returns the row count that overflowed.
    pub fn rows(&self) -> (r: u32)
        ensures
            r == self.spec_rows(),
    {
        self.rows
    }

    /// The rendering: `declared geometry overflows usize: stride={stride} * rows={rows}`.
    pub open spec fn spec_text(self) -> Seq<char> {
        "declared geometry overflows usize: stride="@ + decimal(self.spec_stride() as nat) + " * rows="@ + decimal(self.spec_rows() as nat)
    }

    /// The rendering: `declared geometry overflows usize: stride={stride} * rows={rows}`.
    pub fn to_string(&self) -> (r: String)
        ensures
            r@ == self.spec_text(),
    {
        let mut out = String::new();
        out.append("declared geometry overflows usize: stride=");
        push_decimal(&mut out, self.stride as u64);
        out.append(" * rows=");
        push_decimal(&mut out, self.rows as u64);
        assert(out@ =~= self.spec_text());
        out
    }
}

/// The frame width carried by per-row width-overflow errors.
#[derive(Debug, Clone, Copy, PartialEq, Eq, Hash, Structural)]
pub struct WidthOverflow {
    width: u32,
}

impl WidthOverflow {
    /// Two values are equal exactly when their fields are.
    pub proof fn lemma_fields_decide(a: Self, b: Self)
        ensures
            (a == b) <==> (a.spec_width() == b.spec_width()),
    {
    }

    /// The payload's `width`.
    pub closed spec fn spec_width(self) -> u32 {
        self.width
    }

    /// Constructs a `WidthOverflow` payload.
    pub fn new(width: u32) -> (r: Self)
        ensures
            r.spec_width() == width,
    {
        WidthOverflow { width }
    }

    /// Returns the supplied width.
    pub fn width(&self) -> (r: u32)
        ensures
            r == self.spec_width(),
    {
        self.width
    }

    /// The rendering: `width ({width}) overflow`.
    pub open spec fn spec_text(self) -> Seq<char> {
        "width ("@ + decimal(self.spec_width() as nat) + ") overflow"@
    }

    /// The rendering: `width ({width}) overflow`.
    pub fn to_string(&self) -> (r: String)
        ensures
            r@ == self.spec_text(),
    {
        let mut out = String::new();
        out.append("width (");
        push_decimal(&mut out, self.width as u64);
        out.append(") overflow");
        assert(out@ =~= self.spec_text());
        out
    }
}

/// The bit depth carried by unsupported-bits errors.
#[derive(Debug, Clone, Copy, PartialEq, Eq, Hash, Structural)]
pub struct UnsupportedBits {
    bits: u32,
}

impl UnsupportedBits {
    /// Two values are equal exactly when their fields are.
    pub proof fn lemma_fields_decide(a: Self, b: Self)
        ensures
            (a == b) <==> (a.spec_bits() == b.spec_bits()),
    {
    }

    /// The payload's `bits`.
    pub closed spec fn spec_bits(self) -> u32 {
        self.bits
    }

    /// Constructs a `UnsupportedBits` payload.
    pub fn new(bits: u32) -> (r: Self)
        ensures
            r.spec_bits() == bits,
    {
        UnsupportedBits { bits }
    }

    /// Returns the supplied bit depth.
    pub fn bits(&self) -> (r: u32)
        ensures
            r == self.spec_bits(),
    {
        self.bits
    }

    /// The rendering: `unsupported BITS ({bits})`.
    pub open spec fn spec_text(self) -> Seq<char> {
        "unsupported BITS ("@ + decimal(self.spec_bits() as nat) + ")"@
    }

    /// The rendering: `unsupported BITS ({bits})`.
    pub fn to_string(&self) -> (r: String)
        ensures
            r@ == self.spec_text(),
    {
        let mut out = String::new();
        out.append("unsupported BITS (");
        push_decimal(&mut out, self.bits as u64);
        out.append(")");
        assert(out@ =~= self.spec_text());
        out
    }
}

/// Which width-alignment rule was violated.
#[derive(Debug, Clone, Copy, PartialEq, Eq, Hash, Structural)]
pub enum WidthAlignmentRequirement {
    /// Width must be even — the 4:2:0 / 4:2:2 chroma-pair stride.
    Even,
    /// Width must be a multiple of 4 — planar 4:1:0 and packed 4:1:1.
    MultipleOfFour,
}

impl WidthAlignmentRequirement {
    /// The words the rendering uses for this rule.
    pub open spec fn spec_text(self) -> Seq<char> {
        match self {
            WidthAlignmentRequirement::Even => "is odd"@,
            WidthAlignmentRequirement::MultipleOfFour => "is not a multiple of 4"@,
        }
    }

    /// The words the rendering uses for this rule: `is odd` or `is not a multiple of 4`.
    pub fn to_string(&self) -> (r: String)
        ensures
            r@ == self.spec_text(),
    {
        match self {
            WidthAlignmentRequirement::Even => String::from_str("is odd"),
            WidthAlignmentRequirement::MultipleOfFour => String::from_str("is not a multiple of 4"),
        }
    }

    /// Is this [`Self::Even`]?
    pub fn is_even(&self) -> (r: bool)
        ensures
            r == (*self == WidthAlignmentRequirement::Even),
    {
        matches!(self, WidthAlignmentRequirement::Even)
    }

    /// Is this [`Self::MultipleOfFour`]?
    pub fn is_multiple_of_four(&self) -> (r: bool)
        ensures
            r == (*self == WidthAlignmentRequirement::MultipleOfFour),
    {
        matches!(self, WidthAlignmentRequirement::MultipleOfFour)
    }
}

/// A width-alignment violation: the configured width and the rule it broke.
#[derive(Debug, Clone, Copy, PartialEq, Eq, Hash, Structural)]
pub struct WidthAlignment {
    width: usize,
    required: WidthAlignmentRequirement,
}

impl WidthAlignment {
    /// Two values are equal exactly when their fields are.
    pub proof fn lemma_fields_decide(a: Self, b: Self)
        ensures
            (a == b) <==> (a.spec_width() == b.spec_width() && a.spec_required() == b.spec_required()),
    {
    }

    /// The configured width.
    pub closed spec fn spec_width(self) -> usize {
        self.width
    }

    /// The rule that was violated.
    pub closed spec fn spec_required(self) -> WidthAlignmentRequirement {
        self.required
    }

    fn new(width: usize, required: WidthAlignmentRequirement) -> (r: Self)
        ensures
            r.spec_width() == width,
            r.spec_required() == required,
    {
        WidthAlignment { width, required }
    }

    /// The payload for an odd width.
    pub fn odd(width: usize) -> (r: Self)
        ensures
            r.spec_width() == width,
            r.spec_required() == WidthAlignmentRequirement::Even,
    {
        WidthAlignment::new(width, WidthAlignmentRequirement::Even)
    }

    /// The payload for a width that is not a multiple of four.
    pub fn multiple_of_four(width: usize) -> (r: Self)
        ensures
            r.spec_width() == width,
            r.spec_required() == WidthAlignmentRequirement::MultipleOfFour,
    {
        WidthAlignment::new(width, WidthAlignmentRequirement::MultipleOfFour)
    }

    /// The configured width.
    pub fn width(&self) -> (r: usize)
        ensures
            r == self.spec_width(),
    {
        self.width
    }

    /// The rule that was violated.
    pub fn required(&self) -> (r: WidthAlignmentRequirement)
        ensures
            r == self.spec_required(),
    {
        self.required
    }

    /// The rendering: `width (<width>) <rule>`.
    pub open spec fn spec_text(self) -> Seq<char> {
        "width ("@ + decimal(self.spec_width() as nat) + ") "@ + self.spec_required().spec_text()
    }

    /// The rendering: `width (<width>) <rule>`.
    pub fn to_string(&self) -> (r: String)
        ensures
            r@ == self.spec_text(),
    {
        let mut out = String::from_str("width (");
        push_decimal(&mut out, self.width as u64);
        out.append(") ");
        let rule = self.required.to_string();
        out.append(rule.as_str());
        assert(out@ =~= self.spec_text());
        out
    }
}

} // verus!
